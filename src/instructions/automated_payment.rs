use vstd::prelude::*;

use crate::errors::LooprError;
use crate::state::{is_subscription_step, 
    same_key, GlobalState, Key, PaymentMethod, PaymentReceipt, PaymentRecord, PaymentStatus,
    SubscriptionPlan, Transfer, UserSubscription,
};

verus! {

/// The records and keys a scheduled payment touches.
#[derive(Debug, Clone)]
pub struct AutomatedPayment {
    pub user_subscription: UserSubscription,
    /// Address of `user_subscription`.
    pub subscription_address: Key,
    pub subscription_plan: SubscriptionPlan,
    /// Address of `subscription_plan`.
    pub plan_address: Key,
    /// The scheduler job that signs the call.
    pub thread: Key,
    pub global_state: GlobalState,
    /// Bump of the new payment record's address.
    pub record_bump: u8,
}

/// The first check that a scheduled payment at `now` fails, if any.
pub open spec fn failure(ctx: AutomatedPayment, now: i64) -> Option<LooprError> {
    let sub = ctx.user_subscription;
    let plan = ctx.subscription_plan;
    if ctx.global_state.is_paused {
        Some(LooprError::ProgramPaused)
    } else if !sub.is_active {
        Some(LooprError::SubscriptionNotActive)
    } else if !sub.auto_pay_enabled {
        Some(LooprError::AutoPayNotEnabled)
    } else if sub.subscription_plan@ != ctx.plan_address@ {
        Some(LooprError::Unauthorized)
    } else if !(sub.payment_thread matches Some(t) && t@ == ctx.thread@) {
        Some(LooprError::ThreadAuthorityMismatch)
    } else if now < sub.next_payment_due {
        Some(LooprError::PaymentNotDue)
    } else if !sub.spec_can_record_payment(now, plan.period_duration)
        || !ctx.global_state.spec_can_record_payment(plan.price_per_period) {
        Some(LooprError::CounterOverflow)
    } else {
        None
    }
}

/// The records after a successful scheduled payment.
pub open spec fn post(ctx: AutomatedPayment, now: i64) -> AutomatedPayment {
    AutomatedPayment {
        user_subscription: ctx.user_subscription.paid(now, ctx.subscription_plan.period_duration),
        global_state: ctx.global_state.with_payment(ctx.subscription_plan.price_per_period),
        ..ctx
    }
}

/// The record and the transfer of a successful scheduled payment.
pub open spec fn receipt(ctx: AutomatedPayment, now: i64) -> PaymentReceipt {
    let amount = ctx.subscription_plan.price_per_period;
    PaymentReceipt {
        record: PaymentRecord {
            user: ctx.user_subscription.user,
            subscription: ctx.subscription_address,
            amount,
            payment_date: now,
            transaction_signature: None,
            payment_method: PaymentMethod::AutoPay,
            status: PaymentStatus::Completed,
            bump: ctx.record_bump,
        },
        transfer: Transfer {
            from: ctx.user_subscription.user,
            to: ctx.subscription_plan.authority,
            amount,
        },
    }
}

/// Charges the plan's current price for an active auto-pay subscription, when
/// the scheduler job registered on it calls at or after the due date. An early
/// or repeated call fails with `PaymentNotDue` and changes nothing. The plan
/// need not be active: enrolled subscribers keep renewing.
pub fn handler(ctx: &mut AutomatedPayment, now: i64) -> (r: Result<PaymentReceipt, LooprError>)
    ensures
        match failure(*old(ctx), now) {
            Some(e) => r == Err::<PaymentReceipt, LooprError>(e) && *final(ctx) == *old(ctx),
            None => r == Ok::<PaymentReceipt, LooprError>(receipt(*old(ctx), now)) && *final(ctx)
                == post(*old(ctx), now),
        },
        is_subscription_step(old(ctx).user_subscription, final(ctx).user_subscription),
{
    if ctx.global_state.is_paused {
        return Err(LooprError::ProgramPaused);
    }
    if !ctx.user_subscription.is_active {
        return Err(LooprError::SubscriptionNotActive);
    }
    if !ctx.user_subscription.auto_pay_enabled {
        return Err(LooprError::AutoPayNotEnabled);
    }
    if !same_key(&ctx.user_subscription.subscription_plan, &ctx.plan_address) {
        return Err(LooprError::Unauthorized);
    }
    let thread_matches = match &ctx.user_subscription.payment_thread {
        Some(t) => same_key(t, &ctx.thread),
        None => false,
    };
    if !thread_matches {
        return Err(LooprError::ThreadAuthorityMismatch);
    }
    if now < ctx.user_subscription.next_payment_due {
        return Err(LooprError::PaymentNotDue);
    }
    let amount = ctx.subscription_plan.price_per_period;
    let period = ctx.subscription_plan.period_duration;
    if !ctx.user_subscription.can_record_payment(now, period)
        || !ctx.global_state.can_record_payment(amount) {
        return Err(LooprError::CounterOverflow);
    }
    ctx.user_subscription.record_payment(now, period);
    assert(ctx.user_subscription == old(ctx).user_subscription.paid(now, period));
    let counted = ctx.global_state.record_payment(amount);
    if counted.is_err() {
        return Err(LooprError::CounterOverflow);
    }
    let record = PaymentRecord {
        user: ctx.user_subscription.user,
        subscription: ctx.subscription_address,
        amount,
        payment_date: now,
        transaction_signature: None,
        payment_method: PaymentMethod::AutoPay,
        status: PaymentStatus::Completed,
        bump: ctx.record_bump,
    };
    let transfer = Transfer {
        from: ctx.user_subscription.user,
        to: ctx.subscription_plan.authority,
        amount,
    };
    Ok(PaymentReceipt { record, transfer })
}

/// A scheduled payment succeeds at most once per billing cycle: once a call at
/// `now` has succeeded, a second call on the resulting records at any time
/// before one more period has passed from `now` (the same `now` included) fails
/// with `PaymentNotDue`, provided the deployment is still running.
pub proof fn lemma_automated_payment_once_per_cycle(ctx: AutomatedPayment, now: i64, later: i64)
    requires
        ctx.subscription_plan.wf(),
        failure(ctx, now).is_none(),
        later < now + ctx.subscription_plan.period_duration,
    ensures
        failure(post(ctx, now), later) == Some(LooprError::PaymentNotDue),
{
}

} // verus!
