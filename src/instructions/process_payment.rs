use vstd::prelude::*;

use crate::errors::LooprError;
use crate::state::{is_subscription_step, 
    same_key, GlobalState, Key, PaymentMethod, PaymentReceipt, PaymentRecord, PaymentStatus,
    SubscriptionPlan, Transfer, UserSubscription,
};

verus! {

/// The records and keys a manual payment touches.
#[derive(Debug, Clone)]
pub struct ProcessPayment {
    pub user_subscription: UserSubscription,
    /// Address of `user_subscription`.
    pub subscription_address: Key,
    pub subscription_plan: SubscriptionPlan,
    /// Address of `subscription_plan`.
    pub plan_address: Key,
    /// The signing user.
    pub user: Key,
    pub global_state: GlobalState,
    /// Bump of the new payment record's address.
    pub record_bump: u8,
}

/// The first check that a manual payment of `amount` at `now` fails, if any.
pub open spec fn failure(ctx: ProcessPayment, amount: u64, now: i64) -> Option<LooprError> {
    if ctx.global_state.is_paused {
        Some(LooprError::ProgramPaused)
    } else if ctx.user_subscription.user@ != ctx.user@
        || ctx.user_subscription.subscription_plan@ != ctx.plan_address@ {
        Some(LooprError::Unauthorized)
    } else if amount != ctx.subscription_plan.price_per_period {
        Some(LooprError::InvalidPaymentAmount)
    } else if !ctx.user_subscription.spec_can_record_payment(
        now,
        ctx.subscription_plan.period_duration,
    ) || !ctx.global_state.spec_can_record_payment(amount) {
        Some(LooprError::CounterOverflow)
    } else {
        None
    }
}

/// The records after a successful manual payment.
pub open spec fn post(ctx: ProcessPayment, amount: u64, now: i64) -> ProcessPayment {
    ProcessPayment {
        user_subscription: ctx.user_subscription.paid(now, ctx.subscription_plan.period_duration),
        global_state: ctx.global_state.with_payment(amount),
        ..ctx
    }
}

/// The record and the transfer of a successful manual payment.
pub open spec fn receipt(ctx: ProcessPayment, amount: u64, now: i64) -> PaymentReceipt {
    PaymentReceipt {
        record: PaymentRecord {
            user: ctx.user,
            subscription: ctx.subscription_address,
            amount,
            payment_date: now,
            transaction_signature: None,
            payment_method: PaymentMethod::Manual,
            status: PaymentStatus::Completed,
            bump: ctx.record_bump,
        },
        transfer: Transfer { from: ctx.user, to: ctx.subscription_plan.authority, amount },
    }
}

/// Pays one period of a subscription by hand, at any time: the amount must be
/// the plan's current price. The subscription becomes active, was last paid at
/// `now` and is next due one period after `now`; one `Manual` record is made
/// and the global payment counters grow. The plan need not be active.
pub fn handler(ctx: &mut ProcessPayment, amount: u64, now: i64) -> (r: Result<
    PaymentReceipt,
    LooprError,
>)
    ensures
        match failure(*old(ctx), amount, now) {
            Some(e) => r == Err::<PaymentReceipt, LooprError>(e) && *final(ctx) == *old(ctx),
            None => r == Ok::<PaymentReceipt, LooprError>(receipt(*old(ctx), amount, now))
                && *final(ctx) == post(*old(ctx), amount, now),
        },
        is_subscription_step(old(ctx).user_subscription, final(ctx).user_subscription),
{
    if ctx.global_state.is_paused {
        return Err(LooprError::ProgramPaused);
    }
    if !same_key(&ctx.user_subscription.user, &ctx.user) || !same_key(
        &ctx.user_subscription.subscription_plan,
        &ctx.plan_address,
    ) {
        return Err(LooprError::Unauthorized);
    }
    if amount != ctx.subscription_plan.price_per_period {
        return Err(LooprError::InvalidPaymentAmount);
    }
    let period = ctx.subscription_plan.period_duration;
    if !ctx.user_subscription.can_record_payment(now, period)
        || !ctx.global_state.can_record_payment(amount) {
        return Err(LooprError::CounterOverflow);
    }
    ctx.user_subscription.record_payment(now, period);
    assert(ctx.user_subscription == old(ctx).user_subscription.paid(now, period));
    let counted = ctx.global_state.record_payment(amount);
    if counted.is_err() {
        return Err(LooprError::CounterOverflow);
    }
    let record = PaymentRecord {
        user: ctx.user,
        subscription: ctx.subscription_address,
        amount,
        payment_date: now,
        transaction_signature: None,
        payment_method: PaymentMethod::Manual,
        status: PaymentStatus::Completed,
        bump: ctx.record_bump,
    };
    let transfer = Transfer { from: ctx.user, to: ctx.subscription_plan.authority, amount };
    Ok(PaymentReceipt { record, transfer })
}

} // verus!
