use vstd::prelude::*;

use crate::errors::LooprError;
use crate::state::{
    byte_len, fits_u64, same_key, same_text, text_byte_len, GlobalState, Key, PaymentIntent,
    PaymentIntentStatus, PaymentMethod, PaymentReceipt, PaymentRecord, PaymentStatus,
    SubscriptionPlan, Transfer, UserSubscription, MAX_ID_LEN,
};

verus! {

/// The records and keys the fulfilment of a payment intent touches.
#[derive(Debug, Clone)]
pub struct SubscribeAndPay {
    pub payment_intent: PaymentIntent,
    pub subscription_plan: SubscriptionPlan,
    /// Address of `subscription_plan`.
    pub plan_address: Key,
    /// Address of the subscription to create.
    pub subscription_address: Key,
    /// The signing user, who pays.
    pub user: Key,
    pub global_state: GlobalState,
    /// Bump of the new subscription's address.
    pub subscription_bump: u8,
    /// Bump of the new payment record's address.
    pub record_bump: u8,
}

/// What a fulfilled intent produces.
#[derive(Debug, Clone)]
pub struct SubscribeAndPayOutcome {
    /// The new subscription, already active and paid once.
    pub subscription: UserSubscription,
    pub receipt: PaymentReceipt,
}

/// Whether every counter that a fulfilment at `now` raises stays in range.
pub open spec fn counters_fit(ctx: SubscribeAndPay, now: i64) -> bool {
    &&& ctx.subscription_plan.current_subscribers + 1 <= u32::MAX
    &&& fits_u64(ctx.global_state.total_subscriptions + 1)
    &&& ctx.global_state.spec_can_record_payment(ctx.payment_intent.amount)
    &&& crate::state::fits_i64(now + ctx.subscription_plan.period_duration)
}

/// The first check that fulfilling the intent at `now` fails, if any.
pub open spec fn failure(ctx: SubscribeAndPay, subscription_id: Seq<char>, now: i64) -> Option<
    LooprError,
> {
    if ctx.global_state.is_paused {
        Some(LooprError::ProgramPaused)
    } else if ctx.payment_intent.status != PaymentIntentStatus::Created {
        Some(LooprError::InvalidPaymentIntentStatus)
    } else if ctx.payment_intent.plan_id@ != ctx.subscription_plan.plan_id@ {
        Some(LooprError::Unauthorized)
    } else if !ctx.subscription_plan.is_active {
        Some(LooprError::PlanNotActive)
    } else if byte_len(subscription_id) > MAX_ID_LEN {
        Some(LooprError::SubscriptionIdTooLong)
    } else if ctx.payment_intent.spec_is_expired(now) {
        Some(LooprError::PaymentIntentExpired)
    } else if !ctx.subscription_plan.spec_has_room() {
        Some(LooprError::MaxSubscribersReached)
    } else if !counters_fit(ctx, now) {
        Some(LooprError::CounterOverflow)
    } else {
        None
    }
}

/// The records after a successful fulfilment.
pub open spec fn post(ctx: SubscribeAndPay, now: i64) -> SubscribeAndPay {
    SubscribeAndPay {
        payment_intent: PaymentIntent {
            payer: Some(ctx.user),
            status: PaymentIntentStatus::Completed,
            fulfilled_at: Some(now),
            subscription: Some(ctx.subscription_address),
            ..ctx.payment_intent
        },
        subscription_plan: SubscriptionPlan {
            current_subscribers: (ctx.subscription_plan.current_subscribers + 1) as u32,
            updated_at: now,
            ..ctx.subscription_plan
        },
        global_state: GlobalState {
            total_subscriptions: (ctx.global_state.total_subscriptions + 1) as u64,
            ..ctx.global_state.with_payment(ctx.payment_intent.amount)
        },
        ..ctx
    }
}

/// The subscription, record and transfer of a successful fulfilment.
pub open spec fn outcome(ctx: SubscribeAndPay, subscription_id: String, now: i64) -> SubscribeAndPayOutcome {
    let amount = ctx.payment_intent.amount;
    SubscribeAndPayOutcome {
        subscription: UserSubscription {
            user: ctx.user,
            subscription_plan: ctx.plan_address,
            subscription_id,
            is_active: true,
            next_payment_due: (now + ctx.subscription_plan.period_duration) as i64,
            last_payment_date: Some(now),
            auto_pay_enabled: true,
            payment_thread: None,
            total_payments_made: 1,
            created_at: now,
            updated_at: now,
            bump: ctx.subscription_bump,
        },
        receipt: PaymentReceipt {
            record: PaymentRecord {
                user: ctx.user,
                subscription: ctx.subscription_address,
                amount,
                payment_date: now,
                transaction_signature: None,
                payment_method: PaymentMethod::QRCode,
                status: PaymentStatus::Completed,
                bump: ctx.record_bump,
            },
            transfer: Transfer { from: ctx.user, to: ctx.subscription_plan.authority, amount },
        },
    }
}

/// Fulfils a payment intent in one step: the user pays the intent's amount to
/// the plan's authority and gets a new subscription that is already active,
/// paid once and on auto-pay. The intent becomes `Completed` and is bound to
/// the payer and the subscription; the plan counts one more subscriber and the
/// global subscription and payment counters grow. An intent past its expiry
/// stays `Created` for good.
pub fn handler(ctx: &mut SubscribeAndPay, subscription_id: String, now: i64) -> (r: Result<
    SubscribeAndPayOutcome,
    LooprError,
>)
    ensures
        match failure(*old(ctx), subscription_id@, now) {
            Some(e) => r == Err::<SubscribeAndPayOutcome, LooprError>(e) && *final(ctx) == *old(
                ctx,
            ),
            None => r == Ok::<SubscribeAndPayOutcome, LooprError>(
                outcome(*old(ctx), subscription_id, now),
            ) && *final(ctx) == post(*old(ctx), now),
        },
{
    if ctx.global_state.is_paused {
        return Err(LooprError::ProgramPaused);
    }
    if ctx.payment_intent.status != PaymentIntentStatus::Created {
        return Err(LooprError::InvalidPaymentIntentStatus);
    }
    if !same_text(ctx.payment_intent.plan_id.as_str(), ctx.subscription_plan.plan_id.as_str()) {
        return Err(LooprError::Unauthorized);
    }
    if !ctx.subscription_plan.is_active {
        return Err(LooprError::PlanNotActive);
    }
    if text_byte_len(subscription_id.as_str()) > MAX_ID_LEN {
        return Err(LooprError::SubscriptionIdTooLong);
    }
    if ctx.payment_intent.is_expired(now) {
        return Err(LooprError::PaymentIntentExpired);
    }
    if !ctx.subscription_plan.has_room() {
        return Err(LooprError::MaxSubscribersReached);
    }
    let amount = ctx.payment_intent.amount;
    let period = ctx.subscription_plan.period_duration;
    let subscribers = match ctx.subscription_plan.current_subscribers.checked_add(1) {
        Some(n) => n,
        None => return Err(LooprError::CounterOverflow),
    };
    let subscriptions = match ctx.global_state.total_subscriptions.checked_add(1) {
        Some(n) => n,
        None => return Err(LooprError::CounterOverflow),
    };
    let due = match now.checked_add(period) {
        Some(t) => t,
        None => return Err(LooprError::CounterOverflow),
    };
    if !ctx.global_state.can_record_payment(amount) {
        return Err(LooprError::CounterOverflow);
    }
    let subscription = UserSubscription {
        user: ctx.user,
        subscription_plan: ctx.plan_address,
        subscription_id,
        is_active: true,
        next_payment_due: due,
        last_payment_date: Some(now),
        auto_pay_enabled: true,
        payment_thread: None,
        total_payments_made: 1,
        created_at: now,
        updated_at: now,
        bump: ctx.subscription_bump,
    };
    ctx.payment_intent.payer = Some(ctx.user);
    ctx.payment_intent.status = PaymentIntentStatus::Completed;
    ctx.payment_intent.fulfilled_at = Some(now);
    ctx.payment_intent.subscription = Some(ctx.subscription_address);
    ctx.subscription_plan.current_subscribers = subscribers;
    ctx.subscription_plan.updated_at = now;
    ctx.global_state.total_subscriptions = subscriptions;
    let counted = ctx.global_state.record_payment(amount);
    if counted.is_err() {
        return Err(LooprError::CounterOverflow);
    }
    let record = PaymentRecord {
        user: ctx.user,
        subscription: ctx.subscription_address,
        amount,
        payment_date: now,
        transaction_signature: None,
        payment_method: PaymentMethod::QRCode,
        status: PaymentStatus::Completed,
        bump: ctx.record_bump,
    };
    let transfer = Transfer { from: ctx.user, to: ctx.subscription_plan.authority, amount };
    Ok(SubscribeAndPayOutcome { subscription, receipt: PaymentReceipt { record, transfer } })
}

} // verus!
