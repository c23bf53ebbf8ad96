use vstd::prelude::*;

use crate::errors::LooprError;
use crate::state::{
    byte_len, fits_i64, fits_u64, text_byte_len, GlobalState, Key, SubscriptionPlan,
    UserSubscription, MAX_ID_LEN,
};

verus! {

/// The records and keys an enrolment touches.
#[derive(Debug, Clone)]
pub struct CreateSubscription {
    pub subscription_plan: SubscriptionPlan,
    /// Address of `subscription_plan`.
    pub plan_address: Key,
    /// The signing user, who enrols.
    pub user: Key,
    pub global_state: GlobalState,
    /// Bump of the new subscription's address.
    pub subscription_bump: u8,
}

/// The first check that enrolling at `now` fails, if any.
pub open spec fn failure(ctx: CreateSubscription, subscription_id: Seq<char>, now: i64) -> Option<
    LooprError,
> {
    if ctx.global_state.is_paused {
        Some(LooprError::ProgramPaused)
    } else if !ctx.subscription_plan.is_active {
        Some(LooprError::PlanNotActive)
    } else if byte_len(subscription_id) > MAX_ID_LEN {
        Some(LooprError::SubscriptionIdTooLong)
    } else if !ctx.subscription_plan.spec_has_room() {
        Some(LooprError::MaxSubscribersReached)
    } else if !(ctx.subscription_plan.current_subscribers + 1 <= u32::MAX && fits_u64(
        ctx.global_state.total_subscriptions + 1,
    ) && fits_i64(now + ctx.subscription_plan.period_duration)) {
        Some(LooprError::CounterOverflow)
    } else {
        None
    }
}

/// The records after a successful enrolment.
pub open spec fn post(ctx: CreateSubscription) -> CreateSubscription {
    CreateSubscription {
        subscription_plan: SubscriptionPlan {
            current_subscribers: (ctx.subscription_plan.current_subscribers + 1) as u32,
            ..ctx.subscription_plan
        },
        global_state: GlobalState {
            total_subscriptions: (ctx.global_state.total_subscriptions + 1) as u64,
            ..ctx.global_state
        },
        ..ctx
    }
}

/// The subscription a successful enrolment creates.
pub open spec fn created(ctx: CreateSubscription, subscription_id: String, now: i64) -> UserSubscription {
    UserSubscription {
        user: ctx.user,
        subscription_plan: ctx.plan_address,
        subscription_id,
        is_active: false,
        next_payment_due: (now + ctx.subscription_plan.period_duration) as i64,
        last_payment_date: None,
        auto_pay_enabled: false,
        payment_thread: None,
        total_payments_made: 0,
        created_at: now,
        updated_at: now,
        bump: ctx.subscription_bump,
    }
}

/// Enrols the user in an active plan that has room. The new subscription
/// waits for its first payment (inactive, no auto-pay) and is due one period
/// after `now`; the plan counts one more subscriber, for good, and so does the
/// global subscription counter.
pub fn handler(ctx: &mut CreateSubscription, subscription_id: String, now: i64) -> (r: Result<
    UserSubscription,
    LooprError,
>)
    ensures
        match failure(*old(ctx), subscription_id@, now) {
            Some(e) => r == Err::<UserSubscription, LooprError>(e) && *final(ctx) == *old(ctx),
            None => r == Ok::<UserSubscription, LooprError>(
                created(*old(ctx), subscription_id, now),
            ) && *final(ctx) == post(*old(ctx)),
        },
{
    if ctx.global_state.is_paused {
        return Err(LooprError::ProgramPaused);
    }
    if !ctx.subscription_plan.is_active {
        return Err(LooprError::PlanNotActive);
    }
    if text_byte_len(subscription_id.as_str()) > MAX_ID_LEN {
        return Err(LooprError::SubscriptionIdTooLong);
    }
    if !ctx.subscription_plan.has_room() {
        return Err(LooprError::MaxSubscribersReached);
    }
    let subscribers = match ctx.subscription_plan.current_subscribers.checked_add(1) {
        Some(n) => n,
        None => return Err(LooprError::CounterOverflow),
    };
    let due = match now.checked_add(ctx.subscription_plan.period_duration) {
        Some(t) => t,
        None => return Err(LooprError::CounterOverflow),
    };
    let counted = ctx.global_state.record_subscription_created();
    if counted.is_err() {
        return Err(LooprError::CounterOverflow);
    }
    ctx.subscription_plan.current_subscribers = subscribers;
    Ok(
        UserSubscription {
            user: ctx.user,
            subscription_plan: ctx.plan_address,
            subscription_id,
            is_active: false,
            next_payment_due: due,
            last_payment_date: None,
            auto_pay_enabled: false,
            payment_thread: None,
            total_payments_made: 0,
            created_at: now,
            updated_at: now,
            bump: ctx.subscription_bump,
        },
    )
}

} // verus!
