use vstd::prelude::*;

use crate::errors::LooprError;
use crate::state::{is_subscription_step, with_thread, same_key, GlobalState, Key, SubscriptionPlan, UserSubscription};

verus! {

/// Seconds in a day.
pub const SECONDS_PER_DAY: i64 = 86400;

/// The records and keys the registration of a scheduler job touches.
#[derive(Debug, Clone)]
pub struct InitializePaymentThread {
    pub user_subscription: UserSubscription,
    pub subscription_plan: SubscriptionPlan,
    /// Address of `subscription_plan`.
    pub plan_address: Key,
    /// The signing user, who owns the subscription.
    pub user: Key,
    /// The scheduler job that will call the scheduled payment.
    pub thread: Key,
    pub global_state: GlobalState,
}

/// What the recurring-trigger collaborator is asked to run: a job named
/// `thread_id` that fires every `interval_days` days.
#[derive(Debug, Clone)]
pub struct PaymentSchedule {
    pub thread_id: String,
    pub interval_days: i64,
}

/// Whole days in a billing period (none for a period that is not positive).
pub open spec fn interval_days(period_duration: i64) -> i64 {
    if period_duration > 0 {
        (period_duration / SECONDS_PER_DAY) as i64
    } else {
        0
    }
}

/// The first check that registering a job fails, if any.
pub open spec fn failure(ctx: InitializePaymentThread) -> Option<LooprError> {
    if ctx.global_state.is_paused {
        Some(LooprError::ProgramPaused)
    } else if ctx.user_subscription.user@ != ctx.user@
        || ctx.user_subscription.subscription_plan@ != ctx.plan_address@ {
        Some(LooprError::Unauthorized)
    } else if !ctx.user_subscription.is_active {
        Some(LooprError::SubscriptionNotActive)
    } else {
        None
    }
}

/// The records after a successful registration.
pub open spec fn post(ctx: InitializePaymentThread, now: i64) -> InitializePaymentThread {
    InitializePaymentThread {
        user_subscription: with_thread(ctx.user_subscription, ctx.thread, now),
        ..ctx
    }
}

/// The schedule that a successful registration asks for.
pub open spec fn schedule(ctx: InitializePaymentThread, thread_id: String) -> PaymentSchedule {
    PaymentSchedule {
        thread_id,
        interval_days: interval_days(ctx.subscription_plan.period_duration),
    }
}

/// Registers the scheduler job `thread` on an active subscription of the
/// signing user and turns auto-pay on. The job is to fire once per whole day
/// count of the plan's period.
pub fn handler(ctx: &mut InitializePaymentThread, thread_id: String, now: i64) -> (r: Result<
    PaymentSchedule,
    LooprError,
>)
    ensures
        match failure(*old(ctx)) {
            Some(e) => r == Err::<PaymentSchedule, LooprError>(e) && *final(ctx) == *old(ctx),
            None => r == Ok::<PaymentSchedule, LooprError>(schedule(*old(ctx), thread_id))
                && *final(ctx) == post(*old(ctx), now),
        },
        is_subscription_step(old(ctx).user_subscription, final(ctx).user_subscription),
{
    if ctx.global_state.is_paused {
        return Err(LooprError::ProgramPaused);
    }
    if !same_key(&ctx.user_subscription.user, &ctx.user) || !same_key(
        &ctx.user_subscription.subscription_plan,
        &ctx.plan_address,
    ) {
        return Err(LooprError::Unauthorized);
    }
    if !ctx.user_subscription.is_active {
        return Err(LooprError::SubscriptionNotActive);
    }
    let period = ctx.subscription_plan.period_duration;
    let days: i64 = if period > 0 {
        period / SECONDS_PER_DAY
    } else {
        0
    };
    ctx.user_subscription.auto_pay_enabled = true;
    ctx.user_subscription.payment_thread = Some(ctx.thread);
    ctx.user_subscription.updated_at = now;
    assert(ctx.user_subscription == with_thread(old(ctx).user_subscription, ctx.thread, now));
    Ok(PaymentSchedule { thread_id, interval_days: days })
}

} // verus!
