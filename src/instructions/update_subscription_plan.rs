use vstd::prelude::*;

use crate::errors::LooprError;
use crate::state::{
    byte_len, same_key, text_byte_len, GlobalState, Key, SubscriptionPlan, MAX_DESCRIPTION_LEN,
    MAX_NAME_LEN,
};

verus! {

/// The records and keys a plan update touches.
#[derive(Debug, Clone)]
pub struct UpdateSubscriptionPlan {
    pub subscription_plan: SubscriptionPlan,
    /// The signing authority.
    pub authority: Key,
    pub global_state: GlobalState,
}

/// The first check that a plan update fails, if any.
pub open spec fn failure(
    ctx: UpdateSubscriptionPlan,
    name: Option<String>,
    description: Option<String>,
    period_duration: Option<i64>,
    max_subscribers: Option<u32>,
) -> Option<LooprError> {
    if ctx.global_state.is_paused {
        Some(LooprError::ProgramPaused)
    } else if ctx.subscription_plan.authority@ != ctx.authority@ {
        Some(LooprError::Unauthorized)
    } else if name matches Some(n) && byte_len(n@) > MAX_NAME_LEN {
        Some(LooprError::PlanNameTooLong)
    } else if description matches Some(d) && byte_len(d@) > MAX_DESCRIPTION_LEN {
        Some(LooprError::PlanDescriptionTooLong)
    } else if period_duration matches Some(p) && p <= 0 {
        Some(LooprError::InvalidPeriodDuration)
    } else if max_subscribers matches Some(m) && m < ctx.subscription_plan.current_subscribers {
        Some(LooprError::MaxSubscribersReached)
    } else {
        None
    }
}

/// The records after a successful update.
pub open spec fn post(
    ctx: UpdateSubscriptionPlan,
    name: Option<String>,
    description: Option<String>,
    price_per_period: Option<u64>,
    period_duration: Option<i64>,
    max_subscribers: Option<u32>,
    is_active: Option<bool>,
    now: i64,
) -> UpdateSubscriptionPlan {
    UpdateSubscriptionPlan {
        subscription_plan: ctx.subscription_plan.updated(
            name,
            description,
            price_per_period,
            period_duration,
            max_subscribers,
            is_active,
            now,
        ),
        ..ctx
    }
}

/// The plan's authority changes the supplied fields of the plan; the others
/// keep their values and `updated_at` becomes `now`. A cap below the number
/// of subscribers already enrolled is refused.
pub fn handler(
    ctx: &mut UpdateSubscriptionPlan,
    name: Option<String>,
    description: Option<String>,
    price_per_period: Option<u64>,
    period_duration: Option<i64>,
    max_subscribers: Option<u32>,
    is_active: Option<bool>,
    now: i64,
) -> (r: Result<(), LooprError>)
    ensures
        match failure(*old(ctx), name, description, period_duration, max_subscribers) {
            Some(e) => r == Err::<(), LooprError>(e) && *final(ctx) == *old(ctx),
            None => r is Ok && *final(ctx) == post(
                *old(ctx),
                name,
                description,
                price_per_period,
                period_duration,
                max_subscribers,
                is_active,
                now,
            ),
        },
        old(ctx).subscription_plan.wf() ==> final(ctx).subscription_plan.wf(),
{
    if ctx.global_state.is_paused {
        return Err(LooprError::ProgramPaused);
    }
    if !same_key(&ctx.subscription_plan.authority, &ctx.authority) {
        return Err(LooprError::Unauthorized);
    }
    if let Some(n) = &name {
        if text_byte_len(n.as_str()) > MAX_NAME_LEN {
            return Err(LooprError::PlanNameTooLong);
        }
    }
    if let Some(d) = &description {
        if text_byte_len(d.as_str()) > MAX_DESCRIPTION_LEN {
            return Err(LooprError::PlanDescriptionTooLong);
        }
    }
    if let Some(p) = period_duration {
        if p <= 0 {
            return Err(LooprError::InvalidPeriodDuration);
        }
    }
    if let Some(m) = max_subscribers {
        if m < ctx.subscription_plan.current_subscribers {
            return Err(LooprError::MaxSubscribersReached);
        }
    }
    ctx.subscription_plan.update(
        name,
        description,
        price_per_period,
        period_duration,
        max_subscribers,
        is_active,
        now,
    );
    Ok(())
}

} // verus!
