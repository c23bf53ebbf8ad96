use vstd::prelude::*;

use crate::errors::LooprError;
use crate::state::{
    byte_len, fits_u64, text_byte_len, GlobalState, Key, SubscriptionPlan, MAX_DESCRIPTION_LEN,
    MAX_ID_LEN, MAX_NAME_LEN,
};

verus! {

/// The records and keys the creation of a plan touches.
#[derive(Debug, Clone)]
pub struct InitializeSubscriptionPlan {
    /// The signing authority, who will own the plan.
    pub authority: Key,
    pub global_state: GlobalState,
    /// Bump of the new plan's address.
    pub plan_bump: u8,
}

/// The first check that creating a plan fails, if any.
pub open spec fn failure(
    ctx: InitializeSubscriptionPlan,
    plan_id: Seq<char>,
    name: Seq<char>,
    description: Seq<char>,
    period_duration: i64,
) -> Option<LooprError> {
    if ctx.global_state.is_paused {
        Some(LooprError::ProgramPaused)
    } else if byte_len(plan_id) > MAX_ID_LEN {
        Some(LooprError::PlanIdTooLong)
    } else if byte_len(name) > MAX_NAME_LEN {
        Some(LooprError::PlanNameTooLong)
    } else if byte_len(description) > MAX_DESCRIPTION_LEN {
        Some(LooprError::PlanDescriptionTooLong)
    } else if period_duration <= 0 {
        Some(LooprError::InvalidPeriodDuration)
    } else if !fits_u64(ctx.global_state.total_plans + 1) {
        Some(LooprError::CounterOverflow)
    } else {
        None
    }
}

/// The plan that a successful creation makes.
pub open spec fn created(
    ctx: InitializeSubscriptionPlan,
    plan_id: String,
    name: String,
    description: String,
    price_per_period: u64,
    period_duration: i64,
    max_subscribers: Option<u32>,
    now: i64,
) -> SubscriptionPlan {
    SubscriptionPlan {
        authority: ctx.authority,
        plan_id,
        name,
        description,
        price_per_period,
        period_duration,
        max_subscribers,
        current_subscribers: 0,
        is_active: true,
        created_at: now,
        updated_at: now,
        bump: ctx.plan_bump,
    }
}

/// The records after a successful creation.
pub open spec fn post(ctx: InitializeSubscriptionPlan) -> InitializeSubscriptionPlan {
    InitializeSubscriptionPlan {
        global_state: GlobalState {
            total_plans: (ctx.global_state.total_plans + 1) as u64,
            ..ctx.global_state
        },
        ..ctx
    }
}

/// Creates a plan owned by the signing authority: active, with no subscriber
/// yet. The global plan counter grows by one.
pub fn handler(
    ctx: &mut InitializeSubscriptionPlan,
    plan_id: String,
    name: String,
    description: String,
    price_per_period: u64,
    period_duration: i64,
    max_subscribers: Option<u32>,
    now: i64,
) -> (r: Result<SubscriptionPlan, LooprError>)
    ensures
        match failure(*old(ctx), plan_id@, name@, description@, period_duration) {
            Some(e) => r == Err::<SubscriptionPlan, LooprError>(e) && *final(ctx) == *old(ctx),
            None => r == Ok::<SubscriptionPlan, LooprError>(
                created(
                    *old(ctx),
                    plan_id,
                    name,
                    description,
                    price_per_period,
                    period_duration,
                    max_subscribers,
                    now,
                ),
            ) && *final(ctx) == post(*old(ctx)),
        },
        r matches Ok(plan) ==> plan.current_subscribers == 0 && plan.is_active && plan.wf(),
{
    if ctx.global_state.is_paused {
        return Err(LooprError::ProgramPaused);
    }
    if text_byte_len(plan_id.as_str()) > MAX_ID_LEN {
        return Err(LooprError::PlanIdTooLong);
    }
    if text_byte_len(name.as_str()) > MAX_NAME_LEN {
        return Err(LooprError::PlanNameTooLong);
    }
    if text_byte_len(description.as_str()) > MAX_DESCRIPTION_LEN {
        return Err(LooprError::PlanDescriptionTooLong);
    }
    if period_duration <= 0 {
        return Err(LooprError::InvalidPeriodDuration);
    }
    let counted = ctx.global_state.record_plan_created();
    if counted.is_err() {
        return Err(LooprError::CounterOverflow);
    }
    Ok(
        SubscriptionPlan {
            authority: ctx.authority,
            plan_id,
            name,
            description,
            price_per_period,
            period_duration,
            max_subscribers,
            current_subscribers: 0,
            is_active: true,
            created_at: now,
            updated_at: now,
            bump: ctx.plan_bump,
        },
    )
}

} // verus!
