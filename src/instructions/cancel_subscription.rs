use vstd::prelude::*;

use crate::errors::LooprError;
use crate::state::{cancelled, is_subscription_step, same_key, GlobalState, Key, UserSubscription};

verus! {

/// The records and keys a cancellation touches.
#[derive(Debug, Clone)]
pub struct CancelSubscription {
    pub user_subscription: UserSubscription,
    /// The signing user.
    pub user: Key,
    pub global_state: GlobalState,
}

/// The first check that a cancellation fails, if any.
pub open spec fn failure(ctx: CancelSubscription) -> Option<LooprError> {
    if ctx.global_state.is_paused {
        Some(LooprError::ProgramPaused)
    } else if ctx.user_subscription.user@ != ctx.user@ {
        Some(LooprError::Unauthorized)
    } else {
        None
    }
}

/// The records after a successful cancellation.
pub open spec fn post(ctx: CancelSubscription, now: i64) -> CancelSubscription {
    CancelSubscription { user_subscription: cancelled(ctx.user_subscription, now), ..ctx }
}

/// The owning user ends a subscription: it becomes inactive and stays stored.
/// The plan's subscriber count, an enrolment count, does not go down.
pub fn handler(ctx: &mut CancelSubscription, now: i64) -> (r: Result<(), LooprError>)
    ensures
        match failure(*old(ctx)) {
            Some(e) => r == Err::<(), LooprError>(e) && *final(ctx) == *old(ctx),
            None => r is Ok && *final(ctx) == post(*old(ctx), now),
        },
        is_subscription_step(old(ctx).user_subscription, final(ctx).user_subscription),
{
    if ctx.global_state.is_paused {
        return Err(LooprError::ProgramPaused);
    }
    if !same_key(&ctx.user_subscription.user, &ctx.user) {
        return Err(LooprError::Unauthorized);
    }
    ctx.user_subscription.is_active = false;
    ctx.user_subscription.updated_at = now;
    assert(ctx.user_subscription == cancelled(old(ctx).user_subscription, now));
    Ok(())
}

} // verus!
