use vstd::prelude::*;

use crate::errors::LooprError;
use crate::state::{
    byte_len, same_text, text_byte_len, GlobalState, Key, PaymentIntent, PaymentIntentStatus,
    SubscriptionPlan, MAX_ID_LEN,
};

verus! {

/// The records and keys the creation of a payment intent reads.
#[derive(Debug, Clone)]
pub struct CreatePaymentIntent {
    pub subscription_plan: SubscriptionPlan,
    /// The signer that creates the intent.
    pub authority: Key,
    pub global_state: GlobalState,
    /// Bump of the new intent's address.
    pub intent_bump: u8,
}

/// The first check that creating an intent at `now` fails, if any.
pub open spec fn failure(
    ctx: CreatePaymentIntent,
    intent_id: Seq<char>,
    plan_id: Seq<char>,
    amount: u64,
    expires_at: i64,
    now: i64,
) -> Option<LooprError> {
    if ctx.global_state.is_paused {
        Some(LooprError::ProgramPaused)
    } else if !ctx.subscription_plan.is_active {
        Some(LooprError::PlanNotActive)
    } else if byte_len(intent_id) > MAX_ID_LEN {
        Some(LooprError::IntentIdTooLong)
    } else if plan_id != ctx.subscription_plan.plan_id@ {
        Some(LooprError::Unauthorized)
    } else if amount != ctx.subscription_plan.price_per_period {
        Some(LooprError::InvalidPaymentAmount)
    } else if expires_at <= now {
        Some(LooprError::PaymentIntentExpired)
    } else {
        None
    }
}

/// The intent that a successful creation makes.
pub open spec fn created(
    ctx: CreatePaymentIntent,
    intent_id: String,
    plan_id: String,
    amount: u64,
    expires_at: i64,
    now: i64,
) -> PaymentIntent {
    PaymentIntent {
        intent_id,
        plan_id,
        payer: None,
        amount,
        status: PaymentIntentStatus::Created,
        created_at: now,
        expires_at,
        fulfilled_at: None,
        subscription: None,
        bump: ctx.intent_bump,
    }
}

/// Creates a voucher for one subscribe-and-pay on an active plan, at the
/// plan's current price, valid until `expires_at` (which must lie after
/// `now`). No payer is bound yet. No record handed in changes.
pub fn handler(
    ctx: &CreatePaymentIntent,
    intent_id: String,
    plan_id: String,
    amount: u64,
    expires_at: i64,
    now: i64,
) -> (r: Result<PaymentIntent, LooprError>)
    ensures
        match failure(*ctx, intent_id@, plan_id@, amount, expires_at, now) {
            Some(e) => r == Err::<PaymentIntent, LooprError>(e),
            None => r == Ok::<PaymentIntent, LooprError>(
                created(*ctx, intent_id, plan_id, amount, expires_at, now),
            ),
        },
{
    if ctx.global_state.is_paused {
        return Err(LooprError::ProgramPaused);
    }
    if !ctx.subscription_plan.is_active {
        return Err(LooprError::PlanNotActive);
    }
    if text_byte_len(intent_id.as_str()) > MAX_ID_LEN {
        return Err(LooprError::IntentIdTooLong);
    }
    if !same_text(plan_id.as_str(), ctx.subscription_plan.plan_id.as_str()) {
        return Err(LooprError::Unauthorized);
    }
    if amount != ctx.subscription_plan.price_per_period {
        return Err(LooprError::InvalidPaymentAmount);
    }
    if expires_at <= now {
        return Err(LooprError::PaymentIntentExpired);
    }
    Ok(
        PaymentIntent {
            intent_id,
            plan_id,
            payer: None,
            amount,
            status: PaymentIntentStatus::Created,
            created_at: now,
            expires_at,
            fulfilled_at: None,
            subscription: None,
            bump: ctx.intent_bump,
        },
    )
}

} // verus!
