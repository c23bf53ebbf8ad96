use vstd::prelude::*;

use crate::errors::LooprError;
use crate::instructions::automated_payment::{self as scheduled, AutomatedPayment};
use crate::instructions::cancel_subscription::{self as cancel, CancelSubscription};
use crate::instructions::confirm_payment::{self as confirm, ConfirmPayment};
use crate::instructions::create_payment_intent::{self as intent, CreatePaymentIntent};
use crate::instructions::create_subscription::{self as enrol, CreateSubscription};
use crate::instructions::initialize_payment_thread::{
    self as thread, InitializePaymentThread, PaymentSchedule,
};
use crate::instructions::initialize_subscription_plan::{self as new_plan, InitializeSubscriptionPlan};
use crate::instructions::process_payment::{self as manual, ProcessPayment};
use crate::instructions::subscribe_and_pay::{self as voucher, SubscribeAndPay, SubscribeAndPayOutcome};
use crate::instructions::update_subscription_plan::{self as plan_update, UpdateSubscriptionPlan};
use crate::state::{GlobalState, Key, PaymentIntent, PaymentReceipt, SubscriptionPlan, UserSubscription};

verus! {

/// Initialize a new subscription plan.
pub fn initialize_subscription_plan(
    ctx: &mut InitializeSubscriptionPlan,
    plan_id: String,
    name: String,
    description: String,
    price_per_period: u64,
    period_duration: i64,
    max_subscribers: Option<u32>,
    now: i64,
) -> (r: Result<SubscriptionPlan, LooprError>)
    ensures
        match new_plan::failure(*old(ctx), plan_id@, name@, description@, period_duration) {
            Some(e) => r == Err::<SubscriptionPlan, LooprError>(e) && *final(ctx) == *old(ctx),
            None => r == Ok::<SubscriptionPlan, LooprError>(
                new_plan::created(
                    *old(ctx),
                    plan_id,
                    name,
                    description,
                    price_per_period,
                    period_duration,
                    max_subscribers,
                    now,
                ),
            ) && *final(ctx) == new_plan::post(*old(ctx)),
        },
        r matches Ok(plan) ==> plan.current_subscribers == 0 && plan.is_active && plan.wf(),
{
    new_plan::handler(
        ctx,
        plan_id,
        name,
        description,
        price_per_period,
        period_duration,
        max_subscribers,
        now,
    )
}

/// Create a new user subscription.
pub fn create_subscription(ctx: &mut CreateSubscription, subscription_id: String, now: i64) -> (r:
    Result<UserSubscription, LooprError>)
    ensures
        match enrol::failure(*old(ctx), subscription_id@, now) {
            Some(e) => r == Err::<UserSubscription, LooprError>(e) && *final(ctx) == *old(ctx),
            None => r == Ok::<UserSubscription, LooprError>(
                enrol::created(*old(ctx), subscription_id, now),
            ) && *final(ctx) == enrol::post(*old(ctx)),
        },
{
    enrol::handler(ctx, subscription_id, now)
}

/// Process a payment for a subscription.
pub fn process_payment(ctx: &mut ProcessPayment, amount: u64, now: i64) -> (r: Result<
    PaymentReceipt,
    LooprError,
>)
    ensures
        match manual::failure(*old(ctx), amount, now) {
            Some(e) => r == Err::<PaymentReceipt, LooprError>(e) && *final(ctx) == *old(ctx),
            None => r == Ok::<PaymentReceipt, LooprError>(manual::receipt(*old(ctx), amount, now))
                && *final(ctx) == manual::post(*old(ctx), amount, now),
        },
{
    manual::handler(ctx, amount, now)
}

/// Cancel a subscription.
pub fn cancel_subscription(ctx: &mut CancelSubscription, now: i64) -> (r: Result<(), LooprError>)
    ensures
        match cancel::failure(*old(ctx)) {
            Some(e) => r == Err::<(), LooprError>(e) && *final(ctx) == *old(ctx),
            None => r is Ok && *final(ctx) == cancel::post(*old(ctx), now),
        },
{
    cancel::handler(ctx, now)
}

/// Update subscription plan details.
pub fn update_subscription_plan(
    ctx: &mut UpdateSubscriptionPlan,
    name: Option<String>,
    description: Option<String>,
    price_per_period: Option<u64>,
    period_duration: Option<i64>,
    max_subscribers: Option<u32>,
    is_active: Option<bool>,
    now: i64,
) -> (r: Result<(), LooprError>)
    ensures
        match plan_update::failure(*old(ctx), name, description, period_duration, max_subscribers) {
            Some(e) => r == Err::<(), LooprError>(e) && *final(ctx) == *old(ctx),
            None => r is Ok && *final(ctx) == plan_update::post(
                *old(ctx),
                name,
                description,
                price_per_period,
                period_duration,
                max_subscribers,
                is_active,
                now,
            ),
        },
{
    plan_update::handler(
        ctx,
        name,
        description,
        price_per_period,
        period_duration,
        max_subscribers,
        is_active,
        now,
    )
}

/// Automated payment processing, called by the registered scheduler job.
pub fn automated_payment(ctx: &mut AutomatedPayment, now: i64) -> (r: Result<
    PaymentReceipt,
    LooprError,
>)
    ensures
        match scheduled::failure(*old(ctx), now) {
            Some(e) => r == Err::<PaymentReceipt, LooprError>(e) && *final(ctx) == *old(ctx),
            None => r == Ok::<PaymentReceipt, LooprError>(scheduled::receipt(*old(ctx), now))
                && *final(ctx) == scheduled::post(*old(ctx), now),
        },
{
    scheduled::handler(ctx, now)
}

/// Initialize payment thread for autopay.
pub fn initialize_payment_thread(ctx: &mut InitializePaymentThread, thread_id: String, now: i64) -> (r:
    Result<PaymentSchedule, LooprError>)
    ensures
        match thread::failure(*old(ctx)) {
            Some(e) => r == Err::<PaymentSchedule, LooprError>(e) && *final(ctx) == *old(ctx),
            None => r == Ok::<PaymentSchedule, LooprError>(thread::schedule(*old(ctx), thread_id))
                && *final(ctx) == thread::post(*old(ctx), now),
        },
{
    thread::handler(ctx, thread_id, now)
}

/// Initialize global state: running, every counter at zero.
pub fn initialize_global_state(authority: Key, bump: u8) -> (r: GlobalState)
    ensures
        r == (GlobalState {
            authority,
            is_paused: false,
            total_plans: 0,
            total_subscriptions: 0,
            total_payments_processed: 0,
            total_volume: 0,
            bump,
        }),
{
    GlobalState::new(authority, bump)
}

/// Create payment intent for QR code flow.
pub fn create_payment_intent(
    ctx: &CreatePaymentIntent,
    intent_id: String,
    plan_id: String,
    amount: u64,
    expires_at: i64,
    now: i64,
) -> (r: Result<PaymentIntent, LooprError>)
    ensures
        match intent::failure(*ctx, intent_id@, plan_id@, amount, expires_at, now) {
            Some(e) => r == Err::<PaymentIntent, LooprError>(e),
            None => r == Ok::<PaymentIntent, LooprError>(
                intent::created(*ctx, intent_id, plan_id, amount, expires_at, now),
            ),
        },
{
    intent::handler(ctx, intent_id, plan_id, amount, expires_at, now)
}

/// Subscribe and pay, completing the QR code flow.
pub fn subscribe_and_pay(ctx: &mut SubscribeAndPay, subscription_id: String, now: i64) -> (r:
    Result<SubscribeAndPayOutcome, LooprError>)
    ensures
        match voucher::failure(*old(ctx), subscription_id@, now) {
            Some(e) => r == Err::<SubscribeAndPayOutcome, LooprError>(e) && *final(ctx) == *old(
                ctx,
            ),
            None => r == Ok::<SubscribeAndPayOutcome, LooprError>(
                voucher::outcome(*old(ctx), subscription_id, now),
            ) && *final(ctx) == voucher::post(*old(ctx), now),
        },
{
    voucher::handler(ctx, subscription_id, now)
}

/// Confirm payment: record the settlement reference of a payment.
pub fn confirm_payment(ctx: &mut ConfirmPayment, transaction_reference: String) -> (r: Result<
    (),
    LooprError,
>)
    ensures
        match confirm::failure(*old(ctx), transaction_reference@) {
            Some(e) => r == Err::<(), LooprError>(e) && *final(ctx) == *old(ctx),
            None => r is Ok && *final(ctx) == confirm::post(*old(ctx), transaction_reference),
        },
{
    confirm::handler(ctx, transaction_reference)
}

/// The pause flag is the one circuit breaker: while the global state is
/// paused, every operation that writes a record fails with `ProgramPaused`,
/// whatever else it is handed (and so changes nothing).
pub proof fn lemma_pause_blocks_every_mutation(
    plan_ctx: InitializeSubscriptionPlan,
    plan_id: Seq<char>,
    name: Seq<char>,
    description: Seq<char>,
    period_duration: i64,
    enrol_ctx: CreateSubscription,
    subscription_id: Seq<char>,
    manual_ctx: ProcessPayment,
    amount: u64,
    scheduled_ctx: AutomatedPayment,
    cancel_ctx: CancelSubscription,
    update_ctx: UpdateSubscriptionPlan,
    new_name: Option<String>,
    new_description: Option<String>,
    new_period: Option<i64>,
    new_max: Option<u32>,
    thread_ctx: InitializePaymentThread,
    intent_ctx: CreatePaymentIntent,
    intent_id: Seq<char>,
    expires_at: i64,
    voucher_ctx: SubscribeAndPay,
    confirm_ctx: ConfirmPayment,
    reference: Seq<char>,
    now: i64,
)
    requires
        plan_ctx.global_state.is_paused,
        enrol_ctx.global_state.is_paused,
        manual_ctx.global_state.is_paused,
        scheduled_ctx.global_state.is_paused,
        cancel_ctx.global_state.is_paused,
        update_ctx.global_state.is_paused,
        thread_ctx.global_state.is_paused,
        intent_ctx.global_state.is_paused,
        voucher_ctx.global_state.is_paused,
        confirm_ctx.global_state.is_paused,
    ensures
        new_plan::failure(plan_ctx, plan_id, name, description, period_duration) == Some(
            LooprError::ProgramPaused,
        ),
        enrol::failure(enrol_ctx, subscription_id, now) == Some(LooprError::ProgramPaused),
        manual::failure(manual_ctx, amount, now) == Some(LooprError::ProgramPaused),
        scheduled::failure(scheduled_ctx, now) == Some(LooprError::ProgramPaused),
        cancel::failure(cancel_ctx) == Some(LooprError::ProgramPaused),
        plan_update::failure(update_ctx, new_name, new_description, new_period, new_max) == Some(
            LooprError::ProgramPaused,
        ),
        thread::failure(thread_ctx) == Some(LooprError::ProgramPaused),
        intent::failure(intent_ctx, intent_id, plan_id, amount, expires_at, now) == Some(
            LooprError::ProgramPaused,
        ),
        voucher::failure(voucher_ctx, subscription_id, now) == Some(LooprError::ProgramPaused),
        confirm::failure(confirm_ctx, reference) == Some(LooprError::ProgramPaused),
{
}

} // verus!
