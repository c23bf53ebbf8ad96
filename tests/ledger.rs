use loopr_subscription::instructions::automated_payment::AutomatedPayment;
use loopr_subscription::instructions::cancel_subscription::CancelSubscription;
use loopr_subscription::instructions::confirm_payment::ConfirmPayment;
use loopr_subscription::instructions::create_payment_intent::CreatePaymentIntent;
use loopr_subscription::instructions::create_subscription::CreateSubscription;
use loopr_subscription::instructions::initialize_payment_thread::InitializePaymentThread;
use loopr_subscription::instructions::initialize_subscription_plan::InitializeSubscriptionPlan;
use loopr_subscription::instructions::process_payment::ProcessPayment;
use loopr_subscription::instructions::subscribe_and_pay::SubscribeAndPay;
use loopr_subscription::instructions::update_subscription_plan::UpdateSubscriptionPlan;
use loopr_subscription::loopr_subscription::{
    automated_payment, cancel_subscription, confirm_payment, create_payment_intent,
    create_subscription, initialize_global_state, initialize_payment_thread,
    initialize_subscription_plan, process_payment, subscribe_and_pay, update_subscription_plan,
};
use loopr_subscription::state::{
    GlobalState, Key, PaymentIntentStatus, PaymentMethod, PaymentStatus, SubscriptionPlan,
    UserSubscription,
};
use loopr_subscription::LooprError;

const ADMIN: Key = [1; 32];
const AUTHORITY: Key = [2; 32];
const USER: Key = [3; 32];
const OTHER: Key = [4; 32];
const PLAN_ADDR: Key = [5; 32];
const SUB_ADDR: Key = [6; 32];
const THREAD: Key = [7; 32];
const T: i64 = 1_700_000_000;
const DAY: i64 = 86400;

fn global() -> GlobalState {
    initialize_global_state(ADMIN, 254)
}

fn make_plan(g: &mut GlobalState, price: u64, period: i64, max: Option<u32>) -> SubscriptionPlan {
    let mut ctx = InitializeSubscriptionPlan { authority: AUTHORITY, global_state: g.clone(), plan_bump: 250 };
    let plan = initialize_subscription_plan(
        &mut ctx,
        "basic".to_string(),
        "Basic".to_string(),
        "The basic plan".to_string(),
        price,
        period,
        max,
        T,
    )
    .unwrap();
    *g = ctx.global_state;
    plan
}

fn subscribe(g: &mut GlobalState, plan: &mut SubscriptionPlan, user: Key, now: i64) -> Result<UserSubscription, LooprError> {
    let mut ctx = CreateSubscription {
        subscription_plan: plan.clone(),
        plan_address: PLAN_ADDR,
        user,
        global_state: g.clone(),
        subscription_bump: 253,
    };
    let r = create_subscription(&mut ctx, "sub-1".to_string(), now);
    *plan = ctx.subscription_plan;
    *g = ctx.global_state;
    r
}

fn manual_ctx(g: &GlobalState, plan: &SubscriptionPlan, sub: &UserSubscription) -> ProcessPayment {
    ProcessPayment {
        user_subscription: sub.clone(),
        subscription_address: SUB_ADDR,
        subscription_plan: plan.clone(),
        plan_address: PLAN_ADDR,
        user: USER,
        global_state: g.clone(),
        record_bump: 252,
    }
}

fn auto_ctx(g: &GlobalState, plan: &SubscriptionPlan, sub: &UserSubscription) -> AutomatedPayment {
    AutomatedPayment {
        user_subscription: sub.clone(),
        subscription_address: SUB_ADDR,
        subscription_plan: plan.clone(),
        plan_address: PLAN_ADDR,
        thread: THREAD,
        global_state: g.clone(),
        record_bump: 251,
    }
}

fn intent_ctx(g: &GlobalState, plan: &SubscriptionPlan) -> CreatePaymentIntent {
    CreatePaymentIntent { subscription_plan: plan.clone(), authority: AUTHORITY, global_state: g.clone(), intent_bump: 249 }
}

fn voucher_ctx(g: &GlobalState, plan: &SubscriptionPlan, intent: &loopr_subscription::state::PaymentIntent) -> SubscribeAndPay {
    SubscribeAndPay {
        payment_intent: intent.clone(),
        subscription_plan: plan.clone(),
        plan_address: PLAN_ADDR,
        subscription_address: SUB_ADDR,
        user: USER,
        global_state: g.clone(),
        subscription_bump: 248,
        record_bump: 247,
    }
}

#[test]
fn new_plan_is_active_and_empty() {
    let mut g = global();
    let plan = make_plan(&mut g, 1000, DAY, Some(10));
    assert_eq!(plan.current_subscribers, 0);
    assert!(plan.is_active);
    assert_eq!(plan.get_plan_id(), "basic");
    assert_eq!(plan.get_name(), "Basic");
    assert_eq!(plan.get_description(), "The basic plan");
    assert_eq!(plan.authority, AUTHORITY);
    assert_eq!(plan.created_at, T);
    assert_eq!(g.total_plans, 1);
}

#[test]
fn plan_creation_validates_fields() {
    let mut ctx = InitializeSubscriptionPlan { authority: AUTHORITY, global_state: global(), plan_bump: 1 };
    let long_id = "p".repeat(65);
    let r = initialize_subscription_plan(&mut ctx, long_id, "n".into(), "d".into(), 1, DAY, None, T);
    assert_eq!(r.unwrap_err(), LooprError::PlanIdTooLong);
    let r = initialize_subscription_plan(&mut ctx, "p".repeat(64), "n".repeat(129), "d".into(), 1, DAY, None, T);
    assert_eq!(r.unwrap_err(), LooprError::PlanNameTooLong);
    let r = initialize_subscription_plan(&mut ctx, "p".into(), "n".into(), "d".repeat(257), 1, DAY, None, T);
    assert_eq!(r.unwrap_err(), LooprError::PlanDescriptionTooLong);
    let r = initialize_subscription_plan(&mut ctx, "p".into(), "n".into(), "d".into(), 1, 0, None, T);
    assert_eq!(r.unwrap_err(), LooprError::InvalidPeriodDuration);
    assert_eq!(ctx.global_state.total_plans, 0);
    // "é" is two bytes: 32 of them fill 64 bytes, 33 do not.
    let r = initialize_subscription_plan(&mut ctx, "é".repeat(33), "n".into(), "d".into(), 1, DAY, None, T);
    assert_eq!(r.unwrap_err(), LooprError::PlanIdTooLong);
    let r = initialize_subscription_plan(&mut ctx, "é".repeat(32), "n".repeat(128), "d".repeat(256), 1, DAY, None, T);
    assert!(r.is_ok());
    assert_eq!(ctx.global_state.total_plans, 1);
}

#[test]
fn plan_counter_overflow_is_an_error() {
    let mut g = global();
    g.total_plans = u64::MAX;
    let mut ctx = InitializeSubscriptionPlan { authority: AUTHORITY, global_state: g, plan_bump: 1 };
    let r = initialize_subscription_plan(&mut ctx, "p".into(), "n".into(), "d".into(), 1, DAY, None, T);
    assert_eq!(r.unwrap_err(), LooprError::CounterOverflow);
    assert_eq!(ctx.global_state.total_plans, u64::MAX);
}

#[test]
fn manual_payment_scenario() {
    let mut g = global();
    let mut plan = make_plan(&mut g, 1000, 86400, None);
    let sub = subscribe(&mut g, &mut plan, USER, T).unwrap();
    assert!(!sub.is_active);
    assert_eq!(sub.next_payment_due, T + 86400);
    assert_eq!(sub.total_payments_made, 0);
    assert_eq!(plan.current_subscribers, 1);
    assert_eq!(g.total_subscriptions, 1);

    let mut ctx = manual_ctx(&g, &plan, &sub);
    let receipt = process_payment(&mut ctx, 1000, T + 10).unwrap();
    assert!(ctx.user_subscription.is_active);
    assert_eq!(ctx.user_subscription.last_payment_date, Some(T + 10));
    assert_eq!(ctx.user_subscription.next_payment_due, T + 10 + 86400);
    assert_eq!(ctx.user_subscription.total_payments_made, 1);
    assert_eq!(receipt.record.amount, 1000);
    assert_eq!(receipt.record.payment_method, PaymentMethod::Manual);
    assert_eq!(receipt.record.status, PaymentStatus::Completed);
    assert_eq!(receipt.record.payment_date, T + 10);
    assert_eq!(receipt.record.subscription, SUB_ADDR);
    assert_eq!(receipt.record.transaction_signature, None);
    assert_eq!(receipt.transfer.from, USER);
    assert_eq!(receipt.transfer.to, AUTHORITY);
    assert_eq!(receipt.transfer.amount, 1000);
    assert_eq!(ctx.global_state.total_payments_processed, 1);
    assert_eq!(ctx.global_state.total_volume, 1000);

    // A second manual payment right after also succeeds.
    let receipt = process_payment(&mut ctx, 1000, T + 11).unwrap();
    assert_eq!(receipt.record.payment_date, T + 11);
    assert_eq!(ctx.user_subscription.next_payment_due, T + 11 + 86400);
    assert_eq!(ctx.user_subscription.total_payments_made, 2);
    assert_eq!(ctx.global_state.total_payments_processed, 2);
    assert_eq!(ctx.global_state.total_volume, 2000);
}

#[test]
fn wrong_amount_changes_nothing() {
    let mut g = global();
    let mut plan = make_plan(&mut g, 1000, DAY, None);
    let sub = subscribe(&mut g, &mut plan, USER, T).unwrap();
    let mut ctx = manual_ctx(&g, &plan, &sub);
    let r = process_payment(&mut ctx, 999, T + 5);
    assert_eq!(r.unwrap_err(), LooprError::InvalidPaymentAmount);
    assert!(!ctx.user_subscription.is_active);
    assert_eq!(ctx.user_subscription.total_payments_made, 0);
    assert_eq!(ctx.user_subscription.next_payment_due, T + DAY);
    assert_eq!(ctx.global_state.total_payments_processed, 0);
    assert_eq!(ctx.global_state.total_volume, 0);
    let r = process_payment(&mut ctx, 1001, T + 5);
    assert_eq!(r.unwrap_err(), LooprError::InvalidPaymentAmount);
}

#[test]
fn manual_payment_by_another_user_is_refused() {
    let mut g = global();
    let mut plan = make_plan(&mut g, 1000, DAY, None);
    let sub = subscribe(&mut g, &mut plan, USER, T).unwrap();
    let mut ctx = manual_ctx(&g, &plan, &sub);
    ctx.user = OTHER;
    assert_eq!(process_payment(&mut ctx, 1000, T).unwrap_err(), LooprError::Unauthorized);
    let mut ctx = manual_ctx(&g, &plan, &sub);
    ctx.plan_address = OTHER;
    assert_eq!(process_payment(&mut ctx, 1000, T).unwrap_err(), LooprError::Unauthorized);
}

#[test]
fn manual_payment_counter_overflow() {
    let mut g = global();
    let mut plan = make_plan(&mut g, 1000, DAY, None);
    let sub = subscribe(&mut g, &mut plan, USER, T).unwrap();
    let mut ctx = manual_ctx(&g, &plan, &sub);
    ctx.global_state.total_volume = u64::MAX - 999;
    assert_eq!(process_payment(&mut ctx, 1000, T).unwrap_err(), LooprError::CounterOverflow);
    assert_eq!(ctx.user_subscription.total_payments_made, 0);
    let mut ctx = manual_ctx(&g, &plan, &sub);
    assert_eq!(process_payment(&mut ctx, 1000, i64::MAX - 10).unwrap_err(), LooprError::CounterOverflow);
}

#[test]
fn intent_expiry_scenario() {
    let mut g = global();
    let plan = make_plan(&mut g, 500, DAY, None);
    let intent = create_payment_intent(&intent_ctx(&g, &plan), "intent-1".into(), "basic".into(), 500, T + 60, T).unwrap();
    assert_eq!(intent.status, PaymentIntentStatus::Created);
    assert_eq!(intent.payer, None);
    assert_eq!(intent.get_intent_id(), "intent-1");
    assert_eq!(intent.get_plan_id(), "basic");
    let mut ctx = voucher_ctx(&g, &plan, &intent);
    let r = subscribe_and_pay(&mut ctx, "sub-q".into(), T + 61);
    assert_eq!(r.unwrap_err(), LooprError::PaymentIntentExpired);
    assert_eq!(ctx.payment_intent.status, PaymentIntentStatus::Created);
    assert_eq!(ctx.payment_intent.payer, None);
    assert_eq!(ctx.subscription_plan.current_subscribers, 0);
    assert_eq!(ctx.global_state.total_subscriptions, 0);
}

#[test]
fn intent_fulfilment_creates_active_subscription() {
    let mut g = global();
    let plan = make_plan(&mut g, 500, DAY, None);
    let intent = create_payment_intent(&intent_ctx(&g, &plan), "intent-1".into(), "basic".into(), 500, T + 60, T).unwrap();
    let mut ctx = voucher_ctx(&g, &plan, &intent);
    let out = subscribe_and_pay(&mut ctx, "sub-q".into(), T + 60).unwrap();
    let sub = &out.subscription;
    assert!(sub.is_active);
    assert!(sub.auto_pay_enabled);
    assert_eq!(sub.payment_thread, None);
    assert_eq!(sub.total_payments_made, 1);
    assert_eq!(sub.last_payment_date, Some(T + 60));
    assert_eq!(sub.next_payment_due, T + 60 + DAY);
    assert_eq!(sub.get_subscription_id(), "sub-q");
    assert_eq!(sub.subscription_plan, PLAN_ADDR);
    assert_eq!(out.receipt.record.payment_method, PaymentMethod::QRCode);
    assert_eq!(out.receipt.transfer.amount, 500);
    assert_eq!(out.receipt.transfer.to, AUTHORITY);
    assert_eq!(ctx.payment_intent.status, PaymentIntentStatus::Completed);
    assert_eq!(ctx.payment_intent.payer, Some(USER));
    assert_eq!(ctx.payment_intent.fulfilled_at, Some(T + 60));
    assert_eq!(ctx.payment_intent.subscription, Some(SUB_ADDR));
    assert_eq!(ctx.subscription_plan.current_subscribers, 1);
    assert_eq!(ctx.global_state.total_subscriptions, 1);
    assert_eq!(ctx.global_state.total_payments_processed, 1);
    assert_eq!(ctx.global_state.total_volume, 500);
    // The intent is single-use.
    let r = subscribe_and_pay(&mut ctx, "sub-r".into(), T + 60);
    assert_eq!(r.unwrap_err(), LooprError::InvalidPaymentIntentStatus);
}

#[test]
fn intent_creation_checks() {
    let mut g = global();
    let mut plan = make_plan(&mut g, 500, DAY, None);
    let c = intent_ctx(&g, &plan);
    assert_eq!(create_payment_intent(&c, "i".into(), "basic".into(), 499, T + 60, T).unwrap_err(), LooprError::InvalidPaymentAmount);
    assert_eq!(create_payment_intent(&c, "i".into(), "basic".into(), 500, T, T).unwrap_err(), LooprError::PaymentIntentExpired);
    assert_eq!(create_payment_intent(&c, "i".repeat(65), "basic".into(), 500, T + 1, T).unwrap_err(), LooprError::IntentIdTooLong);
    assert_eq!(create_payment_intent(&c, "i".into(), "other".into(), 500, T + 1, T).unwrap_err(), LooprError::Unauthorized);
    plan.deactivate(T);
    let c = intent_ctx(&g, &plan);
    assert_eq!(create_payment_intent(&c, "i".into(), "basic".into(), 500, T + 1, T).unwrap_err(), LooprError::PlanNotActive);
}

#[test]
fn subscriber_cap_scenario() {
    let mut g = global();
    let mut plan = make_plan(&mut g, 1000, DAY, Some(1));
    assert!(subscribe(&mut g, &mut plan, USER, T).is_ok());
    let r = subscribe(&mut g, &mut plan, OTHER, T);
    assert_eq!(r.unwrap_err(), LooprError::MaxSubscribersReached);
    assert_eq!(plan.current_subscribers, 1);
    assert_eq!(g.total_subscriptions, 1);
}

#[test]
fn voucher_respects_subscriber_cap() {
    let mut g = global();
    let mut plan = make_plan(&mut g, 500, DAY, Some(1));
    subscribe(&mut g, &mut plan, OTHER, T).unwrap();
    let intent = create_payment_intent(&intent_ctx(&g, &plan), "i".into(), "basic".into(), 500, T + 60, T).unwrap();
    let mut ctx = voucher_ctx(&g, &plan, &intent);
    assert_eq!(subscribe_and_pay(&mut ctx, "s".into(), T).unwrap_err(), LooprError::MaxSubscribersReached);
    assert_eq!(ctx.payment_intent.status, PaymentIntentStatus::Created);
}

#[test]
fn inactive_plan_refuses_enrolment() {
    let mut g = global();
    let mut plan = make_plan(&mut g, 1000, DAY, None);
    plan.deactivate(T + 1);
    assert!(!plan.is_active);
    assert_eq!(plan.updated_at, T + 1);
    assert_eq!(subscribe(&mut g, &mut plan, USER, T).unwrap_err(), LooprError::PlanNotActive);
    plan.activate(T + 2);
    assert!(subscribe(&mut g, &mut plan, USER, T).is_ok());
}

#[test]
fn subscription_id_length_is_checked() {
    let mut g = global();
    let plan = make_plan(&mut g, 1000, DAY, None);
    let mut ctx = CreateSubscription { subscription_plan: plan, plan_address: PLAN_ADDR, user: USER, global_state: g, subscription_bump: 1 };
    assert_eq!(create_subscription(&mut ctx, "s".repeat(65), T).unwrap_err(), LooprError::SubscriptionIdTooLong);
    assert!(create_subscription(&mut ctx, "s".repeat(64), T).is_ok());
}

#[test]
fn paused_deployment_refuses_every_mutation() {
    let mut g = global();
    let mut plan = make_plan(&mut g, 1000, DAY, None);
    let sub = subscribe(&mut g, &mut plan, USER, T).unwrap();
    assert_eq!(g.pause(&OTHER).unwrap_err(), LooprError::Unauthorized);
    assert!(!g.is_paused);
    g.pause(&ADMIN).unwrap();
    assert!(g.is_paused);

    let mut c = InitializeSubscriptionPlan { authority: AUTHORITY, global_state: g.clone(), plan_bump: 1 };
    assert_eq!(initialize_subscription_plan(&mut c, "p".into(), "n".into(), "d".into(), 1, DAY, None, T).unwrap_err(), LooprError::ProgramPaused);
    let mut p2 = plan.clone();
    assert_eq!(subscribe(&mut g, &mut p2, OTHER, T).unwrap_err(), LooprError::ProgramPaused);
    let mut c = manual_ctx(&g, &plan, &sub);
    assert_eq!(process_payment(&mut c, 1000, T).unwrap_err(), LooprError::ProgramPaused);
    let mut c = auto_ctx(&g, &plan, &sub);
    assert_eq!(automated_payment(&mut c, T + DAY).unwrap_err(), LooprError::ProgramPaused);
    assert_eq!(create_payment_intent(&intent_ctx(&g, &plan), "i".into(), "basic".into(), 1000, T + 60, T).unwrap_err(), LooprError::ProgramPaused);
    let mut c = CancelSubscription { user_subscription: sub.clone(), user: USER, global_state: g.clone() };
    assert_eq!(cancel_subscription(&mut c, T).unwrap_err(), LooprError::ProgramPaused);
    assert_eq!(c.user_subscription.is_active, sub.is_active);
    let intent = loopr_subscription::state::PaymentIntent {
        intent_id: "i".into(),
        plan_id: "basic".into(),
        payer: None,
        amount: 1000,
        status: PaymentIntentStatus::Created,
        created_at: T,
        expires_at: T + 60,
        fulfilled_at: None,
        subscription: None,
        bump: 1,
    };
    let mut c = voucher_ctx(&g, &plan, &intent);
    assert_eq!(subscribe_and_pay(&mut c, "s".into(), T).unwrap_err(), LooprError::ProgramPaused);
    assert_eq!(c.payment_intent.status, PaymentIntentStatus::Created);
    // Address derivation only reads, and still works.
    assert!(loopr_subscription::address::global_state_address(&[9; 32]).is_ok());

    g.unpause(&ADMIN).unwrap();
    assert!(!g.is_paused);
    let mut c = manual_ctx(&g, &plan, &sub);
    assert!(process_payment(&mut c, 1000, T).is_ok());
}

#[test]
fn automated_payment_once_per_cycle() {
    let mut g = global();
    let mut plan = make_plan(&mut g, 1000, DAY, None);
    let sub = subscribe(&mut g, &mut plan, USER, T).unwrap();
    let mut m = manual_ctx(&g, &plan, &sub);
    process_payment(&mut m, 1000, T).unwrap();
    let mut t = InitializePaymentThread {
        user_subscription: m.user_subscription.clone(),
        subscription_plan: plan.clone(),
        plan_address: PLAN_ADDR,
        user: USER,
        thread: THREAD,
        global_state: m.global_state.clone(),
    };
    let schedule = initialize_payment_thread(&mut t, "thread-1".into(), T + 1).unwrap();
    assert_eq!(schedule.thread_id, "thread-1");
    assert_eq!(schedule.interval_days, 1);
    assert!(t.user_subscription.auto_pay_enabled);
    assert_eq!(t.user_subscription.payment_thread, Some(THREAD));

    let mut a = auto_ctx(&t.global_state, &plan, &t.user_subscription);
    assert_eq!(automated_payment(&mut a, T + DAY - 1).unwrap_err(), LooprError::PaymentNotDue);
    let receipt = automated_payment(&mut a, T + DAY).unwrap();
    assert_eq!(receipt.record.payment_method, PaymentMethod::AutoPay);
    assert_eq!(receipt.record.amount, 1000);
    assert_eq!(receipt.transfer.from, USER);
    assert_eq!(a.user_subscription.total_payments_made, 2);
    assert_eq!(a.user_subscription.next_payment_due, T + 2 * DAY);
    assert_eq!(automated_payment(&mut a, T + DAY).unwrap_err(), LooprError::PaymentNotDue);
    assert_eq!(a.user_subscription.total_payments_made, 2);
    assert_eq!(a.global_state.total_payments_processed, 2);
}

#[test]
fn automated_payment_preconditions() {
    let mut g = global();
    let mut plan = make_plan(&mut g, 1000, DAY, None);
    let sub = subscribe(&mut g, &mut plan, USER, T).unwrap();
    let mut a = auto_ctx(&g, &plan, &sub);
    assert_eq!(automated_payment(&mut a, T + DAY).unwrap_err(), LooprError::SubscriptionNotActive);
    let mut active = sub.clone();
    active.is_active = true;
    let mut a = auto_ctx(&g, &plan, &active);
    assert_eq!(automated_payment(&mut a, T + DAY).unwrap_err(), LooprError::AutoPayNotEnabled);
    active.auto_pay_enabled = true;
    let mut a = auto_ctx(&g, &plan, &active);
    assert_eq!(automated_payment(&mut a, T + DAY).unwrap_err(), LooprError::ThreadAuthorityMismatch);
    active.payment_thread = Some(OTHER);
    let mut a = auto_ctx(&g, &plan, &active);
    assert_eq!(automated_payment(&mut a, T + DAY).unwrap_err(), LooprError::ThreadAuthorityMismatch);
    // A deactivated plan keeps charging enrolled subscribers.
    active.payment_thread = Some(THREAD);
    plan.deactivate(T);
    let mut a = auto_ctx(&g, &plan, &active);
    assert!(automated_payment(&mut a, T + DAY).is_ok());
}

#[test]
fn thread_registration_checks() {
    let mut g = global();
    let mut plan = make_plan(&mut g, 1000, 3 * DAY, None);
    let sub = subscribe(&mut g, &mut plan, USER, T).unwrap();
    let mut t = InitializePaymentThread {
        user_subscription: sub.clone(),
        subscription_plan: plan.clone(),
        plan_address: PLAN_ADDR,
        user: USER,
        thread: THREAD,
        global_state: g.clone(),
    };
    assert_eq!(initialize_payment_thread(&mut t, "x".into(), T).unwrap_err(), LooprError::SubscriptionNotActive);
    t.user_subscription.is_active = true;
    t.user = OTHER;
    assert_eq!(initialize_payment_thread(&mut t, "x".into(), T).unwrap_err(), LooprError::Unauthorized);
    t.user = USER;
    assert_eq!(initialize_payment_thread(&mut t, "x".into(), T).unwrap().interval_days, 3);
}

#[test]
fn cancellation_keeps_the_enrolment_count() {
    let mut g = global();
    let mut plan = make_plan(&mut g, 1000, DAY, None);
    let mut sub = subscribe(&mut g, &mut plan, USER, T).unwrap();
    sub.is_active = true;
    let mut c = CancelSubscription { user_subscription: sub.clone(), user: OTHER, global_state: g.clone() };
    assert_eq!(cancel_subscription(&mut c, T + 5).unwrap_err(), LooprError::Unauthorized);
    assert!(c.user_subscription.is_active);
    c.user = USER;
    cancel_subscription(&mut c, T + 5).unwrap();
    assert!(!c.user_subscription.is_active);
    assert_eq!(c.user_subscription.updated_at, T + 5);
    assert_eq!(plan.current_subscribers, 1);
}

#[test]
fn plan_update_applies_supplied_fields() {
    let mut g = global();
    let plan = make_plan(&mut g, 1000, DAY, Some(5));
    let mut c = UpdateSubscriptionPlan { subscription_plan: plan.clone(), authority: AUTHORITY, global_state: g.clone() };
    update_subscription_plan(&mut c, Some("Pro".into()), None, Some(2000), None, None, Some(false), T + 9).unwrap();
    let p = &c.subscription_plan;
    assert_eq!(p.get_name(), "Pro");
    assert_eq!(p.get_description(), "The basic plan");
    assert_eq!(p.price_per_period, 2000);
    assert_eq!(p.period_duration, DAY);
    assert_eq!(p.max_subscribers, Some(5));
    assert!(!p.is_active);
    assert_eq!(p.updated_at, T + 9);

    let mut c = UpdateSubscriptionPlan { subscription_plan: plan.clone(), authority: OTHER, global_state: g.clone() };
    assert_eq!(update_subscription_plan(&mut c, None, None, Some(1), None, None, None, T).unwrap_err(), LooprError::Unauthorized);
    c.authority = AUTHORITY;
    assert_eq!(update_subscription_plan(&mut c, None, None, None, Some(0), None, None, T).unwrap_err(), LooprError::InvalidPeriodDuration);
    assert_eq!(update_subscription_plan(&mut c, Some("n".repeat(129)), None, None, None, None, None, T).unwrap_err(), LooprError::PlanNameTooLong);
    assert_eq!(update_subscription_plan(&mut c, None, Some("d".repeat(257)), None, None, None, None, T).unwrap_err(), LooprError::PlanDescriptionTooLong);
    c.subscription_plan.current_subscribers = 3;
    assert_eq!(update_subscription_plan(&mut c, None, None, None, None, Some(2), None, T).unwrap_err(), LooprError::MaxSubscribersReached);
    assert_eq!(c.subscription_plan.price_per_period, 1000);
}

#[test]
fn payment_confirmation_fills_reference_once() {
    let mut g = global();
    let mut plan = make_plan(&mut g, 1000, DAY, None);
    let sub = subscribe(&mut g, &mut plan, USER, T).unwrap();
    let mut m = manual_ctx(&g, &plan, &sub);
    let receipt = process_payment(&mut m, 1000, T).unwrap();
    let mut c = ConfirmPayment { payment_record: receipt.record.clone(), user: OTHER, global_state: g.clone() };
    assert_eq!(confirm_payment(&mut c, "sig".into()).unwrap_err(), LooprError::Unauthorized);
    c.user = USER;
    assert_eq!(confirm_payment(&mut c, "s".repeat(129)).unwrap_err(), LooprError::TransactionReferenceTooLong);
    confirm_payment(&mut c, "sig".into()).unwrap();
    assert_eq!(c.payment_record.transaction_signature.as_deref(), Some("sig"));
    assert_eq!(confirm_payment(&mut c, "again".into()).unwrap_err(), LooprError::PaymentAlreadyConfirmed);
    assert_eq!(c.payment_record.amount, 1000);
}

#[test]
fn payments_made_never_decrease() {
    let mut g = global();
    let mut plan = make_plan(&mut g, 1000, DAY, None);
    let sub = subscribe(&mut g, &mut plan, USER, T).unwrap();
    let mut m = manual_ctx(&g, &plan, &sub);
    let mut seen = vec![m.user_subscription.total_payments_made];
    process_payment(&mut m, 1000, T).unwrap();
    seen.push(m.user_subscription.total_payments_made);
    let _ = process_payment(&mut m, 1, T);
    seen.push(m.user_subscription.total_payments_made);
    let mut c = CancelSubscription { user_subscription: m.user_subscription.clone(), user: USER, global_state: g.clone() };
    cancel_subscription(&mut c, T + 1).unwrap();
    seen.push(c.user_subscription.total_payments_made);
    let mut m = manual_ctx(&g, &plan, &c.user_subscription);
    process_payment(&mut m, 1000, T + 2).unwrap();
    seen.push(m.user_subscription.total_payments_made);
    assert_eq!(seen, vec![0, 1, 1, 1, 2]);
}

#[test]
fn error_messages() {
    assert_eq!(LooprError::ProgramPaused.message(), "Program is paused");
    assert_eq!(LooprError::PaymentNotDue.message(), "Payment is not due yet");
}
