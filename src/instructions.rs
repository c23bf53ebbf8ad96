pub mod automated_payment;
pub mod cancel_subscription;
pub mod confirm_payment;
pub mod create_payment_intent;
pub mod create_subscription;
pub mod initialize_payment_thread;
pub mod initialize_subscription_plan;
pub mod process_payment;
pub mod subscribe_and_pay;
pub mod update_subscription_plan;
