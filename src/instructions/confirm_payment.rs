use vstd::prelude::*;

use crate::errors::LooprError;
use crate::state::{
    byte_len, same_key, text_byte_len, GlobalState, Key, PaymentRecord, MAX_REFERENCE_LEN,
};

verus! {

/// The records and keys the confirmation of a payment touches.
#[derive(Debug, Clone)]
pub struct ConfirmPayment {
    pub payment_record: PaymentRecord,
    /// The signing user.
    pub user: Key,
    pub global_state: GlobalState,
}

/// The first check that confirming a payment fails, if any.
pub open spec fn failure(ctx: ConfirmPayment, reference: Seq<char>) -> Option<LooprError> {
    if ctx.global_state.is_paused {
        Some(LooprError::ProgramPaused)
    } else if ctx.payment_record.user@ != ctx.user@ {
        Some(LooprError::Unauthorized)
    } else if ctx.payment_record.transaction_signature.is_some() {
        Some(LooprError::PaymentAlreadyConfirmed)
    } else if byte_len(reference) > MAX_REFERENCE_LEN {
        Some(LooprError::TransactionReferenceTooLong)
    } else {
        None
    }
}

/// The records after a successful confirmation.
pub open spec fn post(ctx: ConfirmPayment, transaction_reference: String) -> ConfirmPayment {
    ConfirmPayment {
        payment_record: PaymentRecord {
            transaction_signature: Some(transaction_reference),
            ..ctx.payment_record
        },
        ..ctx
    }
}

/// The paying user fills in, once, the settlement-layer reference of a
/// payment record created without one. Nothing else of the record changes.
pub fn handler(ctx: &mut ConfirmPayment, transaction_reference: String) -> (r: Result<
    (),
    LooprError,
>)
    ensures
        match failure(*old(ctx), transaction_reference@) {
            Some(e) => r == Err::<(), LooprError>(e) && *final(ctx) == *old(ctx),
            None => r is Ok && *final(ctx) == post(*old(ctx), transaction_reference),
        },
{
    if ctx.global_state.is_paused {
        return Err(LooprError::ProgramPaused);
    }
    if !same_key(&ctx.payment_record.user, &ctx.user) {
        return Err(LooprError::Unauthorized);
    }
    if ctx.payment_record.transaction_signature.is_some() {
        return Err(LooprError::PaymentAlreadyConfirmed);
    }
    if text_byte_len(transaction_reference.as_str()) > MAX_REFERENCE_LEN {
        return Err(LooprError::TransactionReferenceTooLong);
    }
    ctx.payment_record.transaction_signature = Some(transaction_reference);
    Ok(())
}

} // verus!
