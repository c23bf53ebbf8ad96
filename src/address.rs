use anchor_lang::solana_program::pubkey::Pubkey;
use vstd::prelude::*;
use vstd::bytes::{spec_u64_to_le_bytes, u64_to_le_bytes};
use vstd::utf8::encode_utf8;

use crate::errors::LooprError;
use crate::state::Key;

verus! {

/// The address and bump that the program-address search finds for `seeds`
/// under the program `program_id`, if it finds one.
pub uninterp spec fn program_address_of(seeds: Seq<Seq<u8>>, program_id: Seq<u8>) -> Option<
    (Seq<u8>, u8),
>;

/// The bytes of each seed.
pub open spec fn seed_views(seeds: Seq<Vec<u8>>) -> Seq<Seq<u8>> {
    seeds.map_values(|s: Vec<u8>| s@)
}

/// Relies on solana-program's `Pubkey::try_find_program_address`, reached
/// through anchor-lang: the address and bump it finds depend on the seeds and
/// the program id alone, and it finds none when more than fifteen seeds are
/// given or one seed is longer than 32 bytes.
#[verifier::external_body]
fn find_program_address(seeds: &Vec<Vec<u8>>, program_id: &Key) -> (r: Option<(Key, u8)>)
    ensures
        match r {
            Some((a, b)) => program_address_of(seed_views(seeds@), program_id@) == Some((a@, b)),
            None => program_address_of(seed_views(seeds@), program_id@) is None,
        },
        seeds@.len() > 15 ==> r is None,
        (exists|i: int| 0 <= i < seeds@.len() && #[trigger] seeds@[i]@.len() > 32) ==> r is None,
{
    let refs: Vec<&[u8]> = seeds.iter().map(|s| s.as_slice()).collect();
    let program = Pubkey::new_from_array(*program_id);
    Pubkey::try_find_program_address(&refs, &program).map(|(a, b)| (a.to_bytes(), b))
}

/// A storage address together with the bump that made it valid.
#[derive(Debug, Clone, Copy)]
pub struct DerivedAddress {
    pub address: Key,
    pub bump: u8,
}

/// Whether `r` reports the outcome `found` of an address search.
pub open spec fn reports(r: Result<DerivedAddress, LooprError>, found: Option<(Seq<u8>, u8)>) -> bool {
    match found {
        Some((a, b)) => r matches Ok(d) && d.address@ == a && d.bump == b,
        None => r == Err::<DerivedAddress, LooprError>(LooprError::AddressDerivationExhausted),
    }
}

/// Turns the outcome of an address search into the library's result: the
/// address found, or `AddressDerivationExhausted`.
pub fn derived(found: Option<(Key, u8)>) -> (r: Result<DerivedAddress, LooprError>)
    ensures
        reports(
            r,
            match found {
                Some((a, b)) => Some((a@, b)),
                None => None,
            },
        ),
{
    match found {
        Some((address, bump)) => Ok(DerivedAddress { address, bump }),
        None => Err(LooprError::AddressDerivationExhausted),
    }
}

/// The bytes of a key, as a vector.
fn key_bytes(k: &Key) -> (r: Vec<u8>)
    ensures
        r@ == k@,
{
    let mut v: Vec<u8> = Vec::new();
    let mut i: usize = 0;
    while i < 32
        invariant
            i <= 32,
            k@.len() == 32,
            v@ == k@.subrange(0, i as int),
        decreases 32 - i,
    {
        v.push(k[i]);
        i = i + 1;
        assert(v@ =~= k@.subrange(0, i as int));
    }
    assert(k@.subrange(0, 32) =~= k@);
    v
}

/// Searches the address of the given seeds and reports it.
fn derive(seeds: Vec<Vec<u8>>, program_id: &Key) -> (r: Result<DerivedAddress, LooprError>)
    ensures
        reports(r, program_address_of(seed_views(seeds@), program_id@)),
{
    derived(find_program_address(&seeds, program_id))
}

/// Seeds of the address of a plan.
pub open spec fn plan_seeds(plan_id: Seq<char>) -> Seq<Seq<u8>> {
    seq![encode_utf8("subscription_plan"@), encode_utf8(plan_id)]
}

/// Seeds of the address of a user's subscription to a plan.
pub open spec fn subscription_seeds(user: Seq<u8>, plan: Seq<u8>) -> Seq<Seq<u8>> {
    seq![encode_utf8("user_subscription"@), user, plan]
}

/// Seeds of the address of a subscription made by fulfilling a payment intent.
pub open spec fn voucher_subscription_seeds(user: Seq<u8>, subscription_id: Seq<char>) -> Seq<
    Seq<u8>,
> {
    seq![encode_utf8("user_subscription"@), user, encode_utf8(subscription_id)]
}

/// Seeds of the address of the payment record of a subscription at a time.
pub open spec fn record_seeds(subscription: Seq<u8>, timestamp: i64) -> Seq<Seq<u8>> {
    seq![encode_utf8("payment_record"@), subscription, spec_u64_to_le_bytes(timestamp as u64)]
}

/// Seeds of the address of a payment intent.
pub open spec fn intent_seeds(intent_id: Seq<char>) -> Seq<Seq<u8>> {
    seq![encode_utf8("payment_intent"@), encode_utf8(intent_id)]
}

/// Seeds of the address of the global state.
pub open spec fn global_seeds() -> Seq<Seq<u8>> {
    seq![encode_utf8("global_state"@)]
}

/// Address of the plan `plan_id`. A plan id longer than 32 bytes has none.
pub fn subscription_plan_address(plan_id: &str, program_id: &Key) -> (r: Result<
    DerivedAddress,
    LooprError,
>)
    ensures
        reports(r, program_address_of(plan_seeds(plan_id@), program_id@)),
        encode_utf8(plan_id@).len() > 32 ==> r == Err::<DerivedAddress, LooprError>(
            LooprError::AddressDerivationExhausted,
        ),
{
    let seeds = vec!["subscription_plan".as_bytes_vec(), plan_id.as_bytes_vec()];
    assert(seed_views(seeds@) =~= plan_seeds(plan_id@));
    let found = find_program_address(&seeds, program_id);
    proof {
        if encode_utf8(plan_id@).len() > 32 {
            assert(seeds@[1]@.len() > 32);
        }
    }
    derived(found)
}

/// Address of the subscription of `user` to the plan at `plan`.
pub fn user_subscription_address(user: &Key, plan: &Key, program_id: &Key) -> (r: Result<
    DerivedAddress,
    LooprError,
>)
    ensures
        reports(r, program_address_of(subscription_seeds(user@, plan@), program_id@)),
{
    let seeds = vec!["user_subscription".as_bytes_vec(), key_bytes(user), key_bytes(plan)];
    assert(seed_views(seeds@) =~= subscription_seeds(user@, plan@));
    derive(seeds, program_id)
}

/// Address of the subscription `subscription_id` that `user` gets by
/// fulfilling a payment intent.
pub fn voucher_subscription_address(user: &Key, subscription_id: &str, program_id: &Key) -> (r:
    Result<DerivedAddress, LooprError>)
    ensures
        reports(
            r,
            program_address_of(voucher_subscription_seeds(user@, subscription_id@), program_id@),
        ),
{
    let seeds = vec![
        "user_subscription".as_bytes_vec(),
        key_bytes(user),
        subscription_id.as_bytes_vec(),
    ];
    assert(seed_views(seeds@) =~= voucher_subscription_seeds(user@, subscription_id@));
    derive(seeds, program_id)
}

/// Address of the payment record of the subscription at `subscription` made
/// at `timestamp`.
pub fn payment_record_address(subscription: &Key, timestamp: i64, program_id: &Key) -> (r: Result<
    DerivedAddress,
    LooprError,
>)
    ensures
        reports(r, program_address_of(record_seeds(subscription@, timestamp), program_id@)),
{
    let seeds = vec![
        "payment_record".as_bytes_vec(),
        key_bytes(subscription),
        u64_to_le_bytes(#[verifier::truncate] (timestamp as u64)),
    ];
    assert(seed_views(seeds@) =~= record_seeds(subscription@, timestamp));
    derive(seeds, program_id)
}

/// Address of the payment intent `intent_id`.
pub fn payment_intent_address(intent_id: &str, program_id: &Key) -> (r: Result<
    DerivedAddress,
    LooprError,
>)
    ensures
        reports(r, program_address_of(intent_seeds(intent_id@), program_id@)),
{
    let seeds = vec!["payment_intent".as_bytes_vec(), intent_id.as_bytes_vec()];
    assert(seed_views(seeds@) =~= intent_seeds(intent_id@));
    derive(seeds, program_id)
}

/// Address of the deployment's global state.
pub fn global_state_address(program_id: &Key) -> (r: Result<DerivedAddress, LooprError>)
    ensures
        reports(r, program_address_of(global_seeds(), program_id@)),
{
    let seeds = vec!["global_state".as_bytes_vec()];
    assert(seed_views(seeds@) =~= global_seeds());
    derive(seeds, program_id)
}

} // verus!
