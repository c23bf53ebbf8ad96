use vstd::prelude::*;
use vstd::utf8::{decode_utf8, encode_utf8};

use crate::errors::LooprError;

verus! {

/// A 32-byte public key: a user, an authority, or the address of a record.
pub type Key = [u8; 32];

/// Largest byte length of a plan id, a subscription id or an intent id.
pub const MAX_ID_LEN: usize = 64;
/// Largest byte length of a plan name.
pub const MAX_NAME_LEN: usize = 128;
/// Largest byte length of a plan description.
pub const MAX_DESCRIPTION_LEN: usize = 256;
/// Largest byte length of a transaction reference.
pub const MAX_REFERENCE_LEN: usize = 128;

/// Whether two keys are the same key.
pub fn same_key(a: &Key, b: &Key) -> (r: bool)
    ensures
        r == (a@ == b@),
{
    let mut i: usize = 0;
    while i < 32
        invariant
            i <= 32,
            a@.len() == 32,
            b@.len() == 32,
            forall|j: int| 0 <= j < i ==> a@[j] == b@[j],
        decreases 32 - i,
    {
        if a[i] != b[i] {
            return false;
        }
        i = i + 1;
    }
    assert(a@ =~= b@);
    true
}

/// Whether two texts are the same text.
pub fn same_text(a: &str, b: &str) -> (r: bool)
    ensures
        r == (a@ == b@),
{
    broadcast use vstd::utf8::encode_utf8_decode_utf8, vstd::utf8::encode_utf8_valid_utf8;

    let x = a.as_bytes_vec();
    let y = b.as_bytes_vec();
    if x.len() != y.len() {
        return false;
    }
    let mut i: usize = 0;
    while i < x.len()
        invariant
            i <= x@.len(),
            x@ == encode_utf8(a@),
            y@ == encode_utf8(b@),
            x@.len() == y@.len(),
            forall|j: int| 0 <= j < i ==> x@[j] == y@[j],
        decreases x@.len() - i,
    {
        if x[i] != y[i] {
            return false;
        }
        i = i + 1;
    }
    assert(x@ =~= y@);
    assert(decode_utf8(encode_utf8(a@)) == a@);
    assert(decode_utf8(encode_utf8(b@)) == b@);
    true
}

/// The UTF-8 byte length of a text.
pub open spec fn byte_len(s: Seq<char>) -> nat {
    encode_utf8(s).len()
}

/// The UTF-8 byte length of `s`.
pub fn text_byte_len(s: &str) -> (n: usize)
    ensures
        n == byte_len(s@),
{
    s.as_bytes_vec().len()
}

/// Whether `x` is a value of `u64`.
pub open spec fn fits_u64(x: int) -> bool {
    0 <= x <= u64::MAX
}

/// Whether `x` is a value of `i64`.
pub open spec fn fits_i64(x: int) -> bool {
    i64::MIN <= x <= i64::MAX
}

/// Deployment-wide pause flag and aggregate counters.
#[derive(Debug, Clone)]
pub struct GlobalState {
    pub authority: Key,
    pub is_paused: bool,
    pub total_plans: u64,
    pub total_subscriptions: u64,
    pub total_payments_processed: u64,
    pub total_volume: u64,
    pub bump: u8,
}

impl GlobalState {
    /// The deployment's state when it is first set up.
    pub fn new(authority: Key, bump: u8) -> (r: GlobalState)
        ensures
            r == (GlobalState {
                authority,
                is_paused: false,
                total_plans: 0,
                total_subscriptions: 0,
                total_payments_processed: 0,
                total_volume: 0,
                bump,
            }),
    {
        GlobalState {
            authority,
            is_paused: false,
            total_plans: 0,
            total_subscriptions: 0,
            total_payments_processed: 0,
            total_volume: 0,
            bump,
        }
    }

    /// Stops every mutating operation; only the deployment's authority may.
    pub fn pause(&mut self, caller: &Key) -> (r: Result<(), LooprError>)
        ensures
            caller@ == old(self).authority@ ==> r is Ok && *final(self) == (GlobalState {
                is_paused: true,
                ..*old(self)
            }),
            caller@ != old(self).authority@ ==> r == Err::<(), LooprError>(
                LooprError::Unauthorized,
            ) && *final(self) == *old(self),
    {
        if !same_key(caller, &self.authority) {
            return Err(LooprError::Unauthorized);
        }
        self.is_paused = true;
        Ok(())
    }

    /// Lets mutating operations run again; only the deployment's authority may.
    pub fn unpause(&mut self, caller: &Key) -> (r: Result<(), LooprError>)
        ensures
            caller@ == old(self).authority@ ==> r is Ok && *final(self) == (GlobalState {
                is_paused: false,
                ..*old(self)
            }),
            caller@ != old(self).authority@ ==> r == Err::<(), LooprError>(
                LooprError::Unauthorized,
            ) && *final(self) == *old(self),
    {
        if !same_key(caller, &self.authority) {
            return Err(LooprError::Unauthorized);
        }
        self.is_paused = false;
        Ok(())
    }

    /// Counts one more plan; fails on overflow and then changes nothing.
    pub fn record_plan_created(&mut self) -> (r: Result<(), LooprError>)
        ensures
            fits_u64(old(self).total_plans + 1) ==> r is Ok && *final(self) == (GlobalState {
                total_plans: (old(self).total_plans + 1) as u64,
                ..*old(self)
            }),
            !fits_u64(old(self).total_plans + 1) ==> r == Err::<(), LooprError>(
                LooprError::CounterOverflow,
            ) && *final(self) == *old(self),
    {
        match self.total_plans.checked_add(1) {
            Some(n) => {
                self.total_plans = n;
                Ok(())
            },
            None => Err(LooprError::CounterOverflow),
        }
    }

    /// Counts one more subscription; fails on overflow and then changes nothing.
    pub fn record_subscription_created(&mut self) -> (r: Result<(), LooprError>)
        ensures
            fits_u64(old(self).total_subscriptions + 1) ==> r is Ok && *final(self) == (
            GlobalState {
                total_subscriptions: (old(self).total_subscriptions + 1) as u64,
                ..*old(self)
            }),
            !fits_u64(old(self).total_subscriptions + 1) ==> r == Err::<(), LooprError>(
                LooprError::CounterOverflow,
            ) && *final(self) == *old(self),
    {
        match self.total_subscriptions.checked_add(1) {
            Some(n) => {
                self.total_subscriptions = n;
                Ok(())
            },
            None => Err(LooprError::CounterOverflow),
        }
    }

    /// Whether one more payment of `amount` keeps the counters in range.
    pub open spec fn spec_can_record_payment(&self, amount: u64) -> bool {
        &&& fits_u64(self.total_payments_processed + 1)
        &&& fits_u64(self.total_volume + amount)
    }

    /// The state after one more payment of `amount`.
    pub open spec fn with_payment(self, amount: u64) -> GlobalState {
        GlobalState {
            total_payments_processed: (self.total_payments_processed + 1) as u64,
            total_volume: (self.total_volume + amount) as u64,
            ..self
        }
    }

    /// Whether one more payment of `amount` keeps the counters in range.
    #[verifier::when_used_as_spec(spec_can_record_payment)]
    pub fn can_record_payment(&self, amount: u64) -> (r: bool)
        ensures
            r == self.spec_can_record_payment(amount),
    {
        self.total_payments_processed < u64::MAX && self.total_volume.checked_add(amount).is_some()
    }

    /// Counts one more payment of `amount`; fails on overflow and then changes
    /// nothing.
    pub fn record_payment(&mut self, amount: u64) -> (r: Result<(), LooprError>)
        ensures
            old(self).spec_can_record_payment(amount) ==> r is Ok && *final(self) == old(
                self,
            ).with_payment(amount),
            !old(self).spec_can_record_payment(amount) ==> r == Err::<(), LooprError>(
                LooprError::CounterOverflow,
            ) && *final(self) == *old(self),
    {
        if !self.can_record_payment(amount) {
            return Err(LooprError::CounterOverflow);
        }
        self.total_payments_processed = self.total_payments_processed + 1;
        self.total_volume = self.total_volume + amount;
        Ok(())
    }
}

/// A priced recurring offering.
#[derive(Debug, Clone)]
pub struct SubscriptionPlan {
    pub authority: Key,
    pub plan_id: String,
    pub name: String,
    pub description: String,
    pub price_per_period: u64,
    pub period_duration: i64,
    pub max_subscribers: Option<u32>,
    /// Number of enrolments ever made; cancellation does not lower it.
    pub current_subscribers: u32,
    pub is_active: bool,
    pub created_at: i64,
    pub updated_at: i64,
    pub bump: u8,
}

impl SubscriptionPlan {
    /// Text fields within their capacities, a positive period, and a
    /// subscriber count within the cap when one is set.
    pub open spec fn wf(&self) -> bool {
        &&& byte_len(self.plan_id@) <= MAX_ID_LEN
        &&& byte_len(self.name@) <= MAX_NAME_LEN
        &&& byte_len(self.description@) <= MAX_DESCRIPTION_LEN
        &&& self.period_duration > 0
        &&& (self.max_subscribers matches Some(m) ==> self.current_subscribers <= m)
    }

    /// Whether one more subscriber may enrol.
    pub open spec fn spec_has_room(&self) -> bool {
        match self.max_subscribers {
            Some(m) => self.current_subscribers < m,
            None => true,
        }
    }

    /// Whether one more subscriber may enrol.
    #[verifier::when_used_as_spec(spec_has_room)]
    pub fn has_room(&self) -> (r: bool)
        ensures
            r == self.spec_has_room(),
    {
        match self.max_subscribers {
            Some(m) => self.current_subscribers < m,
            None => true,
        }
    }

    pub fn get_plan_id(&self) -> (r: &str)
        ensures
            r@ == self.plan_id@,
    {
        self.plan_id.as_str()
    }

    pub fn get_name(&self) -> (r: &str)
        ensures
            r@ == self.name@,
    {
        self.name.as_str()
    }

    pub fn get_description(&self) -> (r: &str)
        ensures
            r@ == self.description@,
    {
        self.description.as_str()
    }

    /// The plan with each supplied field replaced and `updated_at` set to `now`.
    pub open spec fn updated(
        self,
        name: Option<String>,
        description: Option<String>,
        price_per_period: Option<u64>,
        period_duration: Option<i64>,
        max_subscribers: Option<u32>,
        is_active: Option<bool>,
        now: i64,
    ) -> SubscriptionPlan {
        SubscriptionPlan {
            name: match name {
                Some(n) => n,
                None => self.name,
            },
            description: match description {
                Some(d) => d,
                None => self.description,
            },
            price_per_period: match price_per_period {
                Some(p) => p,
                None => self.price_per_period,
            },
            period_duration: match period_duration {
                Some(p) => p,
                None => self.period_duration,
            },
            max_subscribers: match max_subscribers {
                Some(m) => Some(m),
                None => self.max_subscribers,
            },
            is_active: match is_active {
                Some(a) => a,
                None => self.is_active,
            },
            updated_at: now,
            ..self
        }
    }

    /// Replaces each supplied field; the others keep their values.
    pub fn update(
        &mut self,
        name: Option<String>,
        description: Option<String>,
        price_per_period: Option<u64>,
        period_duration: Option<i64>,
        max_subscribers: Option<u32>,
        is_active: Option<bool>,
        now: i64,
    )
        ensures
            *final(self) == old(self).updated(
                name,
                description,
                price_per_period,
                period_duration,
                max_subscribers,
                is_active,
                now,
            ),
    {
        if let Some(n) = name {
            self.name = n;
        }
        if let Some(d) = description {
            self.description = d;
        }
        if let Some(p) = price_per_period {
            self.price_per_period = p;
        }
        if let Some(p) = period_duration {
            self.period_duration = p;
        }
        if let Some(m) = max_subscribers {
            self.max_subscribers = Some(m);
        }
        if let Some(a) = is_active {
            self.is_active = a;
        }
        self.updated_at = now;
    }

    /// Opens the plan to new enrolments.
    pub fn activate(&mut self, now: i64)
        ensures
            *final(self) == (SubscriptionPlan { is_active: true, updated_at: now, ..*old(self) }),
    {
        self.is_active = true;
        self.updated_at = now;
    }

    /// Closes the plan to new enrolments; existing subscriptions keep renewing.
    pub fn deactivate(&mut self, now: i64)
        ensures
            *final(self) == (SubscriptionPlan { is_active: false, updated_at: now, ..*old(self) }),
    {
        self.is_active = false;
        self.updated_at = now;
    }
}

/// A user's enrolment in a plan.
#[derive(Debug, Clone)]
pub struct UserSubscription {
    pub user: Key,
    pub subscription_plan: Key,
    pub subscription_id: String,
    pub is_active: bool,
    pub next_payment_due: i64,
    pub last_payment_date: Option<i64>,
    pub auto_pay_enabled: bool,
    pub payment_thread: Option<Key>,
    pub total_payments_made: u64,
    pub created_at: i64,
    pub updated_at: i64,
    pub bump: u8,
}

impl UserSubscription {
    /// Whether a charge at `now` on a plan of period `period` keeps every
    /// field of the subscription in range.
    pub open spec fn spec_can_record_payment(&self, now: i64, period: i64) -> bool {
        &&& fits_u64(self.total_payments_made + 1)
        &&& fits_i64(now + period)
    }

    /// The subscription after a successful charge at `now`: active, paid at
    /// `now`, due one period after `now`, with one more payment counted.
    pub open spec fn paid(self, now: i64, period: i64) -> UserSubscription {
        UserSubscription {
            is_active: true,
            last_payment_date: Some(now),
            next_payment_due: (now + period) as i64,
            total_payments_made: (self.total_payments_made + 1) as u64,
            updated_at: now,
            ..self
        }
    }

    /// Whether a charge at `now` on a plan of period `period` keeps every
    /// field of the subscription in range.
    #[verifier::when_used_as_spec(spec_can_record_payment)]
    pub fn can_record_payment(&self, now: i64, period: i64) -> (r: bool)
        ensures
            r == self.spec_can_record_payment(now, period),
    {
        self.total_payments_made < u64::MAX && now.checked_add(period).is_some()
    }

    /// Applies a successful charge at `now`.
    pub fn record_payment(&mut self, now: i64, period: i64)
        requires
            old(self).spec_can_record_payment(now, period),
        ensures
            *final(self) == old(self).paid(now, period),
    {
        self.is_active = true;
        self.last_payment_date = Some(now);
        self.next_payment_due = now + period;
        self.total_payments_made = self.total_payments_made + 1;
        self.updated_at = now;
    }

    pub fn get_subscription_id(&self) -> (r: &str)
        ensures
            r@ == self.subscription_id@,
    {
        self.subscription_id.as_str()
    }
}

/// The subscription cancelled at `now`.
pub open spec fn cancelled(pre: UserSubscription, now: i64) -> UserSubscription {
    UserSubscription { is_active: false, updated_at: now, ..pre }
}

/// The subscription with the scheduler job `thread` registered at `now`.
pub open spec fn with_thread(pre: UserSubscription, thread: Key, now: i64) -> UserSubscription {
    UserSubscription { auto_pay_enabled: true, payment_thread: Some(thread), updated_at: now, ..pre }
}

/// What one operation of the ledger may do to a stored subscription: leave it
/// as it is, charge it, cancel it, or register a scheduler job on it.
pub open spec fn is_subscription_step(pre: UserSubscription, post: UserSubscription) -> bool {
    ||| post == pre
    ||| exists|now: i64, period: i64|
        pre.spec_can_record_payment(now, period) && post == #[trigger] pre.paid(now, period)
    ||| exists|now: i64| post == #[trigger] cancelled(pre, now)
    ||| exists|thread: Key, now: i64| post == #[trigger] with_thread(pre, thread, now)
}

/// The number of payments made on a subscription never goes down: along any
/// sequence of operations on it, a later state counts at least as many
/// payments as an earlier one.
pub proof fn lemma_payments_never_decrease(history: Seq<UserSubscription>, i: int, j: int)
    requires
        forall|k: int|
            0 <= k < history.len() - 1 ==> is_subscription_step(
                #[trigger] history[k],
                history[k + 1],
            ),
        0 <= i <= j < history.len(),
    ensures
        history[i].total_payments_made <= history[j].total_payments_made,
    decreases j - i,
{
    if i < j {
        lemma_payments_never_decrease(history, i, j - 1);
        let pre = history[j - 1];
        let post = history[j];
        assert(is_subscription_step(pre, post));
        assert(pre.total_payments_made <= post.total_payments_made);
    }
}

/// How a payment was made.
#[derive(Debug, Clone, Copy, PartialEq, Eq, Structural)]
pub enum PaymentMethod {
    Manual,
    AutoPay,
    QRCode,
}

/// Settlement state of a payment record.
#[derive(Debug, Clone, Copy, PartialEq, Eq, Structural)]
pub enum PaymentStatus {
    Completed,
    Failed,
    Pending,
}

/// Immutable log entry of one charge.
#[derive(Debug, Clone)]
pub struct PaymentRecord {
    pub user: Key,
    pub subscription: Key,
    pub amount: u64,
    pub payment_date: i64,
    /// Settlement-layer proof of the transfer, filled in once after creation.
    pub transaction_signature: Option<String>,
    pub payment_method: PaymentMethod,
    pub status: PaymentStatus,
    pub bump: u8,
}

/// Life cycle of a payment intent. Expiry is a predicate on time, never stored
/// by this library.
#[derive(Debug, Clone, Copy, PartialEq, Eq, Structural)]
pub enum PaymentIntentStatus {
    Created,
    Completed,
    Expired,
    Cancelled,
}

/// A single-use voucher binding a price to a later subscribe-and-pay.
#[derive(Debug, Clone)]
pub struct PaymentIntent {
    pub intent_id: String,
    pub plan_id: String,
    pub payer: Option<Key>,
    pub amount: u64,
    pub status: PaymentIntentStatus,
    pub created_at: i64,
    pub expires_at: i64,
    pub fulfilled_at: Option<i64>,
    pub subscription: Option<Key>,
    pub bump: u8,
}

impl PaymentIntent {
    pub fn get_intent_id(&self) -> (r: &str)
        ensures
            r@ == self.intent_id@,
    {
        self.intent_id.as_str()
    }

    pub fn get_plan_id(&self) -> (r: &str)
        ensures
            r@ == self.plan_id@,
    {
        self.plan_id.as_str()
    }

    /// Whether the intent can no longer be fulfilled at time `now`.
    pub open spec fn spec_is_expired(&self, now: i64) -> bool {
        now > self.expires_at
    }

    /// Whether the intent can no longer be fulfilled at time `now`.
    #[verifier::when_used_as_spec(spec_is_expired)]
    pub fn is_expired(&self, now: i64) -> (r: bool)
        ensures
            r == self.spec_is_expired(now),
    {
        now > self.expires_at
    }
}

/// A movement of `amount` from the holding of `from` to that of `to`, which the
/// value-transfer collaborator performs as part of the same atomic unit.
#[derive(Debug, Clone, Copy)]
pub struct Transfer {
    pub from: Key,
    pub to: Key,
    pub amount: u64,
}

/// What a successful charge produces: the new payment record and the value
/// movement that pays for it.
#[derive(Debug, Clone)]
pub struct PaymentReceipt {
    pub record: PaymentRecord,
    pub transfer: Transfer,
}

} // verus!
