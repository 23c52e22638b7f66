//! Token-bucket pacing for the file-transfer channel.
//!
//! The bucket turns a bandwidth budget into a send rate: tokens accrue at the budgeted rate up to
//! a burst capacity, and a chunk is sent only when the bucket holds its bytes. The bucket reads no
//! clock; the caller advances it by an explicit span of time.
//!
//! Tokens are counted exactly, in units of one eight-billionth of a byte: one bit per second fills
//! one unit per nanosecond. Nothing is rounded but a reported wait, which is a whole number of
//! nanoseconds.
use vstd::prelude::*;

use crate::bitrate::Bitrate;
use crate::time::{Duration, MAX_NANOS};

verus! {

/// Units in one byte.
pub const UNITS_PER_BYTE: u64 = 8_000_000_000;

/// Half a byte: how far a request may exceed the balance.
pub const SLACK: u64 = 4_000_000_000;

/// 2 to the power 125: more bytes than any rate brings in any span.
pub const BYTES_BOUND: u128 = 0x2000_0000_0000_0000_0000_0000_0000_0000;

/// A number of bytes, with its fraction. Its view is the count of units.
#[derive(Debug, Clone, Copy, PartialEq, Eq, Structural)]
pub struct ByteAmount {
    whole: u128,
    part: u64,
}

impl View for ByteAmount {
    type V = nat;

    closed spec fn view(&self) -> nat {
        (self.whole * UNITS_PER_BYTE + self.part) as nat
    }
}

impl ByteAmount {
    #[verifier::type_invariant]
    spec fn in_range(self) -> bool {
        self.whole < BYTES_BOUND && self.part < UNITS_PER_BYTE
    }

    /// No bytes.
    pub fn zero() -> (r: Self)
        ensures
            r@ == 0,
    {
        ByteAmount { whole: 0, part: 0 }
    }

    /// Whole bytes, without the fraction.
    pub fn whole(&self) -> (r: u128)
        ensures
            r == self@ / (UNITS_PER_BYTE as nat),
    {
        proof {
            use_type_invariant(self);
            vstd::arithmetic::div_mod::lemma_fundamental_div_mod_converse(
                self@ as int,
                UNITS_PER_BYTE as int,
                self.whole as int,
                self.part as int,
            );
        }
        self.whole
    }

    /// The fraction, in units.
    pub fn part(&self) -> (r: u64)
        ensures
            r == self@ % (UNITS_PER_BYTE as nat),
    {
        proof {
            use_type_invariant(self);
            vstd::arithmetic::div_mod::lemma_fundamental_div_mod_converse(
                self@ as int,
                UNITS_PER_BYTE as int,
                self.whole as int,
                self.part as int,
            );
        }
        self.part
    }

    /// What accrues at `rate` in `span`.
    fn accrued(rate: u64, span: Duration) -> (r: Self)
        ensures
            r@ == rate * span@,
    {
        let nanos: u128 = span.as_nanos();
        let secs: u128 = nanos / 1_000_000_000;
        let rest: u128 = nanos % 1_000_000_000;
        let wide: u128 = rate as u128;
        assert(secs <= u64::MAX);
        assert(wide * secs <= u64::MAX * u64::MAX) by (nonlinear_arith)
            requires
                wide <= u64::MAX,
                secs <= u64::MAX,
        ;
        assert(wide * rest <= u64::MAX * 999_999_999) by (nonlinear_arith)
            requires
                wide <= u64::MAX,
                rest <= 999_999_999,
        ;
        let bits: u128 = wide * secs;
        let units: u128 = (bits % 8) * 1_000_000_000 + wide * rest;
        let whole: u128 = bits / 8 + units / 8_000_000_000;
        let part: u64 = (units % 8_000_000_000) as u64;
        assert(whole * 8_000_000_000 + part == rate * nanos) by (nonlinear_arith)
            requires
                nanos == secs * 1_000_000_000 + rest,
                wide == rate,
                bits == wide * secs,
                units == (bits % 8) * 1_000_000_000 + wide * rest,
                whole == bits / 8 + units / 8_000_000_000,
                part == units % 8_000_000_000,
        ;
        ByteAmount { whole, part }
    }

    /// The smaller of two amounts.
    fn at_most(self, most: Self) -> (r: Self)
        ensures
            r@ == lesser(self@, most@),
    {
        proof {
            use_type_invariant(&self);
            use_type_invariant(&most);
        }
        if self.whole > most.whole || (self.whole == most.whole && self.part > most.part) {
            most
        } else {
            self
        }
    }

    /// The sum of two amounts, or `most` where the sum is more.
    fn plus_up_to(self, other: Self, most: Self) -> (r: Self)
        ensures
            r@ == lesser((self@ + other@) as nat, most@),
    {
        proof {
            use_type_invariant(&self);
            use_type_invariant(&other);
            use_type_invariant(&most);
        }
        let parts: u64 = self.part + other.part;
        let mut whole: u128 = self.whole + other.whole;
        let mut part: u64 = parts;
        if parts >= UNITS_PER_BYTE {
            whole = whole + 1;
            part = parts - UNITS_PER_BYTE;
        }
        if whole > most.whole || (whole == most.whole && part > most.part) {
            most
        } else {
            ByteAmount { whole, part }
        }
    }

    /// Units that are missing for `bytes` bytes.
    fn missing(self, bytes: usize) -> (r: u128)
        ensures
            r == if cost(bytes as nat) <= self@ {
                0
            } else {
                cost(bytes as nat) - self@
            },
            r <= bytes * UNITS_PER_BYTE,
    {
        proof {
            use_type_invariant(&self);
        }
        let wide: u128 = bytes as u128;
        if wide <= self.whole {
            0
        } else {
            let n: u128 = wide - self.whole;
            assert(n <= u64::MAX);
            n * 8_000_000_000 - (self.part as u128)
        }
    }

    /// What is left of the amount without `bytes` bytes, or nothing.
    fn without(self, bytes: usize) -> (r: Self)
        ensures
            r@ == if cost(bytes as nat) <= self@ {
                self@ - cost(bytes as nat)
            } else {
                0
            },
    {
        proof {
            use_type_invariant(&self);
        }
        let wide: u128 = bytes as u128;
        if wide <= self.whole {
            ByteAmount { whole: self.whole - wide, part: self.part }
        } else {
            ByteAmount::zero()
        }
    }
}

/// Abstract state of a bucket.
pub struct Bucket {
    /// Units that accrue per nanosecond.
    pub rate: u64,
    /// Most units that the bucket holds.
    pub capacity: nat,
    /// Units that the bucket holds now.
    pub balance: nat,
}

/// The smaller of two counts.
pub open spec fn lesser(a: nat, b: nat) -> nat {
    if a < b {
        a
    } else {
        b
    }
}

/// What accrues at `rate` in `burst`.
pub open spec fn capacity_of(rate: Bitrate, burst: Duration) -> nat {
    (rate.0 * burst@) as nat
}

/// Units that a request for `bytes` costs.
pub open spec fn cost(bytes: nat) -> nat {
    bytes * (UNITS_PER_BYTE as nat)
}

impl Bucket {
    /// A request for `bytes` can be granted now.
    pub open spec fn affords(self, bytes: nat) -> bool {
        cost(bytes) <= self.balance + SLACK
    }

    /// A request for `bytes` can be granted at some time.
    pub open spec fn ever_affords(self, bytes: nat) -> bool {
        self.affords(bytes) || self.rate > 0 && cost(bytes) <= self.capacity + SLACK
    }

    /// The bucket after `nanos` nanoseconds.
    pub open spec fn advanced(self, nanos: nat) -> Bucket {
        Bucket {
            balance: lesser((self.balance + self.rate * nanos) as nat, self.capacity),
            ..self
        }
    }

    /// The bucket after `bytes` were granted.
    pub open spec fn spent(self, bytes: nat) -> Bucket {
        Bucket {
            balance: if cost(bytes) <= self.balance {
                (self.balance - cost(bytes)) as nat
            } else {
                0
            },
            ..self
        }
    }

    /// Nanoseconds until the bucket holds `bytes`, rounded to the nearest and in the middle to the
    /// even one; but rounded up where that would leave more than half a byte missing.
    pub open spec fn wait_for(self, bytes: nat) -> int {
        let missing = cost(bytes) - self.balance;
        let rate = self.rate as int;
        let nanos = missing / rate;
        let rest = missing % rate;
        if 2 * rest > rate || (2 * rest == rate && nanos % 2 == 1) || rest > SLACK {
            nanos + 1
        } else {
            nanos
        }
    }
}

/// A byte-denominated token bucket.
#[derive(Debug)]
pub struct TokenBucket {
    rate: u64,
    capacity: ByteAmount,
    balance: ByteAmount,
}

impl View for TokenBucket {
    type V = Bucket;

    closed spec fn view(&self) -> Bucket {
        Bucket {
            rate: self.rate,
            capacity: self.capacity@,
            balance: self.balance@,
        }
    }
}

impl TokenBucket {
    #[verifier::type_invariant]
    spec fn within_capacity(self) -> bool {
        self.balance@ <= self.capacity@
    }

    /// A full bucket that fills at `rate` and holds what accrues in `burst`.
    pub fn new(rate: Bitrate, burst: Duration) -> (r: Self)
        ensures
            r@ == (Bucket {
                rate: rate.0,
                capacity: capacity_of(rate, burst),
                balance: capacity_of(rate, burst),
            }),
    {
        let capacity = ByteAmount::accrued(rate.0, burst);
        TokenBucket { rate: rate.0, capacity, balance: capacity }
    }

    /// Change the fill rate and the burst. The balance is kept, but for what no longer fits.
    pub fn set_rate(&mut self, rate: Bitrate, burst: Duration)
        ensures
            final(self)@ == (Bucket {
                rate: rate.0,
                capacity: capacity_of(rate, burst),
                balance: lesser(old(self)@.balance, capacity_of(rate, burst)),
            }),
    {
        let capacity = ByteAmount::accrued(rate.0, burst);
        let balance = self.balance.at_most(capacity);
        *self = TokenBucket { rate: rate.0, capacity, balance };
    }

    /// Let `elapsed` pass.
    pub fn advance(&mut self, elapsed: Duration)
        ensures
            final(self)@ == old(self)@.advanced(elapsed@),
    {
        proof {
            use_type_invariant(&*self);
        }
        let added = ByteAmount::accrued(self.rate, elapsed);
        self.balance = self.balance.plus_up_to(added, self.capacity);
    }

    /// Take `bytes` out of the bucket if it holds them; half a byte may be missing.
    pub fn try_consume(&mut self, bytes: usize) -> (r: bool)
        ensures
            r == old(self)@.affords(bytes as nat),
            final(self)@ == if r {
                old(self)@.spent(bytes as nat)
            } else {
                old(self)@
            },
    {
        proof {
            use_type_invariant(&*self);
        }
        if self.balance.missing(bytes) <= SLACK as u128 {
            self.balance = self.balance.without(bytes);
            true
        } else {
            false
        }
    }

    /// How long until `bytes` can be taken out: zero when they can be now, `None` when they never
    /// can be, because nothing accrues or because the bucket cannot hold so many. The wait is
    /// rounded to the nearest nanosecond, and up where the bucket would else be short by more than
    /// half a byte, which takes a rate of more than eight billion bits per second. It saturates at
    /// the longest span.
    pub fn time_until(&self, bytes: usize) -> (r: Option<Duration>)
        ensures
            r is Some <==> self@.ever_affords(bytes as nat),
            self@.affords(bytes as nat) ==> r is Some && r->0@ == 0,
            r is Some && !self@.affords(bytes as nat) ==> r->0@ == lesser(
                self@.wait_for(bytes as nat) as nat,
                MAX_NANOS as nat,
            ) && self@.wait_for(bytes as nat) > 0,
    {
        proof {
            use_type_invariant(self);
        }
        let missing: u128 = self.balance.missing(bytes);
        if missing <= SLACK as u128 {
            return Some(Duration::zero());
        }
        if self.rate == 0 || self.capacity.missing(bytes) > SLACK as u128 {
            return None;
        }
        let per_nano: u128 = self.rate as u128;
        let whole: u128 = missing / per_nano;
        let rest: u128 = missing % per_nano;
        proof {
            vstd::arithmetic::div_mod::lemma_fundamental_div_mod(missing as int, per_nano as int);
            vstd::arithmetic::div_mod::lemma_div_pos_is_pos(missing as int, per_nano as int);
            assert(whole == 0 ==> per_nano * whole == 0) by (nonlinear_arith);
        }
        let nanos: u128 = if 2 * rest > per_nano || (2 * rest == per_nano && whole % 2 == 1) || rest
            > SLACK as u128 {
            whole + 1
        } else {
            whole
        };
        if nanos >= MAX_NANOS {
            Some(Duration::new(u64::MAX, 999_999_999))
        } else {
            let secs: u64 = (nanos / 1_000_000_000) as u64;
            let rest: u32 = (nanos % 1_000_000_000) as u32;
            Some(Duration::new(secs, rest))
        }
    }

    /// Bytes that the bucket holds, with the fraction.
    pub fn tokens(&self) -> (r: ByteAmount)
        ensures
            r@ == self@.balance,
    {
        self.balance
    }

    /// Bytes that accrue per second, with the fraction.
    pub fn fill_bytes_per_sec(&self) -> (r: ByteAmount)
        ensures
            r@ == self@.rate * 1_000_000_000,
    {
        ByteAmount::accrued(self.rate, Duration::from_secs(1))
    }
}

impl Clone for TokenBucket {
    fn clone(&self) -> (r: Self)
        ensures
            r@ == self@,
    {
        proof {
            use_type_invariant(self);
        }
        TokenBucket { rate: self.rate, capacity: self.capacity, balance: self.balance }
    }
}

/// The wait that is reported suffices: once the bucket has been advanced by it, the request can
/// be granted.
pub proof fn law_reported_wait_suffices(b: Bucket, bytes: nat)
    requires
        b.balance <= b.capacity,
        b.ever_affords(bytes),
        !b.affords(bytes),
    ensures
        b.advanced(b.wait_for(bytes) as nat).affords(bytes),
{
    let missing = cost(bytes) - b.balance;
    let n = b.wait_for(bytes);
    let r = b.rate as int;
    vstd::arithmetic::div_mod::lemma_fundamental_div_mod(missing, r);
    vstd::arithmetic::div_mod::lemma_mod_bound(missing, r);
    vstd::arithmetic::div_mod::lemma_div_pos_is_pos(missing, r);
    assert(r * (missing / r + 1) == r * (missing / r) + r) by (nonlinear_arith);
}

/// Up to eight billion bits per second, the wait that is reported is off by half a nanosecond at
/// most.
pub proof fn law_wait_is_the_nearest(b: Bucket, bytes: nat)
    requires
        0 < b.rate <= 2 * SLACK,
        b.balance <= cost(bytes),
    ensures
        -b.rate <= 2 * (cost(bytes) - b.balance - b.rate * b.wait_for(bytes)) <= b.rate,
{
    let missing = cost(bytes) - b.balance;
    let r = b.rate as int;
    vstd::arithmetic::div_mod::lemma_fundamental_div_mod(missing, r);
    vstd::arithmetic::div_mod::lemma_mod_bound(missing, r);
    assert(r * (missing / r + 1) == r * (missing / r) + r) by (nonlinear_arith);
}

/// A request that can never be granted is refused at every time.
pub proof fn law_never_means_never(b: Bucket, bytes: nat, nanos: nat)
    requires
        b.balance <= b.capacity,
        !b.ever_affords(bytes),
    ensures
        !b.advanced(nanos).affords(bytes),
{
    if b.rate == 0 {
        assert(b.rate * nanos == 0) by (nonlinear_arith)
            requires
                b.rate == 0,
        ;
    }
}

/// One thing that happens to a bucket.
pub enum BucketEvent {
    /// Nanoseconds pass.
    Pass(nat),
    /// Bytes are asked for.
    Ask(nat),
}

/// Running totals of a history.
pub struct Totals {
    /// The bucket.
    pub bucket: Bucket,
    /// Bytes granted.
    pub granted: nat,
    /// Requests granted.
    pub grants: nat,
    /// Nanoseconds passed.
    pub nanos: nat,
}

/// The totals after the first `n` events of a history that starts with bucket `b`.
pub open spec fn totals_after(b: Bucket, history: Seq<BucketEvent>, n: int) -> Totals
    decreases n,
{
    if n <= 0 {
        Totals { bucket: b, granted: 0, grants: 0, nanos: 0 }
    } else {
        let t = totals_after(b, history, n - 1);
        match history[n - 1] {
            BucketEvent::Pass(nanos) => Totals {
                bucket: t.bucket.advanced(nanos),
                nanos: t.nanos + nanos,
                ..t
            },
            BucketEvent::Ask(bytes) => if t.bucket.affords(bytes) {
                Totals {
                    bucket: t.bucket.spent(bytes),
                    granted: t.granted + bytes,
                    grants: t.grants + 1,
                    ..t
                }
            } else {
                t
            },
        }
    }
}

/// The sender cannot outrun its budget: at any time, what was granted is at most the burst that
/// the bucket started with plus what accrued since, and half a byte per granted request.
pub proof fn law_grants_stay_within_budget(b: Bucket, history: Seq<BucketEvent>, n: int)
    requires
        b.balance <= b.capacity,
        0 <= n <= history.len(),
    ensures
        ({
            let t = totals_after(b, history, n);
            &&& t.bucket.rate == b.rate && t.bucket.capacity == b.capacity
            &&& t.bucket.balance <= b.capacity
            &&& cost(t.granted) + t.bucket.balance <= b.balance + b.rate * t.nanos + t.grants
                * SLACK
        }),
    decreases n,
{
    if n > 0 {
        law_grants_stay_within_budget(b, history, n - 1);
        let t = totals_after(b, history, n - 1);
        match history[n - 1] {
            BucketEvent::Pass(nanos) => {
                vstd::arithmetic::mul::lemma_mul_is_distributive_add(
                    b.rate as int,
                    t.nanos as int,
                    nanos as int,
                );
                assert(b.rate * nanos >= 0) by (nonlinear_arith);
            },
            BucketEvent::Ask(bytes) => {
                assert(cost(t.granted + bytes) == cost(t.granted) + cost(bytes))
                    by (nonlinear_arith);
                assert((t.grants + 1) * SLACK == t.grants * SLACK + SLACK) by (nonlinear_arith);
            },
        }
    }
}

/// A bucket fills by one eighth of a byte per second and bit of rate, and never beyond its capacity.
/// Two spans one after the other fill it as one span of both lengths does.
pub proof fn law_bucket_fills_at_its_rate(b: Bucket, first: nat, second: nat)
    requires
        b.balance <= b.capacity,
    ensures
        b.advanced(first).rate == b.rate,
        b.advanced(first).capacity == b.capacity,
        b.advanced(0) == b,
        b.balance + b.rate * first <= b.capacity ==> b.advanced(first).balance == b.balance + b.rate
            * first,
        b.balance + b.rate * first > b.capacity ==> b.advanced(first).balance == b.capacity,
        b.advanced(first).advanced(second) == b.advanced(first + second),
{
    vstd::arithmetic::mul::lemma_mul_is_distributive_add(
        b.rate as int,
        first as int,
        second as int,
    );
    assert(b.rate * second >= 0) by (nonlinear_arith);
    assert(b.rate * first >= 0) by (nonlinear_arith);
    assert(b.rate * 0 == 0);
}

/// A request is granted exactly when the bucket holds the bytes, where half a byte may be missing.
/// It costs what it asks for, and leaves rate and capacity as they are.
pub proof fn law_grants_cost_what_they_ask_for(b: Bucket, bytes: nat)
    ensures
        b.affords(bytes) <==> bytes * 8_000_000_000 <= b.balance + 4_000_000_000,
        b.spent(bytes).rate == b.rate,
        b.spent(bytes).capacity == b.capacity,
        bytes * 8_000_000_000 <= b.balance ==> b.spent(bytes).balance == b.balance - bytes
            * 8_000_000_000,
        bytes * 8_000_000_000 > b.balance ==> b.spent(bytes).balance == 0,
{
}

/// A bucket that was full holds one eighth of a byte for each bit of rate and second of burst.
pub proof fn law_capacity_is_the_burst(rate: Bitrate, burst: Duration)
    ensures
        capacity_of(rate, burst) == rate.0 * burst@,
        burst@ == 1_000_000_000 ==> capacity_of(rate, burst) == cost(1) * rate.0 / 8,
{
    assert(rate.0 * 1_000_000_000int == 8_000_000_000 * rate.0 / 8);
    assert(cost(1) == 8_000_000_000);
    assert(rate.0 * burst@ >= 0) by (nonlinear_arith);
}

/// A wait is reported exactly for a request that time can make room for: one that fits into the
/// bucket, where half a byte may be missing, while the bucket fills; and one that is granted now.
pub proof fn law_waits_are_for_what_fits(b: Bucket, bytes: nat)
    ensures
        b.ever_affords(bytes) <==> bytes * 8_000_000_000 <= b.balance + 4_000_000_000 || b.rate > 0
            && bytes * 8_000_000_000 <= b.capacity + 4_000_000_000,
{
}

/// No wait is reported that could be shorter by more than a nanosecond and half a byte's time: just
/// before it, the bucket does not hold all the bytes yet.
pub proof fn law_reported_wait_is_needed(b: Bucket, bytes: nat)
    requires
        b.rate > 0,
        b.balance <= b.capacity,
        cost(bytes) > b.balance,
        b.wait_for(bytes) >= 1,
    ensures
        b.advanced((b.wait_for(bytes) - 1) as nat).balance < cost(bytes),
{
    let missing = cost(bytes) - b.balance;
    let r = b.rate as int;
    let n = b.wait_for(bytes);
    vstd::arithmetic::div_mod::lemma_fundamental_div_mod(missing, r);
    vstd::arithmetic::div_mod::lemma_mod_bound(missing, r);
    vstd::arithmetic::div_mod::lemma_div_pos_is_pos(missing, r);
    assert(r * (missing / r - 1) == r * (missing / r) - r) by (nonlinear_arith);
    if n == missing / r + 1 {
        assert(missing % r > 0);
    }
}

/// A wait is as short as it can be, or nearer to the exact time than one nanosecond less is; and of
/// two whole nanoseconds that are equally near, both of which do, it is the even one.
pub proof fn law_reported_wait_is_the_shortest_or_nearest(b: Bucket, bytes: nat)
    requires
        b.rate > 0,
        b.balance <= cost(bytes),
    ensures
        ({
            let missing = cost(bytes) - b.balance;
            let n = b.wait_for(bytes);
            &&& missing - b.rate * n <= SLACK
            &&& 2 * (missing - b.rate * (n - 1)) >= b.rate || missing - b.rate * (n - 1) > SLACK
            &&& 2 * (missing - b.rate * n) == b.rate ==> n % 2 == 0
            &&& 2 * (missing - b.rate * (n - 1)) == b.rate && missing - b.rate * (n - 1) <= SLACK
                ==> n % 2 == 0
            &&& 2 * (missing - b.rate * n) <= b.rate
        }),
        SLACK == 4_000_000_000,
        UNITS_PER_BYTE == 8_000_000_000,
        cost(bytes) == bytes * 8_000_000_000,
{
    let missing = cost(bytes) - b.balance;
    let r = b.rate as int;
    let q = missing / r;
    vstd::arithmetic::div_mod::lemma_fundamental_div_mod(missing, r);
    vstd::arithmetic::div_mod::lemma_mod_bound(missing, r);
    assert(r * (q + 1) == r * q + r) by (nonlinear_arith);
    assert(r * (q - 1) == r * q - r) by (nonlinear_arith);
    assert(r * ((q + 1) - 1) == r * q) by (nonlinear_arith);
}

} // verus!
