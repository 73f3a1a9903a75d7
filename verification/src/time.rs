//! Time spans, and the wall clock.
use vstd::prelude::*;

verus! {

/// Nanoseconds in a second.
pub const NANOS_PER_SEC: u128 = 1_000_000_000;

/// Nanoseconds in a millisecond.
pub const NANOS_PER_MILLI: u128 = 1_000_000;

/// The longest span: `u64::MAX` seconds and 999,999,999 nanoseconds.
pub const MAX_NANOS: u128 = 18_446_744_073_709_551_615_999_999_999;

/// The number of values of a `u64`.
pub const U64_RANGE: u128 = 18_446_744_073_709_551_616;

/// A span of time, in whole nanoseconds.
#[derive(Debug, Clone, Copy, PartialEq, Eq, Structural)]
pub struct Duration {
    nanos: u128,
}

impl View for Duration {
    type V = nat;

    closed spec fn view(&self) -> nat {
        self.nanos as nat
    }
}

/// The smaller of two numbers.
pub open spec fn min_nat(a: nat, b: nat) -> nat {
    if a <= b {
        a
    } else {
        b
    }
}

impl Duration {
    /// The span does not exceed the longest one.
    pub open spec fn wf(&self) -> bool {
        self@ <= MAX_NANOS
    }

    /// The empty span.
    pub fn zero() -> (r: Self)
        ensures
            r.wf(),
            r@ == 0,
    {
        Duration { nanos: 0 }
    }

    /// A span of whole seconds.
    pub fn from_secs(secs: u64) -> (r: Self)
        ensures
            r.wf(),
            r@ == secs * NANOS_PER_SEC,
    {
        Duration { nanos: secs as u128 * NANOS_PER_SEC }
    }

    /// A span of whole milliseconds.
    pub fn from_millis(ms: u64) -> (r: Self)
        ensures
            r.wf(),
            r@ == ms * NANOS_PER_MILLI,
    {
        Duration { nanos: ms as u128 * NANOS_PER_MILLI }
    }

    /// A span of whole nanoseconds.
    pub fn from_nanos(ns: u64) -> (r: Self)
        ensures
            r.wf(),
            r@ == ns,
    {
        Duration { nanos: ns as u128 }
    }

    /// A span of nanoseconds, or the longest one where that does not fit.
    pub fn saturating_from_nanos(ns: u128) -> (r: Self)
        ensures
            r.wf(),
            r@ == min_nat(ns as nat, MAX_NANOS as nat),
    {
        if ns <= MAX_NANOS {
            Duration { nanos: ns }
        } else {
            Duration { nanos: MAX_NANOS }
        }
    }

    /// The span of `secs` seconds and `subsec` nanoseconds.
    pub fn from_parts(secs: u64, subsec: u32) -> (r: Self)
        requires
            subsec < NANOS_PER_SEC,
        ensures
            r.wf(),
            r@ == secs * NANOS_PER_SEC + subsec,
    {
        Duration { nanos: secs as u128 * NANOS_PER_SEC + subsec as u128 }
    }

    /// The span in nanoseconds.
    pub fn as_nanos(&self) -> (r: u128)
        ensures
            r == self@,
    {
        self.nanos
    }

    /// The span in whole milliseconds, rounded down.
    pub fn as_millis(&self) -> (r: u128)
        ensures
            r == self@ / (NANOS_PER_MILLI as nat),
    {
        self.nanos / NANOS_PER_MILLI
    }

    /// Whether the span is empty.
    pub fn is_zero(&self) -> (r: bool)
        ensures
            r == (self@ == 0),
    {
        self.nanos == 0
    }

    /// The span `k` times over, or the longest one where that does not fit.
    pub fn saturating_mul(&self, k: u32) -> (r: Self)
        requires
            self.wf(),
        ensures
            r.wf(),
            r@ == min_nat(self@ * k as nat, MAX_NANOS as nat),
    {
        match self.nanos.checked_mul(k as u128) {
            Some(n) => {
                if n <= MAX_NANOS {
                    Duration { nanos: n }
                } else {
                    Duration { nanos: MAX_NANOS }
                }
            },
            None => Duration { nanos: MAX_NANOS },
        }
    }

    /// The shorter of the two spans.
    pub fn shorter(&self, other: &Duration) -> (r: Self)
        requires
            self.wf(),
            other.wf(),
        ensures
            r.wf(),
            r@ == min_nat(self@, other@),
    {
        if self.nanos <= other.nanos {
            *self
        } else {
            *other
        }
    }
}

/// The low 64 bits of `n`.
pub fn low_u64(n: u128) -> (r: u64)
    ensures
        r == n % U64_RANGE,
{
    (n % U64_RANGE) as u64
}

/// The time since 1970-01-01 00:00 UTC as seconds and nanoseconds, from
/// `std::time::SystemTime::elapsed` on `UNIX_EPOCH`; `None` where the clock
/// stands before that moment. The claim is only that the nanoseconds make up
/// less than a second: what the clock shows is not stated.
#[verifier::external_body]
fn elapsed_since_epoch() -> (r: Option<(u64, u32)>)
    ensures
        r matches Some(p) ==> p.1 < 1_000_000_000,
{
    std::time::UNIX_EPOCH.elapsed().ok().map(|d| (d.as_secs(), d.subsec_nanos()))
}

/// Milliseconds since 1970 for a clock reading: zero for a clock that stands
/// before it, and the low 64 bits of what does not fit.
pub open spec fn epoch_millis(reading: Option<(u64, u32)>) -> nat {
    match reading {
        Some((secs, subsec)) => (secs as nat * 1000 + subsec as nat / 1_000_000) % (
        U64_RANGE as nat),
        None => 0,
    }
}

/// Nanoseconds since 1970 for a clock reading.
pub open spec fn epoch_nanos(reading: Option<(u64, u32)>) -> nat {
    match reading {
        Some((secs, subsec)) => secs as nat * 1_000_000_000 + subsec as nat,
        None => 0,
    }
}

/// The milliseconds since 1970 of a clock reading.
pub fn millis_of(reading: Option<(u64, u32)>) -> (r: u64)
    ensures
        r == epoch_millis(reading),
{
    match reading {
        Some((secs, subsec)) => low_u64(secs as u128 * 1000 + (subsec / 1_000_000) as u128),
        None => 0,
    }
}

/// The nanoseconds since 1970 of a clock reading.
pub fn nanos_of(reading: Option<(u64, u32)>) -> (r: u128)
    ensures
        r == epoch_nanos(reading),
{
    match reading {
        Some((secs, subsec)) => secs as u128 * 1_000_000_000 + subsec as u128,
        None => 0,
    }
}

/// The wall clock, in milliseconds since 1970.
pub fn wall_clock_ms() -> (r: u64)
    ensures
        exists|reading: Option<(u64, u32)>| r == epoch_millis(reading),
{
    let reading = elapsed_since_epoch();
    millis_of(reading)
}

/// The wall clock, in nanoseconds since 1970.
pub fn wall_clock_nanos() -> (r: u128)
    ensures
        exists|reading: Option<(u64, u32)>| r == epoch_nanos(reading),
{
    let reading = elapsed_since_epoch();
    nanos_of(reading)
}

/// Spans are made of whole seconds, milliseconds and nanoseconds, and read back in
/// nanoseconds and in whole milliseconds.
pub proof fn law_spans_are_read_back(
    n: u64,
    subsec: u32,
    empty: Duration,
    secs: Duration,
    millis: Duration,
    nanos: Duration,
    parts: Duration,
    in_millis: u128,
    in_nanos: u128,
    none: bool,
)
    requires
        call_ensures(Duration::zero, (), empty),
        call_ensures(Duration::from_secs, (n,), secs),
        call_ensures(Duration::from_millis, (n,), millis),
        call_ensures(Duration::from_nanos, (n,), nanos),
        call_ensures(Duration::from_parts, (n, subsec), parts),
        call_ensures(Duration::as_millis, (&millis,), in_millis),
        call_ensures(Duration::as_nanos, (&parts,), in_nanos),
        call_ensures(Duration::is_zero, (&nanos,), none),
    ensures
        empty@ == 0,
        secs@ == n * 1_000_000_000,
        millis@ == n * 1_000_000,
        nanos@ == n,
        in_millis == n,
        in_nanos == n * 1_000_000_000 + subsec,
        none <==> n == 0,
{
    assert((n * 1_000_000) / 1_000_000 == n);
}

/// The shorter of two spans is one of them and not longer than either; a span many
/// times over is the product as long as that fits, and else the longest one.
pub proof fn law_spans_are_compared_and_multiplied(
    a: &Duration,
    b: &Duration,
    k: u32,
    least: Duration,
    product: Duration,
    n: u128,
    capped: Duration,
)
    requires
        call_ensures(Duration::shorter, (a, b), least),
        call_ensures(Duration::saturating_mul, (a, k), product),
        call_ensures(Duration::saturating_from_nanos, (n,), capped),
    ensures
        least@ <= a@ && least@ <= b@,
        least@ == a@ || least@ == b@,
        a@ * k <= 18_446_744_073_709_551_615_999_999_999 ==> product@ == a@ * k,
        a@ * k > 18_446_744_073_709_551_615_999_999_999 ==> product@
            == 18_446_744_073_709_551_615_999_999_999,
        n <= 18_446_744_073_709_551_615_999_999_999 ==> capped@ == n,
        n > 18_446_744_073_709_551_615_999_999_999 ==> capped@
            == 18_446_744_073_709_551_615_999_999_999,
{
}

/// A clock reading as milliseconds and as nanoseconds since 1970: seconds and what
/// is beyond them together, and nothing for a clock that stands before that moment.
pub proof fn law_clock_readings_are_converted(
    secs: u64,
    subsec: u32,
    ms: u64,
    ns: u128,
    no_ms: u64,
    no_ns: u128,
)
    requires
        call_ensures(millis_of, (Some((secs, subsec)),), ms),
        call_ensures(nanos_of, (Some((secs, subsec)),), ns),
        call_ensures(millis_of, (None,), no_ms),
        call_ensures(nanos_of, (None,), no_ns),
    ensures
        secs * 1000 + subsec / 1_000_000 <= u64::MAX ==> ms == secs * 1000 + subsec / 1_000_000,
        ns == secs * 1_000_000_000 + subsec,
        no_ms == 0,
        no_ns == 0,
{
    let total = secs as nat * 1000 + subsec as nat / 1_000_000;
    if total <= u64::MAX {
        assert(total % 18_446_744_073_709_551_616 == total);
    }
}

/// Keeping 64 bits of what fits in them keeps it.
pub proof fn law_low_bits_of_what_fits(n: u128, r: u64)
    requires
        call_ensures(low_u64, (n,), r),
    ensures
        n <= u64::MAX ==> r == n,
        n > u64::MAX ==> (n - r) % 18_446_744_073_709_551_616 == 0,
{
    if n <= u64::MAX {
        assert(n % 18_446_744_073_709_551_616 == n);
    } else {
        let m = n as int;
        let d: int = 18_446_744_073_709_551_616;
        vstd::arithmetic::div_mod::lemma_fundamental_div_mod(m, d);
        assert(m - r == d * (m / d));
        vstd::arithmetic::div_mod::lemma_mod_multiples_basic(m / d, d);
        assert(d * (m / d) == (m / d) * d) by (nonlinear_arith);
    }
}

} // verus!
