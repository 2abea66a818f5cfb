//! Rates and percentages derived from two readings of a cumulative counter,
//! and the combinators that aggregate optional values.

use vstd::prelude::*;
use vstd::std_specs::ops::AddSpec;
use vstd::std_specs::ops::MulSpec;

verus! {

/// The time between two samples.
#[derive(Clone, Copy, PartialEq, Eq, Structural, Debug)]
pub struct Elapsed {
    /// Whole seconds.
    pub secs: u64,
    /// The part below a second, in nanoseconds.
    pub nanos: u32,
}

impl Elapsed {
    /// The whole time in nanoseconds.
    pub open spec fn total_nanos(self) -> int {
        self.secs * 1_000_000_000 + self.nanos
    }

    /// The whole time in microseconds, rounded down.
    pub open spec fn total_micros(self) -> int {
        self.total_nanos() / 1000
    }

    /// A time of whole seconds.
    pub fn from_secs(secs: u64) -> (r: Elapsed)
        ensures
            r == (Elapsed { secs, nanos: 0 }),
    {
        Elapsed { secs, nanos: 0 }
    }

    /// The time from one reading of a clock of microseconds to a later
    /// one; no time at all should the clock have gone back.
    pub open spec fn between(earlier: u64, later: u64) -> Elapsed {
        if earlier <= later {
            Elapsed {
                secs: ((later - earlier) / 1_000_000) as u64,
                nanos: (((later - earlier) % 1_000_000) * 1000) as u32,
            }
        } else {
            Elapsed { secs: 0, nanos: 0 }
        }
    }

    /// The time between two readings of a clock that counts microseconds
    /// and never runs backwards; no time where `later` is the earlier one.
    pub fn between_micros(earlier: u64, later: u64) -> (r: Elapsed)
        ensures
            r == Elapsed::between(earlier, later),
            earlier <= later ==> r.total_micros() == later - earlier,
            earlier <= later ==> r.total_nanos() == (later - earlier) * 1000,
    {
        if earlier > later {
            return Elapsed { secs: 0, nanos: 0 };
        }
        let micros: u64 = later - earlier;
        let below: u64 = micros % 1_000_000;
        Elapsed { secs: micros / 1_000_000, nanos: (below * 1000) as u32 }
    }

    /// The whole time in nanoseconds.
    pub fn as_nanos(&self) -> (r: u128)
        ensures
            r == self.total_nanos(),
    {
        (self.secs as u128) * 1_000_000_000 + (self.nanos as u128)
    }

    /// The whole time in microseconds, rounded down.
    pub fn as_micros(&self) -> (r: u128)
        ensures
            r == self.total_micros(),
    {
        (self.secs as u128) * 1_000_000 + (self.nanos as u128) / 1000
    }
}

/// The quotient of a counter's growth and the time it took, kept exact as
/// numerator and denominator. The denominator is zero where no time passed.
#[derive(Clone, Copy, PartialEq, Eq, Structural, Debug)]
pub struct Ratio {
    pub num: u128,
    pub den: u128,
}

impl Ratio {
    /// Whether this ratio is the quotient `n / d`.
    pub open spec fn is_quotient(self, n: int, d: int) -> bool {
        self.num * d == n * self.den
    }
}

/// A numerator that would not fit stays at the largest one that does.
pub open spec fn clamped(n: int) -> u128 {
    if n > u128::MAX {
        u128::MAX
    } else {
        n as u128
    }
}

/// The sum of two ratios over the same denominator, which is that of the
/// left operand.
impl std::ops::Add for Ratio {
    type Output = Ratio;

    fn add(self, rhs: Ratio) -> (r: Ratio) {
        let num = if self.num > u128::MAX - rhs.num {
            u128::MAX
        } else {
            self.num + rhs.num
        };
        Ratio { num, den: self.den }
    }
}

impl vstd::std_specs::ops::AddSpecImpl for Ratio {
    open spec fn obeys_add_spec() -> bool {
        true
    }

    open spec fn add_req(self, rhs: Ratio) -> bool {
        true
    }

    open spec fn add_spec(self, rhs: Ratio) -> Ratio {
        Ratio { num: clamped(self.num + rhs.num), den: self.den }
    }
}

/// A ratio weighted by a whole factor.
impl std::ops::Mul<u64> for Ratio {
    type Output = Ratio;

    fn mul(self, rhs: u64) -> (r: Ratio) {
        let num = match self.num.checked_mul(rhs as u128) {
            Some(num) => num,
            None => u128::MAX,
        };
        Ratio { num, den: self.den }
    }
}

impl vstd::std_specs::ops::MulSpecImpl<u64> for Ratio {
    open spec fn obeys_mul_spec() -> bool {
        true
    }

    open spec fn mul_req(self, rhs: u64) -> bool {
        true
    }

    open spec fn mul_spec(self, rhs: u64) -> Ratio {
        Ratio { num: clamped(self.num * rhs), den: self.den }
    }
}

/// How far a counter moved between two readings: defined where both
/// readings are there and the counter did not go back.
pub open spec fn counter_delta(a: Option<u64>, b: Option<u64>) -> Option<int> {
    match (a, b) {
        (Some(a), Some(b)) => if a <= b {
            Some(b - a)
        } else {
            None
        },
        _ => None,
    }
}

/// The share of the elapsed time, in percent, that a counter of
/// microseconds accounts for: its growth times 100 over the elapsed
/// microseconds.
pub open spec fn usec_pct_spec(a: Option<u64>, b: Option<u64>, delta: Elapsed) -> Option<Ratio> {
    match counter_delta(a, b) {
        Some(d) => Some(Ratio { num: (d * 100) as u128, den: delta.total_micros() as u128 }),
        None => None,
    }
}

/// The growth of a counter per second: its growth over the elapsed time,
/// both scaled to nanoseconds.
pub open spec fn count_per_sec_spec(a: Option<u64>, b: Option<u64>, delta: Elapsed) -> Option<
    Ratio,
> {
    match counter_delta(a, b) {
        Some(d) => Some(Ratio { num: (d * 1_000_000_000) as u128, den: delta.total_nanos() as u128 }),
        None => None,
    }
}

/// A ratio rounded up to a whole number that fits 64 bits. Over no time at
/// all anything that grew did so without bound, and nothing stays nothing.
pub open spec fn ceil_of(ratio: Ratio) -> int {
    if ratio.den == 0 {
        if ratio.num == 0 {
            0
        } else {
            u64::MAX as int
        }
    } else {
        let down = ratio.num / ratio.den;
        let up = if ratio.num % ratio.den == 0 {
            down as int
        } else {
            down + 1
        };
        if up > u64::MAX {
            u64::MAX as int
        } else {
            up
        }
    }
}

/// A ratio rounded down to a whole number that fits 64 bits, with the same
/// values over no time as `ceil_of`.
pub open spec fn floor_of(ratio: Ratio) -> int {
    if ratio.den == 0 {
        if ratio.num == 0 {
            0
        } else {
            u64::MAX as int
        }
    } else {
        let down = ratio.num / ratio.den;
        if down > u64::MAX {
            u64::MAX as int
        } else {
            down as int
        }
    }
}

/// The sum of two optional operands in which a missing operand counts as
/// the additive identity.
pub open spec fn opt_add_spec<T: std::ops::Add<T, Output = T>>(a: Option<T>, b: Option<T>) -> Option<
    T,
> {
    match (a, b) {
        (Some(x), Some(y)) => Some(x.add_spec(y)),
        (Some(x), None) => Some(x),
        (None, Some(y)) => Some(y),
        (None, None) => None,
    }
}

/// The product of two optional operands, absent as soon as one operand is.
pub open spec fn opt_multiply_spec<S: std::ops::Mul<T, Output = S>, T>(
    a: Option<S>,
    b: Option<T>,
) -> Option<S> {
    match (a, b) {
        (Some(x), Some(y)) => Some(x.mul_spec(y)),
        _ => None,
    }
}

/// Adds two optional values; one missing contributor does not blank the sum.
pub fn opt_add<T: std::ops::Add<T, Output = T>>(a: Option<T>, b: Option<T>) -> (r: Option<T>)
    requires
        a is Some && b is Some ==> a->0.add_req(b->0),
    ensures
        T::obeys_add_spec() ==> r == opt_add_spec(a, b),
        r is None <==> a is None && b is None,
        b is None ==> r == a,
        a is None ==> r == b,
{
    match (a, b) {
        (Some(a), Some(b)) => Some(a + b),
        (Some(a), None) => Some(a),
        (None, Some(b)) => Some(b),
        _ => None,
    }
}

/// Multiplies two optional values; a missing operand makes the product
/// absent.
pub fn opt_multiply<S: Sized + std::ops::Mul<T, Output = S>, T: Sized>(
    a: Option<S>,
    b: Option<T>,
) -> (r: Option<S>)
    requires
        a is Some && b is Some ==> a->0.mul_req(b->0),
    ensures
        S::obeys_mul_spec() ==> r == opt_multiply_spec(a, b),
        r is Some <==> a is Some && b is Some,
{
    match (a, b) {
        (Some(x), Some(y)) => Some(x * y),
        _ => None,
    }
}

/// The percentage of the elapsed time that a counter of microseconds grew
/// by, absent where a reading is missing or the counter went back.
pub fn usec_pct(a_opt: Option<u64>, b_opt: Option<u64>, delta: Elapsed) -> (r: Option<Ratio>)
    ensures
        r == usec_pct_spec(a_opt, b_opt, delta),
{
    let mut ret = None;
    if let (Some(a), Some(b)) = (a_opt, b_opt) {
        if a <= b {
            ret = Some(Ratio { num: ((b - a) as u128) * 100, den: delta.as_micros() });
        }
    }
    ret
}

/// The growth of a counter per second, absent where a reading is missing
/// or the counter went back.
pub fn count_per_sec(a_opt: Option<u64>, b_opt: Option<u64>, delta: Elapsed) -> (r: Option<Ratio>)
    ensures
        r == count_per_sec_spec(a_opt, b_opt, delta),
{
    let mut ret = None;
    if let (Some(a), Some(b)) = (a_opt, b_opt) {
        if a <= b {
            ret = Some(Ratio { num: ((b - a) as u128) * 1_000_000_000, den: delta.as_nanos() });
        }
    }
    ret
}

/// Rounds a ratio up to a whole number of 64 bits.
pub fn ratio_ceil(ratio: Ratio) -> (r: u64)
    ensures
        r == ceil_of(ratio),
{
    if ratio.den == 0 {
        if ratio.num == 0 {
            0
        } else {
            u64::MAX
        }
    } else {
        let down: u128 = ratio.num / ratio.den;
        if down >= u64::MAX as u128 {
            u64::MAX
        } else if ratio.num % ratio.den == 0 {
            down as u64
        } else {
            (down + 1) as u64
        }
    }
}

/// Rounds a ratio down to a whole number of 64 bits.
pub fn ratio_floor(ratio: Ratio) -> (r: u64)
    ensures
        r == floor_of(ratio),
{
    if ratio.den == 0 {
        if ratio.num == 0 {
            0
        } else {
            u64::MAX
        }
    } else {
        let down: u128 = ratio.num / ratio.den;
        if down > u64::MAX as u128 {
            u64::MAX
        } else {
            down as u64
        }
    }
}

/// The growth of a counter per second as a whole number, rounded up.
pub fn count_per_sec_ceil(a_opt: Option<u64>, b_opt: Option<u64>, delta: Elapsed) -> (r: Option<
    u64,
>)
    ensures
        r == match count_per_sec_spec(a_opt, b_opt, delta) {
            Some(ratio) => Some(ceil_of(ratio) as u64),
            None => None,
        },
{
    match count_per_sec(a_opt, b_opt, delta) {
        Some(ratio) => Some(ratio_ceil(ratio)),
        None => None,
    }
}

/// The growth per second of a counter that the older sample may lack
/// altogether, as a whole number, rounded down. Without an older sample
/// there is no rate.
pub fn get_option_rate(sample: Option<u64>, last: Option<(Option<u64>, Elapsed)>) -> (r: Option<
    u64,
>)
    ensures
        r == match last {
            Some((l, d)) => match count_per_sec_spec(l, sample, d) {
                Some(ratio) => Some(floor_of(ratio) as u64),
                None => None,
            },
            None => None,
        },
{
    match last {
        Some((l, d)) => match count_per_sec(l, sample, d) {
            Some(ratio) => Some(ratio_floor(ratio)),
            None => None,
        },
        None => None,
    }
}

/// For a counter that went from `a` to `b`, `a <= b`, over `d` whole
/// seconds, the derived rate is the quotient `(b - a) / d`.
pub proof fn rate_is_growth_over_time(a: u64, b: u64, d: u64)
    requires
        a <= b,
    ensures
        count_per_sec_spec(Some(a), Some(b), Elapsed { secs: d, nanos: 0 }) matches Some(rate)
            && rate.is_quotient(b - a, d as int) && (d > 0 ==> rate.den > 0),
{
    let rate = count_per_sec_spec(Some(a), Some(b), Elapsed { secs: d, nanos: 0 })->0;
    assert(rate.num == (b - a) * 1_000_000_000);
    assert(rate.den == d * 1_000_000_000);
    assert(((b - a) * 1_000_000_000) * d == (b - a) * (d * 1_000_000_000)) by (nonlinear_arith);
}

/// Over `d > 0` whole seconds, the rate as a whole number is the growth
/// divided by `d`, rounded up.
pub proof fn whole_rate_is_growth_over_time(a: u64, b: u64, d: u64)
    requires
        a <= b,
        d > 0,
    ensures
        count_per_sec_spec(Some(a), Some(b), Elapsed { secs: d, nanos: 0 }) matches Some(rate)
            && ceil_of(rate) == ((b - a) + d - 1) / (d as int),
{
    let rate = count_per_sec_spec(Some(a), Some(b), Elapsed { secs: d, nanos: 0 })->0;
    let growth = b - a;
    let scale = 1_000_000_000int;
    assert(rate.num == growth * scale);
    assert(rate.den == d * scale);
    lemma_ceil_scaled(growth, d as int, scale);
    let up = (growth + d - 1) / (d as int);
    assert(up <= growth) by (nonlinear_arith)
        requires
            up == (growth + d - 1) / (d as int),
            d >= 1,
            growth >= 0,
    ;
}

/// Scaling both sides of a quotient changes neither the quotient nor
/// whether it leaves a remainder, and rounding up adds one where it does.
proof fn lemma_ceil_scaled(n: int, d: int, k: int)
    requires
        n >= 0,
        d > 0,
        k > 0,
    ensures
        (n * k) / (d * k) == n / d,
        ((n * k) % (d * k) == 0) == (n % d == 0),
        (n + d - 1) / d == if n % d == 0 {
            n / d
        } else {
            n / d + 1
        },
{
    let q = n / d;
    let r = n % d;
    vstd::arithmetic::div_mod::lemma_fundamental_div_mod(n, d);
    // n == d * q + r, with 0 <= r < d
    assert(n * k == q * (d * k) + r * k) by (nonlinear_arith)
        requires
            n == d * q + r,
    ;
    assert(0 <= r * k < d * k && (r * k == 0) == (r == 0)) by (nonlinear_arith)
        requires
            0 <= r < d,
            k > 0,
    ;
    assert(d * k > 0) by (nonlinear_arith)
        requires
            d > 0,
            k > 0,
    ;
    vstd::arithmetic::div_mod::lemma_fundamental_div_mod_converse(n * k, d * k, q, r * k);
    if r == 0 {
        assert(n + d - 1 == q * d + (d - 1)) by (nonlinear_arith)
            requires
                n == d * q + r,
                r == 0,
        ;
        vstd::arithmetic::div_mod::lemma_fundamental_div_mod_converse(n + d - 1, d, q, d - 1);
    } else {
        assert(n + d - 1 == (q + 1) * d + (r - 1)) by (nonlinear_arith)
            requires
                n == d * q + r,
        ;
        vstd::arithmetic::div_mod::lemma_fundamental_div_mod_converse(n + d - 1, d, q + 1, r - 1);
    }
}

/// The rates of two counters over the same time add up to the rate of
/// their growth taken together: nothing is lost in the sum.
pub proof fn rates_over_the_same_time_add_up(a1: u64, b1: u64, a2: u64, b2: u64, delta: Elapsed)
    requires
        a1 <= b1,
        a2 <= b2,
    ensures
        opt_add_spec(
            count_per_sec_spec(Some(a1), Some(b1), delta),
            count_per_sec_spec(Some(a2), Some(b2), delta),
        ) == Some(
            Ratio {
                num: (((b1 - a1) + (b2 - a2)) * 1_000_000_000) as u128,
                den: delta.total_nanos() as u128,
            },
        ),
{
}

/// A counter that went back has no rate and no percentage: the derived
/// value is absent, never negative.
pub proof fn regressed_counter_has_no_rate(a: u64, b: u64, delta: Elapsed)
    requires
        a > b,
    ensures
        count_per_sec_spec(Some(a), Some(b), delta) is None,
        usec_pct_spec(Some(a), Some(b), delta) is None,
{
}

} // verus!
