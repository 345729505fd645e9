use vstd::arithmetic::div_mod::{lemma_div_is_ordered_by_denominator, lemma_fundamental_div_mod};
use vstd::prelude::*;
use zxcvbn::time_estimates::CrackTimeSeconds as RawCrackTime;

verus! {

/// A number of seconds, held exactly as `numerator / denominator`.
#[derive(Clone, Copy, Debug, PartialEq, Eq, Structural)]
pub struct Seconds {
    pub numerator: u128,
    pub denominator: u64,
}

impl Seconds {
    /// The denominator is never zero.
    pub open spec fn wf(self) -> bool {
        self.denominator > 0
    }

    /// The whole seconds, rounded down.
    pub open spec fn whole(self) -> nat {
        self.numerator as nat / self.denominator as nat
    }

    /// `self` is at most `other`, compared as fractions.
    pub open spec fn le(self, other: Seconds) -> bool {
        self.numerator * other.denominator <= other.numerator * self.denominator
    }
}

/// The time each attack scenario needs to make the estimated guesses.
#[derive(Clone, Copy, Debug)]
pub struct CrackTimesSeconds {
    pub offline_fast_hashing_1e10_per_second: Seconds,
    pub offline_slow_hashing_1e4_per_second: Seconds,
    pub online_no_throttling_10_per_second: Seconds,
    pub online_throttling_100_per_hour: Seconds,
}

/// The same times as `CrackTimesSeconds`, as text such as "3 hours".
#[derive(Clone, Debug)]
pub struct CrackTimesDisplay {
    pub offline_fast_hashing_1e10_per_second: String,
    pub offline_slow_hashing_1e4_per_second: String,
    pub online_no_throttling_10_per_second: String,
    pub online_throttling_100_per_hour: String,
}

pub const FAST_HASHING_PER_SECOND: u64 = 10_000_000_000;

pub const SLOW_HASHING_PER_SECOND: u64 = 10_000;

pub const UNTHROTTLED_PER_SECOND: u64 = 10;

/// 100 guesses an hour is one guess every 36 seconds.
pub const THROTTLED_SECONDS_PER_GUESS: u64 = 36;

pub const MINUTE: u64 = 60;

pub const HOUR: u64 = 3_600;

pub const DAY: u64 = 86_400;

/// Thirty-one days.
pub const MONTH: u64 = 2_678_400;

/// Twelve months.
pub const YEAR: u64 = 32_140_800;

/// A hundred years.
pub const CENTURY: u64 = 3_214_080_000;

/// Seconds that `guesses` take at `per_second` guesses a second.
pub open spec fn at_rate(guesses: nat, per_second: nat) -> Seconds {
    Seconds { numerator: guesses as u128, denominator: per_second as u64 }
}

/// The four scenario times for a guess count.
pub open spec fn crack_times_of(guesses: nat) -> CrackTimesSeconds {
    CrackTimesSeconds {
        offline_fast_hashing_1e10_per_second: at_rate(guesses, FAST_HASHING_PER_SECOND as nat),
        offline_slow_hashing_1e4_per_second: at_rate(guesses, SLOW_HASHING_PER_SECOND as nat),
        online_no_throttling_10_per_second: at_rate(guesses, UNTHROTTLED_PER_SECOND as nat),
        online_throttling_100_per_hour: Seconds {
            numerator: (guesses * THROTTLED_SECONDS_PER_GUESS) as u128,
            denominator: 1,
        },
    }
}

/// The scenarios are ordered from the fastest attacker to the slowest.
pub open spec fn ordered(t: CrackTimesSeconds) -> bool {
    t.offline_fast_hashing_1e10_per_second.le(t.offline_slow_hashing_1e4_per_second)
        && t.offline_slow_hashing_1e4_per_second.le(t.online_no_throttling_10_per_second)
        && t.online_no_throttling_10_per_second.le(t.online_throttling_100_per_hour)
}

/// The decimal digits of `n`, without leading zeros.
pub open spec fn decimal(n: nat) -> Seq<char>
    decreases n,
{
    if n < 10 {
        seq!["0123456789"@[n as int]]
    } else {
        decimal(n / 10) + seq!["0123456789"@[(n % 10) as int]]
    }
}

/// The unit a duration is shown in: 0 for under a second, then seconds,
/// minutes, hours, days, months, years, and 7 for centuries.
pub open spec fn duration_unit(s: nat) -> nat {
    if s < 1 {
        0
    } else if s < MINUTE {
        1
    } else if s < HOUR {
        2
    } else if s < DAY {
        3
    } else if s < MONTH {
        4
    } else if s < YEAR {
        5
    } else if s < CENTURY {
        6
    } else {
        7
    }
}

/// Seconds in one of the counted units 1 to 6.
pub open spec fn unit_seconds(u: nat) -> nat {
    if u == 1 {
        1
    } else if u == 2 {
        MINUTE as nat
    } else if u == 3 {
        HOUR as nat
    } else if u == 4 {
        DAY as nat
    } else if u == 5 {
        MONTH as nat
    } else {
        YEAR as nat
    }
}

/// The name of one of the counted units 1 to 6, singular.
pub open spec fn unit_name(u: nat) -> Seq<char> {
    if u == 1 {
        "second"@
    } else if u == 2 {
        "minute"@
    } else if u == 3 {
        "hour"@
    } else if u == 4 {
        "day"@
    } else if u == 5 {
        "month"@
    } else {
        "year"@
    }
}

/// A duration of `s` whole seconds as text: "less than a second", a count of
/// whole units with the unit's name ("1 hour", "5 days"), or "centuries".
pub open spec fn duration_text(s: nat) -> Seq<char> {
    let u = duration_unit(s);
    if u == 0 {
        "less than a second"@
    } else if u == 7 {
        "centuries"@
    } else {
        let count = s / unit_seconds(u);
        decimal(count) + " "@ + unit_name(u) + if count > 1 { "s"@ } else { ""@ }
    }
}

/// Relies on zxcvbn's `Display` for `CrackTimeSeconds` on a whole number of
/// seconds: it picks the largest unit that fits, and writes the count of whole
/// units with the unit's name.
#[verifier::external_body]
fn duration_string(seconds: u64) -> (r: String)
    ensures
        r@ == duration_text(seconds as nat),
{
    RawCrackTime::Integer(seconds).to_string()
}

impl Seconds {
    /// The time as text, from its whole seconds.
    pub fn to_display(&self) -> (r: String)
        requires
            self.wf(),
        ensures
            r@ == duration_text(self.whole()),
    {
        let whole: u128 = self.numerator / (self.denominator as u128);
        if whole > u64::MAX as u128 {
            duration_string(u64::MAX)
        } else {
            duration_string(whole as u64)
        }
    }
}

/// The four scenario times for `guesses`, exactly.
pub fn project_seconds(guesses: u64) -> (r: CrackTimesSeconds)
    ensures
        r == crack_times_of(guesses as nat),
{
    CrackTimesSeconds {
        offline_fast_hashing_1e10_per_second: Seconds {
            numerator: guesses as u128,
            denominator: FAST_HASHING_PER_SECOND,
        },
        offline_slow_hashing_1e4_per_second: Seconds {
            numerator: guesses as u128,
            denominator: SLOW_HASHING_PER_SECOND,
        },
        online_no_throttling_10_per_second: Seconds {
            numerator: guesses as u128,
            denominator: UNTHROTTLED_PER_SECOND,
        },
        online_throttling_100_per_hour: Seconds {
            numerator: guesses as u128 * THROTTLED_SECONDS_PER_GUESS as u128,
            denominator: 1,
        },
    }
}

/// Whether each text is the display of the matching time.
pub open spec fn displays(t: CrackTimesSeconds, d: CrackTimesDisplay) -> bool {
    &&& d.offline_fast_hashing_1e10_per_second@ == duration_text(t.offline_fast_hashing_1e10_per_second.whole())
    &&& d.offline_slow_hashing_1e4_per_second@ == duration_text(t.offline_slow_hashing_1e4_per_second.whole())
    &&& d.online_no_throttling_10_per_second@ == duration_text(t.online_no_throttling_10_per_second.whole())
    &&& d.online_throttling_100_per_hour@ == duration_text(t.online_throttling_100_per_hour.whole())
}

/// The four scenario times for `guesses`, with each one's text.
pub fn project(guesses: u64) -> (r: (CrackTimesSeconds, CrackTimesDisplay))
    ensures
        r.0 == crack_times_of(guesses as nat),
        displays(r.0, r.1),
{
    let t = project_seconds(guesses);
    let d = CrackTimesDisplay {
        offline_fast_hashing_1e10_per_second: t.offline_fast_hashing_1e10_per_second.to_display(),
        offline_slow_hashing_1e4_per_second: t.offline_slow_hashing_1e4_per_second.to_display(),
        online_no_throttling_10_per_second: t.online_no_throttling_10_per_second.to_display(),
        online_throttling_100_per_hour: t.online_throttling_100_per_hour.to_display(),
    };
    (t, d)
}

/// For every guess count, a faster attacker never needs more time:
/// fast hashing, then slow hashing, then unthrottled, then throttled online.
pub proof fn lemma_crack_times_ordered(guesses: nat)
    requires
        guesses <= u64::MAX,
    ensures
        ordered(crack_times_of(guesses)),
{
    assert(guesses * 10_000 <= guesses * 10_000_000_000) by (nonlinear_arith);
    assert(guesses * 10 <= guesses * 10_000) by (nonlinear_arith);
    assert(guesses * 1 <= guesses * 36 * 10) by (nonlinear_arith);
}

/// A longer duration is never shown in a smaller unit.
pub proof fn lemma_duration_unit_monotonic(a: nat, b: nat)
    requires
        a <= b,
    ensures
        duration_unit(a) <= duration_unit(b),
{
}

/// The text of a duration is never empty.
pub proof fn lemma_duration_text_nonempty(s: nat)
    ensures
        duration_text(s).len() > 0,
{
    let u = duration_unit(s);
    if u != 0 && u != 7 {
        let count = s / unit_seconds(u);
        assert(decimal(count).len() > 0);
    } else {
        reveal_strlit("less than a second");
        reveal_strlit("centuries");
    }
}

/// Of two times, the larger is never shown in a smaller unit.
pub proof fn lemma_display_unit_follows_order(a: Seconds, b: Seconds)
    requires
        a.wf(),
        b.wf(),
        a.le(b),
    ensures
        duration_unit(a.whole()) <= duration_unit(b.whole()),
{
    let an = a.numerator as nat;
    let ad = a.denominator as nat;
    let bn = b.numerator as nat;
    let bd = b.denominator as nat;
    let fa = an / ad;
    let fb = bn / bd;
    lemma_fundamental_div_mod(an as int, ad as int);
    lemma_fundamental_div_mod(bn as int, bd as int);
    assert(fa * ad <= an);
    assert(fa * ad * bd <= an * bd) by (nonlinear_arith)
        requires
            fa * ad <= an,
    ;
    assert(fa * bd * ad <= bn * ad) by (nonlinear_arith)
        requires
            fa * ad * bd <= an * bd,
            an * bd <= bn * ad,
    ;
    assert(fa * bd <= bn) by (nonlinear_arith)
        requires
            fa * bd * ad <= bn * ad,
            ad > 0,
    ;
    assert(fa <= fb) by (nonlinear_arith)
        requires
            fa * bd <= bn,
            bn == bd * fb + bn % bd,
            bn % bd < bd,
            bd > 0,
    ;
    lemma_duration_unit_monotonic(fa, fb);
}

} // verus!
