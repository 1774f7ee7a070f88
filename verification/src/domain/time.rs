//! Time and money as domain primitives.
//!
//! One [`Timestamp`] (epoch millis) means the same in SQLite, on the wire and
//! in a Brief. [`Duration`] is millis, [`Cost`] is integer nano-USD so a
//! [`Spend`] sums exactly where floats drift.
use vstd::prelude::*;

use crate::strings::{decimal, decimal_chars, push_chars, string_of, zero_padded, zero_padded_chars};

verus! {

/// Instant as epoch milliseconds.
#[derive(Debug, Clone, Copy, PartialEq, Eq, PartialOrd, Ord, Hash, Structural)]
pub struct Timestamp(pub i64);

/// Span of time in milliseconds.
#[derive(Debug, Clone, Copy, PartialEq, Eq, PartialOrd, Ord, Hash, Structural)]
pub struct Duration(pub i64);

/// Cost in nano-USD. Sums exactly; its text form rounds down to six decimals.
#[derive(Debug, Clone, Copy, PartialEq, Eq, PartialOrd, Ord, Structural)]
pub struct Cost(pub i64);

/// Cost of a Run so far: re-summed from `Done` calls on every read.
#[derive(Debug, Clone, Copy, PartialEq, Eq, Structural)]
pub struct Spend {
    pub calls: u32,
    /// Tokens computed: `prefill + produced` over the Run; cache hits are not counted.
    pub tokens: u64,
    pub cost: Cost,
}

impl Default for Cost {
    fn default() -> (c: Cost)
        ensures
            c == Cost(0),
    {
        Cost(0)
    }
}

impl Default for Spend {
    fn default() -> (s: Spend)
        ensures
            s == (Spend { calls: 0, tokens: 0, cost: Cost(0) }),
    {
        Spend { calls: 0, tokens: 0, cost: Cost(0) }
    }
}

/// The milliseconds from `from` to `to`, or none when `to` is earlier.
pub open spec fn span_ms(from: Timestamp, to: Timestamp) -> int {
    if to.0 >= from.0 {
        to.0 - from.0
    } else {
        0
    }
}

impl Timestamp {
    /// The instant `d` after self.
    pub fn plus(self, d: Duration) -> (t: Timestamp)
        requires
            i64::MIN <= self.0 + d.0 <= i64::MAX,
        ensures
            t.0 == self.0 + d.0,
    {
        Timestamp(self.0 + d.0)
    }

    /// Duration from self to `later`; zero if `later` is earlier.
    pub fn until(self, later: Timestamp) -> (d: Duration)
        requires
            i64::MIN <= later.0 - self.0 <= i64::MAX,
        ensures
            d.0 == span_ms(self, later),
    {
        let diff = later.0 - self.0;
        if diff > 0 {
            Duration(diff)
        } else {
            Duration(0)
        }
    }
}

/// `until` never goes negative, and adding what it measures reaches the later
/// instant: `t.plus(t.until(later)) == later` whenever `later` is not earlier.
pub proof fn law_until_then_plus(t: Timestamp, later: Timestamp)
    ensures
        span_ms(t, later) >= 0,
        later.0 >= t.0 ==> t.0 + span_ms(t, later) == later.0,
{
}

impl Duration {
    /// A span of `s` seconds.
    pub fn from_secs(s: i64) -> (d: Duration)
        requires
            i64::MIN <= s * 1000 <= i64::MAX,
        ensures
            d.0 == s * 1000,
    {
        Duration(s * 1000)
    }

    /// A span of `ms` milliseconds.
    pub fn from_millis(ms: i64) -> (d: Duration)
        ensures
            d.0 == ms,
    {
        Duration(ms)
    }
}

impl Cost {
    /// The sum of two costs.
    pub fn plus(self, rhs: Cost) -> (c: Cost)
        requires
            i64::MIN <= self.0 + rhs.0 <= i64::MAX,
        ensures
            c.0 == self.0 + rhs.0,
    {
        Cost(self.0 + rhs.0)
    }

    /// `$<dollars>.<micros>`, micros six digits, as `format!("${}.{:06}")`
    /// prints the truncated quotient and remainder.
    pub fn to_string(&self) -> (out: String)
        ensures
            out@ == cost_text(self.0 as int),
    {
        let c: i128 = self.0 as i128;
        let neg = c < 0;
        let a: i128 = if neg { -c } else { c };
        let dollars: u64 = (a / 1_000_000_000) as u64;
        let micros: u64 = ((a % 1_000_000_000) / 1_000) as u64;
        let mut v: Vec<char> = Vec::new();
        v.push('$');
        if neg && dollars > 0 {
            v.push('-');
        }
        let d = decimal_chars(dollars);
        push_chars(&mut v, &d);
        v.push('.');
        if neg && micros > 0 {
            v.push('-');
            let m = zero_padded_chars(micros, 5);
            push_chars(&mut v, &m);
        } else {
            let m = zero_padded_chars(micros, 6);
            push_chars(&mut v, &m);
        }
        assert(v@ =~= cost_text(self.0 as int));
        string_of(&v)
    }
}

/// The text form of a cost of `c` nano-USD: the dollars and the micro-dollars
/// (six digits) of `c` divided towards zero, a `-` before each that is
/// negative and not zero.
pub open spec fn cost_text(c: int) -> Seq<char> {
    let a = if c < 0 { -c } else { c };
    let dollars = a / 1_000_000_000;
    let micros = (a % 1_000_000_000) / 1_000;
    let dollar_part = if c < 0 && dollars > 0 {
        seq!['-'] + decimal(dollars as nat)
    } else {
        decimal(dollars as nat)
    };
    let micro_part = if c < 0 && micros > 0 {
        seq!['-'] + zero_padded(micros as nat, 5)
    } else {
        zero_padded(micros as nat, 6)
    };
    seq!['$'] + dollar_part + seq!['.'] + micro_part
}

/// Source of wall-clock time. Implementations decide whether time flows,
/// stands still, or moves by hand.
pub trait Clock {
    fn now(&self) -> Timestamp;
}

/// Clock frozen at one instant: every `now()` returns the same `Timestamp`.
#[derive(Debug)]
pub struct FixedClock(pub Timestamp);

impl Clock for FixedClock {
    fn now(&self) -> (t: Timestamp)
        ensures
            t == self.0,
    {
        self.0
    }
}

/// Clock that only moves when `advance` moves it.
#[derive(Debug)]
pub struct ManualClock {
    now: Timestamp,
}

impl ManualClock {
    /// The instant this clock reads.
    pub closed spec fn reading(&self) -> Timestamp {
        self.now
    }

    /// A manual clock at `t`.
    pub fn starting_at(t: Timestamp) -> (c: ManualClock)
        ensures
            c.reading() == t,
    {
        ManualClock { now: t }
    }

    /// Moves time forward by `by`; the next `now()` reflects it.
    pub fn advance(&mut self, by: Duration)
        requires
            i64::MIN <= old(self).reading().0 + by.0 <= i64::MAX,
        ensures
            final(self).reading().0 == old(self).reading().0 + by.0,
    {
        self.now = self.now.plus(by);
    }
}

impl Clock for ManualClock {
    fn now(&self) -> (t: Timestamp)
        ensures
            t == self.reading(),
    {
        self.now
    }
}

/// Clock that reads the system's wall clock: what every production run uses.
#[derive(Debug, Default)]
pub struct SystemClock;

/// Calls `chrono::Utc::now` and takes its epoch milliseconds. Nothing is
/// promised of the result: it is whatever the machine's clock reads.
#[verifier::external_body]
fn system_now() -> (t: Timestamp) {
    Timestamp(chrono::Utc::now().timestamp_millis())
}

impl Clock for SystemClock {
    fn now(&self) -> (t: Timestamp) {
        system_now()
    }
}

/// Formats `at` as the machine's local weekday, date and time of day
/// (`%a %Y-%m-%d %H:%M`) through `chrono::Local`. Nothing is promised of the
/// text: it rests on the machine's time zone. Instants outside `chrono`'s
/// range, with a day's margin at either end for the local offset, are left
/// out by `requires`, since the call would panic there.
#[verifier::external_body]
pub fn stamp(at: Timestamp) -> (out: String)
    requires
        -8_334_601_228_800_000 <= at.0 <= 8_210_266_790_399_999,
{
    let local = chrono::TimeZone::timestamp_millis_opt(&chrono::Local, at.0).unwrap();
    local.format("%a %Y-%m-%d %H:%M").to_string()
}

} // verus!
