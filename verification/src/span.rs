//! Lengths of time, counted in whole nanoseconds.

use vstd::prelude::*;

verus! {

/// The number of nanoseconds in one second.
pub const NANOS_PER_SEC: u32 = 1_000_000_000;

/// The number of nanoseconds in one millisecond.
pub const NANOS_PER_MILLI: u32 = 1_000_000;

/// The number of nanoseconds in one microsecond.
pub const NANOS_PER_MICRO: u32 = 1_000;

/// The text that std writes for a `std::time::Duration` of `nanos` nanoseconds
/// under the format `{:.2?}`: the length scaled to a unit, with two decimal
/// places and the unit behind them, such as `50.00ms`.
pub uninterp spec fn span_text(nanos: nat) -> Seq<char>;

/// A non-negative length of time with nanosecond resolution.
///
/// It holds whole seconds and the nanoseconds of the last, unfinished second.
/// Its view is the length in nanoseconds.
#[derive(Clone, Copy, Debug, Eq, PartialOrd, Ord, Hash)]
pub struct TimeSpan {
    secs: u64,
    nanos: u32,
}

impl View for TimeSpan {
    type V = nat;

    closed spec fn view(&self) -> nat {
        (self.secs * NANOS_PER_SEC + self.nanos) as nat
    }
}

/// Calls `format!` with `{:.2?}` on the `std::time::Duration` of the same
/// seconds and nanoseconds, made by `Duration::new`, which carries nothing over
/// and cannot overflow, the nanoseconds being below one second. The text that
/// comes back depends on the length alone; what it is stays unproved, and is
/// known to contracts as `span_text` only.
#[verifier::external_body]
pub(crate) fn span_to_text(span: TimeSpan) -> (text: String)
    ensures
        text@ == span_text(span@),
{
    format!("{:.2?}", std::time::Duration::new(span.secs, span.nanos))
}

impl PartialEq for TimeSpan {
    fn eq(&self, other: &TimeSpan) -> (equal: bool) {
        proof {
            use_type_invariant(self);
            use_type_invariant(other);
        }
        self.secs == other.secs && self.nanos == other.nanos
    }
}

/// Two lengths are equal where they count the same nanoseconds.
impl vstd::std_specs::cmp::PartialEqSpecImpl for TimeSpan {
    open spec fn obeys_eq_spec() -> bool {
        true
    }

    open spec fn eq_spec(&self, other: &TimeSpan) -> bool {
        self@ == other@
    }
}

impl TimeSpan {
    /// The nanoseconds always stay below one second, so that each length has
    /// one representation only.
    #[verifier::type_invariant]
    spec fn normalized(self) -> bool {
        self.nanos < NANOS_PER_SEC
    }

    /// The empty length.
    pub fn zero() -> (span: TimeSpan)
        ensures
            span@ == 0,
    {
        TimeSpan { secs: 0, nanos: 0 }
    }

    /// The length of `secs` seconds and `nanos` nanoseconds. Nanoseconds beyond
    /// one second are carried over into the seconds.
    pub fn new(secs: u64, nanos: u32) -> (span: TimeSpan)
        requires
            secs + nanos / NANOS_PER_SEC <= u64::MAX,
        ensures
            span@ == secs * NANOS_PER_SEC + nanos,
    {
        let carry: u32 = nanos / NANOS_PER_SEC;
        TimeSpan { secs: secs + carry as u64, nanos: nanos % NANOS_PER_SEC }
    }

    /// The length of `secs` seconds.
    pub fn from_secs(secs: u64) -> (span: TimeSpan)
        ensures
            span@ == secs * NANOS_PER_SEC,
    {
        TimeSpan { secs, nanos: 0 }
    }

    /// The length of `millis` milliseconds.
    pub fn from_millis(millis: u64) -> (span: TimeSpan)
        ensures
            span@ == millis * NANOS_PER_MILLI,
    {
        let rest: u32 = (millis % 1_000) as u32;
        TimeSpan { secs: millis / 1_000, nanos: rest * NANOS_PER_MILLI }
    }

    /// The length of `micros` microseconds.
    pub fn from_micros(micros: u64) -> (span: TimeSpan)
        ensures
            span@ == micros * NANOS_PER_MICRO,
    {
        let rest: u32 = (micros % 1_000_000) as u32;
        TimeSpan { secs: micros / 1_000_000, nanos: rest * NANOS_PER_MICRO }
    }

    /// The length of `nanos` nanoseconds.
    pub fn from_nanos(nanos: u64) -> (span: TimeSpan)
        ensures
            span@ == nanos,
    {
        let rest: u32 = (nanos % 1_000_000_000) as u32;
        TimeSpan { secs: nanos / 1_000_000_000, nanos: rest }
    }

    /// The whole seconds in this length.
    pub fn as_secs(&self) -> (secs: u64)
        ensures
            secs == self@ / (NANOS_PER_SEC as nat),
    {
        proof {
            use_type_invariant(self);
        }
        self.secs
    }

    /// The part of this length beyond its whole seconds, in nanoseconds.
    pub fn subsec_nanos(&self) -> (nanos: u32)
        ensures
            nanos == self@ % (NANOS_PER_SEC as nat),
            nanos < NANOS_PER_SEC,
    {
        proof {
            use_type_invariant(self);
        }
        self.nanos
    }

    /// This length in nanoseconds.
    pub fn as_nanos(&self) -> (nanos: u128)
        ensures
            nanos == self@,
    {
        let secs: u128 = self.secs as u128;
        let rest: u128 = self.nanos as u128;
        secs * 1_000_000_000 + rest
    }

    /// What is left of this length after `rhs` is taken away, and the empty
    /// length where `rhs` is the longer one.
    pub fn saturating_sub(self, rhs: TimeSpan) -> (span: TimeSpan)
        ensures
            span@ == if self@ >= rhs@ { self@ - rhs@ } else { 0 },
    {
        proof {
            use_type_invariant(self);
            use_type_invariant(rhs);
        }
        if self.secs < rhs.secs || (self.secs == rhs.secs && self.nanos < rhs.nanos) {
            TimeSpan { secs: 0, nanos: 0 }
        } else if self.nanos >= rhs.nanos {
            TimeSpan { secs: self.secs - rhs.secs, nanos: self.nanos - rhs.nanos }
        } else {
            TimeSpan {
                secs: self.secs - rhs.secs - 1,
                nanos: self.nanos + NANOS_PER_SEC - rhs.nanos,
            }
        }
    }
}

} // verus!
