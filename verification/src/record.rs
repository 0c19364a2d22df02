//! One measured interval.

use crate::span::TimeSpan;
use vstd::prelude::*;

verus! {

/// What a [`Record`] stands for: a label and a length in nanoseconds.
pub struct RecordView {
    pub name: Seq<char>,
    pub duration: nat,
}

/// A single recorded interval with a name and duration.
#[derive(Debug, Eq)]
pub struct Record {
    /// The name of the recorded interval.
    pub name: String,
    /// The duration of the interval.
    pub duration: TimeSpan,
}

impl View for Record {
    type V = RecordView;

    open spec fn view(&self) -> RecordView {
        RecordView { name: self.name@, duration: self.duration@ }
    }
}

impl Clone for Record {
    fn clone(&self) -> (copy: Record)
        ensures
            copy == *self,
    {
        Record { name: self.name.clone(), duration: self.duration }
    }
}

impl PartialEq for Record {
    fn eq(&self, other: &Record) -> (equal: bool) {
        self.name == other.name && self.duration == other.duration
    }
}

/// Two records are equal where their names and their durations are.
impl vstd::std_specs::cmp::PartialEqSpecImpl for Record {
    open spec fn obeys_eq_spec() -> bool {
        true
    }

    open spec fn eq_spec(&self, other: &Record) -> bool {
        self@ == other@
    }
}

} // verus!
