//! The timer and the course it takes from checkpoint to checkpoint.

use crate::clock::elapsed_since;
use crate::record::{Record, RecordView};
use crate::report::{MulstantResult, ResultView};
use crate::span::TimeSpan;
use std::time::Instant;
use vstd::prelude::*;

verus! {

/// What a [`Mulstant`] stands for. Times are counted in nanoseconds from the
/// timer's creation.
pub struct TimerView {
    /// When the last checkpoint was taken; zero before the first.
    pub last_checkpoint_at: nat,
    /// The intervals recorded so far, in call order.
    pub records: Seq<RecordView>,
}

/// One call of `record`: the name given, and where the clock stood, in
/// nanoseconds from the timer's creation.
pub struct Checkpoint {
    pub name: Seq<char>,
    pub at: nat,
}

/// The clock never ran backwards from one of `calls` to the next.
pub open spec fn clock_kept_pace(calls: Seq<Checkpoint>) -> bool {
    forall|i: int, j: int| 0 <= i <= j < calls.len() ==> calls[i].at <= calls[j].at
}

impl TimerView {
    /// A timer that was just created.
    pub open spec fn started() -> TimerView {
        TimerView { last_checkpoint_at: 0, records: Seq::empty() }
    }

    /// The time between the last checkpoint and `now`; nothing where the
    /// clock stands before the last checkpoint.
    pub open spec fn interval_until(self, now: nat) -> nat {
        if now >= self.last_checkpoint_at {
            (now - self.last_checkpoint_at) as nat
        } else {
            0
        }
    }

    /// The timer after a checkpoint named `name`, taken when the clock
    /// stands at `now`.
    pub open spec fn checkpoint(self, name: Seq<char>, now: nat) -> TimerView {
        TimerView {
            last_checkpoint_at: now,
            records: self.records.push(RecordView { name, duration: self.interval_until(now) }),
        }
    }

    /// The timer after the checkpoints `calls`, taken in their order on a
    /// timer that was just created.
    pub open spec fn after(calls: Seq<Checkpoint>) -> TimerView
        decreases calls.len(),
    {
        if calls.len() == 0 {
            TimerView::started()
        } else {
            TimerView::after(calls.drop_last()).checkpoint(calls.last().name, calls.last().at)
        }
    }

    /// The result of a timer that is finalized when the clock stands at `now`.
    pub open spec fn finalize(self, now: nat) -> ResultView {
        ResultView { records: self.records, total_duration: now }
    }
}

/// A timer that records multiple intervals.
#[derive(Debug, PartialEq, Eq)]
pub struct Mulstant {
    initial_instant: Instant,
    last_checkpoint: TimeSpan,
    records: Vec<Record>,
}

impl View for Mulstant {
    type V = TimerView;

    closed spec fn view(&self) -> TimerView {
        TimerView {
            last_checkpoint_at: self.last_checkpoint@,
            records: self.records@.map_values(|record: Record| record@),
        }
    }
}

impl Clone for Mulstant {
    fn clone(&self) -> (copy: Mulstant)
        ensures
            copy@ == self@,
    {
        let copy = Mulstant {
            initial_instant: self.initial_instant,
            last_checkpoint: self.last_checkpoint,
            records: self.records.clone(),
        };
        assert(copy.records@ =~= self.records@);
        copy
    }
}

impl Mulstant {
    /// Creates a new `Mulstant` instance and starts the timer.
    pub fn new() -> (timer: Mulstant)
        ensures
            timer@ == TimerView::started(),
    {
        let timer = Mulstant {
            initial_instant: Instant::now(),
            last_checkpoint: TimeSpan::zero(),
            records: Vec::new(),
        };
        assert(timer@.records =~= Seq::empty());
        timer
    }

    /// Records, under the given name, the time between the last checkpoint
    /// (or the creation) and `elapsed`, the time since the creation at which
    /// this checkpoint is taken.
    pub fn record_at(&mut self, name: &str, elapsed: TimeSpan)
        ensures
            final(self)@ == old(self)@.checkpoint(name@, elapsed@),
    {
        let duration = elapsed.saturating_sub(self.last_checkpoint);
        self.records.push(Record { name: name.to_owned(), duration });
        self.last_checkpoint = elapsed;
        assert(self@.records =~= old(self)@.checkpoint(name@, elapsed@).records);
    }

    /// Records the duration since the last call to `record` (or since `new`)
    /// with the given name. The clock is read once.
    pub fn record(&mut self, name: &str)
        ensures
            final(self)@ == old(self)@.checkpoint(name@, final(self)@.last_checkpoint_at),
    {
        let elapsed = elapsed_since(&self.initial_instant);
        self.record_at(name, elapsed);
    }

    /// Finalizes the timer at `elapsed`, the time since its creation, and
    /// returns a `MulstantResult` containing all records and that total
    /// duration.
    pub fn finalize_at(self, elapsed: TimeSpan) -> (result: MulstantResult)
        ensures
            result@ == self@.finalize(elapsed@),
    {
        MulstantResult { records: self.records, total_duration: elapsed }
    }

    /// Finalizes the timer and returns a `MulstantResult` containing all
    /// records and the total duration.
    pub fn finalize(self) -> (result: MulstantResult)
        ensures
            result@ == self@.finalize(result@.total_duration),
    {
        let elapsed = elapsed_since(&self.initial_instant);
        self.finalize_at(elapsed)
    }
}

} // verus!
