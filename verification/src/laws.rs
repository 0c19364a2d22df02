//! What holds of every timer and of every result, whatever the clock reads.

use crate::report::{sum_of_durations, MulstantResult};
use crate::timer::{clock_kept_pace, Checkpoint, TimerView};
use vstd::prelude::*;
use vstd::std_specs::cmp::PartialEqSpec;

verus! {

/// A result holds one record for each checkpoint that was taken.
pub proof fn law_one_record_per_checkpoint(calls: Seq<Checkpoint>, end: nat)
    ensures
        TimerView::after(calls).records.len() == calls.len(),
        TimerView::after(calls).finalize(end).records.len() == calls.len(),
    decreases calls.len(),
{
    if calls.len() > 0 {
        law_one_record_per_checkpoint(calls.drop_last(), end);
    }
}

/// The records stand in the order of the calls: each bears the name that its
/// checkpoint was given.
pub proof fn law_records_in_call_order(calls: Seq<Checkpoint>, end: nat)
    ensures
        TimerView::after(calls).finalize(end).records.len() == calls.len(),
        forall|i: int|
            0 <= i < calls.len() ==> (#[trigger] TimerView::after(calls).finalize(
                end,
            ).records[i]).name == calls[i].name,
    decreases calls.len(),
{
    if calls.len() > 0 {
        let before = calls.drop_last();
        law_records_in_call_order(before, end);
        assert forall|i: int| 0 <= i < calls.len() implies (#[trigger] TimerView::after(
            calls,
        ).finalize(end).records[i]).name == calls[i].name by {
            if i < before.len() {
                assert(TimerView::after(calls).records[i] == TimerView::after(
                    before,
                ).finalize(end).records[i]);
                assert(before[i] == calls[i]);
            }
        }
    }
}

/// After any checkpoints the timer stands where the last of them was taken,
/// and at zero where none was.
pub proof fn law_last_checkpoint(calls: Seq<Checkpoint>)
    ensures
        TimerView::after(calls).last_checkpoint_at == if calls.len() == 0 {
            0
        } else {
            calls.last().at
        },
{
}

/// No duration is negative: each record holds the time from the checkpoint
/// before it (from the creation, for the first) to its own, and nothing where
/// the clock ran backwards between the two.
pub proof fn law_durations_not_negative(calls: Seq<Checkpoint>, end: nat)
    ensures
        TimerView::after(calls).finalize(end).records.len() == calls.len(),
        forall|i: int|
            0 <= i < calls.len() ==> {
                let duration = (#[trigger] TimerView::after(calls).finalize(
                    end,
                ).records[i]).duration;
                let since: int = if i == 0 {
                    0
                } else {
                    calls[i - 1].at as int
                };
                &&& duration >= 0
                &&& duration == if calls[i].at >= since {
                    calls[i].at - since
                } else {
                    0
                }
            },
    decreases calls.len(),
{
    if calls.len() > 0 {
        let before = calls.drop_last();
        law_durations_not_negative(before, end);
        law_last_checkpoint(before);
        assert forall|i: int| 0 <= i < calls.len() implies {
            let duration = (#[trigger] TimerView::after(calls).finalize(end).records[i]).duration;
            let since: int = if i == 0 {
                0
            } else {
                calls[i - 1].at as int
            };
            &&& duration >= 0
            &&& duration == if calls[i].at >= since {
                calls[i].at - since
            } else {
                0
            }
        } by {
            if i < before.len() {
                assert(TimerView::after(calls).records[i] == TimerView::after(
                    before,
                ).finalize(end).records[i]);
                assert(before[i] == calls[i]);
                if i > 0 {
                    assert(before[i - 1] == calls[i - 1]);
                }
            } else if i > 0 {
                assert(before.last() == calls[i - 1]);
            }
        }
    }
}

/// While the clock keeps pace, the recorded durations add up to the time of
/// the last checkpoint.
pub proof fn law_records_fill_the_span(calls: Seq<Checkpoint>)
    requires
        clock_kept_pace(calls),
    ensures
        sum_of_durations(TimerView::after(calls).records) == TimerView::after(
            calls,
        ).last_checkpoint_at,
    decreases calls.len(),
{
    if calls.len() > 0 {
        let before = calls.drop_last();
        assert(clock_kept_pace(before)) by {
            assert forall|i: int, j: int| 0 <= i <= j < before.len() implies before[i].at
                <= before[j].at by {
                assert(before[i] == calls[i]);
                assert(before[j] == calls[j]);
            }
        }
        law_records_fill_the_span(before);
        law_last_checkpoint(before);
        if before.len() > 0 {
            assert(before.last() == calls[calls.len() - 2]);
        }
        let timer = TimerView::after(before);
        let next = TimerView::after(calls);
        assert(next.records.drop_last() =~= timer.records);
    }
}

/// The total covers the whole span: where the clock kept pace up to the
/// finalization, the total duration is at least the sum of the recorded
/// durations, and at least the time from the creation to the last checkpoint.
pub proof fn law_total_covers_the_span(calls: Seq<Checkpoint>, end: nat)
    requires
        clock_kept_pace(calls),
        calls.len() > 0 ==> calls.last().at <= end,
    ensures
        ({
            let result = TimerView::after(calls).finalize(end);
            &&& result.total_duration >= result.recorded_total()
            &&& result.total_duration >= TimerView::after(calls).last_checkpoint_at
        }),
{
    law_records_fill_the_span(calls);
    law_last_checkpoint(calls);
}

/// The summary is a function of the result: two summaries of one result,
/// or of two equal results, are the same text.
pub proof fn law_summary_repeats(
    result: MulstantResult,
    other: MulstantResult,
    first: String,
    second: String,
)
    requires
        result@ == other@,
        first@ == result@.summary_text(),
        second@ == other@.summary_text(),
    ensures
        first@ == second@,
{
}

/// Two results are equal exactly where their total durations are equal and
/// they hold equal records, name and duration, in the same order.
pub proof fn law_equal_results(a: MulstantResult, b: MulstantResult)
    ensures
        a.eq_spec(&b) <==> {
            &&& a.total_duration@ == b.total_duration@
            &&& a.records.len() == b.records.len()
            &&& forall|i: int|
                0 <= i < a.records.len() ==> {
                    &&& (#[trigger] a.records[i]).name@ == b.records[i].name@
                    &&& a.records[i].duration@ == b.records[i].duration@
                }
        },
{
    let same = {
        &&& a.total_duration@ == b.total_duration@
        &&& a.records.len() == b.records.len()
        &&& forall|i: int|
            0 <= i < a.records.len() ==> {
                &&& (#[trigger] a.records[i]).name@ == b.records[i].name@
                &&& a.records[i].duration@ == b.records[i].duration@
            }
    };
    if same {
        assert(a@.records =~= b@.records);
    }
    if a.eq_spec(&b) {
        assert(a@.records.len() == b@.records.len());
        assert forall|i: int| 0 <= i < a.records.len() implies {
            &&& (#[trigger] a.records[i]).name@ == b.records[i].name@
            &&& a.records[i].duration@ == b.records[i].duration@
        } by {
            assert(a@.records[i] == b@.records[i]);
        }
    }
}

/// The order of the records counts: a result in which two records that
/// differ have changed places is not equal to the first.
pub proof fn law_order_of_records_counts(a: MulstantResult, b: MulstantResult, i: int, j: int)
    requires
        0 <= i < a@.records.len(),
        0 <= j < a@.records.len(),
        a@.records[i] != a@.records[j],
        b@.records == a@.records.update(i, a@.records[j]).update(j, a@.records[i]),
    ensures
        !a.eq_spec(&b),
{
    assert(b@.records[j] == a@.records[i]);
}

} // verus!
