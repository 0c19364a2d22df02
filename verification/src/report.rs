//! The finished set of measurements and its texts.

use crate::record::{Record, RecordView};
use crate::span::{span_text, span_to_text, TimeSpan};
use vstd::prelude::*;
use vstd::string::*;

verus! {

/// What a [`MulstantResult`] stands for: the records in call order and the
/// total length in nanoseconds.
pub struct ResultView {
    pub records: Seq<RecordView>,
    pub total_duration: nat,
}

/// One entry of a text: a label and its value behind `indent`, closed by `end`.
pub open spec fn entry_text(
    indent: Seq<char>,
    label: Seq<char>,
    value: Seq<char>,
    end: Seq<char>,
) -> Seq<char> {
    indent + label + ": "@ + value + end
}

/// The entries of `records`, one after the other in their order.
pub open spec fn entries_text(
    records: Seq<RecordView>,
    indent: Seq<char>,
    end: Seq<char>,
) -> Seq<char>
    decreases records.len(),
{
    if records.len() == 0 {
        Seq::empty()
    } else {
        entries_text(records.drop_last(), indent, end) + entry_text(
            indent,
            records.last().name,
            span_text(records.last().duration),
            end,
        )
    }
}

impl ResultView {
    /// The entries of the records, then the entry of the total.
    pub open spec fn body_text(
        self,
        indent: Seq<char>,
        entry_end: Seq<char>,
        total_end: Seq<char>,
    ) -> Seq<char> {
        entries_text(self.records, indent, entry_end) + entry_text(
            indent,
            "Total Duration"@,
            span_text(self.total_duration),
            total_end,
        )
    }

    /// One line for each record, then the line of the total.
    pub open spec fn summary_text(self) -> Seq<char> {
        self.body_text(""@, "\n"@, "\n"@)
    }

    /// The entries between braces behind the type's name: on one line,
    /// divided by commas, or, where `alternate` is set, one on each line and
    /// indented by two spaces.
    pub open spec fn debug_text(self, alternate: bool) -> Seq<char> {
        if alternate {
            "MulstantResult {"@ + "\n"@ + self.body_text("  "@, "\n"@, "\n"@) + "}"@
        } else {
            "MulstantResult {"@ + " "@ + self.body_text(""@, ", "@, " "@) + "}"@
        }
    }

    /// The sum of the records' durations.
    pub open spec fn recorded_total(self) -> nat {
        sum_of_durations(self.records)
    }
}

/// The sum of the durations of `records`, in nanoseconds.
pub open spec fn sum_of_durations(records: Seq<RecordView>) -> nat
    decreases records.len(),
{
    if records.len() == 0 {
        0
    } else {
        sum_of_durations(records.drop_last()) + records.last().duration
    }
}

/// The result of a `Mulstant` measurement session.
#[derive(Eq)]
pub struct MulstantResult {
    /// All recorded intervals.
    pub records: Vec<Record>,
    /// The total duration from the creation of `Mulstant` to its finalization.
    pub total_duration: TimeSpan,
}

impl View for MulstantResult {
    type V = ResultView;

    open spec fn view(&self) -> ResultView {
        ResultView {
            records: self.records@.map_values(|record: Record| record@),
            total_duration: self.total_duration@,
        }
    }
}

impl Clone for MulstantResult {
    fn clone(&self) -> (copy: MulstantResult)
        ensures
            copy@ == self@,
    {
        let copy =
            MulstantResult { records: self.records.clone(), total_duration: self.total_duration };
        assert(copy.records@ =~= self.records@);
        copy
    }
}

impl PartialEq for MulstantResult {
    fn eq(&self, other: &MulstantResult) -> (equal: bool) {
        if !(self.total_duration == other.total_duration) {
            return false;
        }
        if self.records.len() != other.records.len() {
            assert(self@.records.len() != other@.records.len());
            return false;
        }
        let mut i: usize = 0;
        while i < self.records.len()
            invariant
                i <= self.records.len(),
                self.records.len() == other.records.len(),
                forall|j: int| 0 <= j < i ==> self@.records[j] == other@.records[j],
            decreases self.records.len() - i,
        {
            if !(self.records[i] == other.records[i]) {
                assert(self@.records[i as int] != other@.records[i as int]);
                return false;
            }
            i += 1;
        }
        assert(self@.records =~= other@.records);
        true
    }
}

/// Two results are equal where their records are, one by one in their order,
/// and their total durations are.
impl vstd::std_specs::cmp::PartialEqSpecImpl for MulstantResult {
    open spec fn obeys_eq_spec() -> bool {
        true
    }

    open spec fn eq_spec(&self, other: &MulstantResult) -> bool {
        self@ == other@
    }
}

/// Appends one entry to `out`: `label` and `value` with a colon and a space
/// between them, behind `indent` and closed by `end`.
pub fn push_entry(out: &mut String, indent: &str, label: &str, value: &str, end: &str)
    ensures
        final(out)@ == old(out)@ + entry_text(indent@, label@, value@, end@),
{
    out.append(indent);
    out.append(label);
    out.append(": ");
    out.append(value);
    out.append(end);
    assert(out@ =~= old(out)@ + entry_text(indent@, label@, value@, end@));
}

impl MulstantResult {
    /// Appends the entries of the records and of the total to `out`.
    fn write_body(&self, out: &mut String, indent: &str, entry_end: &str, total_end: &str)
        ensures
            final(out)@ == old(out)@ + self@.body_text(indent@, entry_end@, total_end@),
    {
        let ghost records = self@.records;
        let mut i: usize = 0;
        while i < self.records.len()
            invariant
                i <= self.records.len(),
                records == self@.records,
                out@ == old(out)@ + entries_text(records.take(i as int), indent@, entry_end@),
            decreases self.records.len() - i,
        {
            let record = &self.records[i];
            let value = span_to_text(record.duration);
            push_entry(out, indent, record.name.as_str(), value.as_str(), entry_end);
            proof {
                let next = records.take(i + 1);
                assert(next.drop_last() =~= records.take(i as int));
                assert(next.last() == record@);
                assert(out@ =~= old(out)@ + entries_text(next, indent@, entry_end@));
            }
            i += 1;
        }
        assert(records.take(i as int) =~= records);
        let total = span_to_text(self.total_duration);
        push_entry(out, indent, "Total Duration", total.as_str(), total_end);
        assert(out@ =~= old(out)@ + self@.body_text(indent@, entry_end@, total_end@));
    }

    /// Returns a formatted string summary of the records and total duration.
    pub fn summary(&self) -> (text: String)
        ensures
            text@ == self@.summary_text(),
    {
        let mut text = String::new();
        self.write_body(&mut text, "", "\n", "\n");
        assert(text@ =~= self@.summary_text());
        text
    }

    /// Returns the diagnostic text of the records and total duration: compact
    /// on one line, or with one entry on each line where `alternate` is set.
    pub fn to_debug_string(&self, alternate: bool) -> (text: String)
        ensures
            text@ == self@.debug_text(alternate),
    {
        let indent = if alternate { "  " } else { "" };
        let gap = if alternate { "\n" } else { " " };
        let comma = if alternate { "\n" } else { ", " };
        let mut text = String::new();
        text.append("MulstantResult {");
        text.append(gap);
        self.write_body(&mut text, indent, comma, gap);
        text.append("}");
        assert(text@ =~= self@.debug_text(alternate));
        text
    }
}

} // verus!
