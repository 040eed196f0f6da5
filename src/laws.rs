//! What holds of whole runs, stated over the per-line steps that the run's
//! methods follow.
use vstd::prelude::*;
use crate::run::{after_line, after_lines, initial_tally, Tally};
use crate::text::is_blank;

verus! {

/// How many of the lines are not blank.
pub open spec fn non_blank_count(lines: Seq<(Seq<char>, bool)>) -> nat
    decreases lines.len(),
{
    if lines.len() == 0 {
        0
    } else {
        non_blank_count(lines.drop_last()) + if is_blank(lines.last().0) {
            0nat
        } else {
            1nat
        }
    }
}

/// How many of the lines are not blank and have a command whose success is `ok`.
pub open spec fn outcome_count(lines: Seq<(Seq<char>, bool)>, ok: bool) -> nat
    decreases lines.len(),
{
    if lines.len() == 0 {
        0
    } else {
        outcome_count(lines.drop_last(), ok) + if !is_blank(lines.last().0) && lines.last().1
            == ok {
            1nat
        } else {
            0nat
        }
    }
}

/// The lines that are not blank, in order.
pub open spec fn without_blank(lines: Seq<(Seq<char>, bool)>) -> Seq<(Seq<char>, bool)>
    decreases lines.len(),
{
    if lines.len() == 0 {
        lines
    } else if is_blank(lines.last().0) {
        without_blank(lines.drop_last())
    } else {
        without_blank(lines.drop_last()).push(lines.last())
    }
}

/// The three counters of a tally: processed, successes, errors.
pub open spec fn counters(t: Tally) -> (nat, nat, nat) {
    (t.processed, t.successes, t.errors)
}

/// The counters at the end of a run match the lines' outcomes: one success
/// for each non-blank line whose command succeeded, one error for each that
/// failed, and every non-blank line processed once.
pub proof fn lemma_counters_match_outcomes(lines: Seq<(Seq<char>, bool)>)
    ensures
        after_lines(initial_tally(), lines).line_number == lines.len(),
        after_lines(initial_tally(), lines).successes == outcome_count(lines, true),
        after_lines(initial_tally(), lines).errors == outcome_count(lines, false),
        after_lines(initial_tally(), lines).processed == non_blank_count(lines),
        non_blank_count(lines) == outcome_count(lines, true) + outcome_count(lines, false),
    decreases lines.len(),
{
    if lines.len() > 0 {
        lemma_counters_match_outcomes(lines.drop_last());
    }
}

/// With a command that always exits 0, every non-blank line is a success and
/// none is an error.
pub proof fn lemma_all_succeed(lines: Seq<(Seq<char>, bool)>)
    requires
        forall|i: int| 0 <= i < lines.len() ==> (#[trigger] lines[i]).1,
    ensures
        after_lines(initial_tally(), lines).successes == non_blank_count(lines),
        after_lines(initial_tally(), lines).errors == 0,
    decreases lines.len(),
{
    lemma_counters_match_outcomes(lines);
    if lines.len() > 0 {
        let rest = lines.drop_last();
        assert forall|i: int| 0 <= i < rest.len() implies (#[trigger] rest[i]).1 by {
            assert(rest[i] == lines[i]);
        }
        lemma_all_succeed(rest);
        lemma_counters_match_outcomes(rest);
        assert(lines.last().1);
    }
}

/// With a command that always exits nonzero, every non-blank line is an
/// error and none is a success.
pub proof fn lemma_all_fail(lines: Seq<(Seq<char>, bool)>)
    requires
        forall|i: int| 0 <= i < lines.len() ==> !(#[trigger] lines[i]).1,
    ensures
        after_lines(initial_tally(), lines).errors == non_blank_count(lines),
        after_lines(initial_tally(), lines).successes == 0,
    decreases lines.len(),
{
    lemma_counters_match_outcomes(lines);
    if lines.len() > 0 {
        let rest = lines.drop_last();
        assert forall|i: int| 0 <= i < rest.len() implies !(#[trigger] rest[i]).1 by {
            assert(rest[i] == lines[i]);
        }
        lemma_all_fail(rest);
        lemma_counters_match_outcomes(rest);
        assert(!lines.last().1);
    }
}

/// Blank lines change none of the counters: from any tally, the lines with
/// their blank ones and the lines without them end on the same counters.
pub proof fn lemma_blank_lines_ignored(t: Tally, lines: Seq<(Seq<char>, bool)>)
    ensures
        counters(after_lines(t, lines)) == counters(after_lines(t, without_blank(lines))),
    decreases lines.len(),
{
    if lines.len() > 0 {
        let rest = lines.drop_last();
        lemma_blank_lines_ignored(t, rest);
        if !is_blank(lines.last().0) {
            let kept = without_blank(rest).push(lines.last());
            assert(kept.drop_last() =~= without_blank(rest));
        }
    }
}

} // verus!
