//! Laws the statistics core obeys over whole reporting histories.
//!
//! [`crate::registry::SlotRegistry::report_branch`] pins down what one
//! call does; the proofs here lift that to arbitrary sequences of calls:
//! counter sums count exactly the calls that targeted the slot, and the
//! in-use flag never falls back.

use vstd::prelude::*;

use crate::slot::TestResult;

verus! {

/// One reporting call, as a value: which slot it targets and what the
/// host reported about the branch.
pub struct BranchReport {
    pub slot_index: usize,
    pub taken: bool,
    pub predicted: bool,
}

/// The slot sequence after one reporting call: an in-range call rewrites
/// exactly its slot, an out-of-range call leaves everything unchanged —
/// the same transition that `SlotRegistry::report_branch` ensures.
pub open spec fn apply_report(slots: Seq<TestResult>, r: BranchReport) -> Seq<TestResult> {
    if r.slot_index < slots.len() {
        slots.update(
            r.slot_index as int,
            slots[r.slot_index as int].spec_record(r.taken, r.predicted),
        )
    } else {
        slots
    }
}

/// The slot sequence after a whole history of reporting calls, applied
/// oldest first.
pub open spec fn apply_reports(slots: Seq<TestResult>, rs: Seq<BranchReport>) -> Seq<TestResult>
    decreases rs.len(),
{
    if rs.len() == 0 {
        slots
    } else {
        apply_reports(apply_report(slots, rs[0]), rs.drop_first())
    }
}

/// How many calls of the history target slot `i`.
pub open spec fn reports_for(rs: Seq<BranchReport>, i: int) -> int
    decreases rs.len(),
{
    if rs.len() == 0 {
        0
    } else {
        (if rs[0].slot_index == i {
            1int
        } else {
            0int
        }) + reports_for(rs.drop_first(), i)
    }
}

/// A history never targets a slot a negative number of times.
pub proof fn lemma_reports_for_nonneg(rs: Seq<BranchReport>, i: int)
    ensures
        reports_for(rs, i) >= 0,
    decreases rs.len(),
{
    if rs.len() > 0 {
        lemma_reports_for_nonneg(rs.drop_first(), i);
    }
}

/// Law: over any history of reporting calls, a slot's counter sum grows
/// by exactly the number of calls that targeted it — as long as that
/// total stays within the machine range of one counter.
pub proof fn lemma_counter_sum_counts_reports(
    slots: Seq<TestResult>,
    rs: Seq<BranchReport>,
    i: int,
)
    requires
        0 <= i < slots.len(),
        slots[i].counter_sum() + reports_for(rs, i) <= u64::MAX,
    ensures
        apply_reports(slots, rs).len() == slots.len(),
        apply_reports(slots, rs)[i].counter_sum() == slots[i].counter_sum() + reports_for(rs, i),
    decreases rs.len(),
{
    lemma_reports_for_nonneg(rs, i);
    if rs.len() > 0 {
        let stepped = apply_report(slots, rs[0]);
        lemma_reports_for_nonneg(rs.drop_first(), i);
        if rs[0].slot_index == i {
            assert(stepped[i].counter_sum() == slots[i].counter_sum() + 1);
        }
        lemma_counter_sum_counts_reports(stepped, rs.drop_first(), i);
    }
}

/// Law: from a fresh slot, after any history of reporting calls, the
/// sum of the slot's four counters equals the number of calls that
/// targeted it — as long as that number fits in one counter.
pub proof fn lemma_fresh_slot_counts_reports(slots: Seq<TestResult>, rs: Seq<BranchReport>, i: int)
    requires
        0 <= i < slots.len(),
        slots[i].is_zeroed(),
        reports_for(rs, i) <= u64::MAX,
    ensures
        apply_reports(slots, rs)[i].counter_sum() == reports_for(rs, i),
{
    lemma_counter_sum_counts_reports(slots, rs, i);
}

/// Law: a slot that is in use stays in use through any further history
/// of reporting calls.
pub proof fn lemma_used_is_monotone(slots: Seq<TestResult>, rs: Seq<BranchReport>, i: int)
    requires
        0 <= i < slots.len(),
        slots[i].used,
    ensures
        apply_reports(slots, rs)[i].used,
    decreases rs.len(),
{
    if rs.len() > 0 {
        lemma_used_is_monotone(apply_report(slots, rs[0]), rs.drop_first(), i);
    }
}

/// Law: absorbing one outcome moves exactly one counter, the one picked
/// by the actual direction and whether the prediction matched it, by
/// exactly one; the other three counters and the label are unchanged,
/// and the slot comes out in use.
pub proof fn lemma_record_moves_one_counter(s: TestResult, taken: bool, predicted: bool)
    requires
        s.counter_sum() < u64::MAX,
    ensures
        s.spec_record(taken, predicted).counter_sum() == s.counter_sum() + 1,
        taken && predicted == taken ==> s.spec_record(taken, predicted) == (TestResult {
            taken_correct: (s.taken_correct + 1) as u64,
            used: true,
            ..s
        }),
        taken && predicted != taken ==> s.spec_record(taken, predicted) == (TestResult {
            taken_incorrect: (s.taken_incorrect + 1) as u64,
            used: true,
            ..s
        }),
        !taken && predicted == taken ==> s.spec_record(taken, predicted) == (TestResult {
            not_taken_correct: (s.not_taken_correct + 1) as u64,
            used: true,
            ..s
        }),
        !taken && predicted != taken ==> s.spec_record(taken, predicted) == (TestResult {
            not_taken_incorrect: (s.not_taken_incorrect + 1) as u64,
            used: true,
            ..s
        }),
        s.spec_record(taken, predicted).used,
        s.spec_record(taken, predicted).name == s.name,
{
}

} // verus!
