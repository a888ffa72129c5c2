//! The fixed-capacity registry of predictor slots.

use vstd::pervasive::VecAdditionalExecFns;
use vstd::prelude::*;

use crate::slot::TestResult;

verus! {

/// Number of predictor slots the registry holds.
pub const METHOD_COUNT_MAX: usize = 4;

/// Why a reporting call was rejected.
#[derive(Debug, Copy, Clone, PartialEq, Eq, Structural)]
pub enum SlotError {
    /// The caller named a slot index at or past [`METHOD_COUNT_MAX`].
    SlotIndexOutOfRange,
}

/// The fixed, ordered set of [`TestResult`] slots, indexable
/// `0..METHOD_COUNT_MAX`. The registry owns its slots by composition;
/// callers read them by value and mutate them only through
/// [`SlotRegistry::report_branch`] and [`SlotRegistry::name_slot`].
pub struct SlotRegistry {
    slots: Vec<TestResult>,
}

impl View for SlotRegistry {
    type V = Seq<TestResult>;

    closed spec fn view(&self) -> Seq<TestResult> {
        self.slots@
    }
}

impl SlotRegistry {
    /// The registry holds exactly [`METHOD_COUNT_MAX`] slots and each
    /// slot is well formed.
    pub open spec fn wf(self) -> bool {
        &&& self@.len() == METHOD_COUNT_MAX
        &&& forall|i: int| 0 <= i < self@.len() ==> self@[i].wf()
    }

    /// A fresh registry: every slot zeroed, unused and unnamed.
    pub fn new() -> (r: SlotRegistry)
        ensures
            r.wf(),
            r@.len() == METHOD_COUNT_MAX,
            forall|i: int| 0 <= i < r@.len() ==> r@[i].is_zeroed(),
    {
        let mut slots: Vec<TestResult> = Vec::new();
        slots.push(TestResult::new());
        slots.push(TestResult::new());
        slots.push(TestResult::new());
        slots.push(TestResult::new());
        SlotRegistry { slots }
    }

    /// How many slots the registry holds (always [`METHOD_COUNT_MAX`]).
    pub fn slot_count(&self) -> (r: usize)
        ensures
            r == self@.len(),
    {
        self.slots.len()
    }

    /// Read one slot by value.
    pub fn slot(&self, slot_index: usize) -> (r: TestResult)
        requires
            slot_index < self@.len(),
        ensures
            r == self@[slot_index as int],
    {
        self.slots[slot_index]
    }

    /// Whether the registry invariant holds; lets an unverified caller
    /// test it before relying on it.
    pub fn is_wf(&self) -> (r: bool)
        ensures
            r == self.wf(),
    {
        if self.slots.len() != METHOD_COUNT_MAX {
            return false;
        }
        let mut i: usize = 0;
        while i < self.slots.len()
            invariant
                i <= self@.len(),
                self@.len() == METHOD_COUNT_MAX,
                forall|j: int| 0 <= j < i ==> self@[j].wf(),
            decreases self@.len() - i,
        {
            let s = self.slots[i];
            if !s.used
                && (s.taken_correct != 0 || s.taken_incorrect != 0 || s.not_taken_correct != 0
                    || s.not_taken_incorrect != 0) {
                return false;
            }
            i = i + 1;
        }
        true
    }

    /// Whether slot `slot_index` can absorb one more report without its
    /// counter sum leaving the machine range; lets an unverified caller
    /// test [`SlotRegistry::report_branch`]'s precondition.
    pub fn has_headroom(&self, slot_index: usize) -> (r: bool)
        requires
            slot_index < self@.len(),
        ensures
            r == (self@[slot_index as int].counter_sum() < u64::MAX),
    {
        let s = self.slots[slot_index];
        let sum: u128 = s.taken_correct as u128 + s.taken_incorrect as u128
            + s.not_taken_correct as u128 + s.not_taken_incorrect as u128;
        sum < u64::MAX as u128
    }

    /// Record one branch outcome against slot `slot_index`: the slot's
    /// counter for the (actual direction, prediction correct) pair grows
    /// by one and the slot is marked in use; every other slot is
    /// untouched. An index at or past [`METHOD_COUNT_MAX`] changes
    /// nothing and is rejected loudly.
    pub fn report_branch(
        &mut self,
        slot_index: usize,
        program_counter: u64,
        taken: bool,
        predicted: bool,
    ) -> (r: Result<(), SlotError>)
        requires
            old(self).wf(),
            slot_index < METHOD_COUNT_MAX ==> old(self)@[slot_index as int].counter_sum()
                < u64::MAX,
        ensures
            final(self).wf(),
            r is Ok <==> slot_index < METHOD_COUNT_MAX,
            slot_index < METHOD_COUNT_MAX ==> final(self)@ == old(self)@.update(
                slot_index as int,
                old(self)@[slot_index as int].spec_record(taken, predicted),
            ),
            slot_index >= METHOD_COUNT_MAX ==> final(self)@ == old(self)@ && r == Err::<
                (),
                SlotError,
            >(SlotError::SlotIndexOutOfRange),
    {
        if slot_index < METHOD_COUNT_MAX {
            let mut s = self.slots[slot_index];
            s.record(taken, predicted);
            self.slots.set(slot_index, s);
            Ok(())
        } else {
            Err(SlotError::SlotIndexOutOfRange)
        }
    }

    /// Assign slot `slot_index`'s display label, marking it in use; the
    /// counters and every other slot are untouched. An index at or past
    /// [`METHOD_COUNT_MAX`] changes nothing and is rejected loudly.
    pub fn name_slot(&mut self, slot_index: usize, name: &'static str) -> (r: Result<
        (),
        SlotError,
    >)
        requires
            old(self).wf(),
        ensures
            final(self).wf(),
            r is Ok <==> slot_index < METHOD_COUNT_MAX,
            slot_index < METHOD_COUNT_MAX ==> final(self)@ == old(self)@.update(
                slot_index as int,
                (TestResult { name: name, used: true, ..old(self)@[slot_index as int] }),
            ),
            slot_index >= METHOD_COUNT_MAX ==> final(self)@ == old(self)@ && r == Err::<
                (),
                SlotError,
            >(SlotError::SlotIndexOutOfRange),
    {
        if slot_index < METHOD_COUNT_MAX {
            let mut s = self.slots[slot_index];
            s.name_me(name);
            self.slots.set(slot_index, s);
            Ok(())
        } else {
            Err(SlotError::SlotIndexOutOfRange)
        }
    }
}

} // verus!
