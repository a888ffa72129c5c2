//! A single predictor's statistics record.

use vstd::prelude::*;

verus! {

/// One predictor slot: the four confusion-matrix counters (actual
/// direction taken or not taken, crossed with whether the prediction
/// matched), an in-use flag, and a display label.
#[derive(Debug, Copy, Clone)]
pub struct TestResult {
    pub taken_correct: u64,
    pub taken_incorrect: u64,
    pub not_taken_correct: u64,
    pub not_taken_incorrect: u64,
    pub used: bool,
    pub name: &'static str,
}

impl TestResult {
    /// The number of branch outcomes this slot has absorbed: the sum of
    /// its four counters.
    pub open spec fn counter_sum(self) -> int {
        self.taken_correct + self.taken_incorrect + self.not_taken_correct
            + self.not_taken_incorrect
    }

    /// A slot that is not in use has absorbed nothing: all four counters
    /// are zero.
    pub open spec fn wf(self) -> bool {
        !self.used ==> {
            &&& self.taken_correct == 0
            &&& self.taken_incorrect == 0
            &&& self.not_taken_correct == 0
            &&& self.not_taken_incorrect == 0
        }
    }

    /// A freshly created slot: zeroed counters, not in use, empty label.
    pub open spec fn is_zeroed(self) -> bool {
        &&& self.taken_correct == 0
        &&& self.taken_incorrect == 0
        &&& self.not_taken_correct == 0
        &&& self.not_taken_incorrect == 0
        &&& !self.used
        &&& self.name@.len() == 0
    }

    /// This slot after absorbing one branch outcome: exactly one counter,
    /// chosen by the actual direction and whether the prediction matched
    /// it, is one higher, and the slot is marked in use. The label is
    /// untouched.
    pub open spec fn spec_record(self, taken: bool, predicted: bool) -> TestResult {
        if taken && predicted == taken {
            TestResult { taken_correct: (self.taken_correct + 1) as u64, used: true, ..self }
        } else if taken {
            TestResult { taken_incorrect: (self.taken_incorrect + 1) as u64, used: true, ..self }
        } else if predicted == taken {
            TestResult { not_taken_correct: (self.not_taken_correct + 1) as u64, used: true, ..self }
        } else {
            TestResult { not_taken_incorrect: (self.not_taken_incorrect + 1) as u64, used: true, ..self }
        }
    }

    /// A fresh, zeroed, unused slot.
    pub fn new() -> (r: TestResult)
        ensures
            r.is_zeroed(),
            r.wf(),
    {
        proof {
            reveal_strlit("");
        }
        TestResult {
            taken_correct: 0,
            taken_incorrect: 0,
            not_taken_correct: 0,
            not_taken_incorrect: 0,
            used: false,
            name: "",
        }
    }

    /// Absorb one branch outcome into this slot's counters.
    pub fn record(&mut self, taken: bool, predicted: bool)
        requires
            old(self).counter_sum() < u64::MAX,
        ensures
            *final(self) == old(self).spec_record(taken, predicted),
    {
        if predicted == taken {
            if taken {
                self.taken_correct = self.taken_correct + 1;
            } else {
                self.not_taken_correct = self.not_taken_correct + 1;
            }
        } else {
            if taken {
                self.taken_incorrect = self.taken_incorrect + 1;
            } else {
                self.not_taken_incorrect = self.not_taken_incorrect + 1;
            }
        }
        self.used = true;
    }

    /// Assign this slot's display label, marking the slot in use; the
    /// counters are untouched. The returned borrow aliases the slot, so a
    /// caller may chain further updates through it.
    pub fn name_me(&mut self, name: &'static str) -> (r: &mut Self)
        ensures
            *r == (TestResult { name: name, used: true, ..*old(self) }),
            *final(self) == *final(r),
    {
        self.name = name;
        self.used = true;
        self
    }
}

impl Default for TestResult {
    /// Same as [`TestResult::new`]: a zeroed, unused slot.
    fn default() -> (r: Self)
        ensures
            r.is_zeroed(),
            r.wf(),
    {
        TestResult::new()
    }
}

} // verus!
