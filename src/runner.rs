use vstd::prelude::*;
use crate::catalog::{SnapTest, SnapVariation};

verus! {

/// A scored case that did not render as expected.
#[derive(Clone, Copy, Debug, PartialEq, Eq, Structural)]
pub struct SnapFailure {
    pub test: SnapTest,
    pub variation: SnapVariation,
}

/// What the driver of a run does next.
#[derive(Clone, Copy, Debug, PartialEq, Eq, Structural)]
pub enum RunAction {
    /// Draw `test` for `variation`, render it, validate it and report the
    /// result with `SnapRun::record`.
    Render { test: SnapTest, variation: SnapVariation },
    /// Every combination ran; `passed` holds when no scored case failed.
    Finished { passed: bool },
    /// Clearing the canvas after `variation` failed: the canvas can no longer
    /// be trusted and the run stops.
    Aborted { variation: SnapVariation },
}

/// The progress of a run over every scored case crossed with every
/// variation, each followed by the clearing case.
///
/// The run is at variation `variation_index` of case `test_index`; `clearing`
/// says whether the scored case has been rendered and the clear is due.
pub struct SnapRun {
    pub tests: Vec<SnapTest>,
    pub variations: Vec<SnapVariation>,
    pub test_index: usize,
    pub variation_index: usize,
    pub clearing: bool,
    pub aborted: bool,
    pub failures: Vec<SnapFailure>,
}

impl SnapRun {
    pub open spec fn wf(&self) -> bool {
        &&& self.test_index <= self.tests@.len()
        &&& self.variations@.len() == 0 ==> self.variation_index == 0
        &&& self.variations@.len() > 0 ==> self.variation_index < self.variations@.len()
        &&& self.test_index == self.tests@.len() ==> self.variation_index == 0 && !self.clearing
        &&& self.aborted ==> !self.is_done()
    }

    /// Every combination has been rendered and cleared.
    pub open spec fn is_done(&self) -> bool {
        self.test_index >= self.tests@.len() || self.variations@.len() == 0
    }

    pub open spec fn current_test(&self) -> SnapTest {
        if self.clearing {
            SnapTest::Clear
        } else {
            self.tests@[self.test_index as int]
        }
    }

    pub open spec fn current_variation(&self) -> SnapVariation {
        self.variations@[self.variation_index as int]
    }

    pub open spec fn spec_next_action(&self) -> RunAction {
        if self.aborted {
            RunAction::Aborted { variation: self.current_variation() }
        } else if self.is_done() {
            RunAction::Finished { passed: self.failures@.len() == 0 }
        } else {
            RunAction::Render { test: self.current_test(), variation: self.current_variation() }
        }
    }

    /// `next` is `prev` after the current render was reported with `ok`.
    pub open spec fn recorded(prev: SnapRun, next: SnapRun, ok: bool) -> bool {
        &&& next.tests@ == prev.tests@
        &&& next.variations@ == prev.variations@
        &&& if !prev.clearing {
            &&& next.test_index == prev.test_index
            &&& next.variation_index == prev.variation_index
            &&& next.clearing
            &&& !next.aborted
            &&& next.failures@ == if ok {
                prev.failures@
            } else {
                prev.failures@.push(
                    SnapFailure { test: prev.current_test(), variation: prev.current_variation() },
                )
            }
        } else if ok {
            &&& !next.clearing
            &&& !next.aborted
            &&& next.failures@ == prev.failures@
            &&& if prev.variation_index + 1 < prev.variations@.len() {
                next.test_index == prev.test_index && next.variation_index
                    == prev.variation_index + 1
            } else {
                next.test_index == prev.test_index + 1 && next.variation_index == 0
            }
        } else {
            &&& next.aborted
            &&& next.clearing
            &&& next.test_index == prev.test_index
            &&& next.variation_index == prev.variation_index
            &&& next.failures@ == prev.failures@
        }
    }

    /// A run over `tests` crossed with `variations`, before anything is drawn.
    pub fn new(tests: Vec<SnapTest>, variations: Vec<SnapVariation>) -> (run: SnapRun)
        ensures
            run.wf(),
            run.tests@ == tests@,
            run.variations@ == variations@,
            run.test_index == 0,
            run.variation_index == 0,
            !run.clearing,
            !run.aborted,
            run.failures@.len() == 0,
    {
        SnapRun {
            tests,
            variations,
            test_index: 0,
            variation_index: 0,
            clearing: false,
            aborted: false,
            failures: Vec::new(),
        }
    }

    /// What to do next: render the current case, or stop.
    pub fn next_action(&self) -> (a: RunAction)
        requires
            self.wf(),
        ensures
            a == self.spec_next_action(),
    {
        if self.aborted {
            RunAction::Aborted { variation: self.variations[self.variation_index] }
        } else if self.test_index >= self.tests.len() || self.variations.len() == 0 {
            RunAction::Finished { passed: self.failures.len() == 0 }
        } else {
            let test = if self.clearing {
                SnapTest::Clear
            } else {
                self.tests[self.test_index]
            };
            RunAction::Render { test, variation: self.variations[self.variation_index] }
        }
    }

    /// Takes the validation result of the render that `next_action` asked
    /// for. A failed scored case is kept and the run goes on; a failed clear
    /// aborts the run.
    pub fn record(&mut self, ok: bool)
        requires
            old(self).wf(),
            !old(self).aborted,
            !old(self).is_done(),
        ensures
            final(self).wf(),
            SnapRun::recorded(*old(self), *final(self), ok),
    {
        let n_variations = self.variations.len();
        if !self.clearing {
            if !ok {
                let failure = SnapFailure {
                    test: self.tests[self.test_index],
                    variation: self.variations[self.variation_index],
                };
                self.failures.push(failure);
            }
            self.clearing = true;
        } else if ok {
            self.clearing = false;
            if self.variation_index + 1 < n_variations {
                self.variation_index = self.variation_index + 1;
            } else {
                let n_tests = self.tests.len();
                assert(self.test_index < n_tests);
                self.test_index = self.test_index + 1;
                self.variation_index = 0;
            }
        } else {
            self.aborted = true;
        }
    }
}

/// Every scored render is followed by a clear of the canvas, for the same
/// variation, before anything else is drawn.
pub proof fn lemma_clear_follows_each_case(prev: SnapRun, next: SnapRun, ok: bool)
    requires
        prev.wf(),
        !prev.aborted,
        !prev.is_done(),
        !prev.clearing,
        SnapRun::recorded(prev, next, ok),
    ensures
        next.spec_next_action() == (RunAction::Render {
            test: SnapTest::Clear,
            variation: prev.current_variation(),
        }),
{
}

} // verus!
