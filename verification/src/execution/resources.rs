//! The step budget of a run and the handlers' access to it.

use vstd::prelude::*;

verus! {

/// The steps that a run may still take. A run without a limit has none to
/// count.
#[derive(Clone, Copy, Debug, PartialEq, Eq)]
pub struct RunResources {
    n_steps: Option<usize>,
}

impl RunResources {
    /// The steps that are left; `None` where the run has no limit.
    pub closed spec fn steps(self) -> Option<usize> {
        self.n_steps
    }

    /// Whether no step is left.
    pub open spec fn is_consumed(self) -> bool {
        self.steps() == Some(0usize)
    }

    /// The steps that are left after one more step: one less, but never less
    /// than none; a run without a limit stays without one.
    pub open spec fn steps_after_step(self) -> Option<usize> {
        match self.steps() {
            Some(n) => Some(
                if n == 0 {
                    0usize
                } else {
                    (n - 1) as usize
                },
            ),
            None => None,
        }
    }

    /// The resources of a run that may take `n_steps` steps.
    pub fn new(n_steps: usize) -> (resources: RunResources)
        ensures
            resources.steps() == Some(n_steps),
    {
        RunResources { n_steps: Some(n_steps) }
    }

    /// The resources of a run without a limit.
    pub fn unlimited() -> (resources: RunResources)
        ensures
            resources.steps() is None,
    {
        RunResources { n_steps: None }
    }

    /// Resources are the same where they have the same steps left.
    pub proof fn lemma_steps_injective(self, other: RunResources)
        ensures
            self.steps() == other.steps() <==> self == other,
    {
    }
}

/// What the virtual machine asks a hint handler about the step budget.
///
/// A handler that wraps another answers with the tracker of the innermost
/// execution context, which `tracker` names: it keeps no count of its own, so
/// each answer is the one that the innermost tracker gives.
pub trait ResourceTracker {
    /// The tracker of the innermost execution context.
    spec fn tracker(&self) -> RunResources;

    /// Whether no step is left.
    fn consumed(&self) -> (consumed: bool)
        ensures
            consumed == self.tracker().is_consumed(),
    ;

    /// Takes one step off the budget.
    fn consume_step(&mut self)
        ensures
            final(self).tracker().steps() == old(self).tracker().steps_after_step(),
    ;

    /// The steps that are left.
    fn get_n_steps(&self) -> (n_steps: Option<usize>)
        ensures
            n_steps == self.tracker().steps(),
    ;

    /// The tracker itself.
    fn run_resources(&self) -> (resources: &RunResources)
        ensures
            *resources == self.tracker(),
    ;
}

impl ResourceTracker for RunResources {
    open spec fn tracker(&self) -> RunResources {
        *self
    }

    fn consumed(&self) -> (consumed: bool) {
        assert(self.tracker() == *self);
        match self.n_steps {
            Some(n) => n == 0,
            None => false,
        }
    }

    fn consume_step(&mut self) {
        if let Some(n) = self.n_steps {
            self.n_steps = Some(
                if n == 0 {
                    0
                } else {
                    n - 1
                },
            );
        }
    }

    fn get_n_steps(&self) -> (n_steps: Option<usize>) {
        self.n_steps
    }

    fn run_resources(&self) -> (resources: &RunResources) {
        self
    }
}

} // verus!
