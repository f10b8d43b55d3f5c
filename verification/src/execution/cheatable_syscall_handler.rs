//! The handlers below the one that is active inside a nested call: the
//! syscall processor, which owns the execution context, and the handler of
//! the cheatcodes of a test, which wraps it.

use crate::execution::resources::{ResourceTracker, RunResources};
use crate::state::CheatnetState;
use vstd::prelude::*;

verus! {

/// The context of the entry point that is executed: the innermost place of
/// the chain, where the step budget of the run is kept.
pub struct EntryPointExecutionContext {
    pub vm_run_resources: RunResources,
}

/// The processor of the syscalls of the executed program.
pub struct SyscallHintProcessor {
    pub context: EntryPointExecutionContext,
}

impl ResourceTracker for SyscallHintProcessor {
    open spec fn tracker(&self) -> RunResources {
        self.context.vm_run_resources
    }

    fn consumed(&self) -> (consumed: bool) {
        self.context.vm_run_resources.consumed()
    }

    fn consume_step(&mut self) {
        self.context.vm_run_resources.consume_step();
    }

    fn get_n_steps(&self) -> (n_steps: Option<usize>) {
        self.context.vm_run_resources.get_n_steps()
    }

    fn run_resources(&self) -> (resources: &RunResources) {
        self.context.vm_run_resources.run_resources()
    }
}

/// The handler of the cheatcodes that a test may use at its top level. It
/// holds the cheats of the test.
pub struct CheatableSyscallHandler {
    pub child: SyscallHintProcessor,
    pub cheatnet_state: CheatnetState,
}

impl ResourceTracker for CheatableSyscallHandler {
    open spec fn tracker(&self) -> RunResources {
        self.child.tracker()
    }

    fn consumed(&self) -> (consumed: bool) {
        self.child.consumed()
    }

    fn consume_step(&mut self)
        ensures
            final(self).cheatnet_state == old(self).cheatnet_state,
    {
        self.child.consume_step();
    }

    fn get_n_steps(&self) -> (n_steps: Option<usize>) {
        self.child.get_n_steps()
    }

    fn run_resources(&self) -> (resources: &RunResources) {
        self.child.run_resources()
    }
}

} // verus!
