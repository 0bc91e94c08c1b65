use vstd::prelude::*;

use crate::rules::Action;

verus! {

/// The abstract state of a rule's process slot: no process, or exactly one
/// live process known under an opaque handle.
pub enum SupervisorState {
    Idle,
    Running(u64),
}

/// The next operation the operating system must be asked to perform to
/// replace a supervisor's process.
#[derive(Clone, Copy, Debug, PartialEq, Eq, Structural)]
pub enum ProcessOp {
    /// Kill the process known under this handle and wait for its exit,
    /// reaping it.
    KillAndReap { handle: u64 },
    /// Spawn the rule's command.
    Spawn,
}

/// A confirmed step of the restart protocol, as reported back by the caller
/// that performs the operating-system work.
pub enum RestartStep {
    /// The previous process was killed, waited for, and reaped.
    Exit,
    /// A replacement process was spawned under this handle.
    Spawn(u64),
}

/// Whether a protocol step may be confirmed in a given state: an exit needs
/// a live process, a spawn needs an empty slot.
pub open spec fn step_enabled(st: SupervisorState, step: RestartStep) -> bool {
    match step {
        RestartStep::Exit => st is Running,
        RestartStep::Spawn(_) => st is Idle,
    }
}

/// The state after a confirmed protocol step.
pub open spec fn step_result(st: SupervisorState, step: RestartStep) -> SupervisorState {
    match step {
        RestartStep::Exit => SupervisorState::Idle,
        RestartStep::Spawn(h) => SupervisorState::Running(h),
    }
}

/// Whether a sequence of confirmed steps is a run of the protocol from `st`:
/// every step is enabled in the state the previous steps lead to.
pub open spec fn valid_run(st: SupervisorState, steps: Seq<RestartStep>) -> bool
    decreases steps.len(),
{
    steps.len() == 0 || (step_enabled(st, steps[0]) && valid_run(
        step_result(st, steps[0]),
        steps.drop_first(),
    ))
}

/// The operation a restart request must perform first in a given state:
/// with a live process, kill and reap it; with an empty slot, spawn.
pub open spec fn next_op_spec(st: SupervisorState) -> ProcessOp {
    match st {
        SupervisorState::Running(h) => ProcessOp::KillAndReap { handle: h },
        SupervisorState::Idle => ProcessOp::Spawn,
    }
}

/// From a state with a live process, every valid run of the protocol
/// confirms that process's exit before any spawn: the replacement's start is
/// never observed before the predecessor's confirmed termination.
pub proof fn lemma_exit_precedes_spawn(st: SupervisorState, steps: Seq<RestartStep>, j: int)
    requires
        st is Running,
        valid_run(st, steps),
        0 <= j < steps.len(),
        steps[j] is Spawn,
    ensures
        exists|i: int| 0 <= i < j && steps[i] is Exit,
{
    // The first step is enabled in `st`, which is Running, so it cannot be a
    // spawn; it is therefore an exit, and it precedes the spawn at `j`.
    assert(step_enabled(st, steps[0]));
    assert(0 <= 0 < j && steps[0] is Exit);
}

/// Owns the one process slot of a rule together with the command and
/// working directory its replacements are spawned with. The slot changes
/// only through `record_exit` and `record_spawn`, which follow the restart
/// protocol above.
pub struct ProcessSupervisor {
    action: Action,
    working_directory: Option<String>,
    handle: Option<u64>,
}

impl ProcessSupervisor {
    /// The abstract state of the process slot.
    pub closed spec fn state(self) -> SupervisorState {
        match self.handle {
            Some(h) => SupervisorState::Running(h),
            None => SupervisorState::Idle,
        }
    }

    /// Whether exactly one live process is attributed to this supervisor.
    pub open spec fn running(self) -> bool {
        self.state() is Running
    }

    /// The command the rule runs.
    pub closed spec fn spec_action(self) -> Action {
        self.action
    }

    /// Working directory for the spawned process; inherited when absent.
    pub closed spec fn spec_working_directory(self) -> Option<String> {
        self.working_directory
    }

    /// The command the rule runs.
    pub fn action(&self) -> (a: &Action)
        ensures
            *a == self.spec_action(),
    {
        &self.action
    }

    /// Working directory for the spawned process; inherited when absent.
    pub fn working_directory(&self) -> (d: &Option<String>)
        ensures
            *d == self.spec_working_directory(),
    {
        &self.working_directory
    }

    /// A fresh supervisor owns no process.
    pub fn new(action: Action, working_directory: Option<String>) -> (s: Self)
        ensures
            s.state() == SupervisorState::Idle,
            s.spec_action() == action,
            s.spec_working_directory() == working_directory,
    {
        ProcessSupervisor { action, working_directory, handle: None }
    }

    /// Whether a live process is currently attributed to this supervisor.
    pub fn is_running(&self) -> (r: bool)
        ensures
            r == self.running(),
    {
        self.handle.is_some()
    }

    /// The first operation a restart request must perform in the current
    /// state.
    pub fn next_op(&self) -> (op: ProcessOp)
        ensures
            op == next_op_spec(self.state()),
    {
        match self.handle {
            Some(h) => ProcessOp::KillAndReap { handle: h },
            None => ProcessOp::Spawn,
        }
    }

    /// Records that the current process was killed, waited for, and reaped;
    /// the slot becomes empty. A failed kill or wait is not recorded, so the
    /// slot keeps the old process and a later restart attempts the kill
    /// again.
    pub fn record_exit(&mut self)
        requires
            step_enabled(old(self).state(), RestartStep::Exit),
        ensures
            final(self).state() == step_result(old(self).state(), RestartStep::Exit),
            final(self).spec_action() == old(self).spec_action(),
            final(self).spec_working_directory() == old(self).spec_working_directory(),
    {
        self.handle = None;
    }

    /// Records that a replacement process was spawned under `handle`; the
    /// slot must be empty, so a predecessor's exit has been confirmed
    /// first. A failed spawn is not recorded and leaves the slot empty.
    pub fn record_spawn(&mut self, handle: u64)
        requires
            step_enabled(old(self).state(), RestartStep::Spawn(handle)),
        ensures
            final(self).state() == step_result(old(self).state(), RestartStep::Spawn(handle)),
            final(self).spec_action() == old(self).spec_action(),
            final(self).spec_working_directory() == old(self).spec_working_directory(),
    {
        self.handle = Some(handle);
    }
}

} // verus!
