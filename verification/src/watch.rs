use vstd::prelude::*;

use crate::glob::{glob_matches, PathMatcher};
use crate::rules::{Action, WatchRule};
use crate::supervisor::{
    next_op_spec, step_enabled, step_result, ProcessOp, ProcessSupervisor, RestartStep,
    SupervisorState,
};

verus! {

/// One delivered item of a rule's notification stream. A batch carries the
/// changed paths of one debounce window, each already converted to text;
/// a path the notifier cannot represent as text is carried as `None` and
/// ignored for matching without aborting the batch.
#[derive(Debug)]
pub enum WatchEvent {
    Batch { paths: Vec<Option<String>> },
    /// The notification source reported an error for this window.
    NotifyError,
    /// The underlying subscription was torn down.
    StreamEnd,
}

/// What the worker must do with one delivered item.
#[derive(Clone, Copy, Debug, PartialEq, Eq, Structural)]
pub enum WatchAction {
    /// Replace the rule's managed process, exactly once for this batch.
    Restart,
    /// Do nothing and wait for the next item.
    Ignore,
    /// The loop's lifetime ends.
    Finish,
}

/// Whether one batch entry triggers a restart: it holds text and the text
/// matches the rule's pattern.
pub open spec fn entry_matches(pattern: Seq<char>, entry: Option<String>) -> bool {
    entry matches Some(p) && glob_matches(pattern, p@)
}

/// Matching over a batch is existential: the batch triggers a restart when
/// at least one of its paths matches the rule's pattern.
pub open spec fn batch_has_match(pattern: Seq<char>, paths: Seq<Option<String>>) -> bool {
    exists|i: int| 0 <= i < paths.len() && entry_matches(pattern, #[trigger] paths[i])
}

/// Whether any path of the batch matches the rule's pattern.
pub fn batch_matches(matcher: &PathMatcher, paths: &Vec<Option<String>>) -> (r: bool)
    ensures
        r == batch_has_match(matcher.pattern(), paths@),
{
    let mut k: usize = 0;
    while k < paths.len()
        invariant
            k <= paths@.len(),
            forall|i: int| 0 <= i < k ==> !entry_matches(matcher.pattern(), #[trigger] paths@[i]),
        decreases paths@.len() - k,
    {
        match &paths[k] {
            Some(p) => {
                if matcher.is_match(p.as_str()) {
                    return true;
                }
            },
            None => {},
        }
        k += 1;
    }
    false
}

/// The per-rule worker: bridges the rule's notification stream to its
/// process supervisor through the rule's matcher. It decides; the caller
/// performs the operating-system work and reports it back through
/// `record_exit` and `record_spawn`.
pub struct WatchLoop {
    path: String,
    matcher: PathMatcher,
    supervisor: ProcessSupervisor,
    started: bool,
}

/// A loop freshly armed for a rule: not yet started, no live process, and
/// carrying exactly the rule's path, pattern, command, and working
/// directory.
pub open spec fn armed_for(w: WatchLoop, r: WatchRule) -> bool {
    &&& !w.started()
    &&& w.sup_state() == SupervisorState::Idle
    &&& w.pattern() == r.matcher.pattern()
    &&& w.spec_path() == r.path@
    &&& w.spec_action() == r.action
    &&& w.spec_working_directory() == r.working_directory
}

impl WatchLoop {
    /// Whether this loop's initial restart has completed: a spawn has been
    /// recorded at least once.
    pub closed spec fn started(self) -> bool {
        self.started
    }

    /// The abstract state of the rule's process slot.
    pub closed spec fn sup_state(self) -> SupervisorState {
        self.supervisor.state()
    }

    /// The pattern text the rule's matcher was compiled from.
    pub closed spec fn pattern(self) -> Seq<char> {
        self.matcher.pattern()
    }

    /// The watched path's text.
    pub closed spec fn spec_path(self) -> Seq<char> {
        self.path@
    }

    /// The command the rule runs.
    pub closed spec fn spec_action(self) -> Action {
        self.supervisor.spec_action()
    }

    /// Working directory for the spawned process; inherited when absent.
    pub closed spec fn spec_working_directory(self) -> Option<String> {
        self.supervisor.spec_working_directory()
    }

    /// Change batches are processed only once the initial restart has
    /// completed: the managed process runs from the moment the rule is
    /// armed, not only after the first change.
    pub open spec fn events_enabled(self) -> bool {
        self.started()
    }

    /// Arms a loop for one rule. The loop starts with no live process and
    /// with its initial restart still owed.
    pub fn new(rule: WatchRule) -> (w: Self)
        ensures
            armed_for(w, rule),
    {
        let WatchRule { path, action, working_directory, matcher } = rule;
        WatchLoop {
            path,
            matcher,
            supervisor: ProcessSupervisor::new(action, working_directory),
            started: false,
        }
    }

    /// The watched path, for establishing the subscription and for the
    /// reload diagnostic.
    pub fn watch_path(&self) -> (p: &String)
        ensures
            p@ == self.spec_path(),
    {
        &self.path
    }

    /// The command the rule runs.
    pub fn action(&self) -> (a: &Action)
        ensures
            *a == self.spec_action(),
    {
        self.supervisor.action()
    }

    /// Working directory for the spawned process; inherited when absent.
    pub fn working_directory(&self) -> (d: &Option<String>)
        ensures
            *d == self.spec_working_directory(),
    {
        self.supervisor.working_directory()
    }

    /// Whether the initial restart has completed.
    pub fn is_started(&self) -> (r: bool)
        ensures
            r == self.started(),
    {
        self.started
    }

    /// Whether a live process is currently attributed to the rule.
    pub fn is_running(&self) -> (r: bool)
        ensures
            r == (self.sup_state() is Running),
    {
        self.supervisor.is_running()
    }

    /// The first operation a restart request must perform in the current
    /// state.
    pub fn next_op(&self) -> (op: ProcessOp)
        ensures
            op == next_op_spec(self.sup_state()),
    {
        self.supervisor.next_op()
    }

    /// Records that the rule's current process was killed, waited for, and
    /// reaped.
    pub fn record_exit(&mut self)
        requires
            step_enabled(old(self).sup_state(), RestartStep::Exit),
        ensures
            final(self).sup_state() == step_result(old(self).sup_state(), RestartStep::Exit),
            final(self).started() == old(self).started(),
            final(self).pattern() == old(self).pattern(),
            final(self).spec_path() == old(self).spec_path(),
            final(self).spec_action() == old(self).spec_action(),
            final(self).spec_working_directory() == old(self).spec_working_directory(),
    {
        self.supervisor.record_exit();
    }

    /// Records that a replacement process was spawned under `handle`; the
    /// first recorded spawn completes the initial restart.
    pub fn record_spawn(&mut self, handle: u64)
        requires
            step_enabled(old(self).sup_state(), RestartStep::Spawn(handle)),
        ensures
            final(self).sup_state() == step_result(
                old(self).sup_state(),
                RestartStep::Spawn(handle),
            ),
            final(self).started(),
            final(self).pattern() == old(self).pattern(),
            final(self).spec_path() == old(self).spec_path(),
            final(self).spec_action() == old(self).spec_action(),
            final(self).spec_working_directory() == old(self).spec_working_directory(),
    {
        self.supervisor.record_spawn(handle);
        self.started = true;
    }

    /// Decides what one delivered item of the notification stream demands:
    /// a batch with at least one matching path demands exactly one restart,
    /// a batch without one demands nothing, a notification error is
    /// ignored, and the end of the stream ends the loop.
    pub fn handle_event(&self, event: &WatchEvent) -> (a: WatchAction)
        requires
            self.events_enabled(),
        ensures
            event matches WatchEvent::Batch { paths } ==> a == (if batch_has_match(
                self.pattern(),
                paths@,
            ) {
                WatchAction::Restart
            } else {
                WatchAction::Ignore
            }),
            event is NotifyError ==> a == WatchAction::Ignore,
            event is StreamEnd ==> a == WatchAction::Finish,
    {
        match event {
            WatchEvent::Batch { paths } => {
                if batch_matches(&self.matcher, paths) {
                    WatchAction::Restart
                } else {
                    WatchAction::Ignore
                }
            },
            WatchEvent::NotifyError => WatchAction::Ignore,
            WatchEvent::StreamEnd => WatchAction::Finish,
        }
    }
}

/// Arms one independent worker per validated rule, in order: exactly as
/// many loops as rules, each owing its initial restart and owning an empty
/// process slot.
pub fn build_loops(rules: Vec<WatchRule>) -> (loops: Vec<WatchLoop>)
    ensures
        loops@.len() == rules@.len(),
        forall|i: int| 0 <= i < rules@.len() ==> armed_for(#[trigger] loops@[i], rules@[i]),
{
    let ghost all = rules@;
    let mut remaining = rules;
    let mut loops: Vec<WatchLoop> = Vec::new();
    while remaining.len() > 0
        invariant
            all == rules@,
            all.len() == loops@.len() + remaining@.len(),
            forall|i: int| 0 <= i < loops@.len() ==> armed_for(#[trigger] loops@[i], all[i]),
            forall|i: int|
                0 <= i < remaining@.len() ==> #[trigger] remaining@[i] == all[loops@.len() + i],
        decreases remaining@.len(),
    {
        let rule = remaining.remove(0);
        let armed = WatchLoop::new(rule);
        loops.push(armed);
    }
    loops
}

/// Each worker issues its initial restart before it processes any change
/// batch: a freshly armed loop does not yet accept events, and the first
/// protocol operation it asks for is the initial spawn.
pub proof fn lemma_initial_restart_precedes_batches(w: WatchLoop, r: WatchRule)
    requires
        armed_for(w, r),
    ensures
        !w.events_enabled(),
        next_op_spec(w.sup_state()) == ProcessOp::Spawn,
{
}

/// One observed step of a worker's life: a confirmed step of its restart
/// protocol, or the handling of one delivered item of its notification
/// stream.
pub enum LoopStep {
    Protocol(RestartStep),
    Event,
}

/// Whether a worker step may happen: protocol steps follow the supervisor's
/// protocol, and an item is handled only once the loop has started.
pub open spec fn loop_step_enabled(started: bool, st: SupervisorState, step: LoopStep) -> bool {
    match step {
        LoopStep::Protocol(p) => step_enabled(st, p),
        LoopStep::Event => started,
    }
}

/// Whether the loop counts as started after a step: the first recorded
/// spawn starts it, and nothing unstarts it.
pub open spec fn loop_step_started(started: bool, step: LoopStep) -> bool {
    match step {
        LoopStep::Protocol(RestartStep::Spawn(_)) => true,
        _ => started,
    }
}

/// The process slot's state after a worker step; handling an item does not
/// itself change the slot.
pub open spec fn loop_step_state(st: SupervisorState, step: LoopStep) -> SupervisorState {
    match step {
        LoopStep::Protocol(p) => step_result(st, p),
        LoopStep::Event => st,
    }
}

/// Whether a sequence of worker steps is a valid run from the given loop
/// state: every step is enabled in the state the previous steps lead to.
pub open spec fn valid_loop_run(started: bool, st: SupervisorState, steps: Seq<LoopStep>) -> bool
    decreases steps.len(),
{
    steps.len() == 0 || (loop_step_enabled(started, st, steps[0]) && valid_loop_run(
        loop_step_started(started, steps[0]),
        loop_step_state(st, steps[0]),
        steps.drop_first(),
    ))
}

/// From a loop that has not yet started, every valid run handles a delivered
/// item only after a spawn has been recorded: each worker's initial restart
/// precedes its processing of any change batch.
pub proof fn lemma_spawn_precedes_events(
    started: bool,
    st: SupervisorState,
    steps: Seq<LoopStep>,
    j: int,
)
    requires
        !started,
        valid_loop_run(started, st, steps),
        0 <= j < steps.len(),
        steps[j] is Event,
    ensures
        exists|i: int|
            0 <= i < j && (#[trigger] steps[i]) matches LoopStep::Protocol(RestartStep::Spawn(_)),
    decreases j,
{
    assert(loop_step_enabled(started, st, steps[0]));
    match steps[0] {
        LoopStep::Event => {
            assert(false);
        },
        LoopStep::Protocol(p) => {
            match p {
                RestartStep::Spawn(_) => {
                    assert(0 < j && (steps[0] matches LoopStep::Protocol(RestartStep::Spawn(_))));
                },
                RestartStep::Exit => {
                    let rest = steps.drop_first();
                    lemma_spawn_precedes_events(
                        loop_step_started(started, steps[0]),
                        loop_step_state(st, steps[0]),
                        rest,
                        j - 1,
                    );
                    let i0 = choose|i: int|
                        0 <= i < j - 1 && (#[trigger] rest[i]) matches LoopStep::Protocol(
                            RestartStep::Spawn(_),
                        );
                    assert(steps[i0 + 1] == rest[i0]);
                },
            }
        },
    }
}

} // verus!
