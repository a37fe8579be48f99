//! What holds of every run of the protocol, whatever the host reports.
//!
//! A run is a sequence of events fed to [`next`] one after the other. The
//! first part of this module speaks of single steps and of arbitrary runs,
//! including runs in which the host reports events out of turn. The second
//! part speaks of whole operations as a host carries them out that answers
//! every action with the event it asks for.

use vstd::prelude::*;
use crate::platform::Platform;
use crate::protocol::{
    next, Action, Event, LaunchError, Operation, Outcome, Slot, Stage, SupervisedProcess,
};

verus! {

/// The processes that enter the supervisor's custody when `stage` takes
/// `event`: the one that was spawned on its request.
pub open spec fn received<R, H>(stage: Stage<H>, event: Event<R, H>) -> Seq<SupervisedProcess<H>> {
    match (stage, event) {
        (Stage::Spawning, Event::Spawned(Some(process))) => seq![process],
        _ => Seq::empty(),
    }
}

/// The processes that `action` hands to the host for termination.
pub open spec fn released<R, H>(action: Action<R, H>) -> Seq<SupervisedProcess<H>> {
    match action {
        Action::Terminate(process) => seq![process],
        _ => Seq::empty(),
    }
}

/// The number of processes whose exit `event` confirms to `stage`.
pub open spec fn exited<R, H>(stage: Stage<H>, event: Event<R, H>) -> nat {
    match (stage, event) {
        (Stage::Terminating { .. }, Event::Terminated) => 1,
        _ => 0,
    }
}

/// The stage reached from `stage` once the host has reported `events`.
pub open spec fn stage_after<R, H>(
    platform: Platform,
    stage: Stage<H>,
    events: Seq<Event<R, H>>,
) -> Stage<H>
    decreases events.len(),
{
    if events.len() == 0 {
        stage
    } else {
        next(platform, stage_after(platform, stage, events.drop_last()), events.last()).0
    }
}

/// The processes that entered the supervisor's custody during `events`, in
/// the order in which they came.
pub open spec fn received_during<R, H>(
    platform: Platform,
    stage: Stage<H>,
    events: Seq<Event<R, H>>,
) -> Seq<SupervisedProcess<H>>
    decreases events.len(),
{
    if events.len() == 0 {
        Seq::empty()
    } else {
        received_during(platform, stage, events.drop_last()) + received(
            stage_after(platform, stage, events.drop_last()),
            events.last(),
        )
    }
}

/// The processes that the supervisor handed out for termination during
/// `events`, in the order in which they left.
pub open spec fn released_during<R, H>(
    platform: Platform,
    stage: Stage<H>,
    events: Seq<Event<R, H>>,
) -> Seq<SupervisedProcess<H>>
    decreases events.len(),
{
    if events.len() == 0 {
        Seq::empty()
    } else {
        released_during(platform, stage, events.drop_last()) + released(
            next(platform, stage_after(platform, stage, events.drop_last()), events.last()).1,
        )
    }
}

/// The number of processes whose exit was confirmed during `events`.
pub open spec fn exited_during<R, H>(
    platform: Platform,
    stage: Stage<H>,
    events: Seq<Event<R, H>>,
) -> nat
    decreases events.len(),
{
    if events.len() == 0 {
        0
    } else {
        exited_during(platform, stage, events.drop_last()) + exited(
            stage_after(platform, stage, events.drop_last()),
            events.last(),
        )
    }
}

/// An event that the stage is not waiting for is handed back and changes
/// nothing; one that it is waiting for is never handed back.
pub proof fn lemma_rejected_unless_awaited<R, H>(
    platform: Platform,
    stage: Stage<H>,
    event: Event<R, H>,
)
    ensures
        !stage.awaits(event) ==> next(platform, stage, event) == (stage, Action::Reject(event)),
        stage.awaits(event) ==> !(next(platform, stage, event).1 is Reject),
{
}

/// While an operation is under way, no other can begin: every request is
/// handed back and the supervisor stays as it is.
pub proof fn lemma_no_request_is_taken_while_busy<R, H>(
    platform: Platform,
    stage: Stage<H>,
    operation: Operation,
)
    requires
        !(stage is Idle),
    ensures
        next(platform, stage, Event::<R, H>::Requested(operation)) == (
            stage,
            Action::Reject(Event::<R, H>::Requested(operation)),
        ),
{
}

/// When an operation finishes, the supervisor is idle and the slot shows
/// what the outcome says: the started process after a success, nothing
/// after a failure or a shutdown.
pub proof fn lemma_finish_tells_the_slot<R, H>(
    platform: Platform,
    stage: Stage<H>,
    event: Event<R, H>,
)
    ensures
        match next(platform, stage, event).1 {
            Action::Finish(Outcome::Started { pid }) => next(platform, stage, event).0.slot()
                == (Slot::Running { pid }),
            Action::Finish(_) => next(platform, stage, event).0 == Stage::<H>::Idle(None),
            _ => true,
        },
{
}

/// The supervisor asks for a spawn only while no child of its own is alive,
/// and names the executable of its platform.
pub proof fn lemma_spawn_only_without_child<R, H>(
    platform: Platform,
    stage: Stage<H>,
    event: Event<R, H>,
)
    requires
        next(platform, stage, event).1 is Spawn,
    ensures
        stage.live_children() == 0,
        next(platform, stage, event).0.live_children() == 0,
        next(platform, stage, event).1->relative_path == platform.relative_path(),
        event == Event::<R, H>::RootLocated(Some(next(platform, stage, event).1->root)),
{
}

/// One step neither loses a process nor makes one up: those held before
/// and those that came in are those that were handed out and those held
/// after.
pub proof fn lemma_step_keeps_custody<R, H>(platform: Platform, stage: Stage<H>, event: Event<R, H>)
    ensures
        stage.held() + received(stage, event) == released(next(platform, stage, event).1) + next(
            platform,
            stage,
            event,
        ).0.held(),
{
}

/// One step changes the number of live children by the processes that came
/// in and the exits that were confirmed.
pub proof fn lemma_step_counts_children<R, H>(
    platform: Platform,
    stage: Stage<H>,
    event: Event<R, H>,
)
    ensures
        next(platform, stage, event).0.live_children() + exited(stage, event)
            == stage.live_children() + received(stage, event).len(),
{
}

/// In every run, each process that the supervisor held at the start or
/// received on the way is either still held or was handed out for
/// termination, and the processes were handed out in the order in which
/// they came. So no process is handed out twice and none is dropped,
/// however the reports of several callers are interleaved.
pub proof fn lemma_custody<R, H>(platform: Platform, stage: Stage<H>, events: Seq<Event<R, H>>)
    ensures
        stage.held() + received_during(platform, stage, events) == released_during(
            platform,
            stage,
            events,
        ) + stage_after(platform, stage, events).held(),
    decreases events.len(),
{
    if events.len() > 0 {
        let before = events.drop_last();
        let reached = stage_after(platform, stage, before);
        lemma_custody(platform, stage, before);
        lemma_step_keeps_custody(platform, reached, events.last());
    }
}

/// In every run that starts with an empty slot, the processes that were
/// spawned for the supervisor and have not been confirmed dead are the
/// live children of the stage reached, and there is never more than one.
/// This holds after every report, since each prefix of a run is a run.
pub proof fn lemma_at_most_one_child<R, H>(platform: Platform, events: Seq<Event<R, H>>)
    ensures
        received_during(platform, Stage::<H>::Idle(None), events).len() == exited_during(
            platform,
            Stage::<H>::Idle(None),
            events,
        ) + stage_after(platform, Stage::<H>::Idle(None), events).live_children(),
        stage_after(platform, Stage::<H>::Idle(None), events).live_children() <= 1,
    decreases events.len(),
{
    if events.len() > 0 {
        let before = events.drop_last();
        let reached = stage_after(platform, Stage::<H>::Idle(None), before);
        lemma_at_most_one_child(platform, before);
        lemma_step_counts_children(platform, reached, events.last());
    }
}

/// The event with which a host that does as it is asked answers `action`:
/// it terminates the process, reports `root` as the outcome of the lookup
/// and `spawned` as the outcome of the spawn. No answer is due once the
/// operation is over.
pub open spec fn answer<R, H>(
    action: Action<R, H>,
    root: Option<R>,
    spawned: Option<SupervisedProcess<H>>,
) -> Option<Event<R, H>> {
    match action {
        Action::Terminate(_) => Some(Event::Terminated),
        Action::LocateRoot => Some(Event::RootLocated(root)),
        Action::Spawn { .. } => Some(Event::Spawned(spawned)),
        Action::Finish(_) => None,
        Action::Reject(_) => None,
    }
}

/// One exchange with such a host: it answers the action in `at`, and the
/// supervisor takes the answer. Nothing changes once the operation is over.
pub open spec fn exchange<R, H>(
    platform: Platform,
    at: (Stage<H>, Action<R, H>),
    root: Option<R>,
    spawned: Option<SupervisedProcess<H>>,
) -> (Stage<H>, Action<R, H>) {
    match answer(at.1, root, spawned) {
        Some(event) => next(platform, at.0, event),
        None => at,
    }
}

/// A whole operation: the request and the three exchanges that the longest
/// of them, a restart of a running process, needs. The result is the stage
/// in which the operation leaves the supervisor and the action that ended
/// it.
pub open spec fn perform<R, H>(
    platform: Platform,
    stage: Stage<H>,
    operation: Operation,
    root: Option<R>,
    spawned: Option<SupervisedProcess<H>>,
) -> (Stage<H>, Action<R, H>) {
    let requested = next(platform, stage, Event::<R, H>::Requested(operation));
    let first = exchange(platform, requested, root, spawned);
    let second = exchange(platform, first, root, spawned);
    exchange(platform, second, root, spawned)
}

/// Every operation that is asked of an idle supervisor comes to an end and
/// leaves the supervisor idle. Only a launch while a process is running is
/// turned away; it leaves that process running.
pub proof fn lemma_operation_ends_idle<R, H>(
    platform: Platform,
    slot: Option<SupervisedProcess<H>>,
    operation: Operation,
    root: Option<R>,
    spawned: Option<SupervisedProcess<H>>,
)
    ensures
        perform(platform, Stage::Idle(slot), operation, root, spawned).0 is Idle,
        answer(perform(platform, Stage::Idle(slot), operation, root, spawned).1, root, spawned)
            is None,
        perform(platform, Stage::Idle(slot), operation, root, spawned).1 is Reject <==> operation
            == Operation::Launch && slot is Some,
        operation == Operation::Launch && slot is Some ==> perform(
            platform,
            Stage::Idle(slot),
            operation,
            root,
            spawned,
        ).0 == Stage::Idle(slot),
{
}

/// A launch with an empty slot looks the resource root up and spawns the
/// executable below it. It ends with the spawned process in the slot, or
/// with an empty slot and the reason: the root was not found, or the spawn
/// failed.
pub proof fn lemma_launch<R, H>(
    platform: Platform,
    root: Option<R>,
    spawned: Option<SupervisedProcess<H>>,
)
    ensures
        perform(platform, Stage::<H>::Idle(None), Operation::Launch, root, spawned) == (
            match (root, spawned) {
                (Some(_), Some(process)) => (
                    Stage::Idle(Some(process)),
                    Action::<R, H>::Finish(Outcome::Started { pid: process.pid }),
                ),
                (Some(_), None) => (
                    Stage::Idle(None),
                    Action::<R, H>::Finish(Outcome::Failed(LaunchError::SpawnFailed)),
                ),
                (None, _) => (
                    Stage::Idle(None),
                    Action::<R, H>::Finish(Outcome::Failed(LaunchError::ResourceRootUnavailable)),
                ),
            }
        ),
{
}

/// A shutdown with an empty slot changes nothing and ends at once, without
/// an error and without asking anything of the host.
pub proof fn lemma_shutdown_of_absent_is_noop<R, H>(
    platform: Platform,
    root: Option<R>,
    spawned: Option<SupervisedProcess<H>>,
)
    ensures
        next(platform, Stage::<H>::Idle(None), Event::<R, H>::Requested(Operation::Shutdown)) == (
            Stage::<H>::Idle(None),
            Action::<R, H>::Finish(Outcome::Stopped),
        ),
        perform(platform, Stage::<H>::Idle(None), Operation::Shutdown, root, spawned) == (
            Stage::<H>::Idle(None),
            Action::<R, H>::Finish(Outcome::Stopped),
        ),
{
}

/// A shutdown always ends with an empty slot, and the process that was
/// running is the one it handed out for termination.
pub proof fn lemma_shutdown_clears_the_slot<R, H>(
    platform: Platform,
    slot: Option<SupervisedProcess<H>>,
    root: Option<R>,
    spawned: Option<SupervisedProcess<H>>,
)
    ensures
        perform(platform, Stage::Idle(slot), Operation::Shutdown, root, spawned) == (
            Stage::<H>::Idle(None),
            Action::<R, H>::Finish(Outcome::Stopped),
        ),
        released(next(platform, Stage::Idle(slot), Event::<R, H>::Requested(Operation::Shutdown)).1)
            == Stage::Idle(slot).held(),
{
}

/// A restart with an empty slot is a launch: step by step it asks the
/// same of the host and ends in the same way.
pub proof fn lemma_restart_of_absent_is_launch<R, H>(
    platform: Platform,
    root: Option<R>,
    spawned: Option<SupervisedProcess<H>>,
)
    ensures
        next(platform, Stage::<H>::Idle(None), Event::<R, H>::Requested(Operation::Restart))
            == next(platform, Stage::<H>::Idle(None), Event::<R, H>::Requested(Operation::Launch)),
        perform(platform, Stage::<H>::Idle(None), Operation::Restart, root, spawned) == perform(
            platform,
            Stage::<H>::Idle(None),
            Operation::Launch,
            root,
            spawned,
        ),
{
}

/// A restart of a running process first hands that process out for
/// termination and asks for nothing else until its exit is confirmed. From
/// there it goes on as a launch does.
pub proof fn lemma_restart_terminates_first<R, H>(
    platform: Platform,
    previous: SupervisedProcess<H>,
    root: Option<R>,
    spawned: Option<SupervisedProcess<H>>,
)
    ensures
        next(
            platform,
            Stage::Idle(Some(previous)),
            Event::<R, H>::Requested(Operation::Restart),
        ) == (Stage::<H>::Terminating { relaunch: true }, Action::<R, H>::Terminate(previous)),
        perform(platform, Stage::Idle(Some(previous)), Operation::Restart, root, spawned)
            == perform(platform, Stage::<H>::Idle(None), Operation::Launch, root, spawned),
{
}

/// After a restart that reports success, the slot holds the process that
/// was spawned, and the report names it. Its identifier differs from the
/// previous one's wherever the operating system gave the new process
/// another identifier than the one it had just taken back.
pub proof fn lemma_successful_restart_replaces_process<R, H>(
    platform: Platform,
    previous: SupervisedProcess<H>,
    root: Option<R>,
    spawned: Option<SupervisedProcess<H>>,
)
    requires
        perform(platform, Stage::Idle(Some(previous)), Operation::Restart, root, spawned).1
            is Finish,
        perform(platform, Stage::Idle(Some(previous)), Operation::Restart, root, spawned).1
            ->Finish_0 is Started,
        spawned is Some ==> spawned->Some_0.pid != previous.pid,
    ensures
        spawned is Some,
        root is Some,
        perform(platform, Stage::Idle(Some(previous)), Operation::Restart, root, spawned) == (
            Stage::Idle(spawned),
            Action::<R, H>::Finish(Outcome::Started { pid: spawned->Some_0.pid }),
        ),
        perform(platform, Stage::Idle(Some(previous)), Operation::Restart, root, spawned).0.slot()
            != Stage::Idle(Some(previous)).slot(),
{
}

/// After a restart that reports failure, the slot is empty: the previous
/// process is gone and no other is held.
pub proof fn lemma_failed_restart_leaves_absent<R, H>(
    platform: Platform,
    slot: Option<SupervisedProcess<H>>,
    root: Option<R>,
    spawned: Option<SupervisedProcess<H>>,
)
    requires
        perform(platform, Stage::Idle(slot), Operation::Restart, root, spawned).1 is Finish,
        perform(platform, Stage::Idle(slot), Operation::Restart, root, spawned).1->Finish_0
            is Failed,
    ensures
        perform(platform, Stage::Idle(slot), Operation::Restart, root, spawned).0
            == Stage::<H>::Idle(None),
        perform(platform, Stage::Idle(slot), Operation::Restart, root, spawned).0.slot()
            == Slot::Absent,
        root is None || spawned is None,
{
}

/// A restart and a shutdown that two callers ask for at the same time are
/// carried out one after the other, and the later one decides what the
/// slot shows. If the shutdown comes last, the slot is empty. If the
/// restart comes last, the slot holds the process it spawned, or nothing
/// if it failed. Either way the process that was running at the start is
/// handed out for termination exactly once: the operation that comes
/// second finds it gone.
pub proof fn lemma_restart_and_shutdown_in_either_order<R, H>(
    platform: Platform,
    slot: Option<SupervisedProcess<H>>,
    root: Option<R>,
    spawned: Option<SupervisedProcess<H>>,
)
    ensures
        ({
            let restarted = perform(platform, Stage::Idle(slot), Operation::Restart, root, spawned);
            let stopped = perform(platform, restarted.0, Operation::Shutdown, root, spawned);
            &&& stopped == (Stage::<H>::Idle(None), Action::<R, H>::Finish(Outcome::Stopped))
            &&& released(
                next(platform, Stage::Idle(slot), Event::<R, H>::Requested(Operation::Restart)).1,
            ) == Stage::Idle(slot).held()
            &&& released(
                next(platform, restarted.0, Event::<R, H>::Requested(Operation::Shutdown)).1,
            ) == restarted.0.held()
        }),
        ({
            let stopped = perform(platform, Stage::Idle(slot), Operation::Shutdown, root, spawned);
            let restarted = perform(platform, stopped.0, Operation::Restart, root, spawned);
            &&& restarted == perform(
                platform,
                Stage::<H>::Idle(None),
                Operation::Launch,
                root,
                spawned,
            )
            &&& released(
                next(platform, Stage::Idle(slot), Event::<R, H>::Requested(Operation::Shutdown)).1,
            ) == Stage::Idle(slot).held()
            &&& released(
                next(platform, stopped.0, Event::<R, H>::Requested(Operation::Restart)).1,
            ) == Seq::<SupervisedProcess<H>>::empty()
        }),
{
}

} // verus!
