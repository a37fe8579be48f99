//! The supervisor's protocol: what the host tells it, what it asks of the
//! host, and how one answer leads to the next request.
//!
//! The supervisor does no work on processes itself. It asks the host for
//! one piece of work at a time (an [`Action`]), and the host reports how
//! that work ended (an [`Event`]). [`next`] is the whole rule book: from a
//! stage and an event to the following stage and the action to perform.

use vstd::prelude::*;
use crate::platform::Platform;

verus! {

/// A running backend process: the identifier the operating system gave it
/// and the handle through which the host can terminate it.
#[derive(Debug, PartialEq, Eq)]
pub struct SupervisedProcess<H> {
    pub pid: u32,
    pub handle: H,
}

/// What can be asked of the supervisor.
#[derive(Clone, Copy, Debug, PartialEq, Eq, Structural)]
pub enum Operation {
    /// Start the backend. Meant for startup: accepted only while no
    /// process is held, and never terminates one.
    Launch,
    /// Terminate the process that is held, if any, then start a new one.
    Restart,
    /// Terminate the process that is held, if any.
    Shutdown,
}

/// Why no backend process could be started.
#[derive(Clone, Copy, Debug, PartialEq, Eq, Structural)]
pub enum LaunchError {
    /// The host could not tell where the bundled resources are.
    ResourceRootUnavailable,
    /// The executable could not be started: it is missing, may not be
    /// executed, or the operating system refused to create the process.
    SpawnFailed,
}

/// How an operation ended.
#[derive(Clone, Copy, Debug, PartialEq, Eq, Structural)]
pub enum Outcome {
    /// A launch or restart started the process with this identifier.
    Started { pid: u32 },
    /// A launch or restart could not start a process.
    Failed(LaunchError),
    /// A shutdown is complete.
    Stopped,
}

/// What the supervised slot shows between operations.
#[derive(Clone, Copy, Debug, PartialEq, Eq, Structural)]
pub enum Slot {
    Absent,
    Running { pid: u32 },
}

/// What the host reports to the supervisor. `R` is the host's notion of a
/// resource root, `H` its process handle.
#[derive(Debug, PartialEq, Eq)]
pub enum Event<R, H> {
    /// An operation is asked for.
    Requested(Operation),
    /// The process handed out for termination was killed and has exited.
    Terminated,
    /// The resource root was looked up; `None` if it could not be found.
    RootLocated(Option<R>),
    /// The executable was spawned; `None` if that failed.
    Spawned(Option<SupervisedProcess<H>>),
}

/// What the supervisor asks the host to do next.
#[derive(Debug, PartialEq, Eq)]
pub enum Action<R, H> {
    /// Kill this process and wait until it has exited, then report
    /// [`Event::Terminated`].
    Terminate(SupervisedProcess<H>),
    /// Look the resource root up and report [`Event::RootLocated`].
    LocateRoot,
    /// Spawn the executable at `relative_path` below `root` without waiting
    /// for it, and report [`Event::Spawned`].
    Spawn { root: R, relative_path: &'static str },
    /// The operation is over; nothing is left to do.
    Finish(Outcome),
    /// The event is not one the supervisor was waiting for. It is handed
    /// back untouched and the supervisor has not changed.
    Reject(Event<R, H>),
}

/// Where the supervisor stands. Only [`Stage::Idle`] can hold a process, so
/// the supervisor never holds more than one.
#[derive(Debug, PartialEq, Eq)]
pub enum Stage<H> {
    /// No operation is under way. The slot is empty or holds the one
    /// running process.
    Idle(Option<SupervisedProcess<H>>),
    /// The process that was held has been handed to the host for
    /// termination. `relaunch` tells whether a new one is started after it
    /// has exited.
    Terminating { relaunch: bool },
    /// The host is looking the resource root up.
    Locating,
    /// The host is spawning the executable.
    Spawning,
}

impl<H> Stage<H> {
    /// The slot as the rest of the application sees it: a process is
    /// running only while the supervisor holds its handle.
    pub open spec fn slot(self) -> Slot {
        match self {
            Stage::Idle(Some(process)) => Slot::Running { pid: process.pid },
            _ => Slot::Absent,
        }
    }

    /// The processes whose handle the supervisor holds: none or one.
    pub open spec fn held(self) -> Seq<SupervisedProcess<H>> {
        match self {
            Stage::Idle(Some(process)) => seq![process],
            _ => Seq::empty(),
        }
    }

    /// The number of live processes that belong to the supervisor: the one
    /// it holds, or the one that the host is still terminating.
    pub open spec fn live_children(self) -> nat {
        match self {
            Stage::Idle(Some(_)) => 1,
            Stage::Terminating { .. } => 1,
            _ => 0,
        }
    }

    /// Whether `event` is one that this stage is waiting for.
    pub open spec fn awaits<R>(self, event: Event<R, H>) -> bool {
        match (self, event) {
            (Stage::Idle(Some(_)), Event::Requested(operation)) => operation != Operation::Launch,
            (Stage::Idle(None), Event::Requested(_)) => true,
            (Stage::Terminating { .. }, Event::Terminated) => true,
            (Stage::Locating, Event::RootLocated(_)) => true,
            (Stage::Spawning, Event::Spawned(_)) => true,
            _ => false,
        }
    }
}

/// The stage that follows `stage` when the host reports `event`, and what
/// the host is to do next.
///
/// A restart or shutdown first hands the held process out for termination
/// and goes on only when the host reports that it has exited. A launch or
/// restart then has the resource root looked up and the executable for
/// `platform` spawned below it. Whichever of the two fails, the operation
/// ends with no process held. An event that the stage is not waiting for
/// changes nothing.
pub open spec fn next<R, H>(platform: Platform, stage: Stage<H>, event: Event<R, H>) -> (
    Stage<H>,
    Action<R, H>,
) {
    match (stage, event) {
        (Stage::Idle(None), Event::Requested(Operation::Launch)) => (
            Stage::Locating,
            Action::LocateRoot,
        ),
        (Stage::Idle(None), Event::Requested(Operation::Restart)) => (
            Stage::Locating,
            Action::LocateRoot,
        ),
        (Stage::Idle(None), Event::Requested(Operation::Shutdown)) => (
            Stage::Idle(None),
            Action::Finish(Outcome::Stopped),
        ),
        (Stage::Idle(Some(process)), Event::Requested(Operation::Restart)) => (
            Stage::Terminating { relaunch: true },
            Action::Terminate(process),
        ),
        (Stage::Idle(Some(process)), Event::Requested(Operation::Shutdown)) => (
            Stage::Terminating { relaunch: false },
            Action::Terminate(process),
        ),
        (Stage::Terminating { relaunch: true }, Event::Terminated) => (
            Stage::Locating,
            Action::LocateRoot,
        ),
        (Stage::Terminating { relaunch: false }, Event::Terminated) => (
            Stage::Idle(None),
            Action::Finish(Outcome::Stopped),
        ),
        (Stage::Locating, Event::RootLocated(Some(root))) => (
            Stage::Spawning,
            Action::Spawn { root, relative_path: platform.relative_path() },
        ),
        (Stage::Locating, Event::RootLocated(None)) => (
            Stage::Idle(None),
            Action::Finish(Outcome::Failed(LaunchError::ResourceRootUnavailable)),
        ),
        (Stage::Spawning, Event::Spawned(Some(process))) => (
            Stage::Idle(Some(process)),
            Action::Finish(Outcome::Started { pid: process.pid }),
        ),
        (Stage::Spawning, Event::Spawned(None)) => (
            Stage::Idle(None),
            Action::Finish(Outcome::Failed(LaunchError::SpawnFailed)),
        ),
        _ => (stage, Action::Reject(event)),
    }
}

} // verus!
