//! The supervisor itself: the one owner of the backend process's handle.

use vstd::prelude::*;
use crate::platform::{backend_relative_path, Platform};
use crate::protocol::{next, Action, Event, LaunchError, Operation, Outcome, Slot, Stage};

verus! {

/// Owns the handle of the backend process and decides, event by event,
/// what the host does to it.
///
/// The handle enters with [`Event::Spawned`] and leaves only inside
/// [`Action::Terminate`]; nothing else can reach it. The host keeps the
/// supervisor behind one lock and holds that lock from the request of an
/// operation until its [`Action::Finish`], so that operations never
/// overlap. A request that arrives while another operation is under way is
/// rejected and changes nothing.
///
/// The supervisor waits for a terminated process as long as it takes: if
/// the host never reports [`Event::Terminated`], it stays in
/// [`Stage::Terminating`].
pub struct Supervisor<H> {
    platform: Platform,
    stage: Stage<H>,
}

impl<H> View for Supervisor<H> {
    type V = Stage<H>;

    closed spec fn view(&self) -> Stage<H> {
        self.stage
    }
}

impl<H> Supervisor<H> {
    /// The platform whose executable this supervisor starts.
    pub closed spec fn target(&self) -> Platform {
        self.platform
    }

    /// A supervisor for `platform` that holds no process.
    pub fn new(platform: Platform) -> (supervisor: Self)
        ensures
            supervisor@ == Stage::<H>::Idle(None),
            supervisor.target() == platform,
    {
        Supervisor { platform, stage: Stage::Idle(None) }
    }

    /// The platform whose executable this supervisor starts.
    pub fn platform(&self) -> (platform: Platform)
        ensures
            platform == self.target(),
    {
        self.platform
    }

    /// What the slot shows: the identifier of the process that is held, or
    /// that there is none.
    pub fn slot(&self) -> (slot: Slot)
        ensures
            slot == self@.slot(),
    {
        match &self.stage {
            Stage::Idle(Some(process)) => Slot::Running { pid: process.pid },
            _ => Slot::Absent,
        }
    }

    /// Whether no operation is under way.
    pub fn is_idle(&self) -> (idle: bool)
        ensures
            idle == (self@ is Idle),
    {
        match &self.stage {
            Stage::Idle(_) => true,
            _ => false,
        }
    }

    /// Begins a launch, the operation for startup. With an empty slot it
    /// asks for the resource root; while a process is held it is turned
    /// away, so that a launch never leaves two processes behind.
    pub fn launch<R>(&mut self) -> (action: Action<R, H>)
        ensures
            final(self).target() == old(self).target(),
            (final(self)@, action) == next(
                old(self).target(),
                old(self)@,
                Event::<R, H>::Requested(Operation::Launch),
            ),
    {
        self.step(Event::Requested(Operation::Launch))
    }

    /// Begins a restart. It hands the held process out for termination, or
    /// asks for the resource root at once if the slot is empty.
    pub fn restart<R>(&mut self) -> (action: Action<R, H>)
        ensures
            final(self).target() == old(self).target(),
            (final(self)@, action) == next(
                old(self).target(),
                old(self)@,
                Event::<R, H>::Requested(Operation::Restart),
            ),
    {
        self.step(Event::Requested(Operation::Restart))
    }

    /// Begins a shutdown. It hands the held process out for termination, or
    /// is over at once if the slot is empty.
    pub fn shutdown<R>(&mut self) -> (action: Action<R, H>)
        ensures
            final(self).target() == old(self).target(),
            (final(self)@, action) == next(
                old(self).target(),
                old(self)@,
                Event::<R, H>::Requested(Operation::Shutdown),
            ),
    {
        self.step(Event::Requested(Operation::Shutdown))
    }

    /// Takes one report of the host and answers with what the host is to
    /// do next, as [`next`] lays down.
    pub fn step<R>(&mut self, event: Event<R, H>) -> (action: Action<R, H>)
        ensures
            final(self).target() == old(self).target(),
            (final(self)@, action) == next(old(self).target(), old(self)@, event),
    {
        let mut stage = Stage::Locating;
        core::mem::swap(&mut self.stage, &mut stage);
        let (following, action) = match (stage, event) {
            (Stage::Idle(None), Event::Requested(Operation::Launch)) => (
                Stage::Locating,
                Action::LocateRoot,
            ),
            (Stage::Idle(None), Event::Requested(Operation::Restart)) => (
                Stage::Locating,
                Action::LocateRoot,
            ),
            (Stage::Idle(None), Event::Requested(Operation::Shutdown)) => (
                Stage::Idle(None),
                Action::Finish(Outcome::Stopped),
            ),
            (Stage::Idle(Some(process)), Event::Requested(Operation::Restart)) => (
                Stage::Terminating { relaunch: true },
                Action::Terminate(process),
            ),
            (Stage::Idle(Some(process)), Event::Requested(Operation::Shutdown)) => (
                Stage::Terminating { relaunch: false },
                Action::Terminate(process),
            ),
            (Stage::Terminating { relaunch: true }, Event::Terminated) => (
                Stage::Locating,
                Action::LocateRoot,
            ),
            (Stage::Terminating { relaunch: false }, Event::Terminated) => (
                Stage::Idle(None),
                Action::Finish(Outcome::Stopped),
            ),
            (Stage::Locating, Event::RootLocated(Some(root))) => (
                Stage::Spawning,
                Action::Spawn { root, relative_path: backend_relative_path(self.platform) },
            ),
            (Stage::Locating, Event::RootLocated(None)) => (
                Stage::Idle(None),
                Action::Finish(Outcome::Failed(LaunchError::ResourceRootUnavailable)),
            ),
            (Stage::Spawning, Event::Spawned(Some(process))) => {
                let pid = process.pid;
                (Stage::Idle(Some(process)), Action::Finish(Outcome::Started { pid }))
            },
            (Stage::Spawning, Event::Spawned(None)) => (
                Stage::Idle(None),
                Action::Finish(Outcome::Failed(LaunchError::SpawnFailed)),
            ),
            (stage, event) => (stage, Action::Reject(event)),
        };
        self.stage = following;
        action
    }
}

} // verus!
