//! The reply of the one command that the user interface can invoke.

use vstd::prelude::*;
use crate::protocol::{Action, Outcome};

verus! {

/// What the user is told after a restart that started a new process.
pub open spec fn restart_succeeded_message() -> Seq<char> {
    "Backend restarted successfully"@
}

/// What the user is told after a restart that left no process running.
pub open spec fn restart_failed_message() -> Seq<char> {
    "Failed to restart backend"@
}

/// Whether `last`, the action that ended a restart, says that a new
/// process was started.
pub open spec fn restart_succeeded<R, H>(last: Action<R, H>) -> bool {
    last matches Action::Finish(Outcome::Started { .. })
}

/// The reply to a restart command, from the action with which the
/// supervisor ended it: the success message if it started a process, the
/// failure message in every other case.
pub fn restart_reply<R, H>(last: &Action<R, H>) -> (reply: Result<String, String>)
    ensures
        match reply {
            Ok(message) => restart_succeeded(*last) && message@ == restart_succeeded_message(),
            Err(message) => !restart_succeeded(*last) && message@ == restart_failed_message(),
        },
{
    match last {
        Action::Finish(Outcome::Started { .. }) => Ok("Backend restarted successfully".to_owned()),
        _ => Err("Failed to restart backend".to_owned()),
    }
}

} // verus!
