//! Decisions shared by the commands that manage a server through a pid file.
use vstd::prelude::*;

verus! {

/// What stopping a server does.
#[derive(Debug, Clone, Copy, PartialEq, Eq)]
pub enum StopAction {
    /// Stop the recorded process, then remove its pid file.
    KillAndClear(u32),
    /// No pid is recorded: nothing is running.
    NotRunning,
}

/// What a recorded pid says about a server.
#[derive(Debug, Clone, Copy, PartialEq, Eq)]
pub enum PidCheck {
    /// The recorded process is alive.
    Running(u32),
    /// The recorded process is gone; its pid file is stale and is removed.
    Stale(u32),
    /// No pid is recorded.
    Absent,
}

/// The state of a server given its recorded pid and, when there is one,
/// whether that process is alive.
pub open spec fn pid_check_spec(recorded: Option<u32>, alive: bool) -> PidCheck {
    match recorded {
        None => PidCheck::Absent,
        Some(pid) => if alive {
            PidCheck::Running(pid)
        } else {
            PidCheck::Stale(pid)
        },
    }
}

/// Classifies a recorded pid.
pub fn check_recorded(recorded: Option<u32>, alive: bool) -> (r: PidCheck)
    ensures
        r == pid_check_spec(recorded, alive),
{
    match recorded {
        None => PidCheck::Absent,
        Some(pid) => if alive {
            PidCheck::Running(pid)
        } else {
            PidCheck::Stale(pid)
        },
    }
}

} // verus!
