//! `pow status`: the state of each service at a glance.
use vstd::prelude::*;

use crate::commands::pid::{PidCheck, check_recorded, pid_check_spec};

verus! {

/// The pid to report for a server: only a recorded pid whose process is
/// alive; a stale pid file is to be removed (`PidCheck::Stale`).
pub fn server_pid_state(recorded: Option<u32>, alive: bool) -> (r: PidCheck)
    ensures
        r == pid_check_spec(recorded, alive),
        (r is Running) <==> (recorded is Some && alive),
{
    check_recorded(recorded, alive)
}

} // verus!
