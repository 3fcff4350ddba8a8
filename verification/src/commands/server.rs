//! start / stop / restart of the PHP built-in web server.
use vstd::prelude::*;
use vstd::string::*;

use crate::commands::pid::{PidCheck, StopAction, check_recorded, pid_check_spec};
use crate::config::Config;
use crate::decimal::{decimal, decimal_string, lemma_parse_decimal, parse_u32};
use crate::error::{PowError, PowErrorView};

verus! {

/// What `pow start` does.
#[derive(Debug)]
pub enum StartPlan {
    /// The recorded server is alive: refuse to start twice.
    AlreadyRunning(u32),
    /// Remove the stale pid file if any, then launch PHP with `args`.
    Launch { clear_stale: Option<u32>, args: Vec<String> },
    /// Remove the stale pid file if any, then fail: PHP is not installed.
    Refuse { clear_stale: Option<u32>, error: PowError },
}

/// The address the server listens on, `127.0.0.1:<port>`.
pub open spec fn listen_addr(port: u16) -> Seq<char> {
    "127.0.0.1:"@ + decimal(port as nat)
}

/// The arguments of `php -S <addr> -t <root>`.
pub open spec fn server_args_spec(cfg: Config) -> Seq<Seq<char>> {
    seq!["-S"@, listen_addr(cfg.port), "-t"@, cfg.root@]
}

/// The stale pid that a start removes first.
pub open spec fn stale_of(check: PidCheck) -> Option<u32> {
    match check {
        PidCheck::Stale(p) => Some(p),
        _ => None,
    }
}

/// How `pow start` decides, given the recorded pid, whether that process is
/// alive, and whether the active PHP version is installed.
pub open spec fn start_spec(
    cfg: Config,
    recorded: Option<u32>,
    alive: bool,
    installed: bool,
    plan: StartPlan,
) -> bool {
    let check = pid_check_spec(recorded, alive);
    match check {
        PidCheck::Running(p) => plan == StartPlan::AlreadyRunning(p),
        _ => if installed {
            plan matches StartPlan::Launch { clear_stale, args } && clear_stale == stale_of(check)
                && args.deep_view() == server_args_spec(cfg)
        } else {
            plan matches StartPlan::Refuse { clear_stale, error } && clear_stale == stale_of(check)
                && error@ == (PowErrorView::NotInstalled { version: cfg.php_version@ })
        },
    }
}

/// The arguments that launch the PHP built-in server.
pub fn server_args(cfg: &Config) -> (r: Vec<String>)
    ensures
        r.deep_view() == server_args_spec(*cfg),
{
    let mut v: Vec<String> = Vec::new();
    v.push(String::from_str("-S"));
    v.push(String::from_str("127.0.0.1:").concat(decimal_string(cfg.port as u64).as_str()));
    v.push(String::from_str("-t"));
    v.push(cfg.root.clone());
    assert(v.deep_view() =~= server_args_spec(*cfg));
    v
}

/// `pow start`: start the PHP built-in server with the active version, unless
/// one is already running.
pub fn start(cfg: &Config, recorded: Option<u32>, alive: bool, installed: bool) -> (r: StartPlan)
    ensures
        start_spec(*cfg, recorded, alive, installed, r),
        recorded is Some && alive ==> r is AlreadyRunning,
{
    let check = check_recorded(recorded, alive);
    let clear_stale = match check {
        PidCheck::Running(p) => {
            return StartPlan::AlreadyRunning(p);
        },
        PidCheck::Stale(p) => Some(p),
        PidCheck::Absent => None,
    };
    if !installed {
        return StartPlan::Refuse {
            clear_stale,
            error: PowError::NotInstalled { version: cfg.php_version.clone() },
        };
    }
    StartPlan::Launch { clear_stale, args: server_args(cfg) }
}

/// Whenever `pow start` launches PHP (no live server is recorded and the
/// active version is installed), it runs `php -S 127.0.0.1:<port> -t <root>`
/// with the configured port and document root: the listen argument is
/// `127.0.0.1:` followed by a numeral that reads back as the configured port.
pub proof fn lemma_launch_listens_on_configured_port(
    cfg: Config,
    recorded: Option<u32>,
    alive: bool,
    installed: bool,
    plan: StartPlan,
)
    requires
        start_spec(cfg, recorded, alive, installed, plan),
    ensures
        (installed && !(recorded is Some && alive)) <==> plan is Launch,
        plan matches StartPlan::Launch { args, .. } ==> {
            let a = args.deep_view();
            &&& a.len() == 4
            &&& a[0] == "-S"@
            &&& a[1].len() > 10
            &&& a[1].subrange(0, 10) == "127.0.0.1:"@
            &&& parse_u32(a[1].subrange(10, a[1].len() as int)) == Some(cfg.port as u32)
            &&& a[2] == "-t"@
            &&& a[3] == cfg.root@
        },
{
    reveal_strlit("127.0.0.1:");
    lemma_parse_decimal(cfg.port as u32);
    if let StartPlan::Launch { args, .. } = plan {
        let a = args.deep_view();
        let n = decimal(cfg.port as nat);
        assert(a[1] == "127.0.0.1:"@ + n);
        assert(("127.0.0.1:"@ + n).subrange(0, 10) =~= "127.0.0.1:"@);
        assert(("127.0.0.1:"@ + n).subrange(10, a[1].len() as int) =~= n);
    }
}

/// `pow stop`: stop the running PHP server, if a pid is recorded.
pub fn stop(recorded: Option<u32>) -> (r: StopAction)
    ensures
        r == match recorded {
            Some(pid) => StopAction::KillAndClear(pid),
            None => StopAction::NotRunning,
        },
{
    match recorded {
        Some(pid) => StopAction::KillAndClear(pid),
        None => StopAction::NotRunning,
    }
}

/// One step of `pow restart`.
#[derive(Debug, Clone, Copy, PartialEq, Eq)]
pub enum RestartStep {
    /// Run `pow stop`, ignoring its failure (such as "not running").
    StopIgnoringFailure,
    /// Run `pow start`, whose failure is the restart's.
    Start,
}

/// `pow restart`: stop (ignoring "not running"), then start.
pub fn restart() -> (r: Vec<RestartStep>)
    ensures
        r@ == seq![RestartStep::StopIgnoringFailure, RestartStep::Start],
{
    let mut v: Vec<RestartStep> = Vec::new();
    v.push(RestartStep::StopIgnoringFailure);
    v.push(RestartStep::Start);
    assert(v@ =~= seq![RestartStep::StopIgnoringFailure, RestartStep::Start]);
    v
}

/// The result of `pow restart`, given how its stop and its start ended:
/// always the start's, so a failed stop (such as "not running") is never
/// reported.
pub fn restart_result<E>(stopped: Result<(), E>, started: Result<(), E>) -> (r: Result<(), E>)
    ensures
        r == started,
{
    let _ignored = stopped;
    started
}

} // verus!
