//! `pow use`: switch the active PHP version recorded in the configuration.
use vstd::prelude::*;
use vstd::string::*;

use crate::commands::db::SwitchOutcome;
use crate::config::Config;
use crate::error::{PowError, PowErrorView};
use crate::php::{parse_version, parse_version_spec};
use crate::text::str_eq;

verus! {

/// The value of a switch result.
pub open spec fn outcome_result(r: Result<SwitchOutcome, PowError>) -> Result<
    SwitchOutcome,
    PowErrorView,
> {
    match r {
        Ok(o) => Ok(o),
        Err(e) => Err(e@),
    }
}

/// How `pow use <target>` relates the configuration before and after it;
/// `installed` tells whether the PHP binary of the version that `target`
/// names exists.
pub open spec fn version_switch(
    before: Config,
    target: Seq<char>,
    installed: bool,
    after: Config,
    r: Result<SwitchOutcome, PowErrorView>,
) -> bool {
    match parse_version_spec(target) {
        Err(e) => r == Err::<SwitchOutcome, PowErrorView>(e) && after == before,
        Ok(v) => if !installed {
            r == Err::<SwitchOutcome, PowErrorView>(PowErrorView::NotInstalled { version: v })
                && after == before
        } else if before.php_version@ == v {
            r == Ok::<SwitchOutcome, PowErrorView>(SwitchOutcome::AlreadyActive) && after == before
        } else {
            &&& r == Ok::<SwitchOutcome, PowErrorView>(SwitchOutcome::Switched)
            &&& after.php_version@ == v
            &&& after.port == before.port
            &&& after.root == before.root
            &&& after.database == before.database
        },
    }
}

/// Sets the version that `target` (e.g. `php@8.3`) names as the active one.
pub fn run(cfg: &mut Config, target: &str, installed: bool) -> (r: Result<SwitchOutcome, PowError>)
    ensures
        version_switch(*old(cfg), target@, installed, *final(cfg), outcome_result(r)),
{
    let version = match parse_version(target) {
        Ok(v) => v,
        Err(e) => {
            return Err(e);
        },
    };
    if !installed {
        return Err(PowError::NotInstalled { version });
    }
    if str_eq(cfg.php_version.as_str(), version.as_str()) {
        return Ok(SwitchOutcome::AlreadyActive);
    }
    cfg.php_version = version;
    Ok(SwitchOutcome::Switched)
}

/// Switching to an installed version makes it active, and switching to it
/// again changes nothing.
pub proof fn lemma_version_switch_idempotent(
    c0: Config,
    c1: Config,
    c2: Config,
    target: Seq<char>,
    r1: Result<SwitchOutcome, PowErrorView>,
    r2: Result<SwitchOutcome, PowErrorView>,
)
    requires
        version_switch(c0, target, true, c1, r1),
        version_switch(c1, target, true, c2, r2),
        r1 is Ok,
    ensures
        parse_version_spec(target) matches Ok(v) && c1.php_version@ == v,
        r2 == Ok::<SwitchOutcome, PowErrorView>(SwitchOutcome::AlreadyActive),
        c2 == c1,
{
}

/// Switching to another installed version and back to the one that was
/// active (named by `back`) restores the configuration.
pub proof fn lemma_version_switch_round_trip(
    c0: Config,
    c1: Config,
    c2: Config,
    target: Seq<char>,
    back: Seq<char>,
    r1: Result<SwitchOutcome, PowErrorView>,
    r2: Result<SwitchOutcome, PowErrorView>,
)
    requires
        parse_version_spec(back) == Ok::<Seq<char>, PowErrorView>(c0.php_version@),
        version_switch(c0, target, true, c1, r1),
        version_switch(c1, back, true, c2, r2),
    ensures
        c2.php_version@ == c0.php_version@,
        c2.port == c0.port,
        c2.root == c0.root,
        c2.database == c0.database,
{
}

} // verus!
