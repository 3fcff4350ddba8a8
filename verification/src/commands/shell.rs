//! `pow shell`: a subshell with a PHP version first on PATH.
use vstd::prelude::*;
use vstd::string::*;

use crate::config::{Config, PowPath, PowPathView, home_of, php_dir, under_pow};
use crate::host::{Host, Platform, is_windows, windows};
use crate::error::{PowError, PowErrorView, string_result};
use crate::php::{parse_version, parse_version_spec};
use crate::commands::db::SwitchOutcome;
use crate::commands::switch::version_switch;

verus! {

/// The version a shell uses: the one `target` names, or the active one.
pub open spec fn shell_version_spec(cfg: Config, target: Option<Seq<char>>) -> Result<
    Seq<char>,
    PowErrorView,
> {
    match target {
        Some(t) => parse_version_spec(t),
        None => Ok(cfg.php_version@),
    }
}

/// The value of an optional string argument.
pub open spec fn opt_view(t: Option<&str>) -> Option<Seq<char>> {
    match t {
        Some(s) => Some(s@),
        None => None,
    }
}

/// The PHP version that `pow shell [target]` puts on PATH.
pub fn version_for(cfg: &Config, target: Option<&str>) -> (r: Result<String, PowError>)
    ensures
        string_result(r) == shell_version_spec(*cfg, opt_view(target)),
{
    match target {
        Some(t) => parse_version(t),
        None => Ok(cfg.php_version.clone()),
    }
}

/// `pow shell [target]`: the version to enter a shell with, which must be
/// installed (`installed`, as the caller found it for that version).
pub fn run(cfg: &Config, target: Option<&str>, installed: bool) -> (r: Result<String, PowError>)
    ensures
        match shell_version_spec(*cfg, opt_view(target)) {
            Err(e) => string_result(r) == Err::<Seq<char>, PowErrorView>(e),
            Ok(v) => string_result(r) == if installed {
                Ok::<Seq<char>, PowErrorView>(v)
            } else {
                Err(PowErrorView::NotInstalled { version: v })
            },
        },
{
    let version = version_for(cfg, target)?;
    if !installed {
        return Err(PowError::NotInstalled { version });
    }
    Ok(version)
}

/// With no target given, a shell uses the configuration's active PHP
/// version, for every configuration (`run` then enters it when it is
/// installed and refuses it as not installed otherwise).
pub proof fn lemma_shell_defaults_to_active_version(cfg: Config)
    ensures
        shell_version_spec(cfg, None) == Ok::<Seq<char>, PowErrorView>(cfg.php_version@),
{
}

/// After `pow use <target>` succeeds, a shell with no target uses the very
/// version that `pow shell <target>` names.
pub proof fn lemma_shell_follows_switch(
    before: Config,
    target: Seq<char>,
    after: Config,
    r: Result<SwitchOutcome, PowErrorView>,
)
    requires
        version_switch(before, target, true, after, r),
        r is Ok,
    ensures
        shell_version_spec(after, None) == shell_version_spec(before, Some(target)),
        shell_version_spec(after, None) is Ok,
{
}

/// The directories a shell for `version` puts in front of the existing
/// PATH entries, in this order: the version's directory (where a prebuilt
/// `php` lies) and its `bin/` (where a source build puts `php`, `phpize` and
/// `php-config`).
pub fn path_dirs(host: &Host, version: &str) -> (r: Result<Vec<PowPath>, PowError>)
    ensures
        match under_pow(home_of(*host), seq!["php"@, version@]) {
            Err(e) => r matches Err(x) && x@ == e,
            Ok(d) => r matches Ok(v) && v@.len() == 2 && v@[0]@ == d && v@[1]@ == (PowPathView {
                root: d.root,
                segments: d.segments.push("bin"@),
            }),
        },
{
    let dir = php_dir(host, version)?;
    let bin = dir.join("bin");
    let mut v: Vec<PowPath> = Vec::new();
    v.push(dir);
    v.push(bin);
    Ok(v)
}

/// The shell to start: `COMSPEC` on Windows, falling back to `cmd.exe`;
/// `SHELL` elsewhere, falling back to `/bin/sh`.
pub open spec fn pick_shell_spec(
    platform: Platform,
    comspec: Option<Seq<char>>,
    shell: Option<Seq<char>>,
) -> Seq<char> {
    if is_windows(platform) {
        match comspec {
            Some(c) => c,
            None => "cmd.exe"@,
        }
    } else {
        match shell {
            Some(c) => c,
            None => "/bin/sh"@,
        }
    }
}

/// The value of an optional owned string.
pub open spec fn opt_string(s: Option<String>) -> Option<Seq<char>> {
    match s {
        Some(x) => Some(x@),
        None => None,
    }
}

/// Picks an interactive shell, given the values of `COMSPEC` and `SHELL`
/// (`None` where unset).
pub fn pick_shell(platform: &Platform, comspec: Option<String>, shell: Option<String>) -> (r: String)
    ensures
        r@ == pick_shell_spec(*platform, opt_string(comspec), opt_string(shell)),
{
    if windows(platform) {
        match comspec {
            Some(c) => c,
            None => String::from_str("cmd.exe"),
        }
    } else {
        match shell {
            Some(c) => c,
            None => String::from_str("/bin/sh"),
        }
    }
}

} // verus!
