//! What the library needs to know about the machine it runs on. The program
//! reads these values from its environment and hands them to the library.
use vstd::prelude::*;

use crate::text::str_eq;

verus! {

/// The target platform, named as `std::env::consts::OS` and `ARCH` name it
/// (`"linux"`, `"macos"`, `"windows"`; `"x86_64"`, `"aarch64"`).
#[derive(Debug, Clone)]
pub struct Platform {
    pub os: String,
    pub arch: String,
}

/// The platform plus the user's home directory, if one is known.
#[derive(Debug, Clone)]
pub struct Host {
    pub home: Option<String>,
    pub platform: Platform,
}

/// Whether the platform is Windows.
pub open spec fn is_windows(p: Platform) -> bool {
    p.os@ == "windows"@
}

/// Whether the platform is Windows, where executables carry `.exe`, a
/// process is probed with `tasklist` and the shell is `COMSPEC`.
pub fn windows(p: &Platform) -> (r: bool)
    ensures
        r == is_windows(*p),
{
    str_eq(p.os.as_str(), "windows")
}

} // verus!
