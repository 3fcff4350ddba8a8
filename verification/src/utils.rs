//! Shared helpers: the pid-file format, the commands that stop or probe a
//! process, and the file name an archive download is saved under.
use vstd::prelude::*;
use vstd::string::*;

use crate::decimal::{decimal, decimal_string, parse_u32, parse_u32_str, lemma_parse_decimal};
use crate::host::{Platform, is_windows, windows};
use crate::text::{CharClass, trim_class, trim_class_str, matches_at};

verus! {

/// An external program to run with its arguments.
#[derive(Debug)]
pub struct ProcessCommand {
    pub program: String,
    pub args: Vec<String>,
}

/// The mathematical value of a [`ProcessCommand`].
pub struct ProcessCommandView {
    pub program: Seq<char>,
    pub args: Seq<Seq<char>>,
}

impl View for ProcessCommand {
    type V = ProcessCommandView;

    open spec fn view(&self) -> ProcessCommandView {
        ProcessCommandView { program: self.program@, args: self.args.deep_view() }
    }
}

/// The contents written to a pid file for `pid`.
pub fn write_pid(pid: u32) -> (r: String)
    ensures
        r@ == decimal(pid as nat),
{
    decimal_string(pid as u64)
}

/// What `read_pid` returns for a pid file's contents.
pub open spec fn read_pid_spec(contents: Seq<char>) -> Option<u32> {
    parse_u32(trim_class(contents, CharClass::WhiteSpace))
}

/// The pid recorded in a pid file's contents: surrounding white space is
/// ignored, and anything that is not a `u32` numeral gives `None`.
pub fn read_pid(contents: &str) -> (r: Option<u32>)
    ensures
        r == read_pid_spec(contents@),
{
    let t = trim_class_str(contents, CharClass::WhiteSpace);
    parse_u32_str(t)
}

/// A pid written to a pid file reads back as the same pid.
pub proof fn lemma_pid_file_round_trip(pid: u32)
    ensures
        read_pid_spec(decimal(pid as nat)) == Some(pid),
{
    lemma_parse_decimal(pid);
}

/// The command that stops process `pid`: a forced `taskkill` on Windows, a
/// plain `kill` elsewhere.
pub open spec fn kill_command_spec(platform: Platform, pid: u32) -> ProcessCommandView {
    if is_windows(platform) {
        ProcessCommandView {
            program: "taskkill"@,
            args: seq!["/PID"@, decimal(pid as nat), "/F"@],
        }
    } else {
        ProcessCommandView { program: "kill"@, args: seq![decimal(pid as nat)] }
    }
}

/// The command that stops process `pid`.
pub fn kill_pid_command(platform: &Platform, pid: u32) -> (r: ProcessCommand)
    ensures
        r@ == kill_command_spec(*platform, pid),
{
    let mut args: Vec<String> = Vec::new();
    if windows(platform) {
        args.push(String::from_str("/PID"));
        args.push(decimal_string(pid as u64));
        args.push(String::from_str("/F"));
        let r = ProcessCommand { program: String::from_str("taskkill"), args };
        assert(r@.args =~= seq!["/PID"@, decimal(pid as nat), "/F"@]);
        r
    } else {
        args.push(decimal_string(pid as u64));
        let r = ProcessCommand { program: String::from_str("kill"), args };
        assert(r@.args =~= seq![decimal(pid as nat)]);
        r
    }
}

/// The command that probes whether process `pid` is alive: `tasklist`
/// filtered by pid on Windows (its output is then searched for the pid), and
/// `kill -0` elsewhere (which succeeds exactly when the process exists).
pub open spec fn probe_command_spec(platform: Platform, pid: u32) -> ProcessCommandView {
    if is_windows(platform) {
        ProcessCommandView {
            program: "tasklist"@,
            args: seq!["/FI"@, "PID eq "@ + decimal(pid as nat)],
        }
    } else {
        ProcessCommandView { program: "kill"@, args: seq!["-0"@, decimal(pid as nat)] }
    }
}

/// The command that probes whether process `pid` is alive.
pub fn is_running_command(platform: &Platform, pid: u32) -> (r: ProcessCommand)
    ensures
        r@ == probe_command_spec(*platform, pid),
{
    let mut args: Vec<String> = Vec::new();
    if windows(platform) {
        args.push(String::from_str("/FI"));
        args.push(String::from_str("PID eq ").concat(decimal_string(pid as u64).as_str()));
        let r = ProcessCommand { program: String::from_str("tasklist"), args };
        assert(r@.args =~= seq!["/FI"@, "PID eq "@ + decimal(pid as nat)]);
        r
    } else {
        args.push(String::from_str("-0"));
        args.push(decimal_string(pid as u64));
        let r = ProcessCommand { program: String::from_str("kill"), args };
        assert(r@.args =~= seq!["-0"@, decimal(pid as nat)]);
        r
    }
}

/// Whether `pat` occurs somewhere in `s`.
pub open spec fn contains_seq(s: Seq<char>, pat: Seq<char>) -> bool {
    exists|i: int|
        0 <= i && i + pat.len() <= s.len() && #[trigger] s.subrange(i, i + pat.len()) == pat
}

/// Whether the `tasklist` output mentions `pid`.
pub fn tasklist_shows_pid(output: &str, pid: u32) -> (r: bool)
    ensures
        r == contains_seq(output@, decimal(pid as nat)),
{
    let p = decimal_string(pid as u64);
    let n = output.unicode_len();
    let m = p.unicode_len();
    if m > n {
        return false;
    }
    let mut i: usize = 0;
    while i <= n - m
        invariant
            m <= n,
            i <= n - m + 1,
            n == output@.len(),
            m == p@.len(),
            p@ == decimal(pid as nat),
            forall|k: int|
                0 <= k < i && k + m <= n ==> #[trigger] output@.subrange(k, k + m) != p@,
        decreases n - i,
    {
        if matches_at(output, p.as_str(), i) {
            return true;
        }
        i += 1;
    }
    false
}

/// The last index below `j` where `c` occurs in `s`.
pub open spec fn last_before(s: Seq<char>, c: char, j: int) -> Option<int>
    decreases j,
{
    if j <= 0 || j > s.len() {
        None
    } else if s[j - 1] == c {
        Some(j - 1)
    } else {
        last_before(s, c, j - 1)
    }
}

/// The part of `s` after its last `c` (all of `s` when there is none).
pub open spec fn after_last(s: Seq<char>, c: char) -> Seq<char> {
    match last_before(s, c, s.len() as int) {
        None => s,
        Some(k) => s.subrange(k + 1, s.len() as int),
    }
}

/// The file name a download is saved under: the last `/`-separated part of
/// its URL.
pub fn archive_file_name(url: &str) -> (r: String)
    ensures
        r@ == after_last(url@, '/'),
{
    let n = url.unicode_len();
    let mut j: usize = n;
    while j > 0 && url.get_char(j - 1) != '/'
        invariant
            j <= n,
            n == url@.len(),
            last_before(url@, '/', n as int) == last_before(url@, '/', j as int),
        decreases j,
    {
        j -= 1;
    }
    proof {
        if j == 0 {
            assert(url@.subrange(0, n as int) =~= url@);
        }
    }
    String::from_str(url.substring_char(j, n))
}

} // verus!
