//! PHP version normalization and download-URL resolution.
//!
//! Static, self-contained PHP CLI builds come from static-php.dev for Linux
//! and macOS, and from windows.php.net for Windows; PHP 7.x on Linux/macOS is
//! built from the php.net source tarball.
use vstd::prelude::*;
use vstd::string::*;

use crate::error::{PowError, PowErrorView, string_result};
use crate::decimal::is_digit;
use crate::host::{Platform, windows};
use crate::text::{CharClass, trim_class, trim_start_class, trim_end_class, remove_all, find_from, find_first, has_prefix, trim_class_str, remove_all_str, find_char, starts_with, str_eq, lemma_find_from};

verus! {

/// The PHP minor versions that can be installed, each pinned to a patch
/// release.
pub open spec fn known_table() -> Seq<(Seq<char>, Seq<char>)> {
    seq![
        ("7.4"@, "7.4.33"@),
        ("8.1"@, "8.1.34"@),
        ("8.2"@, "8.2.31"@),
        ("8.3"@, "8.3.31"@),
    ]
}

/// The number of entries in the version table.
pub const KNOWN_COUNT: usize = 4;

/// The patch release pinned for `minor`, searching the table from entry `i`.
pub open spec fn lookup_from(minor: Seq<char>, i: int) -> Option<Seq<char>>
    decreases known_table().len() - i,
{
    if i < 0 || i >= known_table().len() {
        None
    } else if known_table()[i].0 == minor {
        Some(known_table()[i].1)
    } else {
        lookup_from(minor, i + 1)
    }
}

/// The patch release pinned for `minor`, if `minor` is known.
pub open spec fn patch_of(minor: Seq<char>) -> Option<Seq<char>> {
    lookup_from(minor, 0)
}

/// Whether `minor` is one of the installable minor versions.
pub open spec fn is_supported(minor: Seq<char>) -> bool {
    patch_of(minor) is Some
}

/// The installable minor versions, in table order.
pub open spec fn supported_minors() -> Seq<Seq<char>> {
    known_table().map_values(|e: (Seq<char>, Seq<char>)| e.0)
}

/// `s` with every `php@`, then every `php-`, then every `php` removed.
pub open spec fn strip_php_markers(s: Seq<char>) -> Seq<char> {
    remove_all(remove_all(remove_all(s, "php@"@), "php-"@), "php"@)
}

/// The lower-cased input with its markers, white space and the separators
/// `@`/`-` at its ends removed.
pub open spec fn clean_version(lowered: Seq<char>) -> Seq<char> {
    trim_class(
        trim_class(strip_php_markers(lowered), CharClass::WhiteSpace),
        CharClass::AtOrDash,
    )
}

/// The first two `.`-separated fields of `cleaned`, joined by `.`, when both
/// exist and are non-empty.
pub open spec fn minor_of(cleaned: Seq<char>) -> Option<Seq<char>> {
    match find_first(cleaned, '.') {
        None => None,
        Some(i) => {
            let major = cleaned.subrange(0, i);
            let rest = cleaned.subrange(i + 1, cleaned.len() as int);
            let minor = match find_first(rest, '.') {
                None => rest,
                Some(j) => rest.subrange(0, j),
            };
            if major.len() > 0 && minor.len() > 0 {
                Some(major + "."@ + minor)
            } else {
                None
            }
        },
    }
}

/// How a lower-cased version string is read: the minor version, or why none.
pub open spec fn parse_lowered(lowered: Seq<char>, input: Seq<char>) -> Result<
    Seq<char>,
    PowErrorView,
> {
    match minor_of(clean_version(lowered)) {
        None => Err(PowErrorView::UnparsableVersion { input }),
        Some(m) => if is_supported(m) {
            Ok(m)
        } else {
            Err(PowErrorView::UnsupportedVersion { minor: m })
        },
    }
}

/// What `str::to_lowercase` returns for a string: its Unicode lower-case
/// mapping.
pub uninterp spec fn str_lowercase(s: Seq<char>) -> Seq<char>;

/// Whether `s` holds only ASCII characters and no upper-case letter: the
/// characters that have no lower-case mapping of their own.
pub open spec fn ascii_without_upper(s: Seq<char>) -> bool {
    forall|i: int| 0 <= i < s.len() ==> #[trigger] s[i] <= '\x7f' && !('A' <= s[i] && s[i] <= 'Z')
}

/// Calls `str::to_lowercase`. Claimed: the result is a function of the
/// characters of `s` alone, named `str_lowercase`; and a string of ASCII
/// characters without upper-case letters comes back unchanged, since a
/// character with no lower-case mapping maps to itself (`char::to_lowercase`)
/// and among ASCII characters only `A`–`Z` have one.
#[verifier::external_body]
fn to_lowercase(s: &str) -> (r: String)
    ensures
        r@ == str_lowercase(s@),
        ascii_without_upper(s@) ==> r@ == s@,
{
    s.to_lowercase()
}

/// What `parse_version` returns for `input`.
pub open spec fn parse_version_spec(input: Seq<char>) -> Result<Seq<char>, PowErrorView> {
    parse_lowered(str_lowercase(trim_class(input, CharClass::WhiteSpace)), input)
}

fn known_entry(i: usize) -> (r: (&'static str, &'static str))
    requires
        i < KNOWN_COUNT,
    ensures
        r.0@ == known_table()[i as int].0,
        r.1@ == known_table()[i as int].1,
{
    if i == 0 {
        ("7.4", "7.4.33")
    } else if i == 1 {
        ("8.1", "8.1.34")
    } else if i == 2 {
        ("8.2", "8.2.31")
    } else {
        ("8.3", "8.3.31")
    }
}

/// The pinned patch release of `minor`, if `minor` is in the table.
fn lookup_patch(minor: &str) -> (r: Option<&'static str>)
    ensures
        match r {
            Some(p) => patch_of(minor@) == Some(p@),
            None => patch_of(minor@) is None,
        },
{
    let mut i: usize = 0;
    while i < KNOWN_COUNT
        invariant
            i <= KNOWN_COUNT,
            patch_of(minor@) == lookup_from(minor@, i as int),
        decreases KNOWN_COUNT - i,
    {
        let (m, p) = known_entry(i);
        if str_eq(m, minor) {
            return Some(p);
        }
        i += 1;
    }
    None
}

/// All PHP minor versions that can be installed.
pub fn supported_versions() -> (r: Vec<&'static str>)
    ensures
        r@.len() == supported_minors().len(),
        forall|i: int| 0 <= i < r@.len() ==> #[trigger] r@[i]@ == supported_minors()[i],
{
    let mut v: Vec<&'static str> = Vec::new();
    let mut i: usize = 0;
    while i < KNOWN_COUNT
        invariant
            i <= KNOWN_COUNT,
            v@.len() == i,
            forall|k: int| 0 <= k < i ==> #[trigger] v@[k]@ == supported_minors()[k],
        decreases KNOWN_COUNT - i,
    {
        let (m, _) = known_entry(i);
        v.push(m);
        i += 1;
    }
    v
}

/// Reads the minor version from an already lower-cased input; `input` is the
/// text the user gave, which an error quotes.
pub fn parse_lowered_version(lowered: &str, input: &str) -> (r: Result<String, PowError>)
    ensures
        string_result(r) == parse_lowered(lowered@, input@),
{
    let stripped = remove_all_str(lowered, "php@");
    let stripped = remove_all_str(stripped.as_str(), "php-");
    let stripped = remove_all_str(stripped.as_str(), "php");
    let trimmed = trim_class_str(stripped.as_str(), CharClass::WhiteSpace);
    let cleaned = trim_class_str(trimmed, CharClass::AtOrDash);
    let n = cleaned.unicode_len();
    proof {
        lemma_find_from(cleaned@, '.', 0);
    }
    let minor = match find_char(cleaned, '.') {
        None => None,
        Some(i) => {
            let major = cleaned.substring_char(0, i);
            let rest = cleaned.substring_char(i + 1, n);
            proof {
                lemma_find_from(rest@, '.', 0);
            }
            let minor = match find_char(rest, '.') {
                None => rest,
                Some(j) => rest.substring_char(0, j),
            };
            if major.unicode_len() > 0 && minor.unicode_len() > 0 {
                Some(String::from_str(major).concat(".").concat(minor))
            } else {
                None
            }
        },
    };
    match minor {
        None => Err(PowError::UnparsableVersion { input: String::from_str(input) }),
        Some(m) => {
            if lookup_patch(m.as_str()).is_some() {
                Ok(m)
            } else {
                Err(PowError::UnsupportedVersion { minor: m })
            }
        },
    }
}

/// Normalizes any user input (`php@8.2`, `8.2`, `PHP-8.2`, `8.2.20`) to a
/// bare, supported minor version such as `8.2`. A supported version, bare
/// or written `php@<version>`, reads back as itself.
pub fn parse_version(input: &str) -> (r: Result<String, PowError>)
    ensures
        string_result(r) == parse_version_spec(input@),
        forall|m: Seq<char>|
            #![trigger supported_minors().contains(m)]
            supported_minors().contains(m) && (input@ == m || input@ == "php@"@ + m)
                ==> string_result(r) == Ok::<Seq<char>, PowErrorView>(m),
{
    let trimmed = trim_class_str(input, CharClass::WhiteSpace);
    let lowered = to_lowercase(trimmed);
    let r = parse_lowered_version(lowered.as_str(), input);
    proof {
        assert forall|m: Seq<char>|
            #![trigger supported_minors().contains(m)]
            supported_minors().contains(m) && (input@ == m || input@ == "php@"@ + m) implies string_result(r)
                == Ok::<Seq<char>, PowErrorView>(m) by {
            lemma_supported_text(m);
            lemma_supported_version_round_trip(m, input@);
        }
    }
    r
}

/// A supported version, bare or written `php@<version>`, has no white space
/// at its ends and no character that lower-casing changes.
proof fn lemma_supported_text(m: Seq<char>)
    requires
        supported_minors().contains(m),
    ensures
        trim_class(m, CharClass::WhiteSpace) == m,
        ascii_without_upper(m),
        trim_class("php@"@ + m, CharClass::WhiteSpace) == "php@"@ + m,
        ascii_without_upper("php@"@ + m),
{
    reveal_strlit("7.4");
    reveal_strlit("8.1");
    reveal_strlit("8.2");
    reveal_strlit("8.3");
    reveal_strlit("php@");
    lemma_supported_iff_listed(m);
    let k = choose|k: int| 0 <= k < supported_minors().len() && supported_minors()[k] == m;
    assert(m == known_table()[k].0);
    assert(m.len() == 3 && is_digit(m[0]) && m[1] == '.' && is_digit(m[2]));
    let pm = "php@"@ + m;
    assert(pm[0] == 'p' && pm[1] == 'h' && pm[2] == 'p' && pm[3] == '@');
    assert(pm[4] == m[0] && pm[5] == m[1] && pm[6] == m[2]);
    assert(trim_start_class(m, CharClass::WhiteSpace) == m);
    assert(trim_end_class(m, CharClass::WhiteSpace) == m);
    assert(trim_start_class(pm, CharClass::WhiteSpace) == pm);
    assert(trim_end_class(pm, CharClass::WhiteSpace) == pm);
}

/// How a given PHP version is obtained on a platform.
#[derive(Debug)]
pub enum Install {
    /// A ready-to-run binary archive to download and extract.
    Prebuilt(String),
    /// A source tarball to configure, build and install; `patch` is the full
    /// version, which names the extracted directory.
    Source { url: String, patch: String },
}

/// The mathematical value of an [`Install`].
pub enum InstallView {
    Prebuilt(Seq<char>),
    Source { url: Seq<char>, patch: Seq<char> },
}

impl View for Install {
    type V = InstallView;

    open spec fn view(&self) -> InstallView {
        match self {
            Install::Prebuilt(u) => InstallView::Prebuilt(u@),
            Install::Source { url, patch } => InstallView::Source { url: url@, patch: patch@ },
        }
    }
}

/// The php.net source tarball of a patch release.
pub open spec fn source_url_spec(patch: Seq<char>) -> Seq<char> {
    "https://www.php.net/distributions/php-"@ + patch + ".tar.gz"@
}

/// The windows.php.net archive: 7.x builds use the `vc15` toolchain and live
/// under `archives/`, later ones use `vs16` under `releases/`.
pub open spec fn windows_url_spec(minor: Seq<char>, patch: Seq<char>) -> Seq<char> {
    if has_prefix(minor, "7."@) {
        "https://windows.php.net/downloads/releases/archives/php-"@ + patch
            + "-nts-Win32-vc15-x64.zip"@
    } else {
        "https://windows.php.net/downloads/releases/php-"@ + patch + "-nts-Win32-vs16-x64.zip"@
    }
}

/// The static-php.dev archive for an operating system and architecture.
pub open spec fn static_url_spec(patch: Seq<char>, os: Seq<char>, arch: Seq<char>) -> Seq<
    char,
> {
    "https://dl.static-php.dev/static-php-cli/common/php-"@ + patch + "-cli-"@ + os + "-"@ + arch
        + ".tar.gz"@
}

/// What `download_url` returns: the architecture is checked before the
/// operating system.
pub open spec fn download_url_spec(minor: Seq<char>, os: Seq<char>, arch: Seq<char>) -> Result<
    Seq<char>,
    PowErrorView,
> {
    match patch_of(minor) {
        None => Err(PowErrorView::UnknownVersion { minor }),
        Some(patch) => if arch != "x86_64"@ && arch != "aarch64"@ {
            Err(PowErrorView::UnsupportedArch { arch })
        } else if os == "linux"@ || os == "macos"@ {
            Ok(static_url_spec(patch, os, arch))
        } else if os == "windows"@ {
            Ok(windows_url_spec(minor, patch))
        } else {
            Err(PowErrorView::UnsupportedOs { os })
        },
    }
}

/// The value of an install-strategy result.
pub open spec fn install_result(r: Result<Install, PowError>) -> Result<InstallView, PowErrorView> {
    match r {
        Ok(i) => Ok(i@),
        Err(e) => Err(e@),
    }
}

/// What `strategy` returns: a source build for 7.x off Windows, a prebuilt
/// archive otherwise.
pub open spec fn strategy_spec(minor: Seq<char>, os: Seq<char>, arch: Seq<char>) -> Result<
    InstallView,
    PowErrorView,
> {
    match patch_of(minor) {
        None => Err(PowErrorView::UnknownVersion { minor }),
        Some(patch) => if has_prefix(minor, "7."@) && os != "windows"@ {
            Ok(InstallView::Source { url: source_url_spec(patch), patch })
        } else {
            match download_url_spec(minor, os, arch) {
                Ok(u) => Ok(InstallView::Prebuilt(u)),
                Err(e) => Err(e),
            }
        },
    }
}

/// The full patch version of a known minor version (`8.2` gives `8.2.31`).
pub fn patch_for(minor: &str) -> (r: Result<String, PowError>)
    ensures
        string_result(r) == match patch_of(minor@) {
            Some(p) => Ok(p),
            None => Err(PowErrorView::UnknownVersion { minor: minor@ }),
        },
{
    match lookup_patch(minor) {
        Some(p) => Ok(String::from_str(p)),
        None => Err(PowError::UnknownVersion { minor: String::from_str(minor) }),
    }
}

/// The official PHP source tarball on php.net.
pub fn source_url(patch: &str) -> (r: String)
    ensures
        r@ == source_url_spec(patch@),
{
    String::from_str("https://www.php.net/distributions/php-").concat(patch).concat(".tar.gz")
}

/// The windows.php.net download URL of a minor version's patch release.
pub fn windows_url(minor: &str, patch: &str) -> (r: String)
    ensures
        r@ == windows_url_spec(minor@, patch@),
{
    if starts_with(minor, "7.") {
        String::from_str("https://windows.php.net/downloads/releases/archives/php-").concat(
            patch,
        ).concat("-nts-Win32-vc15-x64.zip")
    } else {
        String::from_str("https://windows.php.net/downloads/releases/php-").concat(patch).concat(
            "-nts-Win32-vs16-x64.zip",
        )
    }
}

/// The download URL of a prebuilt PHP for a minor version on a platform.
pub fn download_url(minor: &str, platform: &Platform) -> (r: Result<String, PowError>)
    ensures
        string_result(r) == download_url_spec(minor@, platform.os@, platform.arch@),
{
    let patch = match lookup_patch(minor) {
        Some(p) => p,
        None => {
            return Err(PowError::UnknownVersion { minor: String::from_str(minor) });
        },
    };
    let arch = platform.arch.as_str();
    if !str_eq(arch, "x86_64") && !str_eq(arch, "aarch64") {
        return Err(PowError::UnsupportedArch { arch: String::from_str(arch) });
    }
    let os = platform.os.as_str();
    if str_eq(os, "linux") || str_eq(os, "macos") {
        Ok(
            String::from_str("https://dl.static-php.dev/static-php-cli/common/php-").concat(
                patch,
            ).concat("-cli-").concat(os).concat("-").concat(arch).concat(".tar.gz"),
        )
    } else if str_eq(os, "windows") {
        Ok(windows_url(minor, patch))
    } else {
        Err(PowError::UnsupportedOs { os: String::from_str(os) })
    }
}

/// Decides how to install `minor` on a platform: prebuilt static binaries
/// exist for PHP 8.x and for Windows, PHP 7.x elsewhere is built from source.
pub fn strategy(minor: &str, platform: &Platform) -> (r: Result<Install, PowError>)
    ensures
        install_result(r) == strategy_spec(minor@, platform.os@, platform.arch@),
{
    let patch = match lookup_patch(minor) {
        Some(p) => p,
        None => {
            return Err(PowError::UnknownVersion { minor: String::from_str(minor) });
        },
    };
    let from_source = starts_with(minor, "7.") && !windows(platform);
    if from_source {
        Ok(Install::Source { url: source_url(patch), patch: String::from_str(patch) })
    } else {
        match download_url(minor, platform) {
            Ok(u) => Ok(Install::Prebuilt(u)),
            Err(e) => Err(e),
        }
    }
}


/// A minor version is supported exactly when it is in the supported list.
pub proof fn lemma_supported_iff_listed(m: Seq<char>)
    ensures
        is_supported(m) <==> supported_minors().contains(m),
{
    let t = known_table();
    reveal_with_fuel(lookup_from, 5);
    if supported_minors().contains(m) {
        let k = choose|k: int| 0 <= k < supported_minors().len() && supported_minors()[k] == m;
        assert(t[k].0 == m);
    }
    if is_supported(m) {
        if t[0].0 == m {
            assert(supported_minors()[0] == m);
        } else if t[1].0 == m {
            assert(supported_minors()[1] == m);
        } else if t[2].0 == m {
            assert(supported_minors()[2] == m);
        } else {
            assert(supported_minors()[3] == m);
        }
    }
}

/// A version of the form `<digit>.<digit>` comes out of cleaning and field
/// splitting unchanged, also when written `php@<version>`.
proof fn lemma_digit_dot_digit(m: Seq<char>)
    requires
        m.len() == 3,
        is_digit(m[0]),
        m[1] == '.',
        is_digit(m[2]),
    ensures
        clean_version(m) == m,
        clean_version("php@"@ + m) == m,
        minor_of(m) == Some(m),
{
    reveal_strlit("php@");
    reveal_strlit("php-");
    reveal_strlit("php");
    reveal_strlit(".");
    assert(m.subrange(0, 3) != "php"@) by {
        assert(m.subrange(0, 3)[0] != "php"@[0]);
    }
    assert(remove_all(m.drop_first(), "php"@) == m.drop_first());
    assert(seq![m[0]] + m.drop_first() =~= m);
    assert(remove_all(m, "php"@) == m);
    assert(strip_php_markers(m) == m);
    let pm = "php@"@ + m;
    assert(pm.subrange(0, 4) =~= "php@"@);
    assert(pm.subrange(4, 7) =~= m);
    assert(remove_all(pm, "php@"@) == m);
    assert(strip_php_markers(pm) == m);
    assert(trim_start_class(m, CharClass::WhiteSpace) == m);
    assert(trim_end_class(m, CharClass::WhiteSpace) == m);
    assert(trim_start_class(m, CharClass::AtOrDash) == m);
    assert(trim_end_class(m, CharClass::AtOrDash) == m);
    reveal_with_fuel(find_from, 3);
    assert(find_first(m, '.') == Some(1int));
    let rest = m.subrange(2, 3);
    assert(find_first(rest, '.') is None);
    assert(m.subrange(0, 1) + "."@ + rest =~= m);
}

/// Every installable version reads back as itself, written bare or as
/// `php@<version>`.
pub proof fn lemma_supported_version_round_trip(m: Seq<char>, input: Seq<char>)
    requires
        supported_minors().contains(m),
    ensures
        parse_lowered(m, input) == Ok::<Seq<char>, PowErrorView>(m),
        parse_lowered("php@"@ + m, input) == Ok::<Seq<char>, PowErrorView>(m),
{
    reveal_strlit("7.4");
    reveal_strlit("8.1");
    reveal_strlit("8.2");
    reveal_strlit("8.3");
    lemma_supported_iff_listed(m);
    let k = choose|k: int| 0 <= k < supported_minors().len() && supported_minors()[k] == m;
    assert(m == known_table()[k].0);
    lemma_digit_dot_digit(m);
}

/// A successfully parsed version is always installable, and reading it again
/// gives it back unchanged.
pub proof fn lemma_parse_version_normalizes(input: Seq<char>)
    ensures
        parse_version_spec(input) matches Ok(v) ==> {
            &&& supported_minors().contains(v)
            &&& parse_lowered(v, v) == Ok::<Seq<char>, PowErrorView>(v)
        },
{
    if let Ok(v) = parse_version_spec(input) {
        lemma_supported_iff_listed(v);
        lemma_supported_version_round_trip(v, v);
    }
}

/// Every pinned patch release is a release of its own minor version:
/// `<minor>.<patch>`.
pub proof fn lemma_patch_extends_minor(minor: Seq<char>)
    ensures
        patch_of(minor) matches Some(p) ==> has_prefix(p, minor + "."@),
{
    reveal_with_fuel(lookup_from, 5);
    reveal_strlit(".");
    reveal_strlit("7.4");
    reveal_strlit("8.1");
    reveal_strlit("8.2");
    reveal_strlit("8.3");
    reveal_strlit("7.4.33");
    reveal_strlit("8.1.34");
    reveal_strlit("8.2.31");
    reveal_strlit("8.3.31");
    if let Some(p) = patch_of(minor) {
        assert(p.subrange(0, 4) =~= minor + "."@);
    }
}

/// A supported version is built from source exactly when it is a 7.x
/// version off Windows; any other supported version is installed from a
/// prebuilt archive wherever one exists for the platform.
pub proof fn lemma_install_strategy(minor: Seq<char>, os: Seq<char>, arch: Seq<char>)
    requires
        is_supported(minor),
    ensures
        (strategy_spec(minor, os, arch) matches Ok(InstallView::Source { .. })) <==> (has_prefix(
            minor,
            "7."@,
        ) && os != "windows"@),
        !(has_prefix(minor, "7."@) && os != "windows"@) && download_url_spec(minor, os, arch) is Ok
            ==> strategy_spec(minor, os, arch) matches Ok(InstallView::Prebuilt(_)),
{
}

/// The prebuilt PHP archive for a supported version on Linux or macOS, on
/// x86_64 or aarch64, is the static-php.dev CLI build of the version's
/// pinned patch release for that very operating system and architecture:
/// `https://dl.static-php.dev/static-php-cli/common/php-<patch>-cli-<os>-<arch>.tar.gz`.
/// An 8.x version is installed from exactly that archive there.
pub proof fn lemma_prebuilt_url_matches_platform(minor: Seq<char>, os: Seq<char>, arch: Seq<char>)
    requires
        is_supported(minor),
        os == "linux"@ || os == "macos"@,
        arch == "x86_64"@ || arch == "aarch64"@,
    ensures
        patch_of(minor) matches Some(patch) && download_url_spec(minor, os, arch) == Ok::<
            Seq<char>,
            PowErrorView,
        >(
            "https://dl.static-php.dev/static-php-cli/common/php-"@ + patch + "-cli-"@ + os + "-"@
                + arch + ".tar.gz"@,
        ),
        !has_prefix(minor, "7."@) ==> (patch_of(minor) matches Some(patch) && strategy_spec(
            minor,
            os,
            arch,
        ) == Ok::<InstallView, PowErrorView>(
            InstallView::Prebuilt(
                "https://dl.static-php.dev/static-php-cli/common/php-"@ + patch + "-cli-"@ + os
                    + "-"@ + arch + ".tar.gz"@,
            ),
        )),
{
    reveal_strlit("linux");
    reveal_strlit("macos");
    reveal_strlit("windows");
    reveal_strlit("x86_64");
    reveal_strlit("aarch64");
}

/// Two platforms that differ in architecture never get the same prebuilt
/// archive of a supported version on Linux or macOS.
pub proof fn lemma_prebuilt_url_distinguishes_arch(minor: Seq<char>, os: Seq<char>)
    requires
        is_supported(minor),
        os == "linux"@ || os == "macos"@,
    ensures
        download_url_spec(minor, os, "x86_64"@) != download_url_spec(minor, os, "aarch64"@),
{
    reveal_strlit("x86_64");
    reveal_strlit("aarch64");
    lemma_prebuilt_url_matches_platform(minor, os, "x86_64"@);
    lemma_prebuilt_url_matches_platform(minor, os, "aarch64"@);
    let patch = patch_of(minor)->Some_0;
    let pre = "https://dl.static-php.dev/static-php-cli/common/php-"@ + patch + "-cli-"@ + os
        + "-"@;
    let a = pre + "x86_64"@ + ".tar.gz"@;
    let b = pre + "aarch64"@ + ".tar.gz"@;
    assert(a[pre.len() as int] == 'x');
    assert(b[pre.len() as int] == 'a');
    assert(a != b);
}

} // verus!
