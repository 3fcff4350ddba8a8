//! Installing a PHP version into `~/.pow/php/<version>`: which way to obtain
//! it, and, for a source build of PHP 7.4, which libraries to vendor.
use vstd::prelude::*;
use vstd::string::*;

use crate::config::{PowPath, PowPathView, deps_dir, home_of, php_dir, pow_home, under_pow};
use crate::decimal::{decimal, decimal_string, parse_u32, parse_u32_str};
use crate::error::{PowError, PowErrorView, SourceTree, VendoredLib};
use crate::host::{Host, Platform, is_windows, windows};
use crate::php::{Install, InstallView, parse_version, parse_version_spec, strategy, strategy_spec};
use crate::text::{CharClass, find_first, has_prefix, find_char, join_seqs, lemma_find_from, starts_with, trim_class, trim_class_str};
use crate::utils::last_before;

verus! {

/// What installing a version comes to.
#[derive(Debug)]
pub enum InstallPlan {
    /// The version's PHP binary already exists.
    AlreadyInstalled { version: String },
    /// Obtain the version into `dir` in the way `how` says.
    Fetch { version: String, dir: PowPath, how: Install },
}

/// The mathematical value of an [`InstallPlan`].
pub enum InstallPlanView {
    AlreadyInstalled { version: Seq<char> },
    Fetch { version: Seq<char>, dir: PowPathView, how: InstallView },
}

impl View for InstallPlan {
    type V = InstallPlanView;

    open spec fn view(&self) -> InstallPlanView {
        match self {
            InstallPlan::AlreadyInstalled { version } => InstallPlanView::AlreadyInstalled {
                version: version@,
            },
            InstallPlan::Fetch { version, dir, how } => InstallPlanView::Fetch {
                version: version@,
                dir: dir@,
                how: how@,
            },
        }
    }
}

/// The value of an install-plan result.
pub open spec fn plan_result(r: Result<InstallPlan, PowError>) -> Result<
    InstallPlanView,
    PowErrorView,
> {
    match r {
        Ok(p) => Ok(p@),
        Err(e) => Err(e@),
    }
}

/// What `pow install <target>` decides; `installed` tells whether the PHP
/// binary of the version that `target` names exists.
pub open spec fn install_spec(host: Host, target: Seq<char>, installed: bool) -> Result<
    InstallPlanView,
    PowErrorView,
> {
    match parse_version_spec(target) {
        Err(e) => Err(e),
        Ok(v) => match under_pow(home_of(host), seq!["php"@, v]) {
            Err(e) => Err(e),
            Ok(dir) => if installed {
                Ok(InstallPlanView::AlreadyInstalled { version: v })
            } else {
                match strategy_spec(v, host.platform.os@, host.platform.arch@) {
                    Err(e) => Err(e),
                    Ok(how) => Ok(InstallPlanView::Fetch { version: v, dir, how }),
                }
            },
        },
    }
}

/// `pow install <target>` (e.g. `php@7.4`): how to install the version.
pub fn run(host: &Host, target: &str, installed: bool) -> (r: Result<InstallPlan, PowError>)
    ensures
        plan_result(r) == install_spec(*host, target@, installed),
{
    let version = parse_version(target)?;
    let dir = php_dir(host, version.as_str())?;
    if installed {
        return Ok(InstallPlan::AlreadyInstalled { version });
    }
    let how = strategy(version.as_str(), &host.platform)?;
    Ok(InstallPlan::Fetch { version, dir, how })
}

/// The end of `pow install`: it succeeds only when the PHP binary exists
/// afterwards (`found`, as the caller found it); `expected` displays where
/// the binary was looked for.
pub fn finish(found: bool, expected: &str) -> (r: Result<(), PowError>)
    ensures
        found ==> r is Ok,
        !found ==> (r matches Err(e) && e@ == (PowErrorView::NoBinaryAfterInstall {
            path: expected@,
        })),
{
    if found {
        Ok(())
    } else {
        Err(PowError::NoBinaryAfterInstall { path: String::from_str(expected) })
    }
}

/// The file whose presence shows that a source tree was extracted: the
/// `./config` script for OpenSSL, `./configure` for PHP and libxml2.
pub open spec fn source_marker_spec(tree: SourceTree) -> Seq<char> {
    match tree {
        SourceTree::OpenSsl => "config"@,
        _ => "configure"@,
    }
}

/// The file whose presence shows that a source tree was extracted.
pub fn source_marker(tree: SourceTree) -> (r: &'static str)
    ensures
        r@ == source_marker_spec(tree),
{
    match tree {
        SourceTree::OpenSsl => "config",
        _ => "configure",
    }
}

/// A build goes on only when its source tree was extracted (`found`: the
/// tree's marker file exists); `path` displays the tree.
pub fn check_source(tree: SourceTree, found: bool, path: &str) -> (r: Result<(), PowError>)
    ensures
        found ==> r is Ok,
        !found ==> (r matches Err(e) && e@ == (PowErrorView::SourceNotExtracted {
            tree,
            path: path@,
        })),
{
    if found {
        Ok(())
    } else {
        Err(PowError::SourceNotExtracted { tree, path: String::from_str(path) })
    }
}

/// A vendored library counts as built only when its pkg-config file exists
/// (`found`); `path` displays that file.
pub fn check_pkgconfig(library: VendoredLib, found: bool, path: &str) -> (r: Result<(), PowError>)
    ensures
        found ==> r is Ok,
        !found ==> (r matches Err(e) && e@ == (PowErrorView::PkgConfigMissing {
            library,
            path: path@,
        })),
{
    if found {
        Ok(())
    } else {
        Err(PowError::PkgConfigMissing { library, path: String::from_str(path) })
    }
}

/// The `PKG_CONFIG_PATH` of a build against vendored libraries: their
/// pkg-config directories first, then the entries already set.
pub fn pkg_config_search_path(vendored: &Vec<String>, existing: &Vec<String>) -> (r: Vec<String>)
    ensures
        r.deep_view() == vendored.deep_view() + existing.deep_view(),
{
    let ghost want = vendored.deep_view() + existing.deep_view();
    let n = vendored.len();
    let mut v: Vec<String> = Vec::new();
    let mut i: usize = 0;
    while i < n
        invariant
            i <= n,
            n == vendored@.len(),
            want == vendored.deep_view() + existing.deep_view(),
            v@.len() == i,
            forall|k: int| 0 <= k < i ==> #[trigger] v@[k]@ == want[k],
        decreases n - i,
    {
        let x = vendored[i].clone();
        v.push(x);
        i += 1;
    }
    let mut j: usize = 0;
    while j < existing.len()
        invariant
            j <= existing@.len(),
            n == vendored@.len(),
            want == vendored.deep_view() + existing.deep_view(),
            v@.len() == n + j,
            forall|k: int| 0 <= k < n + j ==> #[trigger] v@[k]@ == want[k],
        decreases existing@.len() - j,
    {
        let x = existing[j].clone();
        v.push(x);
        j += 1;
    }
    assert(v.deep_view() =~= want);
    v
}

/// The arguments of `./configure` for a PHP 7.4 build installed under
/// `prefix`: the Laravel extensions that are not on by default, without
/// CGI, PEAR and opcache.
pub open spec fn configure_args_spec(prefix: Seq<char>) -> Seq<Seq<char>> {
    seq![
        "--prefix="@ + prefix,
        "--disable-cgi"@,
        "--without-pear"@,
        "--disable-opcache"@,
        "--enable-mbstring"@,
        "--with-openssl"@,
        "--with-zlib"@,
        "--with-pdo-sqlite"@,
        "--with-pdo-mysql=mysqlnd"@,
        "--enable-bcmath"@,
        "--enable-sockets"@,
        "--enable-fileinfo"@,
    ]
}

/// The arguments of `./configure` for a source build installed under
/// `prefix` (the displayed install directory).
pub fn configure_args(prefix: &str) -> (r: Vec<String>)
    ensures
        r.deep_view() == configure_args_spec(prefix@),
{
    let mut v: Vec<String> = Vec::new();
    v.push(String::from_str("--prefix=").concat(prefix));
    v.push(String::from_str("--disable-cgi"));
    v.push(String::from_str("--without-pear"));
    v.push(String::from_str("--disable-opcache"));
    v.push(String::from_str("--enable-mbstring"));
    v.push(String::from_str("--with-openssl"));
    v.push(String::from_str("--with-zlib"));
    v.push(String::from_str("--with-pdo-sqlite"));
    v.push(String::from_str("--with-pdo-mysql=mysqlnd"));
    v.push(String::from_str("--enable-bcmath"));
    v.push(String::from_str("--enable-sockets"));
    v.push(String::from_str("--enable-fileinfo"));
    assert(v.deep_view() =~= configure_args_spec(prefix@));
    v
}

/// OpenSSL release vendored when the system has OpenSSL 3.x, which PHP
/// 7.4's `ext/openssl` does not compile against.
pub const OPENSSL_VERSION: &'static str = "1.1.1w";

/// libxml2 release vendored when the system libxml2 is 2.12 or newer.
pub const LIBXML2_VERSION: &'static str = "2.9.14";

/// `s` with every `.` replaced by `_`.
pub open spec fn dots_to_underscores(s: Seq<char>) -> Seq<char> {
    Seq::new(s.len(), |i: int| if s[i] == '.' { '_' } else { s[i] })
}

/// The OpenSSL source tarball on GitHub, tagged `OpenSSL_<version with _>`.
pub open spec fn openssl_url_spec() -> Seq<char> {
    "https://github.com/openssl/openssl/releases/download/OpenSSL_"@ + dots_to_underscores(
        OPENSSL_VERSION@,
    ) + "/openssl-"@ + OPENSSL_VERSION@ + ".tar.gz"@
}

/// `s` with every `.` replaced by `_`.
fn replace_dots(s: &str) -> (r: String)
    ensures
        r@ == dots_to_underscores(s@),
{
    let n = s.unicode_len();
    let mut out = String::new();
    let mut i: usize = 0;
    while i < n
        invariant
            i <= n,
            n == s@.len(),
            out@ == dots_to_underscores(s@).subrange(0, i as int),
        decreases n - i,
    {
        if s.get_char(i) == '.' {
            proof {
                reveal_strlit("_");
            }
            out.append("_");
        } else {
            out.append(s.substring_char(i, i + 1));
        }
        assert(out@ =~= dots_to_underscores(s@).subrange(0, i + 1));
        i += 1;
    }
    assert(out@ =~= dots_to_underscores(s@));
    out
}

/// The OpenSSL source tarball (GitHub release).
pub fn openssl_url() -> (r: String)
    ensures
        r@ == openssl_url_spec(),
{
    let tag = replace_dots(OPENSSL_VERSION);
    String::from_str("https://github.com/openssl/openssl/releases/download/OpenSSL_").concat(
        tag.as_str(),
    ).concat("/openssl-").concat(OPENSSL_VERSION).concat(".tar.gz")
}

/// The release series of a version: the part before its last `.`.
pub open spec fn series_of(v: Seq<char>) -> Seq<char> {
    match last_before(v, '.', v.len() as int) {
        Some(k) => v.subrange(0, k),
        None => "2.9"@,
    }
}

/// The libxml2 source tarball (GNOME release, with a ready `./configure`).
pub open spec fn libxml2_url_spec() -> Seq<char> {
    "https://download.gnome.org/sources/libxml2/"@ + series_of(LIBXML2_VERSION@) + "/libxml2-"@
        + LIBXML2_VERSION@ + ".tar.xz"@
}

/// The libxml2 source tarball.
pub fn libxml2_url() -> (r: String)
    ensures
        r@ == libxml2_url_spec(),
{
    let v = LIBXML2_VERSION;
    let n = v.unicode_len();
    let mut j: usize = n;
    while j > 0 && v.get_char(j - 1) != '.'
        invariant
            j <= n,
            n == v@.len(),
            last_before(v@, '.', n as int) == last_before(v@, '.', j as int),
        decreases j,
    {
        j -= 1;
    }
    let series = if j == 0 {
        "2.9"
    } else {
        v.substring_char(0, j - 1)
    };
    String::from_str("https://download.gnome.org/sources/libxml2/").concat(series).concat(
        "/libxml2-",
    ).concat(v).concat(".tar.xz")
}

/// The first two `.`-separated fields of `v`, read as numbers where they
/// parse (0 where they do not), when `v` has at least two fields.
pub open spec fn major_minor(v: Seq<char>) -> Option<(nat, nat)> {
    match find_first(v, '.') {
        None => None,
        Some(i) => {
            let rest = v.subrange(i + 1, v.len() as int);
            let minor = match find_first(rest, '.') {
                None => rest,
                Some(j) => rest.subrange(0, j),
            };
            let maj = match parse_u32(v.subrange(0, i)) {
                Some(x) => x as nat,
                None => 0,
            };
            let min = match parse_u32(minor) {
                Some(x) => x as nat,
                None => 0,
            };
            Some((maj, min))
        },
    }
}

/// Whether a libxml2 version is 2.12 or newer (or 3.x and up), which drops
/// APIs that PHP 7.4 relies on.
pub open spec fn libxml_too_new_spec(v: Seq<char>) -> bool {
    match major_minor(v) {
        None => false,
        Some((maj, min)) => maj > 2 || (maj == 2 && min >= 12),
    }
}

/// `s.parse::<u32>().unwrap_or(0)`.
fn parse_or_zero(s: &str) -> (r: u32)
    ensures
        r == match parse_u32(s@) {
            Some(x) => x,
            None => 0,
        },
{
    match parse_u32_str(s) {
        Some(x) => x,
        None => 0,
    }
}

/// True for libxml2 2.12 and newer (including 3.x).
pub fn libxml_too_new(v: &str) -> (r: bool)
    ensures
        r == libxml_too_new_spec(v@),
{
    let n = v.unicode_len();
    proof {
        lemma_find_from(v@, '.', 0);
    }
    match find_char(v, '.') {
        None => false,
        Some(i) => {
            let rest = v.substring_char(i + 1, n);
            proof {
                lemma_find_from(rest@, '.', 0);
            }
            let minor = match find_char(rest, '.') {
                None => rest,
                Some(j) => rest.substring_char(0, j),
            };
            let maj = parse_or_zero(v.substring_char(0, i));
            let min = parse_or_zero(minor);
            maj > 2 || (maj == 2 && min >= 12)
        },
    }
}

/// Whether a PHP 7.x build off Windows must use a vendored library.
pub open spec fn is_legacy_unix_build(version: Seq<char>, platform: Platform) -> bool {
    has_prefix(version, "7."@) && !is_windows(platform)
}

/// Where a vendored library comes from.
#[derive(Debug)]
pub enum Vendor {
    /// The system library works: nothing to vendor.
    NotNeeded,
    /// Link against the copy built earlier under this prefix.
    UseBuilt(PowPath),
    /// Build the library from source into this prefix, then link against it.
    Build(PowPath),
}

/// The mathematical value of a [`Vendor`].
pub enum VendorView {
    NotNeeded,
    UseBuilt(PowPathView),
    Build(PowPathView),
}

impl View for Vendor {
    type V = VendorView;

    open spec fn view(&self) -> VendorView {
        match self {
            Vendor::NotNeeded => VendorView::NotNeeded,
            Vendor::UseBuilt(p) => VendorView::UseBuilt(p@),
            Vendor::Build(p) => VendorView::Build(p@),
        }
    }
}

/// The value of a vendoring result.
pub open spec fn vendor_result(r: Result<Vendor, PowError>) -> Result<VendorView, PowErrorView> {
    match r {
        Ok(v) => Ok(v@),
        Err(e) => Err(e@),
    }
}

/// A vendored library in `~/.pow/deps/<name>`, either built already
/// (`built`) or to be built.
pub open spec fn vendor_in_deps(host: Host, name: Seq<char>, built: bool) -> Result<
    VendorView,
    PowErrorView,
> {
    match under_pow(home_of(host), seq!["deps"@, name]) {
        Err(e) => Err(e),
        Ok(p) => Ok(
            if built {
                VendorView::UseBuilt(p)
            } else {
                VendorView::Build(p)
            },
        ),
    }
}

/// `~/.pow/deps/<name>`, the install prefix of a vendored library.
fn deps_prefix(host: &Host, name: &str) -> (r: Result<PowPath, PowError>)
    ensures
        crate::config::path_result(r) == under_pow(home_of(*host), seq!["deps"@, name@]),
{
    let deps = deps_dir(host)?;
    let prefix = deps.join(name);
    assert(prefix@.segments =~= seq![".pow"@] + seq!["deps"@, name@]);
    Ok(prefix)
}

/// `~/.pow/deps/openssl-1.1`, where OpenSSL 1.1 is built.
pub fn openssl_prefix(host: &Host) -> (r: Result<PowPath, PowError>)
    ensures
        crate::config::path_result(r) == under_pow(home_of(*host), seq!["deps"@, "openssl-1.1"@]),
{
    deps_prefix(host, "openssl-1.1")
}

/// `~/.pow/deps/libxml2`, where libxml2 is built.
pub fn libxml2_prefix(host: &Host) -> (r: Result<PowPath, PowError>)
    ensures
        crate::config::path_result(r) == under_pow(home_of(*host), seq!["deps"@, "libxml2"@]),
{
    deps_prefix(host, "libxml2")
}

/// Whether building PHP `version` on `platform` may need vendored
/// libraries (PHP 7.x off Windows); only then is the system asked for its
/// library versions.
pub fn legacy_unix_build(version: &str, platform: &Platform) -> (r: bool)
    ensures
        r == is_legacy_unix_build(version@, *platform),
{
    starts_with(version, "7.") && !windows(platform)
}

/// The vendored library in `~/.pow/deps/<name>`.
fn vendor_in(host: &Host, name: &str, built: bool) -> (r: Result<Vendor, PowError>)
    ensures
        vendor_result(r) == vendor_in_deps(*host, name@, built),
{
    let prefix = deps_prefix(host, name)?;
    if built {
        Ok(Vendor::UseBuilt(prefix))
    } else {
        Ok(Vendor::Build(prefix))
    }
}

/// The value of an optional string argument.
pub open spec fn opt_str(s: Option<&str>) -> Option<Seq<char>> {
    match s {
        Some(x) => Some(x@),
        None => None,
    }
}

/// The version a `pkg-config --modversion` run reports: its output without
/// the white space around it.
pub fn modversion(output: &str) -> (r: String)
    ensures
        r@ == trim_class(output@, CharClass::WhiteSpace),
{
    String::from_str(trim_class_str(output, CharClass::WhiteSpace))
}

/// Whether PHP `version` needs OpenSSL 1.1 vendored: only 7.x off Windows,
/// and only when the system OpenSSL (`system`, as `pkg-config` reports it)
/// is not 1.1.
pub open spec fn openssl_spec(host: Host, version: Seq<char>, system: Option<Seq<char>>, built: bool) -> Result<
    VendorView,
    PowErrorView,
> {
    if !is_legacy_unix_build(version, host.platform) {
        Ok(VendorView::NotNeeded)
    } else if system matches Some(v) && has_prefix(v, "1.1"@) {
        Ok(VendorView::NotNeeded)
    } else {
        vendor_in_deps(host, "openssl-1.1"@, built)
    }
}

/// Where the OpenSSL 1.1 that a PHP 7.x build links against comes from;
/// `built` tells whether `~/.pow/deps/openssl-1.1` already holds one (its
/// pkg-config file exists).
pub fn ensure_openssl(host: &Host, version: &str, system: Option<&str>, built: bool) -> (r: Result<
    Vendor,
    PowError,
>)
    ensures
        vendor_result(r) == openssl_spec(*host, version@, opt_str(system), built),
{
    if !legacy_unix_build(version, &host.platform) {
        return Ok(Vendor::NotNeeded);
    }
    if let Some(v) = system {
        if starts_with(v, "1.1") {
            return Ok(Vendor::NotNeeded);
        }
    }
    vendor_in(host, "openssl-1.1", built)
}

/// Whether PHP `version` needs libxml2 vendored: only 7.x off Windows, and
/// only when the system libxml2 is missing or too new.
pub open spec fn libxml2_spec(host: Host, version: Seq<char>, system: Option<Seq<char>>, built: bool) -> Result<
    VendorView,
    PowErrorView,
> {
    if !is_legacy_unix_build(version, host.platform) {
        Ok(VendorView::NotNeeded)
    } else if system matches Some(v) && !libxml_too_new_spec(v) {
        Ok(VendorView::NotNeeded)
    } else {
        vendor_in_deps(host, "libxml2"@, built)
    }
}

/// Where the libxml2 that a PHP 7.x build compiles against comes from;
/// `built` tells whether `~/.pow/deps/libxml2` already holds one (its
/// pkg-config file exists).
pub fn ensure_libxml2(host: &Host, version: &str, system: Option<&str>, built: bool) -> (r: Result<
    Vendor,
    PowError,
>)
    ensures
        vendor_result(r) == libxml2_spec(*host, version@, opt_str(system), built),
{
    if !legacy_unix_build(version, &host.platform) {
        return Ok(Vendor::NotNeeded);
    }
    if let Some(v) = system {
        if !libxml_too_new(v) {
            return Ok(Vendor::NotNeeded);
        }
    }
    vendor_in(host, "libxml2", built)
}

/// `<prefix>/lib/pkgconfig/<file>`.
pub open spec fn pkgconfig_file(prefix: PowPathView, file: Seq<char>) -> PowPathView {
    PowPathView {
        root: prefix.root,
        segments: prefix.segments + seq!["lib"@, "pkgconfig"@, file],
    }
}

/// `<prefix>/lib/pkgconfig/openssl.pc`
pub fn openssl_pkgconfig(prefix: &PowPath) -> (r: PowPath)
    ensures
        r@ == pkgconfig_file(prefix@, "openssl.pc"@),
{
    let r = prefix.join("lib").join("pkgconfig").join("openssl.pc");
    assert(r@.segments =~= prefix@.segments + seq!["lib"@, "pkgconfig"@, "openssl.pc"@]);
    r
}

/// `<prefix>/lib/pkgconfig/libxml-2.0.pc`
pub fn libxml2_pkgconfig(prefix: &PowPath) -> (r: PowPath)
    ensures
        r@ == pkgconfig_file(prefix@, "libxml-2.0.pc"@),
{
    let r = prefix.join("lib").join("pkgconfig").join("libxml-2.0.pc");
    assert(r@.segments =~= prefix@.segments + seq!["lib"@, "pkgconfig"@, "libxml-2.0.pc"@]);
    r
}

/// `~/.pow/build`, where source tarballs are extracted.
pub fn build_root(host: &Host) -> (r: Result<PowPath, PowError>)
    ensures
        crate::config::path_result(r) == under_pow(home_of(*host), seq!["build"@]),
{
    let home = pow_home(host)?;
    let r = home.join("build");
    assert(r@.segments =~= seq![".pow"@] + seq!["build"@]);
    Ok(r)
}

/// `~/.pow/build/<name>`, the tree that a source tarball named `name`
/// extracts to.
pub fn source_dir(host: &Host, name: &str) -> (r: Result<PowPath, PowError>)
    ensures
        crate::config::path_result(r) == under_pow(home_of(*host), seq!["build"@, name@]),
{
    let root = build_root(host)?;
    let r = root.join(name);
    assert(r@.segments =~= seq![".pow"@] + seq!["build"@, name@]);
    Ok(r)
}

/// `<prefix>/lib`, the shared libraries of a vendored library.
pub fn lib_dir(prefix: &PowPath) -> (r: PowPath)
    ensures
        r@ == (PowPathView { root: prefix@.root, segments: prefix@.segments.push("lib"@) }),
{
    prefix.join("lib")
}

/// `<prefix>/lib/pkgconfig`, where `pkg-config` finds a vendored library.
pub fn pkgconfig_dir(prefix: &PowPath) -> (r: PowPath)
    ensures
        r@ == (PowPathView {
            root: prefix@.root,
            segments: prefix@.segments + seq!["lib"@, "pkgconfig"@],
        }),
{
    let r = prefix.join("lib").join("pkgconfig");
    assert(r@.segments =~= prefix@.segments + seq!["lib"@, "pkgconfig"@]);
    r
}

/// The arguments of OpenSSL's `./config`: a shared build into `prefix`,
/// without its test suite.
pub fn openssl_config_args(prefix: &str) -> (r: Vec<String>)
    ensures
        r.deep_view() == seq![
            "--prefix="@ + prefix@,
            "--openssldir="@ + prefix@,
            "shared"@,
            "no-tests"@,
        ],
{
    let mut v: Vec<String> = Vec::new();
    v.push(String::from_str("--prefix=").concat(prefix));
    v.push(String::from_str("--openssldir=").concat(prefix));
    v.push(String::from_str("shared"));
    v.push(String::from_str("no-tests"));
    assert(v.deep_view() =~= seq![
        "--prefix="@ + prefix@,
        "--openssldir="@ + prefix@,
        "shared"@,
        "no-tests"@,
    ]);
    v
}

/// The arguments of libxml2's `./configure`: install into `prefix`, without
/// the Python, LZMA and ICU bindings.
pub fn libxml2_configure_args(prefix: &str) -> (r: Vec<String>)
    ensures
        r.deep_view() == seq![
            "--prefix="@ + prefix@,
            "--without-python"@,
            "--without-lzma"@,
            "--without-icu"@,
        ],
{
    let mut v: Vec<String> = Vec::new();
    v.push(String::from_str("--prefix=").concat(prefix));
    v.push(String::from_str("--without-python"));
    v.push(String::from_str("--without-lzma"));
    v.push(String::from_str("--without-icu"));
    assert(v.deep_view() =~= seq![
        "--prefix="@ + prefix@,
        "--without-python"@,
        "--without-lzma"@,
        "--without-icu"@,
    ]);
    v
}

/// The linker flags that bake one rpath, listing every vendored `lib`
/// directory separated by `:`, into the PHP binary.
pub fn rpath_ldflags(lib_dirs: &Vec<String>) -> (r: String)
    ensures
        r@ == "-Wl,-rpath,"@ + join_seqs(lib_dirs.deep_view(), ":"@),
{
    let mut joined = String::new();
    let mut i: usize = 0;
    while i < lib_dirs.len()
        invariant
            i <= lib_dirs@.len(),
            joined@ == join_seqs(lib_dirs.deep_view().subrange(0, i as int), ":"@),
        decreases lib_dirs@.len() - i,
    {
        let ghost prefix = lib_dirs.deep_view().subrange(0, i + 1);
        assert(prefix.drop_last() =~= lib_dirs.deep_view().subrange(0, i as int));
        assert(prefix.last() == lib_dirs[i as int]@);
        if i > 0 {
            joined.append(":");
        } else {
            assert(joined@ =~= Seq::<char>::empty());
        }
        joined.append(lib_dirs[i].as_str());
        if i == 0 {
            assert(joined@ =~= prefix[0]);
        }
        i += 1;
    }
    assert(lib_dirs.deep_view().subrange(0, lib_dirs@.len() as int) =~= lib_dirs.deep_view());
    String::from_str("-Wl,-rpath,").concat(joined.as_str())
}

/// One command of a source build, run in the extracted source tree.
#[derive(Debug)]
pub struct BuildStep {
    /// How a failure of the step is reported.
    pub name: String,
    pub program: String,
    pub args: Vec<String>,
    /// Environment variables set for the step, as (name, value).
    pub env: Vec<(String, String)>,
}

/// The mathematical value of a [`BuildStep`].
pub struct BuildStepView {
    pub name: Seq<char>,
    pub program: Seq<char>,
    pub args: Seq<Seq<char>>,
    pub env: Seq<(Seq<char>, Seq<char>)>,
}

impl View for BuildStep {
    type V = BuildStepView;

    open spec fn view(&self) -> BuildStepView {
        BuildStepView {
            name: self.name@,
            program: self.program@,
            args: self.args.deep_view(),
            env: Seq::new(self.env@.len(), |i: int| (self.env@[i].0@, self.env@[i].1@)),
        }
    }
}

/// The values of a list of build steps.
pub open spec fn steps_view(steps: Seq<BuildStep>) -> Seq<BuildStepView> {
    Seq::new(steps.len(), |i: int| steps[i]@)
}

/// A step without environment variables.
pub open spec fn plain_step(name: Seq<char>, program: Seq<char>, args: Seq<Seq<char>>) -> BuildStepView {
    BuildStepView { name, program, args, env: Seq::empty() }
}

/// `make -j <jobs>` and `make <target>`, named with `prefix`.
pub open spec fn make_steps(label: Seq<char>, jobs: u64, target: Seq<char>) -> Seq<BuildStepView> {
    seq![
        plain_step(label + "make"@, "make"@, seq!["-j"@, decimal(jobs as nat)]),
        plain_step(label + "make "@ + target, "make"@, seq![target]),
    ]
}

fn step(name: &str, program: &str, args: Vec<String>) -> (r: BuildStep)
    ensures
        r@ == plain_step(name@, program@, args.deep_view()),
{
    let env: Vec<(String, String)> = Vec::new();
    let r = BuildStep { name: String::from_str(name), program: String::from_str(program), args, env };
    assert(r@.env =~= Seq::<(Seq<char>, Seq<char>)>::empty());
    r
}

/// `make -j <jobs>` then `make <target>`.
fn make_pair(label: &str, jobs: u64, target: &str) -> (r: (BuildStep, BuildStep))
    ensures
        seq![r.0@, r.1@] == make_steps(label@, jobs, target@),
{
    let mut a: Vec<String> = Vec::new();
    a.push(String::from_str("-j"));
    a.push(decimal_string(jobs));
    assert(a.deep_view() =~= seq!["-j"@, decimal(jobs as nat)]);
    let mut b: Vec<String> = Vec::new();
    b.push(String::from_str(target));
    assert(b.deep_view() =~= seq![target@]);
    let first = step(String::from_str(label).concat("make").as_str(), "make", a);
    let second = step(String::from_str(label).concat("make ").concat(target).as_str(), "make", b);
    (first, second)
}

/// The steps of a PHP source build installed under `prefix`: configure
/// (compiled as C17, which PHP 7.4's K&R-style code needs on modern
/// compilers), `make -j <jobs>`, `make install`.
pub open spec fn php_build_spec(prefix: Seq<char>, jobs: u64) -> Seq<BuildStepView> {
    seq![
        BuildStepView {
            name: "configure"@,
            program: "./configure"@,
            args: configure_args_spec(prefix),
            env: seq![("CFLAGS"@, "-std=gnu17 -O2"@)],
        },
    ] + make_steps(""@, jobs, "install"@)
}

/// The steps of a PHP source build.
pub fn php_build_steps(prefix: &str, jobs: u64) -> (r: Vec<BuildStep>)
    ensures
        steps_view(r@) == php_build_spec(prefix@, jobs),
{
    let mut env: Vec<(String, String)> = Vec::new();
    env.push((String::from_str("CFLAGS"), String::from_str("-std=gnu17 -O2")));
    let configure = BuildStep {
        name: String::from_str("configure"),
        program: String::from_str("./configure"),
        args: configure_args(prefix),
        env,
    };
    assert(configure@.env =~= seq![("CFLAGS"@, "-std=gnu17 -O2"@)]);
    let (make, install) = make_pair("", jobs, "install");
    let mut v: Vec<BuildStep> = Vec::new();
    v.push(configure);
    v.push(make);
    v.push(install);
    assert(steps_view(v@) =~= php_build_spec(prefix@, jobs));
    v
}

/// The steps of an OpenSSL build into `prefix`: `./config`, `make -j
/// <jobs>`, and `make install_sw` (libraries and headers, no manual pages).
pub open spec fn openssl_build_spec(prefix: Seq<char>, jobs: u64) -> Seq<BuildStepView> {
    seq![
        plain_step(
            "openssl ./config"@,
            "./config"@,
            seq!["--prefix="@ + prefix, "--openssldir="@ + prefix, "shared"@, "no-tests"@],
        ),
    ] + make_steps("openssl "@, jobs, "install_sw"@)
}

/// The steps of an OpenSSL build.
pub fn openssl_build_steps(prefix: &str, jobs: u64) -> (r: Vec<BuildStep>)
    ensures
        steps_view(r@) == openssl_build_spec(prefix@, jobs),
{
    let config = step("openssl ./config", "./config", openssl_config_args(prefix));
    let (make, install) = make_pair("openssl ", jobs, "install_sw");
    let mut v: Vec<BuildStep> = Vec::new();
    v.push(config);
    v.push(make);
    v.push(install);
    assert(steps_view(v@) =~= openssl_build_spec(prefix@, jobs));
    v
}

/// The steps of a libxml2 build into `prefix`: `./configure`, `make -j
/// <jobs>`, `make install`.
pub open spec fn libxml2_build_spec(prefix: Seq<char>, jobs: u64) -> Seq<BuildStepView> {
    seq![
        plain_step(
            "libxml2 configure"@,
            "./configure"@,
            seq!["--prefix="@ + prefix, "--without-python"@, "--without-lzma"@, "--without-icu"@],
        ),
    ] + make_steps("libxml2 "@, jobs, "install"@)
}

/// The steps of a libxml2 build.
pub fn libxml2_build_steps(prefix: &str, jobs: u64) -> (r: Vec<BuildStep>)
    ensures
        steps_view(r@) == libxml2_build_spec(prefix@, jobs),
{
    let configure = step("libxml2 configure", "./configure", libxml2_configure_args(prefix));
    let (make, install) = make_pair("libxml2 ", jobs, "install");
    let mut v: Vec<BuildStep> = Vec::new();
    v.push(configure);
    v.push(make);
    v.push(install);
    assert(steps_view(v@) =~= libxml2_build_spec(prefix@, jobs));
    v
}

} // verus!
