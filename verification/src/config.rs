//! The configuration model plus every path of the `~/.pow` layout.
//!
//! Every path the tool uses is built here, so the layout stays in one place:
//! each lies under `<home>/.pow`.
use vstd::prelude::*;
use vstd::string::*;

use crate::error::{PowError, PowErrorView};
use crate::host::{Host, Platform, is_windows, windows};

verus! {

/// Database section of the configuration.
#[derive(Debug, Clone)]
pub struct Database {
    /// Active driver: `sqlite` or `mysql` (MariaDB).
    pub driver: String,
    pub mysql_port: u16,
    pub mysql_user: String,
    pub mysql_pass: String,
    /// Path to the SQLite database file (used by backup and restore).
    pub sqlite_path: String,
}

/// Top-level configuration, stored as `~/.pow/config.json`.
#[derive(Debug, Clone)]
pub struct Config {
    pub port: u16,
    pub root: String,
    pub php_version: String,
    pub database: Database,
}

/// The SQLite database file used when the configuration names none.
pub open spec fn default_sqlite_path_spec() -> Seq<char> {
    "./database/database.sqlite"@
}

/// The SQLite database file used when the configuration names none.
pub fn default_sqlite_path() -> (r: String)
    ensures
        r@ == default_sqlite_path_spec(),
{
    String::from_str("./database/database.sqlite")
}

/// Whether `d` is the database section of a fresh configuration.
pub open spec fn is_default_database(d: Database) -> bool {
    &&& d.driver@ == "sqlite"@
    &&& d.mysql_port == 3306
    &&& d.mysql_user@ == "root"@
    &&& d.mysql_pass@ == Seq::<char>::empty()
    &&& d.sqlite_path@ == default_sqlite_path_spec()
}

/// Whether `c` is a fresh configuration.
pub open spec fn is_default_config(c: Config) -> bool {
    &&& c.port == 8080
    &&& c.root@ == "./htdocs"@
    &&& c.php_version@ == "8.2"@
    &&& is_default_database(c.database)
}

impl Default for Database {
    fn default() -> (r: Self)
        ensures
            is_default_database(r),
    {
        Database {
            driver: String::from_str("sqlite"),
            mysql_port: 3306,
            mysql_user: String::from_str("root"),
            mysql_pass: String::new(),
            sqlite_path: default_sqlite_path(),
        }
    }
}

impl Default for Config {
    fn default() -> (r: Self)
        ensures
            is_default_config(r),
    {
        Config {
            port: 8080,
            root: String::from_str("./htdocs"),
            php_version: String::from_str("8.2"),
            database: Database::default(),
        }
    }
}

/// A path: a root directory followed by the names of the entries below it.
#[derive(Debug)]
pub struct PowPath {
    pub root: String,
    pub segments: Vec<String>,
}

/// The mathematical value of a [`PowPath`].
pub struct PowPathView {
    pub root: Seq<char>,
    pub segments: Seq<Seq<char>>,
}

impl View for PowPath {
    type V = PowPathView;

    open spec fn view(&self) -> PowPathView {
        PowPathView { root: self.root@, segments: self.segments.deep_view() }
    }
}

impl PowPath {
    /// The path `root`, with no entries below it.
    pub fn from_root(root: &str) -> (r: PowPath)
        ensures
            r@ == (PowPathView { root: root@, segments: Seq::empty() }),
    {
        let segments: Vec<String> = Vec::new();
        let r = PowPath { root: String::from_str(root), segments };
        assert(r@.segments =~= Seq::<Seq<char>>::empty());
        r
    }

    /// The path one entry deeper, named `name` (`Path::join` of one name).
    pub fn join(&self, name: &str) -> (r: PowPath)
        ensures
            r@ == (PowPathView { root: self@.root, segments: self@.segments.push(name@) }),
    {
        let mut segments: Vec<String> = Vec::new();
        let mut i: usize = 0;
        while i < self.segments.len()
            invariant
                i <= self.segments@.len(),
                segments@.len() == i,
                forall|k: int| 0 <= k < i ==> #[trigger] segments@[k]@ == self.segments@[k]@,
            decreases self.segments@.len() - i,
        {
            segments.push(self.segments[i].clone());
            i += 1;
        }
        segments.push(String::from_str(name));
        let r = PowPath { root: self.root.clone(), segments };
        assert(r@.segments =~= self@.segments.push(name@));
        r
    }
}

/// The value of a path result.
pub open spec fn path_result(r: Result<PowPath, PowError>) -> Result<PowPathView, PowErrorView> {
    match r {
        Ok(p) => Ok(p@),
        Err(e) => Err(e@),
    }
}

/// The user's home directory, if known.
pub open spec fn home_of(host: Host) -> Option<Seq<char>> {
    match host.home {
        Some(h) => Some(h@),
        None => None,
    }
}

/// The path `<home>/.pow/<names...>`, or the missing home directory.
pub open spec fn under_pow(home: Option<Seq<char>>, names: Seq<Seq<char>>) -> Result<
    PowPathView,
    PowErrorView,
> {
    match home {
        None => Err(PowErrorView::NoHomeDirectory),
        Some(h) => Ok(PowPathView { root: h, segments: seq![".pow"@] + names }),
    }
}

/// Every path of the layout that is known lies in `.pow` directly under
/// the home directory.
pub proof fn lemma_layout_under_pow_home(home: Option<Seq<char>>, names: Seq<Seq<char>>)
    ensures
        under_pow(home, names) matches Ok(p) ==> {
            &&& home == Some(p.root)
            &&& p.segments.len() == names.len() + 1
            &&& p.segments[0] == ".pow"@
            &&& p.segments.subrange(1, p.segments.len() as int) == names
        },
        under_pow(home, names) is Err <==> home is None,
{
    if let Ok(p) = under_pow(home, names) {
        assert(p.segments.subrange(1, p.segments.len() as int) =~= names);
    }
}

/// Root of all POW data: `~/.pow`.
pub fn pow_home(host: &Host) -> (r: Result<PowPath, PowError>)
    ensures
        path_result(r) == under_pow(home_of(*host), Seq::empty()),
{
    match &host.home {
        None => Err(PowError::NoHomeDirectory),
        Some(h) => {
            let r = PowPath::from_root(h.as_str()).join(".pow");
            assert(seq![".pow"@] + Seq::<Seq<char>>::empty() =~= Seq::<Seq<char>>::empty().push(
                ".pow"@,
            ));
            Ok(r)
        },
    }
}

/// `~/.pow/<a>`.
fn pow_path1(host: &Host, a: &str) -> (r: Result<PowPath, PowError>)
    ensures
        path_result(r) == under_pow(home_of(*host), seq![a@]),
{
    let h = pow_home(host)?;
    let r = h.join(a);
    assert(r@.segments =~= seq![".pow"@] + seq![a@]);
    Ok(r)
}

/// `~/.pow/<a>/<b>`.
fn pow_path2(host: &Host, a: &str, b: &str) -> (r: Result<PowPath, PowError>)
    ensures
        path_result(r) == under_pow(home_of(*host), seq![a@, b@]),
{
    let h = pow_path1(host, a)?;
    let r = h.join(b);
    assert(r@.segments =~= seq![".pow"@] + seq![a@, b@]);
    Ok(r)
}

/// `~/.pow/config.json`
pub fn config_path(host: &Host) -> (r: Result<PowPath, PowError>)
    ensures
        path_result(r) == under_pow(home_of(*host), seq!["config.json"@]),
{
    pow_path1(host, "config.json")
}

/// `~/.pow/php`, parent of all installed PHP versions.
pub fn php_root(host: &Host) -> (r: Result<PowPath, PowError>)
    ensures
        path_result(r) == under_pow(home_of(*host), seq!["php"@]),
{
    pow_path1(host, "php")
}

/// `~/.pow/php/<version>`
pub fn php_dir(host: &Host, version: &str) -> (r: Result<PowPath, PowError>)
    ensures
        path_result(r) == under_pow(home_of(*host), seq!["php"@, version@]),
{
    pow_path2(host, "php", version)
}

/// The executable name of PHP on a platform.
pub open spec fn php_exe(p: Platform) -> Seq<char> {
    if is_windows(p) {
        "php.exe"@
    } else {
        "php"@
    }
}

/// `~/.pow/php/<version>/bin/<php>`, where a source build installs PHP.
pub fn php_bin_in_bin(host: &Host, version: &str) -> (r: Result<PowPath, PowError>)
    ensures
        path_result(r) == under_pow(
            home_of(*host),
            seq!["php"@, version@, "bin"@, php_exe(host.platform)],
        ),
{
    let exe = if windows(&host.platform) {
        "php.exe"
    } else {
        "php"
    };
    let dir = php_dir(host, version)?;
    let r = dir.join("bin").join(exe);
    assert(r@.segments =~= seq![".pow"@] + seq!["php"@, version@, "bin"@, php_exe(host.platform)]);
    Ok(r)
}

/// `~/.pow/php/<version>/<php>`, where a prebuilt archive puts PHP.
pub fn php_bin_at_root(host: &Host, version: &str) -> (r: Result<PowPath, PowError>)
    ensures
        path_result(r) == under_pow(home_of(*host), seq!["php"@, version@, php_exe(host.platform)]),
{
    let exe = if windows(&host.platform) {
        "php.exe"
    } else {
        "php"
    };
    let dir = php_dir(host, version)?;
    let r = dir.join(exe);
    assert(r@.segments =~= seq![".pow"@] + seq!["php"@, version@, php_exe(host.platform)]);
    Ok(r)
}

/// What `php_bin` returns: the `bin/` binary when it is a file, else the
/// binary at the version's root, unless that entry is the `php/` directory
/// a source build leaves there, which is never taken for the executable.
pub open spec fn php_bin_spec(
    home: Option<Seq<char>>,
    platform: Platform,
    version: Seq<char>,
    in_bin_is_file: bool,
    at_root_is_dir: bool,
) -> Result<Option<PowPathView>, PowErrorView> {
    match home {
        None => Err(PowErrorView::NoHomeDirectory),
        Some(h) => Ok(
            if in_bin_is_file {
                Some(
                    PowPathView {
                        root: h,
                        segments: seq![".pow"@, "php"@, version, "bin"@, php_exe(platform)],
                    },
                )
            } else if !at_root_is_dir {
                Some(
                    PowPathView {
                        root: h,
                        segments: seq![".pow"@, "php"@, version, php_exe(platform)],
                    },
                )
            } else {
                None
            },
        ),
    }
}

/// The value of an optional-path result.
pub open spec fn opt_path_result(r: Result<Option<PowPath>, PowError>) -> Result<
    Option<PowPathView>,
    PowErrorView,
> {
    match r {
        Ok(Some(p)) => Ok(Some(p@)),
        Ok(None) => Ok(None),
        Err(e) => Err(e@),
    }
}

/// Path to the PHP binary for `version`; the caller tests whether it exists.
/// A source build installs it as `bin/<php>`, a prebuilt archive as `<php>`
/// at the version's root. `in_bin_is_file` tells whether `bin/<php>` is a
/// file and `at_root_is_dir` whether the root entry is a directory, as the
/// caller found them (see `php_bin_in_bin` and `php_bin_at_root`).
/// `bin/<php>` is preferred when it is a file; otherwise the root entry is
/// returned, unless it is the `php/` directory that a source build leaves
/// there, which is never taken for the executable (`None`).
pub fn php_bin(host: &Host, version: &str, in_bin_is_file: bool, at_root_is_dir: bool) -> (r:
    Result<Option<PowPath>, PowError>)
    ensures
        opt_path_result(r) == php_bin_spec(
            home_of(*host),
            host.platform,
            version@,
            in_bin_is_file,
            at_root_is_dir,
        ),
{
    if in_bin_is_file {
        let p = php_bin_in_bin(host, version)?;
        assert(p@.segments =~= seq![".pow"@, "php"@, version@, "bin"@, php_exe(host.platform)]);
        Ok(Some(p))
    } else if !at_root_is_dir {
        let p = php_bin_at_root(host, version)?;
        assert(p@.segments =~= seq![".pow"@, "php"@, version@, php_exe(host.platform)]);
        Ok(Some(p))
    } else {
        let _dir = php_dir(host, version)?;
        Ok(None)
    }
}

/// `php_bin` never returns a directory the caller reported: the `bin/`
/// binary only when it is a file, the root entry only when it is not a
/// directory, and nothing only when neither holds.
pub proof fn lemma_php_bin_never_a_directory(
    home: Option<Seq<char>>,
    platform: Platform,
    version: Seq<char>,
    in_bin_is_file: bool,
    at_root_is_dir: bool,
)
    ensures
        php_bin_spec(home, platform, version, in_bin_is_file, at_root_is_dir) matches Ok(Some(p))
            ==> {
            ||| in_bin_is_file && p.segments == seq![".pow"@, "php"@, version, "bin"@, php_exe(platform)]
            ||| !at_root_is_dir && p.segments == seq![".pow"@, "php"@, version, php_exe(platform)]
        },
        php_bin_spec(home, platform, version, in_bin_is_file, at_root_is_dir) matches Ok(None)
            <==> (home is Some && !in_bin_is_file && at_root_is_dir),
{
}

/// `~/.pow/db/mariadb`
pub fn db_dir(host: &Host) -> (r: Result<PowPath, PowError>)
    ensures
        path_result(r) == under_pow(home_of(*host), seq!["db"@, "mariadb"@]),
{
    pow_path2(host, "db", "mariadb")
}

/// The executable name of a MariaDB program on a platform.
pub open spec fn db_exe(p: Platform, name: Seq<char>) -> Seq<char> {
    if is_windows(p) {
        name + ".exe"@
    } else {
        name
    }
}

/// Path to a MariaDB `bin/` executable.
pub fn db_bin(host: &Host, name: &str) -> (r: Result<PowPath, PowError>)
    ensures
        path_result(r) == under_pow(
            home_of(*host),
            seq!["db"@, "mariadb"@, "bin"@, db_exe(host.platform, name@)],
        ),
{
    let exe = if windows(&host.platform) {
        String::from_str(name).concat(".exe")
    } else {
        String::from_str(name)
    };
    let dir = db_dir(host)?;
    let r = dir.join("bin").join(exe.as_str());
    assert(r@.segments =~= seq![".pow"@] + seq![
        "db"@,
        "mariadb"@,
        "bin"@,
        db_exe(host.platform, name@),
    ]);
    Ok(r)
}

/// Path to the `mysqld` server binary.
pub fn mysqld_bin(host: &Host) -> (r: Result<PowPath, PowError>)
    ensures
        path_result(r) == under_pow(
            home_of(*host),
            seq!["db"@, "mariadb"@, "bin"@, db_exe(host.platform, "mysqld"@)],
        ),
{
    db_bin(host, "mysqld")
}

/// Path to the `mysqldump` client (used by `pow db backup`).
pub fn mysqldump_bin(host: &Host) -> (r: Result<PowPath, PowError>)
    ensures
        path_result(r) == under_pow(
            home_of(*host),
            seq!["db"@, "mariadb"@, "bin"@, db_exe(host.platform, "mysqldump"@)],
        ),
{
    db_bin(host, "mysqldump")
}

/// Path to the `mysql` client (used by `pow db restore`).
pub fn mysql_client_bin(host: &Host) -> (r: Result<PowPath, PowError>)
    ensures
        path_result(r) == under_pow(
            home_of(*host),
            seq!["db"@, "mariadb"@, "bin"@, db_exe(host.platform, "mysql"@)],
        ),
{
    db_bin(host, "mysql")
}

/// `~/.pow/data/mysql`, the MariaDB data directory.
pub fn mysql_data_dir(host: &Host) -> (r: Result<PowPath, PowError>)
    ensures
        path_result(r) == under_pow(home_of(*host), seq!["data"@, "mysql"@]),
{
    pow_path2(host, "data", "mysql")
}

/// `~/.pow/backups`, where `pow db backup` writes by default.
pub fn backups_dir(host: &Host) -> (r: Result<PowPath, PowError>)
    ensures
        path_result(r) == under_pow(home_of(*host), seq!["backups"@]),
{
    pow_path1(host, "backups")
}

/// `~/.pow/deps`, vendored build dependencies.
pub fn deps_dir(host: &Host) -> (r: Result<PowPath, PowError>)
    ensures
        path_result(r) == under_pow(home_of(*host), seq!["deps"@]),
{
    pow_path1(host, "deps")
}

/// Pid file of the running PHP server.
pub fn php_pid_file(host: &Host) -> (r: Result<PowPath, PowError>)
    ensures
        path_result(r) == under_pow(home_of(*host), seq!["php.pid"@]),
{
    pow_path1(host, "php.pid")
}

/// Pid file of the running MariaDB server.
pub fn mysql_pid_file(host: &Host) -> (r: Result<PowPath, PowError>)
    ensures
        path_result(r) == under_pow(home_of(*host), seq!["mysql.pid"@]),
{
    pow_path1(host, "mysql.pid")
}

} // verus!
