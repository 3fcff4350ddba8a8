//! Database control: which server to start or stop, switching the active
//! driver, and where backups go and how they are taken and restored.
use vstd::prelude::*;
use vstd::string::*;

use crate::config::{Config, Database, PowPath, PowPathView, backups_dir, home_of, mysql_data_dir, under_pow};
use crate::db::{download_url, mariadb_url_spec};
use crate::decimal::{decimal, decimal_string, lemma_parse_decimal, parse_u32};
use crate::error::{ClientTool, PowError, PowErrorView};
use crate::host::Host;
use crate::commands::pid::{PidCheck, StopAction, check_recorded, pid_check_spec};
use crate::text::str_eq;

verus! {

/// The database engines the tool drives.
#[derive(Debug, Clone, Copy, PartialEq, Eq)]
pub enum DbDriver {
    Sqlite,
    Mysql,
}

/// The driver a configuration names, or the unknown name.
pub open spec fn driver_spec(driver: Seq<char>) -> Result<DbDriver, PowErrorView> {
    if driver == "sqlite"@ {
        Ok(DbDriver::Sqlite)
    } else if driver == "mysql"@ {
        Ok(DbDriver::Mysql)
    } else {
        Err(PowErrorView::UnknownDriver { driver })
    }
}

/// The value of a driver result.
pub open spec fn driver_result(r: Result<DbDriver, PowError>) -> Result<DbDriver, PowErrorView> {
    match r {
        Ok(d) => Ok(d),
        Err(e) => Err(e@),
    }
}

/// The active driver of a configuration.
pub fn driver_of(cfg: &Config) -> (r: Result<DbDriver, PowError>)
    ensures
        driver_result(r) == driver_spec(cfg.database.driver@),
{
    let d = cfg.database.driver.as_str();
    if str_eq(d, "sqlite") {
        Ok(DbDriver::Sqlite)
    } else if str_eq(d, "mysql") {
        Ok(DbDriver::Mysql)
    } else {
        Err(PowError::UnknownDriver { driver: String::from_str(d) })
    }
}

/// What `pow db start` does for the active driver.
#[derive(Debug, Clone, Copy, PartialEq, Eq)]
pub enum DbStart {
    /// SQLite databases are plain files served by PHP: there is no server.
    NoServer,
    /// Start the bundled MariaDB server.
    StartMariaDb,
}

/// `pow db start`: what to start for the active driver.
pub fn start(cfg: &Config) -> (r: Result<DbStart, PowError>)
    ensures
        match driver_spec(cfg.database.driver@) {
            Ok(DbDriver::Sqlite) => r == Ok::<DbStart, PowError>(DbStart::NoServer),
            Ok(DbDriver::Mysql) => r == Ok::<DbStart, PowError>(DbStart::StartMariaDb),
            Err(e) => r matches Err(x) && x@ == e,
        },
{
    match driver_of(cfg) {
        Ok(DbDriver::Sqlite) => Ok(DbStart::NoServer),
        Ok(DbDriver::Mysql) => Ok(DbStart::StartMariaDb),
        Err(e) => Err(e),
    }
}

/// `pow db stop`: stop the MariaDB server whose pid is recorded, if any.
pub fn stop(recorded: Option<u32>) -> (r: StopAction)
    ensures
        r == match recorded {
            Some(pid) => StopAction::KillAndClear(pid),
            None => StopAction::NotRunning,
        },
{
    match recorded {
        Some(pid) => StopAction::KillAndClear(pid),
        None => StopAction::NotRunning,
    }
}

/// Whether switching changed the configuration.
#[derive(Debug, Clone, Copy, PartialEq, Eq)]
pub enum SwitchOutcome {
    /// The requested setting was already active; nothing changed.
    AlreadyActive,
    /// The setting was changed; the configuration must be saved.
    Switched,
}

/// How a driver switch relates the configuration before and after it.
pub open spec fn driver_switch(before: Config, driver: Seq<char>, after: Config, r: SwitchOutcome) -> bool {
    if before.database.driver@ == driver {
        r == SwitchOutcome::AlreadyActive && after == before
    } else {
        &&& r == SwitchOutcome::Switched
        &&& after.database.driver@ == driver
        &&& after.port == before.port
        &&& after.root == before.root
        &&& after.php_version == before.php_version
        &&& after.database.mysql_port == before.database.mysql_port
        &&& after.database.mysql_user == before.database.mysql_user
        &&& after.database.mysql_pass == before.database.mysql_pass
        &&& after.database.sqlite_path == before.database.sqlite_path
    }
}

/// Makes `driver` the active database driver.
pub fn switch_driver(cfg: &mut Config, driver: &str) -> (r: SwitchOutcome)
    ensures
        driver_switch(*old(cfg), driver@, *final(cfg), r),
{
    if str_eq(cfg.database.driver.as_str(), driver) {
        return SwitchOutcome::AlreadyActive;
    }
    cfg.database.driver = String::from_str(driver);
    SwitchOutcome::Switched
}

/// `pow db sqlite`: switch the active driver to SQLite.
pub fn use_sqlite(cfg: &mut Config) -> (r: SwitchOutcome)
    ensures
        driver_switch(*old(cfg), "sqlite"@, *final(cfg), r),
{
    switch_driver(cfg, "sqlite")
}

/// `pow db mysql`: switch the active driver to MariaDB.
pub fn use_mysql(cfg: &mut Config) -> (r: SwitchOutcome)
    ensures
        driver_switch(*old(cfg), "mysql"@, *final(cfg), r),
{
    switch_driver(cfg, "mysql")
}

/// Switching to a driver makes it active, and switching to it again changes
/// nothing.
pub proof fn lemma_driver_switch_idempotent(
    c0: Config,
    c1: Config,
    c2: Config,
    driver: Seq<char>,
    r1: SwitchOutcome,
    r2: SwitchOutcome,
)
    requires
        driver_switch(c0, driver, c1, r1),
        driver_switch(c1, driver, c2, r2),
    ensures
        c1.database.driver@ == driver,
        r2 == SwitchOutcome::AlreadyActive,
        c2 == c1,
{
}

/// Switching the driver away and back restores the configuration: every
/// field is as it was, the driver's name included.
pub proof fn lemma_driver_switch_round_trip(
    c0: Config,
    c1: Config,
    c2: Config,
    other: Seq<char>,
    r1: SwitchOutcome,
    r2: SwitchOutcome,
)
    requires
        driver_switch(c0, other, c1, r1),
        driver_switch(c1, c0.database.driver@, c2, r2),
    ensures
        c2.database.driver@ == c0.database.driver@,
        c2.port == c0.port,
        c2.root == c0.root,
        c2.php_version == c0.php_version,
        c2.database.mysql_port == c0.database.mysql_port,
        c2.database.mysql_user == c0.database.mysql_user,
        c2.database.mysql_pass == c0.database.mysql_pass,
        c2.database.sqlite_path == c0.database.sqlite_path,
{
}

/// The arguments that start `mysqld` on a data directory and port.
pub fn mysqld_args(data_dir: &str, port: u16) -> (r: Vec<String>)
    ensures
        r.deep_view() == seq!["--datadir="@ + data_dir@, "--port="@ + decimal(port as nat)],
{
    let mut v: Vec<String> = Vec::new();
    v.push(String::from_str("--datadir=").concat(data_dir));
    v.push(String::from_str("--port=").concat(decimal_string(port as u64).as_str()));
    assert(v.deep_view() =~= seq!["--datadir="@ + data_dir@, "--port="@ + decimal(port as nat)]);
    v
}

/// The file extension of a backup: `sql` for MariaDB dumps, `sqlite`
/// otherwise.
pub open spec fn backup_ext(driver: Seq<char>) -> Seq<char> {
    if driver == "mysql"@ {
        "sql"@
    } else {
        "sqlite"@
    }
}

/// The default backup file name, `<driver>-<timestamp>.<ext>`.
pub open spec fn backup_file_name_spec(driver: Seq<char>, timestamp: u64) -> Seq<char> {
    driver + "-"@ + decimal(timestamp as nat) + "."@ + backup_ext(driver)
}

/// Where a backup is written.
#[derive(Debug)]
pub enum BackupDest {
    /// The file the user named.
    Given(String),
    /// A file in the backups directory, which must be created first.
    Default { dir: PowPath, file: PowPath },
}

/// The mathematical value of a [`BackupDest`].
pub enum BackupDestView {
    Given(Seq<char>),
    Default { dir: PowPathView, file: PowPathView },
}

impl View for BackupDest {
    type V = BackupDestView;

    open spec fn view(&self) -> BackupDestView {
        match self {
            BackupDest::Given(p) => BackupDestView::Given(p@),
            BackupDest::Default { dir, file } => BackupDestView::Default { dir: dir@, file: file@ },
        }
    }
}

/// The default backup file name.
pub fn backup_file_name(driver: &str, timestamp: u64) -> (r: String)
    ensures
        r@ == backup_file_name_spec(driver@, timestamp),
{
    let ext = if str_eq(driver, "mysql") {
        "sql"
    } else {
        "sqlite"
    };
    String::from_str(driver).concat("-").concat(decimal_string(timestamp).as_str()).concat(
        ".",
    ).concat(ext)
}

/// The connection arguments shared by the `mysql` and `mysqldump` clients;
/// the password is glued to `-p` and left out when empty.
pub open spec fn mysql_args_spec(db: Database) -> Seq<Seq<char>> {
    let base = seq![
        "-h"@,
        "127.0.0.1"@,
        "-P"@,
        decimal(db.mysql_port as nat),
        "-u"@,
        db.mysql_user@,
    ];
    if db.mysql_pass@.len() == 0 {
        base
    } else {
        base.push("-p"@ + db.mysql_pass@)
    }
}

/// The arguments of a `mysql`/`mysqldump` invocation with the shared
/// connection flags.
pub fn mysql_cmd(db: &Database) -> (r: Vec<String>)
    ensures
        r.deep_view() == mysql_args_spec(*db),
{
    let mut v: Vec<String> = Vec::new();
    v.push(String::from_str("-h"));
    v.push(String::from_str("127.0.0.1"));
    v.push(String::from_str("-P"));
    v.push(decimal_string(db.mysql_port as u64));
    v.push(String::from_str("-u"));
    v.push(db.mysql_user.clone());
    if db.mysql_pass.unicode_len() > 0 {
        v.push(String::from_str("-p").concat(db.mysql_pass.as_str()));
    }
    assert(v.deep_view() =~= mysql_args_spec(*db));
    v
}

/// The arguments of `mysqldump` for a backup: the connection flags, then
/// `--all-databases`.
pub open spec fn dump_args_spec(db: Database) -> Seq<Seq<char>> {
    mysql_args_spec(db).push("--all-databases"@)
}

/// The arguments of `mysqldump` for a backup.
pub fn dump_args(db: &Database) -> (r: Vec<String>)
    ensures
        r.deep_view() == dump_args_spec(*db),
{
    let mut v = mysql_cmd(db);
    v.push(String::from_str("--all-databases"));
    assert(v.deep_view() =~= dump_args_spec(*db));
    v
}

/// How a backup is taken.
#[derive(Debug)]
pub enum BackupStep {
    /// Copy the SQLite database file `from` to the destination.
    CopySqlite { from: String },
    /// Run `mysqldump` with `args`, writing its output to the destination.
    DumpMysql { args: Vec<String> },
}

/// The mathematical value of a [`BackupStep`].
pub enum BackupStepView {
    CopySqlite { from: Seq<char> },
    DumpMysql { args: Seq<Seq<char>> },
}

impl View for BackupStep {
    type V = BackupStepView;

    open spec fn view(&self) -> BackupStepView {
        match self {
            BackupStep::CopySqlite { from } => BackupStepView::CopySqlite { from: from@ },
            BackupStep::DumpMysql { args } => BackupStepView::DumpMysql { args: args.deep_view() },
        }
    }
}

/// What `pow db backup` does: where the backup goes, and how it is taken or
/// why it is refused. The destination is settled first (its directory is
/// created even when the backup is then refused).
#[derive(Debug)]
pub struct BackupPlan {
    pub dest: BackupDest,
    pub step: Result<BackupStep, PowError>,
}

/// The value of a backup-step result.
pub open spec fn step_result(r: Result<BackupStep, PowError>) -> Result<BackupStepView, PowErrorView> {
    match r {
        Ok(s) => Ok(s@),
        Err(e) => Err(e@),
    }
}

/// How the active database is backed up: a copy of the SQLite file, which
/// must exist (`sqlite_exists`), or a dump of every MariaDB database.
pub open spec fn backup_step_spec(cfg: Config, sqlite_exists: bool) -> Result<
    BackupStepView,
    PowErrorView,
> {
    match driver_spec(cfg.database.driver@) {
        Ok(DbDriver::Sqlite) => if sqlite_exists {
            Ok(BackupStepView::CopySqlite { from: cfg.database.sqlite_path@ })
        } else {
            Err(PowErrorView::SqliteNotFound { path: cfg.database.sqlite_path@ })
        },
        Ok(DbDriver::Mysql) => Ok(BackupStepView::DumpMysql { args: dump_args_spec(cfg.database) }),
        Err(e) => Err(e),
    }
}

/// Where the backup goes: the file the user named, else
/// `~/.pow/backups/<driver>-<timestamp>.<ext>`.
pub open spec fn backup_dest_spec(cfg: Config, host: Host, out: Option<Seq<char>>, timestamp: u64) -> Result<
    BackupDestView,
    PowErrorView,
> {
    match out {
        Some(p) => Ok(BackupDestView::Given(p)),
        None => match under_pow(home_of(host), seq!["backups"@]) {
            Err(e) => Err(e),
            Ok(dir) => Ok(
                BackupDestView::Default {
                    dir,
                    file: PowPathView {
                        root: dir.root,
                        segments: dir.segments.push(
                            backup_file_name_spec(cfg.database.driver@, timestamp),
                        ),
                    },
                },
            ),
        },
    }
}

/// The value of an optional string argument.
pub open spec fn opt_arg(s: Option<&str>) -> Option<Seq<char>> {
    match s {
        Some(x) => Some(x@),
        None => None,
    }
}

/// `pow db backup [--out FILE]`: where the backup of the active database
/// goes and how it is taken; `sqlite_exists` tells whether the configured
/// SQLite database file exists.
pub fn backup(cfg: &Config, host: &Host, out: Option<&str>, timestamp: u64, sqlite_exists: bool) -> (r:
    Result<BackupPlan, PowError>)
    ensures
        match backup_dest_spec(*cfg, *host, opt_arg(out), timestamp) {
            Err(e) => r matches Err(x) && x@ == e,
            Ok(d) => r matches Ok(plan) && plan.dest@ == d && step_result(plan.step)
                == backup_step_spec(*cfg, sqlite_exists),
        },
{
    let dest = match out {
        Some(p) => BackupDest::Given(String::from_str(p)),
        None => {
            let dir = backups_dir(host)?;
            let name = backup_file_name(cfg.database.driver.as_str(), timestamp);
            let file = dir.join(name.as_str());
            BackupDest::Default { dir, file }
        },
    };
    let step = match driver_of(cfg) {
        Ok(DbDriver::Sqlite) => if sqlite_exists {
            Ok(BackupStep::CopySqlite { from: cfg.database.sqlite_path.clone() })
        } else {
            Err(PowError::SqliteNotFound { path: cfg.database.sqlite_path.clone() })
        },
        Ok(DbDriver::Mysql) => Ok(BackupStep::DumpMysql { args: dump_args(&cfg.database) }),
        Err(e) => Err(e),
    };
    Ok(BackupPlan { dest, step })
}

/// How a backup is restored.
#[derive(Debug)]
pub enum RestoreStep {
    /// Copy the backup over the SQLite database file `to`; `overwrite` tells
    /// that a database is already there (the user is warned).
    CopySqlite { to: String, overwrite: bool },
    /// Feed the backup to the `mysql` client run with `args`.
    LoadMysql { args: Vec<String> },
}

/// The mathematical value of a [`RestoreStep`].
pub enum RestoreStepView {
    CopySqlite { to: Seq<char>, overwrite: bool },
    LoadMysql { args: Seq<Seq<char>> },
}

impl View for RestoreStep {
    type V = RestoreStepView;

    open spec fn view(&self) -> RestoreStepView {
        match self {
            RestoreStep::CopySqlite { to, overwrite } => RestoreStepView::CopySqlite {
                to: to@,
                overwrite: *overwrite,
            },
            RestoreStep::LoadMysql { args } => RestoreStepView::LoadMysql { args: args.deep_view() },
        }
    }
}

/// The value of a restore-step result.
pub open spec fn restore_result(r: Result<RestoreStep, PowError>) -> Result<
    RestoreStepView,
    PowErrorView,
> {
    match r {
        Ok(s) => Ok(s@),
        Err(e) => Err(e@),
    }
}

/// How `pow db restore FILE` restores: the backup file must exist
/// (`exists`); then it is copied over the SQLite database (`sqlite_exists`
/// tells whether one is there) or loaded into MariaDB.
pub open spec fn restore_spec(cfg: Config, file: Seq<char>, exists: bool, sqlite_exists: bool) -> Result<
    RestoreStepView,
    PowErrorView,
> {
    if !exists {
        Err(PowErrorView::BackupNotFound { file })
    } else {
        match driver_spec(cfg.database.driver@) {
            Ok(DbDriver::Sqlite) => Ok(
                RestoreStepView::CopySqlite {
                    to: cfg.database.sqlite_path@,
                    overwrite: sqlite_exists,
                },
            ),
            Ok(DbDriver::Mysql) => Ok(
                RestoreStepView::LoadMysql { args: mysql_args_spec(cfg.database) },
            ),
            Err(e) => Err(e),
        }
    }
}

/// `pow db restore FILE`: how the active database is restored from the
/// backup file, which must exist (`exists`, as the caller found it);
/// `sqlite_exists` tells whether the configured SQLite file exists.
pub fn restore(cfg: &Config, file: &str, exists: bool, sqlite_exists: bool) -> (r: Result<
    RestoreStep,
    PowError,
>)
    ensures
        restore_result(r) == restore_spec(*cfg, file@, exists, sqlite_exists),
{
    if !exists {
        return Err(PowError::BackupNotFound { file: String::from_str(file) });
    }
    match driver_of(cfg)? {
        DbDriver::Sqlite => Ok(
            RestoreStep::CopySqlite { to: cfg.database.sqlite_path.clone(), overwrite: sqlite_exists },
        ),
        DbDriver::Mysql => Ok(RestoreStep::LoadMysql { args: mysql_cmd(&cfg.database) }),
    }
}

/// `args` connect a MariaDB client to the local server as the configured
/// user: `-h 127.0.0.1 -P <port> -u <user>`, where the port argument reads
/// back as the configured port, followed by `-p<password>` exactly when a
/// password is configured.
pub open spec fn connects_as_configured(args: Seq<Seq<char>>, db: Database) -> bool {
    &&& args.len() >= 6
    &&& args[0] == "-h"@
    &&& args[1] == "127.0.0.1"@
    &&& args[2] == "-P"@
    &&& parse_u32(args[3]) == Some(db.mysql_port as u32)
    &&& args[4] == "-u"@
    &&& args[5] == db.mysql_user@
    &&& (args.len() == 6 <==> db.mysql_pass@.len() == 0)
    &&& db.mysql_pass@.len() != 0 ==> args.len() == 7 && args[6] == "-p"@ + db.mysql_pass@
}

/// With the MariaDB driver active, a restore of an existing backup feeds it
/// to the `mysql` client connected as the configured user, and a backup is a
/// `mysqldump --all-databases` connected the same way, for every
/// configuration.
pub proof fn lemma_mysql_clients_connect_as_configured(cfg: Config, file: Seq<char>, sqlite_exists: bool)
    requires
        cfg.database.driver@ == "mysql"@,
    ensures
        restore_spec(cfg, file, true, sqlite_exists) matches Ok(RestoreStepView::LoadMysql { args })
            && connects_as_configured(args, cfg.database),
        backup_step_spec(cfg, sqlite_exists) matches Ok(BackupStepView::DumpMysql { args })
            && connects_as_configured(args.drop_last(), cfg.database) && args.last()
            == "--all-databases"@,
{
    reveal_strlit("mysql");
    reveal_strlit("sqlite");
    assert("mysql"@[0] != "sqlite"@[0]);
    lemma_parse_decimal(cfg.database.mysql_port as u32);
    let args = mysql_args_spec(cfg.database);
    assert(connects_as_configured(args, cfg.database));
    assert(dump_args_spec(cfg.database).drop_last() =~= args);
}

/// A backup or restore through MariaDB goes on only when its client program
/// is installed (`found`); `path` displays where it was looked for.
pub fn check_client(tool: ClientTool, found: bool, path: &str) -> (r: Result<(), PowError>)
    ensures
        found ==> r is Ok,
        !found ==> (r matches Err(e) && e@ == (PowErrorView::ClientMissing { tool, path: path@ })),
{
    if found {
        Ok(())
    } else {
        Err(PowError::ClientMissing { tool, path: String::from_str(path) })
    }
}

/// After MariaDB was downloaded, starting goes on only when `mysqld` is now
/// there (`found`); `path` and `dir` display the binary and the directory
/// the archive was extracted into.
pub fn check_mysqld(found: bool, path: &str, dir: &str) -> (r: Result<(), PowError>)
    ensures
        found ==> r is Ok,
        !found ==> (r matches Err(e) && e@ == (PowErrorView::MysqldMissing {
            path: path@,
            dir: dir@,
        })),
{
    if found {
        Ok(())
    } else {
        Err(PowError::MysqldMissing { path: String::from_str(path), dir: String::from_str(dir) })
    }
}

/// What starting MariaDB does.
#[derive(Debug)]
pub enum MysqlStart {
    /// The recorded server is alive: refuse to start twice.
    AlreadyRunning(u32),
    /// Remove the stale pid file if any; download MariaDB from `download`
    /// when `mysqld` is missing; then create `data_dir` and launch `mysqld`
    /// on it.
    Proceed { clear_stale: Option<u32>, download: Option<String>, data_dir: PowPath },
    /// Remove the stale pid file if any, then fail.
    Fail { clear_stale: Option<u32>, error: PowError },
}

/// The stale pid that a start removes first.
pub open spec fn stale_pid(check: PidCheck) -> Option<u32> {
    match check {
        PidCheck::Stale(p) => Some(p),
        _ => None,
    }
}

/// How starting MariaDB decides, given the recorded pid, whether that
/// process is alive, and whether `mysqld` is installed.
pub open spec fn start_mysql_spec(
    host: Host,
    recorded: Option<u32>,
    alive: bool,
    mysqld_exists: bool,
    plan: MysqlStart,
) -> bool {
    let check = pid_check_spec(recorded, alive);
    let url = mariadb_url_spec(host.platform.os@, host.platform.arch@);
    let data = under_pow(home_of(host), seq!["data"@, "mysql"@]);
    match check {
        PidCheck::Running(p) => plan == MysqlStart::AlreadyRunning(p),
        _ => if !mysqld_exists && url is Err {
            plan matches MysqlStart::Fail { clear_stale, error } && clear_stale == stale_pid(check)
                && Err::<Seq<char>, PowErrorView>(error@) == url
        } else if data is Err {
            plan matches MysqlStart::Fail { clear_stale, error } && clear_stale == stale_pid(check)
                && Err::<PowPathView, PowErrorView>(error@) == data
        } else {
            plan matches MysqlStart::Proceed { clear_stale, download, data_dir } && clear_stale
                == stale_pid(check) && Ok::<PowPathView, PowErrorView>(data_dir@) == data && (
            if mysqld_exists {
                download is None
            } else {
                download matches Some(u) && Ok::<Seq<char>, PowErrorView>(u@) == url
            })
        },
    }
}

/// Starting the bundled MariaDB server: unless one is running, fetch it if
/// `mysqld` is missing, then launch it on the data directory.
pub fn start_mysql(host: &Host, recorded: Option<u32>, alive: bool, mysqld_exists: bool) -> (r:
    MysqlStart)
    ensures
        start_mysql_spec(*host, recorded, alive, mysqld_exists, r),
        recorded is Some && alive ==> r is AlreadyRunning,
{
    let check = check_recorded(recorded, alive);
    let clear_stale = match check {
        PidCheck::Running(p) => {
            return MysqlStart::AlreadyRunning(p);
        },
        PidCheck::Stale(p) => Some(p),
        PidCheck::Absent => None,
    };
    let download = if mysqld_exists {
        None
    } else {
        match download_url(&host.platform) {
            Ok(u) => Some(u),
            Err(error) => {
                return MysqlStart::Fail { clear_stale, error };
            },
        }
    };
    match mysql_data_dir(host) {
        Ok(data_dir) => MysqlStart::Proceed { clear_stale, download, data_dir },
        Err(error) => MysqlStart::Fail { clear_stale, error },
    }
}

} // verus!
