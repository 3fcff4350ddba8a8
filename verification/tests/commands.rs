use pow::commands::db::{
    backup, backup_file_name, check_client, check_mysqld, driver_of, dump_args, mysql_cmd,
    mysqld_args, restore, start, start_mysql, stop, switch_driver, use_mysql, use_sqlite,
    BackupDest, BackupStep, DbDriver, DbStart, MysqlStart, RestoreStep, SwitchOutcome,
};
use pow::commands::install;
use pow::error::{ClientTool, SourceTree, VendoredLib};
use pow::commands::install::{
    configure_args, ensure_libxml2, ensure_openssl, libxml2_configure_args, libxml2_pkgconfig,
    libxml2_url, libxml_too_new, openssl_config_args, openssl_pkgconfig, openssl_url,
    rpath_ldflags, run as install_run, source_dir, InstallPlan, Vendor, LIBXML2_VERSION,
    OPENSSL_VERSION,
};
use pow::commands::list::{lex_le_str, run as list_run, ListEntry};
use pow::commands::pid::StopAction;
use pow::commands::server::{self, RestartStep, StartPlan};
use pow::commands::shell;
use pow::commands::switch;
use pow::config::{Config, PowPath};
use pow::error::PowError;
use pow::host::{Host, Platform};
use pow::php::Install;

fn host(os: &str, arch: &str) -> Host {
    Host {
        home: Some("/home/ada".to_string()),
        platform: Platform { os: os.to_string(), arch: arch.to_string() },
    }
}

fn parts(p: &PowPath) -> Vec<&str> {
    p.segments.iter().map(|s| s.as_str()).collect()
}

fn strings(v: &[&str]) -> Vec<String> {
    v.iter().map(|s| s.to_string()).collect()
}

#[test]
fn driver_dispatch() {
    let mut c = Config::default();
    assert_eq!(driver_of(&c), Ok(DbDriver::Sqlite));
    assert_eq!(start(&c), Ok(DbStart::NoServer));
    c.database.driver = "mysql".to_string();
    assert_eq!(driver_of(&c), Ok(DbDriver::Mysql));
    assert_eq!(start(&c), Ok(DbStart::StartMariaDb));
    c.database.driver = "postgres".to_string();
    assert_eq!(start(&c), Err(PowError::UnknownDriver { driver: "postgres".to_string() }));
}

#[test]
fn stop_kills_only_a_recorded_server() {
    assert_eq!(stop(Some(77)), StopAction::KillAndClear(77));
    assert_eq!(stop(None), StopAction::NotRunning);
    assert_eq!(server::stop(Some(8)), StopAction::KillAndClear(8));
    assert_eq!(server::stop(None), StopAction::NotRunning);
}

#[test]
fn driver_switch_is_idempotent() {
    let mut c = Config::default();
    assert_eq!(use_sqlite(&mut c), SwitchOutcome::AlreadyActive);
    assert_eq!(use_mysql(&mut c), SwitchOutcome::Switched);
    assert_eq!(c.database.driver, "mysql");
    assert_eq!(c.database.mysql_port, 3306);
    assert_eq!(c.port, 8080);
    assert_eq!(use_mysql(&mut c), SwitchOutcome::AlreadyActive);
    assert_eq!(c.database.driver, "mysql");
    assert_eq!(switch_driver(&mut c, "sqlite"), SwitchOutcome::Switched);
    assert_eq!(c.database.driver, "sqlite");
}

#[test]
fn backup_destinations() {
    let h = host("linux", "x86_64");
    let mut c = Config::default();
    assert_eq!(backup_file_name("sqlite", 1700000000), "sqlite-1700000000.sqlite");
    assert_eq!(backup_file_name("mysql", 5), "mysql-5.sql");
    match backup(&c, &h, None, 1700000000, true).unwrap().dest {
        BackupDest::Default { dir, file } => {
            assert_eq!(parts(&dir), vec![".pow", "backups"]);
            assert_eq!(parts(&file), vec![".pow", "backups", "sqlite-1700000000.sqlite"]);
            assert_eq!(file.root, "/home/ada");
        }
        other => panic!("unexpected {other:?}"),
    }
    c.database.driver = "mysql".to_string();
    match backup(&c, &h, None, 12, false).unwrap().dest {
        BackupDest::Default { file, .. } => {
            assert_eq!(parts(&file), vec![".pow", "backups", "mysql-12.sql"]);
        }
        other => panic!("unexpected {other:?}"),
    }
    match backup(&c, &h, Some("out.sql"), 12, false).unwrap().dest {
        BackupDest::Given(p) => assert_eq!(p, "out.sql"),
        other => panic!("unexpected {other:?}"),
    }
    let homeless = Host { home: None, platform: h.platform.clone() };
    assert_eq!(backup(&c, &homeless, None, 1, true).unwrap_err(), PowError::NoHomeDirectory);
    assert!(backup(&c, &homeless, Some("x"), 1, true).is_ok());
}

#[test]
fn backup_steps() {
    let h = host("linux", "x86_64");
    let mut c = Config::default();
    match backup(&c, &h, Some("b.sqlite"), 1, true).unwrap().step {
        Ok(BackupStep::CopySqlite { from }) => assert_eq!(from, "./database/database.sqlite"),
        other => panic!("unexpected {other:?}"),
    }
    // A missing SQLite database refuses the backup: nothing is copied.
    assert_eq!(
        backup(&c, &h, Some("b.sqlite"), 1, false).unwrap().step.unwrap_err(),
        PowError::SqliteNotFound { path: "./database/database.sqlite".to_string() }
    );
    c.database.driver = "mysql".to_string();
    match backup(&c, &h, None, 1, false).unwrap().step {
        Ok(BackupStep::DumpMysql { args }) => assert_eq!(
            args,
            strings(&["-h", "127.0.0.1", "-P", "3306", "-u", "root", "--all-databases"])
        ),
        other => panic!("unexpected {other:?}"),
    }
    assert_eq!(
        dump_args(&c.database),
        strings(&["-h", "127.0.0.1", "-P", "3306", "-u", "root", "--all-databases"])
    );
    c.database.driver = "oracle".to_string();
    let plan = backup(&c, &h, None, 1, true).unwrap();
    assert!(matches!(plan.dest, BackupDest::Default { .. }));
    assert_eq!(plan.step.unwrap_err(), PowError::UnknownDriver { driver: "oracle".to_string() });
}

#[test]
fn restore_needs_the_backup_file() {
    let mut c = Config::default();
    match restore(&c, "b.sqlite", true, true).unwrap() {
        RestoreStep::CopySqlite { to, overwrite } => {
            assert_eq!(to, "./database/database.sqlite");
            assert!(overwrite);
        }
        other => panic!("unexpected {other:?}"),
    }
    assert!(matches!(
        restore(&c, "b.sqlite", true, false),
        Ok(RestoreStep::CopySqlite { overwrite: false, .. })
    ));
    assert_eq!(
        restore(&c, "gone.sql", false, true).unwrap_err(),
        PowError::BackupNotFound { file: "gone.sql".to_string() }
    );
    c.database.driver = "mysql".to_string();
    match restore(&c, "b.sql", true, false).unwrap() {
        RestoreStep::LoadMysql { args } => {
            assert_eq!(args, strings(&["-h", "127.0.0.1", "-P", "3306", "-u", "root"]))
        }
        other => panic!("unexpected {other:?}"),
    }
}

#[test]
fn checks_after_downloads_and_builds() {
    assert_eq!(install::finish(true, "/p/php"), Ok(()));
    assert_eq!(
        install::finish(false, "/p/php"),
        Err(PowError::NoBinaryAfterInstall { path: "/p/php".to_string() })
    );
    assert_eq!(install::source_marker(SourceTree::Php), "configure");
    assert_eq!(install::source_marker(SourceTree::OpenSsl), "config");
    assert_eq!(install::source_marker(SourceTree::Libxml2), "configure");
    assert_eq!(install::check_source(SourceTree::Php, true, "/s"), Ok(()));
    assert_eq!(
        install::check_source(SourceTree::OpenSsl, false, "/s"),
        Err(PowError::SourceNotExtracted { tree: SourceTree::OpenSsl, path: "/s".to_string() })
    );
    assert_eq!(install::check_pkgconfig(VendoredLib::Libxml2, true, "/pc"), Ok(()));
    assert_eq!(
        install::check_pkgconfig(VendoredLib::OpenSsl, false, "/pc"),
        Err(PowError::PkgConfigMissing { library: VendoredLib::OpenSsl, path: "/pc".to_string() })
    );
    assert_eq!(check_mysqld(true, "/m", "/d"), Ok(()));
    assert_eq!(
        check_mysqld(false, "/m", "/d"),
        Err(PowError::MysqldMissing { path: "/m".to_string(), dir: "/d".to_string() })
    );
    assert_eq!(check_client(ClientTool::Mysql, true, "/c"), Ok(()));
    assert_eq!(
        check_client(ClientTool::Mysqldump, false, "/c"),
        Err(PowError::ClientMissing { tool: ClientTool::Mysqldump, path: "/c".to_string() })
    );
    assert_eq!(
        install::pkg_config_search_path(&strings(&["/v1", "/v2"]), &strings(&["/e1"])),
        strings(&["/v1", "/v2", "/e1"])
    );
    assert!(install::pkg_config_search_path(&Vec::new(), &Vec::new()).is_empty());
}

#[test]
fn mysql_client_arguments() {
    let mut c = Config::default();
    assert_eq!(mysql_cmd(&c.database), strings(&["-h", "127.0.0.1", "-P", "3306", "-u", "root"]));
    c.database.mysql_pass = "s3cret".to_string();
    c.database.mysql_port = 3307;
    assert_eq!(
        mysql_cmd(&c.database),
        strings(&["-h", "127.0.0.1", "-P", "3307", "-u", "root", "-ps3cret"])
    );
    assert_eq!(mysqld_args("/d", 3306), strings(&["--datadir=/d", "--port=3306"]));
}

#[test]
fn mariadb_start_decisions() {
    let h = host("linux", "x86_64");
    assert!(matches!(start_mysql(&h, Some(9), true, true), MysqlStart::AlreadyRunning(9)));
    match start_mysql(&h, Some(9), false, false) {
        MysqlStart::Proceed { clear_stale, download, data_dir } => {
            assert_eq!(clear_stale, Some(9));
            assert_eq!(download.unwrap(), "https://archive.mariadb.org/mariadb-11.4.2/bintar-linux-systemd-x86_64/mariadb-11.4.2-linux-systemd-x86_64.tar.gz");
            assert_eq!(parts(&data_dir), vec![".pow", "data", "mysql"]);
        }
        other => panic!("unexpected {other:?}"),
    }
    match start_mysql(&h, None, false, true) {
        MysqlStart::Proceed { clear_stale, download, .. } => {
            assert_eq!(clear_stale, None);
            assert!(download.is_none());
        }
        other => panic!("unexpected {other:?}"),
    }
    let arm = host("linux", "aarch64");
    match start_mysql(&arm, None, false, false) {
        MysqlStart::Fail { error, .. } => assert_eq!(
            error,
            PowError::NoMariaDbBuild { os: "linux".to_string(), arch: "aarch64".to_string() }
        ),
        other => panic!("unexpected {other:?}"),
    }
}

#[test]
fn switching_php_versions() {
    let mut c = Config::default();
    assert_eq!(switch::run(&mut c, "php@8.3", true), Ok(SwitchOutcome::Switched));
    assert_eq!(c.php_version, "8.3");
    assert_eq!(switch::run(&mut c, "php@8.3", true), Ok(SwitchOutcome::AlreadyActive));
    assert_eq!(c.php_version, "8.3");
    assert_eq!(
        switch::run(&mut c, "7.4", false),
        Err(PowError::NotInstalled { version: "7.4".to_string() })
    );
    assert_eq!(c.php_version, "8.3");
    assert_eq!(
        switch::run(&mut c, "php@nine", true),
        Err(PowError::UnparsableVersion { input: "php@nine".to_string() })
    );
    assert_eq!(c.php_version, "8.3");
}

#[test]
fn php_server_start_decisions() {
    let c = Config::default();
    assert!(matches!(server::start(&c, Some(3), true, true), StartPlan::AlreadyRunning(3)));
    assert!(matches!(server::start(&c, Some(3), true, false), StartPlan::AlreadyRunning(3)));
    match server::start(&c, Some(3), false, true) {
        StartPlan::Launch { clear_stale, args } => {
            assert_eq!(clear_stale, Some(3));
            assert_eq!(args, strings(&["-S", "127.0.0.1:8080", "-t", "./htdocs"]));
        }
        other => panic!("unexpected {other:?}"),
    }
    match server::start(&c, None, false, false) {
        StartPlan::Refuse { clear_stale, error } => {
            assert_eq!(clear_stale, None);
            assert_eq!(error, PowError::NotInstalled { version: "8.2".to_string() });
        }
        other => panic!("unexpected {other:?}"),
    }
    assert_eq!(server::restart(), vec![RestartStep::StopIgnoringFailure, RestartStep::Start]);
}

#[test]
fn shell_version_selection() {
    let c = Config::default();
    assert_eq!(shell::version_for(&c, None), Ok("8.2".to_string()));
    assert_eq!(shell::version_for(&c, Some("php@7.4")), Ok("7.4".to_string()));
    assert_eq!(shell::run(&c, Some("8.3"), true), Ok("8.3".to_string()));
    assert_eq!(
        shell::run(&c, None, false),
        Err(PowError::NotInstalled { version: "8.2".to_string() })
    );
    assert_eq!(
        shell::run(&c, Some("1.0"), true),
        Err(PowError::UnsupportedVersion { minor: "1.0".to_string() })
    );
}

#[test]
fn install_plans() {
    let h = host("linux", "x86_64");
    match install_run(&h, "php@7.4", false).unwrap() {
        InstallPlan::Fetch { version, dir, how } => {
            assert_eq!(version, "7.4");
            assert_eq!(parts(&dir), vec![".pow", "php", "7.4"]);
            assert!(matches!(how, Install::Source { .. }));
        }
        other => panic!("unexpected {other:?}"),
    }
    match install_run(&h, "8.2", true).unwrap() {
        InstallPlan::AlreadyInstalled { version } => assert_eq!(version, "8.2"),
        other => panic!("unexpected {other:?}"),
    }
    let homeless = Host { home: None, platform: h.platform.clone() };
    assert_eq!(install_run(&homeless, "8.2", false).unwrap_err(), PowError::NoHomeDirectory);
    assert_eq!(
        install_run(&host("plan9", "x86_64"), "8.2", false).unwrap_err(),
        PowError::UnsupportedOs { os: "plan9".to_string() }
    );
}

#[test]
fn vendored_library_sources() {
    assert_eq!(OPENSSL_VERSION, "1.1.1w");
    assert_eq!(LIBXML2_VERSION, "2.9.14");
    assert_eq!(
        openssl_url(),
        "https://github.com/openssl/openssl/releases/download/OpenSSL_1_1_1w/openssl-1.1.1w.tar.gz"
    );
    assert_eq!(
        libxml2_url(),
        "https://download.gnome.org/sources/libxml2/2.9/libxml2-2.9.14.tar.xz"
    );
}

#[test]
fn libxml2_age_check() {
    assert!(libxml_too_new("2.12.0"));
    assert!(libxml_too_new("2.12"));
    assert!(libxml_too_new("2.13.5"));
    assert!(libxml_too_new("3.0"));
    assert!(!libxml_too_new("2.11.9"));
    assert!(!libxml_too_new("2.9.14"));
    assert!(!libxml_too_new("2"));
    assert!(!libxml_too_new("x.y"));
    assert!(libxml_too_new("x.12") == false);
    assert!(libxml_too_new("+3.0"));
}

#[test]
fn vendoring_decisions() {
    let h = host("linux", "x86_64");
    assert!(matches!(ensure_openssl(&h, "8.2", None, false), Ok(Vendor::NotNeeded)));
    assert!(matches!(ensure_openssl(&host("windows", "x86_64"), "7.4", None, false), Ok(Vendor::NotNeeded)));
    assert!(matches!(ensure_openssl(&h, "7.4", Some("1.1.1f"), false), Ok(Vendor::NotNeeded)));
    match ensure_openssl(&h, "7.4", Some("3.0.2"), false).unwrap() {
        Vendor::Build(p) => assert_eq!(parts(&p), vec![".pow", "deps", "openssl-1.1"]),
        other => panic!("unexpected {other:?}"),
    }
    match ensure_openssl(&h, "7.4", None, true).unwrap() {
        Vendor::UseBuilt(p) => assert_eq!(parts(&p), vec![".pow", "deps", "openssl-1.1"]),
        other => panic!("unexpected {other:?}"),
    }
    assert!(matches!(ensure_libxml2(&h, "7.4", Some("2.9.13"), false), Ok(Vendor::NotNeeded)));
    match ensure_libxml2(&h, "7.4", Some("2.12.3"), false).unwrap() {
        Vendor::Build(p) => assert_eq!(parts(&p), vec![".pow", "deps", "libxml2"]),
        other => panic!("unexpected {other:?}"),
    }
    assert!(matches!(ensure_libxml2(&h, "7.4", None, true), Ok(Vendor::UseBuilt(_))));
    assert!(matches!(ensure_libxml2(&h, "8.3", Some("2.13"), false), Ok(Vendor::NotNeeded)));
}

#[test]
fn build_arguments_and_paths() {
    let args = configure_args("/p");
    assert_eq!(args.len(), 12);
    assert_eq!(args[0], "--prefix=/p");
    assert_eq!(args[11], "--enable-fileinfo");
    assert!(args.contains(&"--with-pdo-mysql=mysqlnd".to_string()));
    assert_eq!(
        openssl_config_args("/o"),
        strings(&["--prefix=/o", "--openssldir=/o", "shared", "no-tests"])
    );
    assert_eq!(
        libxml2_configure_args("/x"),
        strings(&["--prefix=/x", "--without-python", "--without-lzma", "--without-icu"])
    );
    let prefix = PowPath::from_root("/deps");
    assert_eq!(parts(&openssl_pkgconfig(&prefix)), vec!["lib", "pkgconfig", "openssl.pc"]);
    assert_eq!(parts(&libxml2_pkgconfig(&prefix)), vec!["lib", "pkgconfig", "libxml-2.0.pc"]);
    let h = host("linux", "x86_64");
    assert_eq!(parts(&source_dir(&h, "php-7.4.33").unwrap()), vec![".pow", "build", "php-7.4.33"]);
    assert_eq!(rpath_ldflags(&strings(&["/a/lib", "/b/lib"])), "-Wl,-rpath,/a/lib:/b/lib");
    assert_eq!(rpath_ldflags(&strings(&["/a/lib"])), "-Wl,-rpath,/a/lib");
}

#[test]
fn listing_is_sorted_and_marks_the_active_version() {
    let names = strings(&["8.3", "7.4", "8.10", "8.2"]);
    let entries = list_run(&names, "8.2");
    let expected = vec![
        ListEntry { version: "7.4".to_string(), active: false },
        ListEntry { version: "8.10".to_string(), active: false },
        ListEntry { version: "8.2".to_string(), active: true },
        ListEntry { version: "8.3".to_string(), active: false },
    ];
    assert_eq!(entries, expected);
    let mut by_std = names.clone();
    by_std.sort();
    let ours: Vec<String> = entries.iter().map(|e| e.version.clone()).collect();
    assert_eq!(ours, by_std);
    assert!(list_run(&Vec::new(), "8.2").is_empty());
    let dup = list_run(&strings(&["b", "a", "b", "é", "Z"]), "b");
    let versions: Vec<&str> = dup.iter().map(|e| e.version.as_str()).collect();
    assert_eq!(versions, vec!["Z", "a", "b", "b", "é"]);
    assert_eq!(dup.iter().filter(|e| e.active).count(), 2);
    assert!(lex_le_str("ab", "abc"));
    assert!(!lex_le_str("abc", "ab"));
    assert!(lex_le_str("", ""));
}

#[test]
fn listing_ignores_discovery_order() {
    let a = list_run(&strings(&["8.3", "7.4", "8.1"]), "8.1");
    let b = list_run(&strings(&["8.1", "8.3", "7.4"]), "8.1");
    let c = list_run(&strings(&["7.4", "8.1", "8.3"]), "8.1");
    assert_eq!(a, b);
    assert_eq!(b, c);
}

#[test]
fn source_build_steps() {
    let php = pow::commands::install::php_build_steps("/home/ada/.pow/php/7.4", 8);
    assert_eq!(php.len(), 3);
    assert_eq!(php[0].name, "configure");
    assert_eq!(php[0].program, "./configure");
    assert_eq!(php[0].args[0], "--prefix=/home/ada/.pow/php/7.4");
    assert_eq!(php[0].env, vec![("CFLAGS".to_string(), "-std=gnu17 -O2".to_string())]);
    assert_eq!((php[1].name.as_str(), php[1].program.as_str()), ("make", "make"));
    assert_eq!(php[1].args, strings(&["-j", "8"]));
    assert_eq!(php[2].name, "make install");
    assert_eq!(php[2].args, strings(&["install"]));
    assert!(php[1].env.is_empty() && php[2].env.is_empty());

    let ssl = pow::commands::install::openssl_build_steps("/o", 12);
    let names: Vec<&str> = ssl.iter().map(|s| s.name.as_str()).collect();
    assert_eq!(names, vec!["openssl ./config", "openssl make", "openssl make install_sw"]);
    assert_eq!(ssl[0].program, "./config");
    assert_eq!(ssl[1].args, strings(&["-j", "12"]));
    assert_eq!(ssl[2].args, strings(&["install_sw"]));

    let xml = pow::commands::install::libxml2_build_steps("/x", 1);
    let names: Vec<&str> = xml.iter().map(|s| s.name.as_str()).collect();
    assert_eq!(names, vec!["libxml2 configure", "libxml2 make", "libxml2 make install"]);
    assert_eq!(xml[0].args, strings(&["--prefix=/x", "--without-python", "--without-lzma", "--without-icu"]));
}

#[test]
fn switching_away_and_back_restores_the_config() {
    let mut c = Config::default();
    c.database.mysql_pass = "pw".to_string();
    assert_eq!(use_mysql(&mut c), SwitchOutcome::Switched);
    assert_eq!(use_sqlite(&mut c), SwitchOutcome::Switched);
    let d = Config::default();
    assert_eq!(c.database.driver, d.database.driver);
    assert_eq!(c.database.mysql_pass, "pw");
    assert_eq!(switch::run(&mut c, "8.1", true), Ok(SwitchOutcome::Switched));
    assert_eq!(switch::run(&mut c, "php@8.2", true), Ok(SwitchOutcome::Switched));
    assert_eq!(c.php_version, d.php_version);
    assert_eq!((c.port, c.root.as_str()), (d.port, d.root.as_str()));
}

#[test]
fn restart_reports_the_start() {
    let stop_failed: Result<(), PowError> = Err(PowError::NoHomeDirectory);
    assert_eq!(server::restart_result(stop_failed.clone(), Ok(())), Ok(()));
    let start_failed: Result<(), PowError> =
        Err(PowError::NotInstalled { version: "8.2".to_string() });
    assert_eq!(server::restart_result(Ok(()), start_failed.clone()), start_failed.clone());
    assert_eq!(server::restart_result(stop_failed, start_failed.clone()), start_failed);
}

#[test]
fn shell_environment() {
    let h = host("linux", "x86_64");
    let dirs = shell::path_dirs(&h, "8.3").unwrap();
    assert_eq!(dirs.len(), 2);
    assert_eq!(parts(&dirs[0]), vec![".pow", "php", "8.3"]);
    assert_eq!(parts(&dirs[1]), vec![".pow", "php", "8.3", "bin"]);
    let homeless = Host { home: None, platform: h.platform.clone() };
    assert_eq!(shell::path_dirs(&homeless, "8.3").unwrap_err(), PowError::NoHomeDirectory);

    let linux = Platform { os: "linux".to_string(), arch: "x86_64".to_string() };
    let win = Platform { os: "windows".to_string(), arch: "x86_64".to_string() };
    assert_eq!(shell::pick_shell(&linux, None, None), "/bin/sh");
    assert_eq!(shell::pick_shell(&linux, Some("C".to_string()), Some("/bin/zsh".to_string())), "/bin/zsh");
    assert_eq!(shell::pick_shell(&win, None, Some("/bin/zsh".to_string())), "cmd.exe");
    assert_eq!(shell::pick_shell(&win, Some("pwsh.exe".to_string()), None), "pwsh.exe");
}

#[test]
fn pkg_config_output_is_trimmed() {
    assert_eq!(install::modversion("3.0.2\n"), "3.0.2");
    assert_eq!(install::modversion("  2.9.14 \r\n"), "2.9.14");
    assert_eq!(install::modversion(""), "");
}
