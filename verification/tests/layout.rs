use pow::config::{
    backups_dir, config_path, db_bin, db_dir, default_sqlite_path, deps_dir, mysql_client_bin,
    mysql_data_dir, mysql_pid_file, mysqld_bin, mysqldump_bin, php_bin, php_bin_at_root, php_bin_in_bin, php_dir,
    php_pid_file, php_root, pow_home, Config, Database, PowPath,
};
use pow::error::PowError;
use pow::host::{Host, Platform};

fn host(os: &str) -> Host {
    Host {
        home: Some("/home/ada".to_string()),
        platform: Platform { os: os.to_string(), arch: "x86_64".to_string() },
    }
}

fn homeless() -> Host {
    Host { home: None, platform: Platform { os: "linux".to_string(), arch: "x86_64".to_string() } }
}

fn parts(p: &PowPath) -> Vec<&str> {
    p.segments.iter().map(|s| s.as_str()).collect()
}

fn check(p: Result<PowPath, PowError>, expected: &[&str]) {
    let p = p.unwrap();
    assert_eq!(p.root, "/home/ada");
    assert_eq!(parts(&p), expected.to_vec());
}

#[test]
fn default_config_matches_first_run() {
    let c = Config::default();
    assert_eq!(c.port, 8080);
    assert_eq!(c.root, "./htdocs");
    assert_eq!(c.php_version, "8.2");
    assert_eq!(c.database.driver, "sqlite");
    assert_eq!(c.database.mysql_port, 3306);
    assert_eq!(c.database.mysql_user, "root");
    assert_eq!(c.database.mysql_pass, "");
    assert_eq!(c.database.sqlite_path, "./database/database.sqlite");
    assert_eq!(Database::default().sqlite_path, default_sqlite_path());
}

#[test]
fn every_path_lies_under_pow_home() {
    let h = host("linux");
    check(pow_home(&h), &[".pow"]);
    check(config_path(&h), &[".pow", "config.json"]);
    check(php_root(&h), &[".pow", "php"]);
    check(php_dir(&h, "8.2"), &[".pow", "php", "8.2"]);
    check(db_dir(&h), &[".pow", "db", "mariadb"]);
    check(mysql_data_dir(&h), &[".pow", "data", "mysql"]);
    check(backups_dir(&h), &[".pow", "backups"]);
    check(deps_dir(&h), &[".pow", "deps"]);
    check(php_pid_file(&h), &[".pow", "php.pid"]);
    check(mysql_pid_file(&h), &[".pow", "mysql.pid"]);
}

#[test]
fn php_binary_prefers_the_bin_directory() {
    let h = host("linux");
    let some = |r: Result<Option<PowPath>, PowError>| r.map(|p| p.unwrap());
    // bin/php is a file: it is the binary, whatever lies at the root.
    check(some(php_bin(&h, "7.4", true, true)), &[".pow", "php", "7.4", "bin", "php"]);
    check(some(php_bin(&h, "7.4", true, false)), &[".pow", "php", "7.4", "bin", "php"]);
    // Otherwise the root entry, which the caller then tests for existence.
    check(some(php_bin(&h, "8.2", false, false)), &[".pow", "php", "8.2", "php"]);
    check(php_bin_in_bin(&h, "8.2"), &[".pow", "php", "8.2", "bin", "php"]);
    check(php_bin_at_root(&h, "8.2"), &[".pow", "php", "8.2", "php"]);
    let w = host("windows");
    check(some(php_bin(&w, "8.2", false, false)), &[".pow", "php", "8.2", "php.exe"]);
    check(some(php_bin(&w, "8.2", true, false)), &[".pow", "php", "8.2", "bin", "php.exe"]);
}

#[test]
fn a_directory_is_never_taken_for_the_php_binary() {
    // A source build leaves a `php/` directory at the version's root: when
    // `bin/php` is not a file, that directory is not returned.
    let h = host("linux");
    assert!(php_bin(&h, "7.4", false, true).unwrap().is_none());
    assert!(php_bin(&host("windows"), "8.2", false, true).unwrap().is_none());
}

#[test]
fn mariadb_binaries_carry_the_platform_extension() {
    let h = host("macos");
    check(db_bin(&h, "mysqld"), &[".pow", "db", "mariadb", "bin", "mysqld"]);
    check(mysqld_bin(&h), &[".pow", "db", "mariadb", "bin", "mysqld"]);
    check(mysqldump_bin(&h), &[".pow", "db", "mariadb", "bin", "mysqldump"]);
    check(mysql_client_bin(&h), &[".pow", "db", "mariadb", "bin", "mysql"]);
    let w = host("windows");
    check(mysqld_bin(&w), &[".pow", "db", "mariadb", "bin", "mysqld.exe"]);
    check(mysqldump_bin(&w), &[".pow", "db", "mariadb", "bin", "mysqldump.exe"]);
}

#[test]
fn missing_home_directory_is_reported() {
    let h = homeless();
    assert_eq!(pow_home(&h).unwrap_err(), PowError::NoHomeDirectory);
    assert_eq!(config_path(&h).unwrap_err(), PowError::NoHomeDirectory);
    assert_eq!(php_bin(&h, "8.2", true, true).unwrap_err(), PowError::NoHomeDirectory);
    assert_eq!(db_bin(&h, "mysql").unwrap_err(), PowError::NoHomeDirectory);
}

#[test]
fn join_appends_one_entry() {
    let p = PowPath::from_root("/srv");
    let q = p.join("a").join("b");
    assert_eq!(q.root, "/srv");
    assert_eq!(parts(&q), vec!["a", "b"]);
    assert!(p.segments.is_empty());
}
