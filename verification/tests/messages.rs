use pow::error::{ClientTool, PowError, SourceTree, VendoredLib};

#[test]
fn error_messages() {
    let s = |x: &str| x.to_string();
    assert_eq!(PowError::NoHomeDirectory.message(), "could not determine home directory");
    assert_eq!(
        PowError::UnparsableVersion { input: s("php@x") }.message(),
        "could not parse a PHP version from 'php@x'"
    );
    assert_eq!(
        PowError::UnsupportedVersion { minor: s("9.9") }.message(),
        "PHP 9.9 is not supported. Supported versions: 7.4, 8.1, 8.2, 8.3"
    );
    assert_eq!(PowError::UnknownVersion { minor: s("6.0") }.message(), "unknown PHP version 6.0");
    assert_eq!(
        PowError::UnsupportedArch { arch: s("sparc") }.message(),
        "unsupported CPU architecture: sparc"
    );
    assert_eq!(
        PowError::UnsupportedOs { os: s("plan9") }.message(),
        "unsupported operating system: plan9"
    );
    assert_eq!(
        PowError::NoMariaDbBuild { os: s("linux"), arch: s("aarch64") }.message(),
        "no MariaDB build available for linux/aarch64"
    );
    assert_eq!(
        PowError::UnknownDriver { driver: s("pg") }.message(),
        "unknown database driver 'pg'"
    );
    assert_eq!(
        PowError::NotInstalled { version: s("8.2") }.message(),
        "PHP 8.2 is not installed. Run `pow install php@8.2` first."
    );
    assert_eq!(
        PowError::BackupNotFound { file: s("b.sql") }.message(),
        "backup file not found: b.sql"
    );
    assert_eq!(
        PowError::SqliteNotFound { path: s("./db.sqlite") }.message(),
        "SQLite database not found at ./db.sqlite. Set `database.sqlite_path` in config.json."
    );
    assert_eq!(
        PowError::NoBinaryAfterInstall { path: s("/h/.pow/php/8.2/php") }.message(),
        "install finished but no PHP binary was found at /h/.pow/php/8.2/php."
    );
    assert_eq!(
        PowError::SourceNotExtracted { tree: SourceTree::Php, path: s("/b/php-7.4.33") }.message(),
        "expected source at /b/php-7.4.33 but it was not extracted as expected."
    );
    assert_eq!(
        PowError::SourceNotExtracted { tree: SourceTree::OpenSsl, path: s("/b/o") }.message(),
        "OpenSSL source not extracted at /b/o"
    );
    assert_eq!(
        PowError::SourceNotExtracted { tree: SourceTree::Libxml2, path: s("/b/x") }.message(),
        "libxml2 source not extracted at /b/x"
    );
    assert_eq!(
        PowError::PkgConfigMissing { library: VendoredLib::OpenSsl, path: s("/o.pc") }.message(),
        "OpenSSL built but no pkg-config file at /o.pc."
    );
    assert_eq!(
        PowError::PkgConfigMissing { library: VendoredLib::Libxml2, path: s("/x.pc") }.message(),
        "libxml2 built but no pkg-config file at /x.pc."
    );
    assert_eq!(
        PowError::MysqldMissing { path: s("/m"), dir: s("/d") }.message(),
        "MariaDB downloaded but `mysqld` was not found at /m. The archive layout may differ — check /d."
    );
    assert_eq!(
        PowError::ClientMissing { tool: ClientTool::Mysqldump, path: s("/b") }.message(),
        "mysqldump not found at /b. Run `pow db start` once to install MariaDB."
    );
    assert_eq!(
        PowError::ClientMissing { tool: ClientTool::Mysql, path: s("/b") }.message(),
        "mysql client not found at /b. Run `pow db start` once to install MariaDB."
    );
}
