use pow::db;
use pow::error::PowError;
use pow::host::Platform;
use pow::php::{
    download_url, parse_lowered_version, parse_version, patch_for, source_url, strategy,
    supported_versions, windows_url, Install,
};

fn platform(os: &str, arch: &str) -> Platform {
    Platform { os: os.to_string(), arch: arch.to_string() }
}

#[test]
fn parses_documented_forms() {
    assert_eq!(parse_version("php@8.2"), Ok("8.2".to_string()));
    assert_eq!(parse_version("8.2"), Ok("8.2".to_string()));
    assert_eq!(parse_version("PHP-8.2"), Ok("8.2".to_string()));
    assert_eq!(parse_version("php@7.4"), Ok("7.4".to_string()));
}

#[test]
fn reduces_patch_versions_to_minor() {
    assert_eq!(parse_version("8.2.20"), Ok("8.2".to_string()));
    assert_eq!(parse_version("  php@8.3.31\n"), Ok("8.3".to_string()));
    assert_eq!(parse_version("php8.1"), Ok("8.1".to_string()));
    assert_eq!(parse_version("php@@8.2"), Ok("8.2".to_string()));
    assert_eq!(parse_version("PHP 8.1"), Ok("8.1".to_string()));
}

#[test]
fn lowercasing_happens_before_marker_removal() {
    // Only a real lower-casing lets the upper-case marker be removed.
    assert_eq!(parse_version("PhP@7.4"), Ok("7.4".to_string()));
    assert_eq!(parse_lowered_version("PHP@7.4", "PHP@7.4"), Err(PowError::UnsupportedVersion {
        minor: "PHP@7.4".to_string(),
    }));
}

#[test]
fn rejects_unparsable_input() {
    assert_eq!(parse_version("php"), Err(PowError::UnparsableVersion { input: "php".to_string() }));
    assert_eq!(parse_version("8"), Err(PowError::UnparsableVersion { input: "8".to_string() }));
    assert_eq!(parse_version("8."), Err(PowError::UnparsableVersion { input: "8.".to_string() }));
    assert_eq!(parse_version(".2"), Err(PowError::UnparsableVersion { input: ".2".to_string() }));
    assert_eq!(parse_version(""), Err(PowError::UnparsableVersion { input: "".to_string() }));
}

#[test]
fn rejects_unsupported_versions() {
    assert_eq!(parse_version("php@9.9"), Err(PowError::UnsupportedVersion {
        minor: "9.9".to_string(),
    }));
    assert_eq!(parse_version("5.6.40"), Err(PowError::UnsupportedVersion {
        minor: "5.6".to_string(),
    }));
}

#[test]
fn every_supported_version_reads_back_as_itself() {
    for v in supported_versions() {
        assert_eq!(parse_version(v), Ok(v.to_string()));
        assert_eq!(parse_version(&format!("php@{v}")), Ok(v.to_string()));
        let parsed = parse_version(&format!("PHP-{v}.99")).unwrap();
        assert_eq!(parse_version(&parsed), Ok(parsed.clone()));
    }
}

#[test]
fn lists_supported_versions() {
    assert_eq!(supported_versions(), vec!["7.4", "8.1", "8.2", "8.3"]);
}

#[test]
fn pins_patch_releases() {
    assert_eq!(patch_for("7.4"), Ok("7.4.33".to_string()));
    assert_eq!(patch_for("8.1"), Ok("8.1.34".to_string()));
    assert_eq!(patch_for("8.2"), Ok("8.2.31".to_string()));
    assert_eq!(patch_for("8.3"), Ok("8.3.31".to_string()));
    assert_eq!(patch_for("8.4"), Err(PowError::UnknownVersion { minor: "8.4".to_string() }));
}

#[test]
fn builds_source_and_windows_urls() {
    assert_eq!(source_url("7.4.33"), "https://www.php.net/distributions/php-7.4.33.tar.gz");
    assert_eq!(
        windows_url("7.4", "7.4.33"),
        "https://windows.php.net/downloads/releases/archives/php-7.4.33-nts-Win32-vc15-x64.zip"
    );
    assert_eq!(
        windows_url("8.2", "8.2.31"),
        "https://windows.php.net/downloads/releases/php-8.2.31-nts-Win32-vs16-x64.zip"
    );
}

#[test]
fn resolves_prebuilt_download_urls() {
    assert_eq!(
        download_url("8.2", &platform("linux", "x86_64")),
        Ok("https://dl.static-php.dev/static-php-cli/common/php-8.2.31-cli-linux-x86_64.tar.gz"
            .to_string())
    );
    assert_eq!(
        download_url("8.3", &platform("macos", "aarch64")),
        Ok("https://dl.static-php.dev/static-php-cli/common/php-8.3.31-cli-macos-aarch64.tar.gz"
            .to_string())
    );
    assert_eq!(
        download_url("8.1", &platform("windows", "x86_64")),
        Ok("https://windows.php.net/downloads/releases/php-8.1.34-nts-Win32-vs16-x64.zip".to_string())
    );
}

#[test]
fn download_url_errors() {
    assert_eq!(
        download_url("8.2", &platform("linux", "riscv64")),
        Err(PowError::UnsupportedArch { arch: "riscv64".to_string() })
    );
    assert_eq!(
        download_url("8.2", &platform("freebsd", "x86_64")),
        Err(PowError::UnsupportedOs { os: "freebsd".to_string() })
    );
    // The architecture is checked before the operating system.
    assert_eq!(
        download_url("8.2", &platform("freebsd", "sparc")),
        Err(PowError::UnsupportedArch { arch: "sparc".to_string() })
    );
    assert_eq!(
        download_url("6.0", &platform("linux", "x86_64")),
        Err(PowError::UnknownVersion { minor: "6.0".to_string() })
    );
}

#[test]
fn chooses_install_strategy() {
    match strategy("7.4", &platform("linux", "x86_64")).unwrap() {
        Install::Source { url, patch } => {
            assert_eq!(url, "https://www.php.net/distributions/php-7.4.33.tar.gz");
            assert_eq!(patch, "7.4.33");
        }
        other => panic!("unexpected {other:?}"),
    }
    match strategy("7.4", &platform("windows", "x86_64")).unwrap() {
        Install::Prebuilt(url) => assert_eq!(
            url,
            "https://windows.php.net/downloads/releases/archives/php-7.4.33-nts-Win32-vc15-x64.zip"
        ),
        other => panic!("unexpected {other:?}"),
    }
    match strategy("8.3", &platform("macos", "x86_64")).unwrap() {
        Install::Prebuilt(url) => assert_eq!(
            url,
            "https://dl.static-php.dev/static-php-cli/common/php-8.3.31-cli-macos-x86_64.tar.gz"
        ),
        other => panic!("unexpected {other:?}"),
    }
    assert!(matches!(strategy("7.4", &platform("linux", "riscv64")), Ok(Install::Source { .. })));
    assert_eq!(
        strategy("8.3", &platform("linux", "riscv64")).unwrap_err(),
        PowError::UnsupportedArch { arch: "riscv64".to_string() }
    );
    assert_eq!(
        strategy("7.3", &platform("linux", "x86_64")).unwrap_err(),
        PowError::UnknownVersion { minor: "7.3".to_string() }
    );
}

#[test]
fn resolves_mariadb_urls() {
    assert_eq!(db::MARIADB_VERSION, "11.4.2");
    assert_eq!(
        db::download_url(&platform("linux", "x86_64")),
        Ok("https://archive.mariadb.org/mariadb-11.4.2/bintar-linux-systemd-x86_64/mariadb-11.4.2-linux-systemd-x86_64.tar.gz".to_string())
    );
    assert_eq!(
        db::download_url(&platform("macos", "aarch64")),
        Ok("https://archive.mariadb.org/mariadb-11.4.2/bintar-macos-x86_64/mariadb-11.4.2-macos-x86_64.tar.gz".to_string())
    );
    assert_eq!(
        db::download_url(&platform("windows", "x86_64")),
        Ok("https://archive.mariadb.org/mariadb-11.4.2/winx64-packages/mariadb-11.4.2-winx64.zip".to_string())
    );
    assert_eq!(
        db::download_url(&platform("linux", "aarch64")),
        Err(PowError::NoMariaDbBuild { os: "linux".to_string(), arch: "aarch64".to_string() })
    );
}

#[test]
fn pinned_patches_belong_to_their_minor() {
    for v in supported_versions() {
        let patch = patch_for(v).unwrap();
        assert!(patch.starts_with(&format!("{v}.")), "{patch} is not a {v} release");
    }
}
