//! MariaDB download-URL resolution. SQLite needs no install: it ships inside
//! PHP, so only the optional MariaDB bundle is resolved here.
use vstd::prelude::*;
use vstd::string::*;

use crate::error::{PowError, PowErrorView, string_result};
use crate::host::Platform;
use crate::text::str_eq;

verus! {

/// Pinned MariaDB release used for the bundled server.
pub const MARIADB_VERSION: &'static str = "11.4.2";

/// What `download_url` returns: Linux and Windows builds exist for x86_64
/// only, the macOS build is used on every architecture.
pub open spec fn mariadb_url_spec(os: Seq<char>, arch: Seq<char>) -> Result<
    Seq<char>,
    PowErrorView,
> {
    let v = MARIADB_VERSION@;
    if os == "linux"@ && arch == "x86_64"@ {
        Ok(
            "https://archive.mariadb.org/mariadb-"@ + v + "/bintar-linux-systemd-x86_64/mariadb-"@
                + v + "-linux-systemd-x86_64.tar.gz"@,
        )
    } else if os == "macos"@ {
        Ok(
            "https://archive.mariadb.org/mariadb-"@ + v + "/bintar-macos-x86_64/mariadb-"@ + v
                + "-macos-x86_64.tar.gz"@,
        )
    } else if os == "windows"@ && arch == "x86_64"@ {
        Ok("https://archive.mariadb.org/mariadb-"@ + v + "/winx64-packages/mariadb-"@ + v + "-winx64.zip"@)
    } else {
        Err(PowErrorView::NoMariaDbBuild { os, arch })
    }
}

/// The MariaDB download URL for a platform.
pub fn download_url(platform: &Platform) -> (r: Result<String, PowError>)
    ensures
        string_result(r) == mariadb_url_spec(platform.os@, platform.arch@),
{
    let v = MARIADB_VERSION;
    let os = platform.os.as_str();
    let arch = platform.arch.as_str();
    let base = String::from_str("https://archive.mariadb.org/mariadb-").concat(v);
    if str_eq(os, "linux") && str_eq(arch, "x86_64") {
        Ok(
            base.concat("/bintar-linux-systemd-x86_64/mariadb-").concat(v).concat(
                "-linux-systemd-x86_64.tar.gz",
            ),
        )
    } else if str_eq(os, "macos") {
        Ok(base.concat("/bintar-macos-x86_64/mariadb-").concat(v).concat("-macos-x86_64.tar.gz"))
    } else if str_eq(os, "windows") && str_eq(arch, "x86_64") {
        Ok(base.concat("/winx64-packages/mariadb-").concat(v).concat("-winx64.zip"))
    } else {
        Err(PowError::NoMariaDbBuild { os: String::from_str(os), arch: String::from_str(arch) })
    }
}

/// On macOS a MariaDB build exists for every architecture: the
/// `macos-x86_64` bintar of the pinned release.
pub proof fn lemma_macos_always_has_a_build(arch: Seq<char>)
    ensures
        mariadb_url_spec("macos"@, arch) == Ok::<Seq<char>, PowErrorView>(
            "https://archive.mariadb.org/mariadb-11.4.2/bintar-macos-x86_64/mariadb-11.4.2-macos-x86_64.tar.gz"@,
        ),
{
    reveal_strlit("macos");
    reveal_strlit("linux");
    reveal_strlit("windows");
    reveal_strlit("11.4.2");
    reveal_strlit("https://archive.mariadb.org/mariadb-");
    reveal_strlit("/bintar-macos-x86_64/mariadb-");
    reveal_strlit("-macos-x86_64.tar.gz");
    reveal_strlit(
        "https://archive.mariadb.org/mariadb-11.4.2/bintar-macos-x86_64/mariadb-11.4.2-macos-x86_64.tar.gz",
    );
    assert("https://archive.mariadb.org/mariadb-"@ + MARIADB_VERSION@
        + "/bintar-macos-x86_64/mariadb-"@ + MARIADB_VERSION@ + "-macos-x86_64.tar.gz"@
        =~= "https://archive.mariadb.org/mariadb-11.4.2/bintar-macos-x86_64/mariadb-11.4.2-macos-x86_64.tar.gz"@);
    assert("macos"@[0] != "linux"@[0]);
    assert(mariadb_url_spec("macos"@, arch) == Ok::<Seq<char>, PowErrorView>(
        "https://archive.mariadb.org/mariadb-"@ + MARIADB_VERSION@ + "/bintar-macos-x86_64/mariadb-"@
            + MARIADB_VERSION@ + "-macos-x86_64.tar.gz"@,
    ));
}

/// A MariaDB download exists exactly for Linux on x86_64, macOS on any
/// architecture and Windows on x86_64; on any other platform the error
/// names that platform.
pub proof fn lemma_mariadb_platforms(os: Seq<char>, arch: Seq<char>)
    ensures
        mariadb_url_spec(os, arch) is Ok <==> ((os == "linux"@ && arch == "x86_64"@) || os
            == "macos"@ || (os == "windows"@ && arch == "x86_64"@)),
        mariadb_url_spec(os, arch) is Err ==> mariadb_url_spec(os, arch) == Err::<
            Seq<char>,
            PowErrorView,
        >(PowErrorView::NoMariaDbBuild { os, arch }),
{
    reveal_strlit("macos");
    reveal_strlit("linux");
    reveal_strlit("windows");
    reveal_strlit("x86_64");
}

} // verus!
