//! The errors that the library's operations report.
use vstd::prelude::*;
use vstd::string::*;

use crate::php::{supported_minors, supported_versions};
use crate::text::join_seqs;

verus! {

/// A source tree that a build extracts.
#[derive(Debug, Clone, Copy, PartialEq, Eq)]
pub enum SourceTree {
    Php,
    OpenSsl,
    Libxml2,
}

/// A library vendored for a PHP 7.4 build.
#[derive(Debug, Clone, Copy, PartialEq, Eq)]
pub enum VendoredLib {
    OpenSsl,
    Libxml2,
}

/// A MariaDB client program.
#[derive(Debug, Clone, Copy, PartialEq, Eq)]
pub enum ClientTool {
    /// `mysqldump`, which takes backups.
    Mysqldump,
    /// `mysql`, which restores them.
    Mysql,
}

/// Why an operation was refused.
#[derive(Debug, Clone, PartialEq, Eq)]
pub enum PowError {
    /// The user's home directory is unknown.
    NoHomeDirectory,
    /// No `major.minor` PHP version could be read from the input.
    UnparsableVersion { input: String },
    /// The PHP minor version is not one that can be installed.
    UnsupportedVersion { minor: String },
    /// The PHP minor version has no pinned patch release.
    UnknownVersion { minor: String },
    /// No PHP build exists for this CPU architecture.
    UnsupportedArch { arch: String },
    /// No PHP build exists for this operating system.
    UnsupportedOs { os: String },
    /// No MariaDB build exists for this operating system and architecture.
    NoMariaDbBuild { os: String, arch: String },
    /// The configured database driver is neither `sqlite` nor `mysql`.
    UnknownDriver { driver: String },
    /// The PHP version is not installed.
    NotInstalled { version: String },
    /// The backup file to restore from does not exist.
    BackupNotFound { file: String },
    /// The SQLite database to back up does not exist.
    SqliteNotFound { path: String },
    /// An install finished, but no PHP binary is there (`path`, displayed).
    NoBinaryAfterInstall { path: String },
    /// A downloaded source tarball did not extract where expected.
    SourceNotExtracted { tree: SourceTree, path: String },
    /// A vendored library was built but its pkg-config file is missing.
    PkgConfigMissing { library: VendoredLib, path: String },
    /// MariaDB was downloaded but `mysqld` is not at `path`; `dir` is where
    /// the archive was extracted.
    MysqldMissing { path: String, dir: String },
    /// A MariaDB client program is not installed at `path`.
    ClientMissing { tool: ClientTool, path: String },
}

/// The mathematical value of a [`PowError`].
pub enum PowErrorView {
    NoHomeDirectory,
    UnparsableVersion { input: Seq<char> },
    UnsupportedVersion { minor: Seq<char> },
    UnknownVersion { minor: Seq<char> },
    UnsupportedArch { arch: Seq<char> },
    UnsupportedOs { os: Seq<char> },
    NoMariaDbBuild { os: Seq<char>, arch: Seq<char> },
    UnknownDriver { driver: Seq<char> },
    NotInstalled { version: Seq<char> },
    BackupNotFound { file: Seq<char> },
    SqliteNotFound { path: Seq<char> },
    NoBinaryAfterInstall { path: Seq<char> },
    SourceNotExtracted { tree: SourceTree, path: Seq<char> },
    PkgConfigMissing { library: VendoredLib, path: Seq<char> },
    MysqldMissing { path: Seq<char>, dir: Seq<char> },
    ClientMissing { tool: ClientTool, path: Seq<char> },
}

impl View for PowError {
    type V = PowErrorView;

    open spec fn view(&self) -> PowErrorView {
        match self {
            PowError::NoHomeDirectory => PowErrorView::NoHomeDirectory,
            PowError::UnparsableVersion { input } => PowErrorView::UnparsableVersion {
                input: input@,
            },
            PowError::UnsupportedVersion { minor } => PowErrorView::UnsupportedVersion {
                minor: minor@,
            },
            PowError::UnknownVersion { minor } => PowErrorView::UnknownVersion { minor: minor@ },
            PowError::UnsupportedArch { arch } => PowErrorView::UnsupportedArch { arch: arch@ },
            PowError::UnsupportedOs { os } => PowErrorView::UnsupportedOs { os: os@ },
            PowError::NoMariaDbBuild { os, arch } => PowErrorView::NoMariaDbBuild {
                os: os@,
                arch: arch@,
            },
            PowError::UnknownDriver { driver } => PowErrorView::UnknownDriver { driver: driver@ },
            PowError::NotInstalled { version } => PowErrorView::NotInstalled {
                version: version@,
            },
            PowError::BackupNotFound { file } => PowErrorView::BackupNotFound { file: file@ },
            PowError::SqliteNotFound { path } => PowErrorView::SqliteNotFound { path: path@ },
            PowError::NoBinaryAfterInstall { path } => PowErrorView::NoBinaryAfterInstall {
                path: path@,
            },
            PowError::SourceNotExtracted { tree, path } => PowErrorView::SourceNotExtracted {
                tree: *tree,
                path: path@,
            },
            PowError::PkgConfigMissing { library, path } => PowErrorView::PkgConfigMissing {
                library: *library,
                path: path@,
            },
            PowError::MysqldMissing { path, dir } => PowErrorView::MysqldMissing {
                path: path@,
                dir: dir@,
            },
            PowError::ClientMissing { tool, path } => PowErrorView::ClientMissing {
                tool: *tool,
                path: path@,
            },
        }
    }
}

/// The value of a string result.
pub open spec fn string_result(r: Result<String, PowError>) -> Result<Seq<char>, PowErrorView> {
    match r {
        Ok(s) => Ok(s@),
        Err(e) => Err(e@),
    }
}

/// How a missing MariaDB client is named in a message.
pub open spec fn client_lead(tool: ClientTool) -> Seq<char> {
    match tool {
        ClientTool::Mysqldump => "mysqldump not found at "@,
        ClientTool::Mysql => "mysql client not found at "@,
    }
}

/// The text that reports an error to the user.
pub open spec fn message_spec(e: PowErrorView) -> Seq<char> {
    match e {
        PowErrorView::NoHomeDirectory => "could not determine home directory"@,
        PowErrorView::UnparsableVersion { input } => "could not parse a PHP version from '"@
            + input + "'"@,
        PowErrorView::UnsupportedVersion { minor } => "PHP "@ + minor
            + " is not supported. Supported versions: "@ + join_seqs(supported_minors(), ", "@),
        PowErrorView::UnknownVersion { minor } => "unknown PHP version "@ + minor,
        PowErrorView::UnsupportedArch { arch } => "unsupported CPU architecture: "@ + arch,
        PowErrorView::UnsupportedOs { os } => "unsupported operating system: "@ + os,
        PowErrorView::NoMariaDbBuild { os, arch } => "no MariaDB build available for "@ + os + "/"@
            + arch,
        PowErrorView::UnknownDriver { driver } => "unknown database driver '"@ + driver + "'"@,
        PowErrorView::NotInstalled { version } => "PHP "@ + version
            + " is not installed. Run `pow install php@"@ + version + "` first."@,
        PowErrorView::BackupNotFound { file } => "backup file not found: "@ + file,
        PowErrorView::SqliteNotFound { path } => "SQLite database not found at "@ + path
            + ". Set `database.sqlite_path` in config.json."@,
        PowErrorView::NoBinaryAfterInstall { path } => "install finished but no PHP binary was found at "@
            + path + "."@,
        PowErrorView::SourceNotExtracted { tree, path } => match tree {
            SourceTree::Php => "expected source at "@ + path
                + " but it was not extracted as expected."@,
            SourceTree::OpenSsl => "OpenSSL source not extracted at "@ + path,
            SourceTree::Libxml2 => "libxml2 source not extracted at "@ + path,
        },
        PowErrorView::PkgConfigMissing { library, path } => match library {
            VendoredLib::OpenSsl => "OpenSSL built but no pkg-config file at "@ + path + "."@,
            VendoredLib::Libxml2 => "libxml2 built but no pkg-config file at "@ + path + "."@,
        },
        PowErrorView::MysqldMissing { path, dir } => "MariaDB downloaded but `mysqld` was not found at "@
            + path + ". The archive layout may differ — check "@ + dir + "."@,
        PowErrorView::ClientMissing { tool, path } => client_lead(tool) + path
            + ". Run `pow db start` once to install MariaDB."@,
    }
}

/// The supported versions, joined by `, `.
fn supported_list() -> (r: String)
    ensures
        r@ == join_seqs(supported_minors(), ", "@),
{
    let versions = supported_versions();
    let mut joined = String::new();
    let mut i: usize = 0;
    while i < versions.len()
        invariant
            i <= versions@.len(),
            versions@.len() == supported_minors().len(),
            forall|k: int| 0 <= k < versions@.len() ==> #[trigger] versions@[k]@ == supported_minors()[k],
            joined@ == join_seqs(supported_minors().subrange(0, i as int), ", "@),
        decreases versions@.len() - i,
    {
        let ghost prefix = supported_minors().subrange(0, i + 1);
        assert(prefix.drop_last() =~= supported_minors().subrange(0, i as int));
        assert(prefix.last() == versions@[i as int]@);
        if i > 0 {
            joined.append(", ");
        } else {
            assert(joined@ =~= Seq::<char>::empty());
        }
        joined.append(versions[i]);
        if i == 0 {
            assert(joined@ =~= prefix[0]);
        }
        i += 1;
    }
    assert(supported_minors().subrange(0, versions@.len() as int) =~= supported_minors());
    joined
}

impl PowError {
    /// The text that reports this error to the user.
    pub fn message(&self) -> (r: String)
        ensures
            r@ == message_spec(self@),
    {
        match self {
            PowError::NoHomeDirectory => String::from_str("could not determine home directory"),
            PowError::UnparsableVersion { input } => String::from_str(
                "could not parse a PHP version from '",
            ).concat(input.as_str()).concat("'"),
            PowError::UnsupportedVersion { minor } => String::from_str("PHP ").concat(
                minor.as_str(),
            ).concat(" is not supported. Supported versions: ").concat(supported_list().as_str()),
            PowError::UnknownVersion { minor } => String::from_str("unknown PHP version ").concat(
                minor.as_str(),
            ),
            PowError::UnsupportedArch { arch } => String::from_str(
                "unsupported CPU architecture: ",
            ).concat(arch.as_str()),
            PowError::UnsupportedOs { os } => String::from_str(
                "unsupported operating system: ",
            ).concat(os.as_str()),
            PowError::NoMariaDbBuild { os, arch } => String::from_str(
                "no MariaDB build available for ",
            ).concat(os.as_str()).concat("/").concat(arch.as_str()),
            PowError::UnknownDriver { driver } => String::from_str("unknown database driver '").concat(
                driver.as_str(),
            ).concat("'"),
            PowError::NotInstalled { version } => String::from_str("PHP ").concat(
                version.as_str(),
            ).concat(" is not installed. Run `pow install php@").concat(version.as_str()).concat(
                "` first.",
            ),
            PowError::BackupNotFound { file } => String::from_str("backup file not found: ").concat(
                file.as_str(),
            ),
            PowError::SqliteNotFound { path } => String::from_str(
                "SQLite database not found at ",
            ).concat(path.as_str()).concat(". Set `database.sqlite_path` in config.json."),
            PowError::NoBinaryAfterInstall { path } => String::from_str(
                "install finished but no PHP binary was found at ",
            ).concat(path.as_str()).concat("."),
            PowError::SourceNotExtracted { tree, path } => match tree {
                SourceTree::Php => String::from_str("expected source at ").concat(
                    path.as_str(),
                ).concat(" but it was not extracted as expected."),
                SourceTree::OpenSsl => String::from_str("OpenSSL source not extracted at ").concat(
                    path.as_str(),
                ),
                SourceTree::Libxml2 => String::from_str("libxml2 source not extracted at ").concat(
                    path.as_str(),
                ),
            },
            PowError::PkgConfigMissing { library, path } => match library {
                VendoredLib::OpenSsl => String::from_str(
                    "OpenSSL built but no pkg-config file at ",
                ).concat(path.as_str()).concat("."),
                VendoredLib::Libxml2 => String::from_str(
                    "libxml2 built but no pkg-config file at ",
                ).concat(path.as_str()).concat("."),
            },
            PowError::MysqldMissing { path, dir } => String::from_str(
                "MariaDB downloaded but `mysqld` was not found at ",
            ).concat(path.as_str()).concat(". The archive layout may differ — check ").concat(
                dir.as_str(),
            ).concat("."),
            PowError::ClientMissing { tool, path } => {
                let lead = match tool {
                    ClientTool::Mysqldump => "mysqldump not found at ",
                    ClientTool::Mysql => "mysql client not found at ",
                };
                String::from_str(lead).concat(path.as_str()).concat(
                    ". Run `pow db start` once to install MariaDB.",
                )
            },
        }
    }
}

} // verus!
