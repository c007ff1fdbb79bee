//! The errors that the library's functions return.

use vstd::prelude::*;

verus! {

/// What went wrong, with the text or number that the message names.
#[derive(Debug, Clone, PartialEq, Eq)]
pub enum Error {
    /// A package identifier that is not `origin/name[/version[/release]]`.
    InvalidPackageIdent(String),
    /// A spec file whose name does not end in the spec extension.
    InvalidSpecFileName(String),
    /// A spec without a package identifier.
    MissingRequiredIdent,
    /// An identifier that lacks a version or a release where both are needed.
    FullyQualifiedPackageIdentRequired(String),
    /// A standalone package where a composite one is needed.
    CompositePackageExpected(String),
    /// A topology name that is not known.
    InvalidTopology(String),
    /// An update strategy name that is not known.
    InvalidUpdateStrategy(String),
    /// A desired state name that is not known.
    InvalidDesiredState(String),
    /// A start style name that is not known.
    InvalidStartStyle(String),
    /// A bind that is not `name:service.group`.
    InvalidBinding(String),
    /// A service group that is not `service.group`.
    InvalidServiceGroup(String),
    /// An application environment that is not `application.environment`.
    InvalidApplicationEnvironment(String),
    /// A thread count that is not a positive number.
    InvalidTokioThreadCount,
    /// Another live supervisor holds the process lock.
    ProcessLocked(i32),
    /// The process lock does not hold a number.
    ProcessLockCorrupt,
    /// The process lock could not be read or written.
    ProcessLockIO(String),
    /// A PID file does not hold a number.
    PidFileCorrupt(String),
    /// A PID file could not be read or written.
    PidFileIO(String),
    /// The launcher refused or failed a request.
    Launcher(String),
    /// The cluster has removed this supervisor for good.
    Departed,
    /// The service is already loaded.
    ServiceLoaded(String),
    /// A spec file that does not hold a spec.
    ServiceSpecParse(String),
    /// A spec file that could not be read or written.
    ServiceSpecFileIO(String),
    /// The directory that is to hold the spec files is none.
    SpecWatcherDirNotFound(String),
    /// An archive holds another package than was asked for: the name of
    /// the archive, the package in it, and the package asked for.
    ArtifactIdentMismatch(String, String, String),
    /// The depot holds no such package.
    PackageNotFound,
    /// Only root may do this.
    RootRequired,
    /// Waiting for a child process failed.
    ExecWait,
    /// The supervisor has gone and is to be started again.
    SupShutdown,
    /// No package holds a supervisor.
    SupPackageNotFound,
    /// The supervisor's package holds no program to run.
    SupBinaryNotFound,
    /// A user that is not known to the system.
    UserNotFound(String),
    /// A group that is not known to the system.
    GroupNotFound(String),
    /// No launcher is there to talk to.
    NoLauncher,
    /// A signal could not be sent.
    SignalFailed,
    /// What is asked for needs rights that the supervisor lacks.
    Permissions(String),
}

impl Error {
    /// Whether the error is one that skips a spec file instead of failing
    /// the whole directory.
    pub open spec fn skips_file(self) -> bool {
        self is ServiceSpecParse || self is MissingRequiredIdent
    }
}

} // verus!
