//! Installing a package: what is decided between the calls to the depot
//! and the file system.

use vstd::prelude::*;
use vstd::string::*;
use crate::error::Error;
use crate::ident::{PackageIdent, PackageIdentView};
use crate::manager::config::{join_path, joined};

verus! {

/// How often a download is tried.
pub const RETRIES: u64 = 5;

/// The milliseconds between two tries of a download.
pub const RETRY_WAIT: u64 = 3000;

/// What is to be installed.
#[derive(Debug, PartialEq, Eq)]
pub enum InstallSource {
    /// The package that an identifier names, from the depot.
    Ident(PackageIdent),
    /// The package in an archive on disk.
    Archive(String),
}

/// Whether a package may be installed: by root, or by anyone where the
/// environment allows it.
pub fn may_install(non_root_allowed: bool, am_i_root: bool) -> (r: bool)
    ensures
        r == (non_root_allowed || am_i_root),
{
    non_root_allowed || am_i_root
}

/// What the words `ident_or_archive` ask to install: the archive at that
/// path, if there is a file, else the package that they name. `is_file`
/// says whether a file stands at that path.
pub fn install_source(ident_or_archive: &str, is_file: bool) -> (r: Result<InstallSource, Error>)
    ensures
        match r {
            Ok(InstallSource::Archive(path)) => is_file && path@ == ident_or_archive@,
            Ok(InstallSource::Ident(ident)) => !is_file && PackageIdentView::parse(
                ident_or_archive@,
            ) == Some(ident@),
            Err(e) => !is_file && PackageIdentView::parse(ident_or_archive@) is None && (
            e matches Error::InvalidPackageIdent(t) && t@ == ident_or_archive@),
        },
{
    if is_file {
        Ok(InstallSource::Archive(ident_or_archive.to_owned()))
    } else {
        match PackageIdent::from_str(ident_or_archive) {
            Ok(ident) => Ok(InstallSource::Ident(ident)),
            Err(e) => Err(e),
        }
    }
}

/// The name of the archive of a package that is named in full, for the
/// target `target`: origin, name, version, release and target with `-`
/// between them, and `.hart` behind.
pub open spec fn archive_name_of(ident: PackageIdentView, target: Seq<char>) -> Seq<char> {
    ((((ident.origin.push('-') + ident.name).push('-') + ident.version->0).push('-')
        + ident.release->0).push('-') + target) + ".hart"@
}

/// The name of the archive of the package `ident` for the target `target`.
/// Only a package that is named in full has one.
pub fn fully_qualified_archive_name(ident: &PackageIdent, target: &str) -> (r: Result<String, Error>)
    ensures
        match r {
            Ok(name) => ident@.fully_qualified() && name@ == archive_name_of(ident@, target@),
            Err(e) => !ident@.fully_qualified() && (
            e matches Error::FullyQualifiedPackageIdentRequired(t) && t@ == ident@.text()),
        },
{
    match (&ident.version, &ident.release) {
        (Some(version), Some(release)) => {
            proof {
                reveal_strlit("-");
            }
            let mut out = ident.origin.clone();
            let ghost a = out@;
            out.append("-");
            assert(out@ =~= a.push('-'));
            out.append(ident.name.as_str());
            let ghost b = out@;
            out.append("-");
            assert(out@ =~= b.push('-'));
            out.append(version.as_str());
            let ghost c = out@;
            out.append("-");
            assert(out@ =~= c.push('-'));
            out.append(release.as_str());
            let ghost d = out@;
            out.append("-");
            assert(out@ =~= d.push('-'));
            out.append(target);
            out.append(".hart");
            Ok(out)
        },
        _ => Err(Error::FullyQualifiedPackageIdentRequired(ident.to_string())),
    }
}

/// Where the archive of a package would stand in the cache of archives.
pub fn cached_artifact_path(cache: &str, ident: &PackageIdent, target: &str) -> (r: Result<
    String,
    Error,
>)
    ensures
        match r {
            Ok(path) => ident@.fully_qualified() && path@ == joined(
                cache@,
                archive_name_of(ident@, target@),
            ),
            Err(e) => !ident@.fully_qualified() && (
            e matches Error::FullyQualifiedPackageIdentRequired(t) && t@ == ident@.text()),
        },
{
    match fully_qualified_archive_name(ident, target) {
        Ok(name) => Ok(join_path(cache, name.as_str())),
        Err(e) => Err(e),
    }
}

/// What is to be done after a try to download.
#[derive(Debug, Clone, Copy, PartialEq, Eq, Structural)]
pub enum RetryStep {
    /// The download is there.
    Done,
    /// Wait for so many milliseconds and try again.
    WaitAndRetry(u64),
    /// Give up.
    GiveUp,
}

/// Decides what is to be done after the try number `tries` to download,
/// counted from one: a download that went well is done, one that failed
/// is tried again after a wait, until it was tried five times.
pub fn after_try(tries: u64, went_well: bool) -> (r: RetryStep)
    ensures
        r == if went_well {
            RetryStep::Done
        } else if tries < RETRIES {
            RetryStep::WaitAndRetry(RETRY_WAIT)
        } else {
            RetryStep::GiveUp
        },
{
    if went_well {
        RetryStep::Done
    } else if tries < RETRIES {
        RetryStep::WaitAndRetry(RETRY_WAIT)
    } else {
        RetryStep::GiveUp
    }
}

/// Whether an archive holds the package that was asked for.
pub fn verify_ident(wanted: &PackageIdent, found: &PackageIdent, file_name: &str) -> (r: Result<
    (),
    Error,
>)
    ensures
        match r {
            Ok(_) => wanted@ == found@,
            Err(e) => wanted@ != found@ && (e matches Error::ArtifactIdentMismatch(f, have, want)
                && f@ == file_name@ && have@ == found@.text() && want@ == wanted@.text()),
        },
{
    if wanted.same(found) {
        Ok(())
    } else {
        Err(
            Error::ArtifactIdentMismatch(
                file_name.to_owned(),
                found.to_string(),
                wanted.to_string(),
            ),
        )
    }
}

/// A package that another one depends on, with whether it is installed.
#[derive(Debug, PartialEq, Eq)]
pub struct Dependency {
    pub ident: PackageIdent,
    pub installed: bool,
}

/// The packages among the first `n` dependencies that are not installed.
pub open spec fn missing_upto(dependencies: Seq<Dependency>, n: int) -> Seq<PackageIdentView>
    decreases n,
{
    if n <= 0 {
        Seq::empty()
    } else {
        let before = missing_upto(dependencies, n - 1);
        if dependencies[n - 1].installed {
            before
        } else {
            before.push(dependencies[n - 1].ident@)
        }
    }
}

/// The views of a list of packages.
pub open spec fn idents_view(v: Seq<PackageIdent>) -> Seq<PackageIdentView> {
    v.map_values(|i: PackageIdent| i@)
}

/// The packages to unpack so that `ident` is installed with all it
/// depends on: its dependencies that are not installed, in their order,
/// and `ident` itself behind them.
pub fn artifacts_to_install(dependencies: &Vec<Dependency>, ident: &PackageIdent) -> (r: Vec<
    PackageIdent,
>)
    ensures
        idents_view(r@) == missing_upto(dependencies@, dependencies@.len() as int).push(ident@),
{
    let mut out: Vec<PackageIdent> = Vec::new();
    let mut i: usize = 0;
    assert(idents_view(out@) =~= missing_upto(dependencies@, 0));
    while i < dependencies.len()
        invariant
            i <= dependencies.len(),
            idents_view(out@) == missing_upto(dependencies@, i as int),
        decreases dependencies.len() - i,
    {
        if !dependencies[i].installed {
            let ghost before = idents_view(out@);
            out.push(dependencies[i].ident.clone());
            assert(idents_view(out@) =~= before.push(dependencies@[i as int].ident@));
        }
        i = i + 1;
    }
    let ghost before = idents_view(out@);
    out.push(ident.clone());
    assert(idents_view(out@) =~= before.push(ident@));
    out
}

/// What looking up the latest release of a package in a channel gave.
#[derive(Debug, PartialEq, Eq)]
pub enum Latest {
    /// This release.
    Found(PackageIdent),
    /// The channel holds no release of the package.
    NotFound,
    /// The depot failed.
    Failed(Error),
}

/// The package to install for an identifier: the identifier itself where
/// it names a package in full, else the latest release in the channel.
/// `latest` is what looking that up gave; it counts only where the
/// identifier does not name a package in full.
pub fn target_ident(ident: PackageIdent, latest: Latest) -> (r: Result<PackageIdent, Error>)
    ensures
        r == if ident@.fully_qualified() {
            Ok::<PackageIdent, Error>(ident)
        } else {
            match latest {
                Latest::Found(found) => Ok::<PackageIdent, Error>(found),
                Latest::NotFound => Err::<PackageIdent, Error>(Error::PackageNotFound),
                Latest::Failed(e) => Err::<PackageIdent, Error>(e),
            }
        },
{
    if ident.fully_qualified() {
        Ok(ident)
    } else {
        match latest {
            Latest::Found(found) => Ok(found),
            Latest::NotFound => Err(Error::PackageNotFound),
            Latest::Failed(e) => Err(e),
        }
    }
}

} // verus!
