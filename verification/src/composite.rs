//! Composite specs: the record of an installed composite package, which
//! bundles the packages of several services.

use rand::Rng;
use vstd::prelude::*;
use vstd::string::*;
use crate::error::Error;
use crate::ident::{PackageIdent, PackageIdentView};
use crate::spec_path::{parent, path_parent, path_with_extension, with_extension};

verus! {

/// What a package holds.
#[derive(Debug, Clone, Copy, PartialEq, Eq, Structural)]
pub enum PackageType {
    /// One service.
    Standalone,
    /// The packages of several services.
    Composite,
}

/// The number of characters of the random extension of a temporary file.
pub const TMP_EXTENSION_LEN: usize = 8;

/// Whether `c` is a letter of the English alphabet or a decimal digit.
pub open spec fn is_alphanumeric(c: char) -> bool {
    ('a' <= c && c <= 'z') || ('A' <= c && c <= 'Z') || ('0' <= c && c <= '9')
}

/// `len` characters drawn by `rand::thread_rng` from
/// `rand::distributions::Alphanumeric`, which yields letters of the English
/// alphabet and decimal digits only. Which ones come is chance.
#[verifier::external_body]
pub(crate) fn random_alphanumeric(len: usize) -> (r: String)
    ensures
        r@.len() == len,
        forall|i: int| 0 <= i < r@.len() ==> is_alphanumeric(#[trigger] r@[i]),
{
    rand::thread_rng().sample_iter(&rand::distributions::Alphanumeric).take(len).map(
        char::from,
    ).collect()
}

/// How a composite spec is written to its file: into a temporary file in
/// the same directory first, which then takes the place of the file, so
/// that nobody ever reads a file that is half written.
#[derive(Debug, PartialEq, Eq)]
pub struct WritePlan {
    /// The directory of the file, to be created where it is missing.
    pub dir: String,
    /// The temporary file.
    pub tmp_file: String,
    /// The file.
    pub file: String,
}

/// The record of an installed composite package.
#[derive(Debug, PartialEq, Eq)]
pub struct CompositeSpec {
    ident: PackageIdent,
}

impl View for CompositeSpec {
    type V = PackageIdentView;

    closed spec fn view(&self) -> PackageIdentView {
        self.ident@
    }
}

impl Clone for CompositeSpec {
    fn clone(&self) -> (r: Self)
        ensures
            r@ == self@,
    {
        CompositeSpec { ident: self.ident.clone() }
    }
}

impl CompositeSpec {
    /// The package of a composite spec is named in full and is never the
    /// package that names nothing.
    pub open spec fn wf(&self) -> bool {
        self@.fully_qualified()
    }

    /// The composite spec of an installed package, if the package is a
    /// composite one and named in full.
    pub fn from_package_install(package_type: PackageType, ident: &PackageIdent) -> (r: Result<
        CompositeSpec,
        Error,
    >)
        ensures
            match r {
                Ok(spec) => package_type == PackageType::Composite && ident@.fully_qualified()
                    && spec@ == ident@ && spec.wf(),
                Err(e) => match package_type {
                    PackageType::Standalone => e matches Error::CompositePackageExpected(t) && t@
                        == ident@.text(),
                    PackageType::Composite => !ident@.fully_qualified() && (
                    e matches Error::FullyQualifiedPackageIdentRequired(t) && t@ == ident@.text()),
                },
            },
    {
        match package_type {
            PackageType::Composite => {
                if ident.fully_qualified() {
                    Ok(CompositeSpec { ident: ident.clone() })
                } else {
                    Err(Error::FullyQualifiedPackageIdentRequired(ident.to_string()))
                }
            },
            PackageType::Standalone => Err(Error::CompositePackageExpected(ident.to_string())),
        }
    }

    /// The composite spec that a spec file with the package identifier
    /// `ident` holds: none without an identifier, and none for one that
    /// does not name its package in full.
    pub fn from_ident(ident: PackageIdent) -> (r: Result<CompositeSpec, Error>)
        ensures
            match r {
                Ok(spec) => spec@ == ident@ && spec.wf(),
                Err(e) => if ident@ == PackageIdentView::empty() {
                    e == Error::MissingRequiredIdent
                } else {
                    !ident@.fully_qualified() && (
                    e matches Error::FullyQualifiedPackageIdentRequired(t) && t@ == ident@.text())
                },
            },
    {
        if ident.is_empty() {
            return Err(Error::MissingRequiredIdent);
        }
        if !ident.fully_qualified() {
            return Err(Error::FullyQualifiedPackageIdentRequired(ident.to_string()));
        }
        Ok(CompositeSpec { ident })
    }

    /// The package of the composite, named in full.
    pub fn ident(&self) -> (r: &PackageIdent)
        ensures
            r@ == self@,
    {
        &self.ident
    }

    /// The name of the spec's file: the name of the package and the spec
    /// extension.
    pub fn file_name(&self) -> (r: String)
        ensures
            r@ == self@.name + ".spec"@,
    {
        let mut out = self.ident.name.clone();
        out.append(".spec");
        out
    }

    /// How the spec is written to the file `path`, with `ext` as the
    /// extension of the temporary file. A path without a file name cannot
    /// be written to.
    pub fn write_plan(path: &str, ext: &str) -> (r: Option<WritePlan>)
        ensures
            match r {
                Some(plan) => {
                    &&& parent(path@) == Some(plan.dir@)
                    &&& plan.tmp_file@ == with_extension(path@, ext@)
                    &&& plan.file@ == path@
                },
                None => parent(path@) is None,
            },
    {
        match path_parent(path) {
            Some(dir) => Some(
                WritePlan {
                    dir: dir.to_owned(),
                    tmp_file: path_with_extension(path, ext),
                    file: path.to_owned(),
                },
            ),
            None => None,
        }
    }

    /// How the spec is written to the file `path`: through a temporary file
    /// beside it whose extension is eight characters of chance.
    pub fn to_file(&self, path: &str) -> (r: Option<WritePlan>)
        ensures
            match r {
                Some(plan) => {
                    &&& parent(path@) == Some(plan.dir@)
                    &&& plan.file@ == path@
                    &&& exists|ext: Seq<char>|
                        ext.len() == TMP_EXTENSION_LEN && (forall|i: int|
                            0 <= i < ext.len() ==> is_alphanumeric(#[trigger] ext[i]))
                            && plan.tmp_file@ == with_extension(path@, ext)
                },
                None => parent(path@) is None,
            },
    {
        let ext = random_alphanumeric(TMP_EXTENSION_LEN);
        CompositeSpec::write_plan(path, ext.as_str())
    }
}

} // verus!
