//! The directory of spec files: which of the files in it count as the
//! specs of services.
//!
//! Reading the directory and the files is the caller's work. What was read
//! is looked at here: a file that does not hold a spec, or that holds the
//! spec of another service than its name says, is passed over, and only a
//! failure to read a file at all fails the whole.

use vstd::prelude::*;
use vstd::string::*;
use crate::error::Error;
use crate::manager::config::{join_path, joined};
use crate::spec::{ServiceSpec, ServiceSpecView};
use crate::spec_path::{file_stem, path_file_stem, SPEC_FILE_GLOB};
use crate::text::same_text;
use crate::vecs::reversed;

verus! {

/// A spec file as it was found: its path, and the spec it holds or why it
/// holds none.
#[derive(Debug, PartialEq, Eq)]
pub struct LoadedSpec {
    pub path: String,
    pub spec: Result<ServiceSpec, Error>,
}

/// What is to be done with a spec file when the specs are brought to the
/// current format.
#[derive(Debug, PartialEq, Eq)]
pub enum Migration {
    /// Write the spec back to its file.
    Rewrite { path: String, spec: ServiceSpec },
    /// Tell that the file could not be migrated, and leave it.
    Report { path: String, error: Error },
}

/// What is to be done with one spec file when the specs are migrated.
pub open spec fn migration_of(loaded: LoadedSpec) -> Migration {
    match loaded.spec {
        Ok(spec) => Migration::Rewrite { path: loaded.path, spec },
        Err(error) => Migration::Report { path: loaded.path, error },
    }
}

/// Whether a file that holds `spec` is named after the service of the
/// spec.
pub open spec fn named_after(path: Seq<char>, spec: ServiceSpecView) -> bool {
    file_stem(path) == Some(spec.ident.name)
}

/// The specs of the files that count, in the order of the files; or the
/// first error that is not one of a single file's content.
pub open spec fn selected(loaded: Seq<LoadedSpec>) -> Result<Seq<ServiceSpecView>, Error>
    decreases loaded.len(),
{
    if loaded.len() == 0 {
        Ok(Seq::<ServiceSpecView>::empty())
    } else {
        match selected(loaded.drop_last()) {
            Err(e) => Err(e),
            Ok(kept) => match loaded.last().spec {
                Err(e) => if e.skips_file() {
                    Ok(kept)
                } else {
                    Err(e)
                },
                Ok(spec) => if named_after(loaded.last().path@, spec@) {
                    Ok(kept.push(spec@))
                } else {
                    Ok(kept)
                },
            },
        }
    }
}

/// The directory that holds the spec files.
#[derive(Debug, PartialEq, Eq)]
pub struct SpecDir(String);

impl View for SpecDir {
    type V = Seq<char>;

    closed spec fn view(&self) -> Seq<char> {
        self.0@
    }
}

impl Clone for SpecDir {
    fn clone(&self) -> (r: Self)
        ensures
            r@ == self@,
    {
        SpecDir(self.0.clone())
    }
}

impl SpecDir {
    /// Takes `path` as the spec directory. `is_dir` says whether there is
    /// a directory at `path`; without one there is no spec directory.
    pub fn new(path: &str, is_dir: bool) -> (r: Result<SpecDir, Error>)
        ensures
            match r {
                Ok(dir) => is_dir && dir@ == path@,
                Err(e) => !is_dir && (e matches Error::SpecWatcherDirNotFound(p) && p@ == path@),
            },
    {
        if !is_dir {
            return Err(Error::SpecWatcherDirNotFound(path.to_owned()));
        }
        Ok(SpecDir(path.to_owned()))
    }

    /// The path of the directory.
    pub fn as_str(&self) -> (r: &str)
        ensures
            r@ == self@,
    {
        self.0.as_str()
    }

    /// The pattern that the paths of the spec files in the directory
    /// match.
    pub fn spec_glob(&self) -> (r: String)
        ensures
            r@ == joined(self@, SPEC_FILE_GLOB@),
    {
        join_path(self.0.as_str(), SPEC_FILE_GLOB)
    }

    /// Says for each spec file what is to be done to bring it to the
    /// current format: a spec that could be read is written back, a file
    /// that holds none is told of and left.
    pub fn migrate_specs(&self, loaded: Vec<LoadedSpec>) -> (r: Vec<Migration>)
        ensures
            r@ == loaded@.map_values(|l: LoadedSpec| migration_of(l)),
    {
        let ghost all = loaded@;
        let n = loaded.len();
        let mut pending = reversed(loaded);
        let mut out: Vec<Migration> = Vec::new();
        let mut i: usize = 0;
        while i < n
            invariant
                i <= n,
                all.len() == n,
                pending@.len() == n - i,
                forall|j: int| 0 <= j < pending@.len() ==> pending@[j] == all[n - 1 - j],
                out@.len() == i,
                forall|j: int| 0 <= j < i ==> out@[j] == migration_of(all[j]),
            decreases n - i,
        {
            let LoadedSpec { path, spec } = pending.pop().unwrap();
            match spec {
                Ok(spec) => out.push(Migration::Rewrite { path, spec }),
                Err(error) => out.push(Migration::Report { path, error }),
            }
            i = i + 1;
        }
        assert(out@ =~= all.map_values(|l: LoadedSpec| migration_of(l)));
        out
    }

    /// The specs of the services that the directory declares. A file that
    /// holds no spec, or whose name is not that of the service in it, is
    /// passed over; any other error fails the whole.
    pub fn specs(&self, loaded: Vec<LoadedSpec>) -> (r: Result<Vec<ServiceSpec>, Error>)
        ensures
            match r {
                Ok(specs) => selected(loaded@) == Ok::<Seq<ServiceSpecView>, Error>(
                    crate::spec::specs_view(specs@),
                ),
                Err(e) => selected(loaded@) == Err::<Seq<ServiceSpecView>, Error>(e),
            },
    {
        let ghost all = loaded@;
        let n = loaded.len();
        let mut pending = reversed(loaded);
        let mut specs: Vec<ServiceSpec> = Vec::new();
        let mut i: usize = 0;
        assert(all.subrange(0, 0) =~= Seq::<LoadedSpec>::empty());
        assert(crate::spec::specs_view(specs@) =~= Seq::<ServiceSpecView>::empty());
        while i < n
            invariant
                i <= n,
                all == loaded@,
                all.len() == n,
                pending@.len() == n - i,
                forall|j: int| 0 <= j < pending@.len() ==> pending@[j] == all[n - 1 - j],
                selected(all.subrange(0, i as int)) == Ok::<Seq<ServiceSpecView>, Error>(
                    crate::spec::specs_view(specs@),
                ),
            decreases n - i,
        {
            let LoadedSpec { path, spec } = pending.pop().unwrap();
            let ghost upto = all.subrange(0, i + 1);
            proof {
                assert(upto.drop_last() =~= all.subrange(0, i as int));
                assert(upto.last() == all[i as int]);
            }
            match spec {
                Err(e) => {
                    let skip = match &e {
                        Error::ServiceSpecParse(_) => true,
                        Error::MissingRequiredIdent => true,
                        _ => false,
                    };
                    if !skip {
                        proof {
                            lemma_error_stays(all, i + 1, e);
                        }
                        return Err(e);
                    }
                },
                Ok(spec) => {
                    let fits = match path_file_stem(path.as_str()) {
                        Some(stem) => same_text(stem, spec.ident.name.as_str()),
                        None => false,
                    };
                    if fits {
                        let ghost before = crate::spec::specs_view(specs@);
                        let ghost s = spec@;
                        specs.push(spec);
                        assert(crate::spec::specs_view(specs@) =~= before.push(s));
                    }
                },
            }
            i = i + 1;
        }
        assert(all.subrange(0, n as int) =~= all);
        Ok(specs)
    }
}

/// An error that the first `k` files give is the error of all the files.
proof fn lemma_error_stays(loaded: Seq<LoadedSpec>, k: int, e: Error)
    requires
        0 <= k <= loaded.len(),
        selected(loaded.subrange(0, k)) == Err::<Seq<ServiceSpecView>, Error>(e),
    ensures
        selected(loaded) == Err::<Seq<ServiceSpecView>, Error>(e),
    decreases loaded.len() - k,
{
    if k == loaded.len() {
        assert(loaded.subrange(0, k) =~= loaded);
    } else {
        let longer = loaded.subrange(0, k + 1);
        assert(longer.drop_last() =~= loaded.subrange(0, k));
        lemma_error_stays(loaded, k + 1, e);
    }
}

} // verus!
