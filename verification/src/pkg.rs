//! The installed package of a service, as the supervisor sees it.

use vstd::prelude::*;
use vstd::string::*;
use crate::error::Error;
use crate::ident::PackageIdent;
use crate::manager::config::joined;
use crate::protocol::launcher::{copy_entries, entries_view, env_value};
use crate::svc_dir::{svc_dir_of, svc_path, svc_sub_path};
use crate::templating::{rooted_paths, transform_path};
use crate::text::{join, texts};

verus! {

/// The name of the search path in an environment.
pub const PATH_KEY: &'static str = "PATH";

/// The environment in which the process of a service runs: names and
/// values. Of several entries under one name the last one counts.
#[derive(Debug, PartialEq, Eq)]
pub struct Env(pub Vec<(String, String)>);

impl View for Env {
    type V = Seq<(Seq<char>, Seq<char>)>;

    open spec fn view(&self) -> Seq<(Seq<char>, Seq<char>)> {
        entries_view(self.0@)
    }
}

impl Clone for Env {
    fn clone(&self) -> (r: Self)
        ensures
            r@ == self@,
    {
        Env(copy_entries(&self.0))
    }
}

/// The paths of a list with `:` between them.
pub fn join_paths(paths: &Vec<String>) -> (r: String)
    ensures
        r@ == join(texts(paths@), ':'),
{
    proof {
        reveal_strlit(":");
    }
    let ghost all = texts(paths@);
    let mut out = String::new();
    let mut i: usize = 0;
    assert(all.subrange(0, 0) =~= Seq::<Seq<char>>::empty());
    while i < paths.len()
        invariant
            i <= paths.len(),
            all == texts(paths@),
            out@ == join(all.subrange(0, i as int), ':'),
        decreases paths.len() - i,
    {
        let ghost upto = all.subrange(0, i + 1);
        proof {
            assert(upto.drop_last() =~= all.subrange(0, i as int));
            assert(upto.last() == paths@[i as int]@);
            if i == 0 {
                assert(upto[0] == paths@[0]@);
            }
        }
        if i > 0 {
            proof {
                reveal_strlit(":");
            }
            let ghost head = out@;
            out.append(":");
            assert(out@ =~= head.push(':'));
        }
        out.append(paths[i].as_str());
        i = i + 1;
    }
    assert(all.subrange(0, paths.len() as int) =~= all);
    out
}

impl Env {
    /// The value of `name`, if the environment holds one.
    pub fn get(&self, name: &str) -> (r: Option<&String>)
        ensures
            match r {
                Some(v) => env_value(self@, name@) == Some(v@),
                None => env_value(self@, name@) is None,
            },
    {
        let ghost all = self@;
        let mut i: usize = self.0.len();
        assert(all.subrange(0, i as int) =~= all);
        while i > 0
            invariant
                i <= self.0.len(),
                all == self@,
                env_value(all, name@) == env_value(all.subrange(0, i as int), name@),
            decreases i,
        {
            let ghost here = all.subrange(0, i as int);
            assert(here.last() == all[i - 1]);
            assert(here.drop_last() =~= all.subrange(0, i - 1));
            if crate::text::same_text(self.0[i - 1].0.as_str(), name) {
                return Some(&self.0[i - 1].1);
            }
            i = i - 1;
        }
        assert(all.subrange(0, 0).len() == 0);
        None
    }

    /// Gives `name` the value `value`, whatever it had before.
    pub fn insert(&mut self, name: String, value: String)
        ensures
            final(self)@ == old(self)@.push((name@, value@)),
            env_value(final(self)@, name@) == Some(value@),
    {
        let ghost before = self@;
        let ghost e = (name@, value@);
        self.0.push((name, value));
        assert(self@ =~= before.push(e));
        assert(self@.last() == e);
    }

    /// The environment of a service: the runtime environment of its
    /// package, with a search path made of the package's own search path,
    /// moved below the root `fs_root` of the file system, and of the paths
    /// `more` behind it.
    pub fn new(runtime_environment: Vec<(String, String)>, fs_root: &str, more: &Vec<String>) -> (r:
        Env)
        ensures
            r@.len() == runtime_environment@.len() + 1,
            r@.drop_last() == entries_view(runtime_environment@),
            r@.last().0 == PATH_KEY@,
            r@.last().1 == join(
                rooted_paths(env_value(entries_view(runtime_environment@), PATH_KEY@), fs_root@)
                    + texts(more@),
                ':',
            ),
    {
        let mut env = Env(runtime_environment);
        let mut paths = {
            let own = match env.get(PATH_KEY) {
                Some(p) => Some(p.as_str()),
                None => None,
            };
            transform_path(own, fs_root)
        };
        let ghost own = texts(paths@);
        let mut i: usize = 0;
        while i < more.len()
            invariant
                i <= more.len(),
                texts(paths@) == own + texts(more@).subrange(0, i as int),
            decreases more.len() - i,
        {
            let ghost before = texts(paths@);
            paths.push(more[i].clone());
            assert(texts(paths@) =~= before.push(more@[i as int]@));
            assert(texts(more@).subrange(0, i + 1) =~= texts(more@).subrange(0, i as int).push(
                more@[i as int]@,
            ));
            i = i + 1;
        }
        assert(texts(more@).subrange(0, more.len() as int) =~= texts(more@));
        let path = join_paths(&paths);
        let ghost before = env@;
        env.insert(PATH_KEY.to_owned(), path);
        assert(env@.drop_last() =~= before);
        env
    }
}

/// The paths of a service below its service directory.
#[derive(Debug, PartialEq, Eq)]
pub struct SvcPaths {
    pub svc_path: String,
    pub svc_config_path: String,
    pub svc_data_path: String,
    pub svc_files_path: String,
    pub svc_static_path: String,
    pub svc_var_path: String,
    pub svc_pid_file: String,
    pub svc_run: String,
}

impl SvcPaths {
    /// The paths of the service `name`.
    pub fn new(name: &str) -> (r: SvcPaths)
        ensures
            r.svc_path@ == svc_dir_of(name@),
            r.svc_config_path@ == joined(svc_dir_of(name@), "config"@),
            r.svc_data_path@ == joined(svc_dir_of(name@), "data"@),
            r.svc_files_path@ == joined(svc_dir_of(name@), "files"@),
            r.svc_static_path@ == joined(svc_dir_of(name@), "static"@),
            r.svc_var_path@ == joined(svc_dir_of(name@), "var"@),
            r.svc_pid_file@ == joined(svc_dir_of(name@), "PID"@),
            r.svc_run@ == joined(svc_dir_of(name@), "run"@),
    {
        SvcPaths {
            svc_path: svc_path(name),
            svc_config_path: svc_sub_path(name, "config"),
            svc_data_path: svc_sub_path(name, "data"),
            svc_files_path: svc_sub_path(name, "files"),
            svc_static_path: svc_sub_path(name, "static"),
            svc_var_path: svc_sub_path(name, "var"),
            svc_pid_file: svc_sub_path(name, "PID"),
            svc_run: svc_sub_path(name, "run"),
        }
    }
}

/// The installed package of a service.
#[derive(Debug, PartialEq, Eq)]
pub struct Pkg {
    pub ident: PackageIdent,
    pub origin: String,
    pub name: String,
    pub version: String,
    pub release: String,
    pub deps: Vec<PackageIdent>,
    pub env: Env,
    pub exposes: Vec<String>,
    pub exports: Vec<(String, String)>,
    pub path: String,
    pub paths: SvcPaths,
    pub svc_user: String,
    pub svc_group: String,
}

/// What is known of a package once it is installed.
#[derive(Debug, PartialEq, Eq)]
pub struct Installed {
    pub ident: PackageIdent,
    pub installed_path: String,
    pub deps: Vec<PackageIdent>,
    pub env: Env,
    pub exposes: Vec<String>,
    pub exports: Vec<(String, String)>,
    pub svc_user: String,
    pub svc_group: String,
}

impl Pkg {
    /// The package of a service, from what is known of it once it is
    /// installed. An installed package is named in full; one that is not
    /// is no package of a service.
    pub fn from_install(package: Installed) -> (r: Result<Pkg, Error>)
        ensures
            match r {
                Ok(pkg) => {
                    &&& package.ident@.fully_qualified()
                    &&& pkg.ident@ == package.ident@
                    &&& pkg.origin@ == package.ident@.origin
                    &&& pkg.name@ == package.ident@.name
                    &&& Some(pkg.version@) == package.ident@.version
                    &&& Some(pkg.release@) == package.ident@.release
                    &&& pkg.deps == package.deps
                    &&& pkg.env == package.env
                    &&& pkg.exposes == package.exposes
                    &&& pkg.exports == package.exports
                    &&& pkg.path == package.installed_path
                    &&& pkg.svc_user == package.svc_user
                    &&& pkg.svc_group == package.svc_group
                    &&& pkg.paths.svc_path@ == svc_dir_of(package.ident@.name)
                    &&& pkg.paths.svc_pid_file@ == joined(svc_dir_of(package.ident@.name), "PID"@)
                    &&& pkg.paths.svc_run@ == joined(svc_dir_of(package.ident@.name), "run"@)
                },
                Err(e) => !package.ident@.fully_qualified() && (
                e matches Error::FullyQualifiedPackageIdentRequired(t) && t@
                    == package.ident@.text()),
            },
    {
        let Installed { ident, installed_path, deps, env, exposes, exports, svc_user, svc_group } =
            package;
        let (version, release) = match (&ident.version, &ident.release) {
            (Some(v), Some(r)) => (v.clone(), r.clone()),
            _ => {
                return Err(Error::FullyQualifiedPackageIdentRequired(ident.to_string()));
            },
        };
        let paths = SvcPaths::new(ident.name.as_str());
        Ok(
            Pkg {
                origin: ident.origin.clone(),
                name: ident.name.clone(),
                version,
                release,
                ident,
                deps,
                env,
                exposes,
                exports,
                path: installed_path,
                paths,
                svc_user,
                svc_group,
            },
        )
    }
}

} // verus!
