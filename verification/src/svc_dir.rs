//! The directories of a supervised service below `/hab/svc`.

use vstd::prelude::*;
use vstd::string::*;
use crate::error::Error;
use crate::manager::config::{join_path, joined};

verus! {

/// The permissions of the directories that belong to the service: all
/// rights for the user and the group, none for anyone else.
pub const SVC_DIR_PERMISSIONS: u32 = 0o770;

/// Where the directories of services stand.
pub const SVC_ROOT: &'static str = "/hab/svc";

/// The name of the default user and of the default group of services.
pub const DEFAULT_USER: &'static str = "hab";

/// The directory of the service `name`.
pub open spec fn svc_dir_of(name: Seq<char>) -> Seq<char> {
    joined(SVC_ROOT@, name)
}

/// The directory of the service `name`.
pub fn svc_path(name: &str) -> (r: String)
    ensures
        r@ == svc_dir_of(name@),
{
    join_path(SVC_ROOT, name)
}

/// The directory `sub` of the service `name`.
pub fn svc_sub_path(name: &str, sub: &str) -> (r: String)
    ensures
        r@ == joined(svc_dir_of(name@), sub@),
{
    let dir = svc_path(name);
    join_path(dir.as_str(), sub)
}

/// One step in setting up the directories of a service.
#[derive(Debug, PartialEq, Eq)]
pub enum DirStep {
    /// Make sure that the user and the group exist, and fail if they do
    /// not.
    AssertUserAndGroup { user: String, group: String },
    /// Create the directory with all that leads to it.
    CreateDir { path: String },
    /// Unless something exists at the path: create the directory with all
    /// that leads to it, give it to the owner where one is named, and set
    /// its permissions. What exists is left as it is.
    CreateOwnedDir { path: String, owner: Option<(String, String)>, mode: u32 },
}

/// The mathematical value of a `DirStep`.
pub enum DirStepView {
    AssertUserAndGroup { user: Seq<char>, group: Seq<char> },
    CreateDir { path: Seq<char> },
    CreateOwnedDir { path: Seq<char>, owner: Option<(Seq<char>, Seq<char>)>, mode: u32 },
}

impl View for DirStep {
    type V = DirStepView;

    open spec fn view(&self) -> DirStepView {
        match *self {
            DirStep::AssertUserAndGroup { user, group } => DirStepView::AssertUserAndGroup {
                user: user@,
                group: group@,
            },
            DirStep::CreateDir { path } => DirStepView::CreateDir { path: path@ },
            DirStep::CreateOwnedDir { path, owner, mode } => DirStepView::CreateOwnedDir {
                path: path@,
                owner: match owner {
                    Some((u, g)) => Some((u@, g@)),
                    None => None,
                },
                mode,
            },
        }
    }
}

/// The views of a list of steps.
pub open spec fn steps_view(v: Seq<DirStep>) -> Seq<DirStepView> {
    v.map_values(|s: DirStep| s@)
}

/// What is found in a directory.
#[derive(Debug, Clone, Copy, PartialEq, Eq, Structural)]
pub enum EntryKind {
    File,
    Dir,
    Symlink,
    /// Something else, or something of which the kind could not be found
    /// out.
    Unknown,
}

/// The service directory of a package.
#[derive(Debug, PartialEq, Eq)]
pub struct SvcDir {
    pub service_name: String,
    pub svc_user: String,
    pub svc_group: String,
}

impl SvcDir {
    /// The directory of the service `service_name`, which runs as
    /// `svc_user` and `svc_group`.
    pub fn new(service_name: &str, svc_user: &str, svc_group: &str) -> (r: SvcDir)
        ensures
            r.service_name@ == service_name@,
            r.svc_user@ == svc_user@,
            r.svc_group@ == svc_group@,
    {
        SvcDir {
            service_name: service_name.to_owned(),
            svc_user: svc_user.to_owned(),
            svc_group: svc_group.to_owned(),
        }
    }

    /// The directory that belongs to the service, in a step of the plan.
    pub open spec fn owned_step(self, sub: Seq<char>, can_set_owner: bool) -> DirStepView {
        DirStepView::CreateOwnedDir {
            path: joined(svc_dir_of(self.service_name@), sub),
            owner: if can_set_owner {
                Some((self.svc_user@, self.svc_group@))
            } else {
                None
            },
            mode: SVC_DIR_PERMISSIONS,
        }
    }

    /// The steps that set up the directories of the service, in order.
    /// The directory itself and those of the hooks and the logs belong to
    /// the supervisor. Those of the configuration, the data, the files,
    /// the variable data and the static data belong to the service, where
    /// the supervisor can give them away.
    pub open spec fn plan(self, can_set_owner: bool) -> Seq<DirStepView> {
        let root = svc_dir_of(self.service_name@);
        let dirs = seq![
            DirStepView::CreateDir { path: root },
            DirStepView::CreateDir { path: joined(root, "hooks"@) },
            DirStepView::CreateDir { path: joined(root, "logs"@) },
            self.owned_step("config"@, can_set_owner),
            self.owned_step("data"@, can_set_owner),
            self.owned_step("files"@, can_set_owner),
            self.owned_step("var"@, can_set_owner),
            self.owned_step("static"@, can_set_owner),
        ];
        if can_set_owner {
            seq![
                DirStepView::AssertUserAndGroup { user: self.svc_user@, group: self.svc_group@ },
            ] + dirs
        } else {
            dirs
        }
    }

    /// One directory that belongs to the service.
    fn owned(&self, sub: &str, can_set_owner: bool) -> (r: DirStep)
        ensures
            r@ == self.owned_step(sub@, can_set_owner),
    {
        DirStep::CreateOwnedDir {
            path: svc_sub_path(self.service_name.as_str(), sub),
            owner: if can_set_owner {
                Some((self.svc_user.clone(), self.svc_group.clone()))
            } else {
                None
            },
            mode: SVC_DIR_PERMISSIONS,
        }
    }

    /// The steps that create the service directory with all its
    /// directories, owners and permissions. `can_set_owner` says whether
    /// the supervisor is able to run services as another user.
    pub fn create(&self, can_set_owner: bool) -> (r: Vec<DirStep>)
        ensures
            steps_view(r@) == self.plan(can_set_owner),
    {
        let name = self.service_name.as_str();
        let mut steps: Vec<DirStep> = Vec::new();
        if can_set_owner {
            steps.push(
                DirStep::AssertUserAndGroup {
                    user: self.svc_user.clone(),
                    group: self.svc_group.clone(),
                },
            );
        }
        steps.push(DirStep::CreateDir { path: svc_path(name) });
        steps.push(DirStep::CreateDir { path: svc_sub_path(name, "hooks") });
        steps.push(DirStep::CreateDir { path: svc_sub_path(name, "logs") });
        steps.push(self.owned("config", can_set_owner));
        steps.push(self.owned("data", can_set_owner));
        steps.push(self.owned("files", can_set_owner));
        steps.push(self.owned("var", can_set_owner));
        steps.push(self.owned("static", can_set_owner));
        assert(steps_view(steps@) =~= self.plan(can_set_owner));
        steps
    }

    /// The directories whose content is made from templates: that of the
    /// configuration and that of the hooks.
    pub fn purge_templated_content(&self) -> (r: Vec<String>)
        ensures
            r@.len() == 2,
            r@[0]@ == joined(svc_dir_of(self.service_name@), "config"@),
            r@[1]@ == joined(svc_dir_of(self.service_name@), "hooks"@),
    {
        let mut dirs: Vec<String> = Vec::new();
        dirs.push(svc_sub_path(self.service_name.as_str(), "config"));
        dirs.push(svc_sub_path(self.service_name.as_str(), "hooks"));
        dirs
    }
}

/// Whether an entry of a directory of templated content is removed when
/// the content is purged: files are, and nothing else is.
pub fn purges(kind: EntryKind) -> (r: bool)
    ensures
        r == (kind == EntryKind::File),
{
    match kind {
        EntryKind::File => true,
        _ => false,
    }
}

/// The user and the group that a service runs as: those that its package
/// names, if it names both; else `hab` and `hab`, if the system knows
/// them; else those of the supervisor itself, if it knows its own.
pub open spec fn user_and_group_of(
    pkg_user: Option<Seq<char>>,
    pkg_group: Option<Seq<char>>,
    hab_exists: bool,
    current_user: Option<Seq<char>>,
    current_group: Option<Seq<char>>,
) -> Option<(Seq<char>, Seq<char>)> {
    if pkg_user is Some && pkg_group is Some {
        Some((pkg_user->0, pkg_group->0))
    } else if hab_exists {
        Some((DEFAULT_USER@, DEFAULT_USER@))
    } else if current_user is Some && current_group is Some {
        Some((current_user->0, current_group->0))
    } else {
        None
    }
}

/// Finds the user and the group that a service runs as. `hab_exists` says
/// whether the system knows both the user and the group `hab`.
pub fn get_user_and_group(
    pkg_user: Option<String>,
    pkg_group: Option<String>,
    hab_exists: bool,
    current_user: Option<String>,
    current_group: Option<String>,
) -> (r: Result<(String, String), Error>)
    ensures
        match r {
            Ok((user, group)) => user_and_group_of(
                crate::text::opt_text(pkg_user),
                crate::text::opt_text(pkg_group),
                hab_exists,
                crate::text::opt_text(current_user),
                crate::text::opt_text(current_group),
            ) == Some((user@, group@)),
            Err(e) => user_and_group_of(
                crate::text::opt_text(pkg_user),
                crate::text::opt_text(pkg_group),
                hab_exists,
                crate::text::opt_text(current_user),
                crate::text::opt_text(current_group),
            ) is None && (e matches Error::Permissions(t) && t@
                == "Can't determine current user:group"@),
        },
{
    match (pkg_user, pkg_group) {
        (Some(user), Some(group)) => Ok((user, group)),
        _ => {
            if hab_exists {
                Ok((DEFAULT_USER.to_owned(), DEFAULT_USER.to_owned()))
            } else {
                match (current_user, current_group) {
                    (Some(user), Some(group)) => Ok((user, group)),
                    _ => Err(Error::Permissions("Can't determine current user:group".to_owned())),
                }
            }
        },
    }
}

} // verus!
