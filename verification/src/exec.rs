//! How the supervisor runs a program of a package.
//!
//! A program of a package runs as the user and the group of the package
//! where the supervisor may choose them, and as the supervisor itself
//! where it may not. It gets the environment of the package.

use vstd::prelude::*;
use vstd::string::*;
use crate::error::Error;
use crate::pkg::{Env, Pkg};

verus! {

/// What is needed to run a program of a package.
#[derive(Debug, PartialEq, Eq)]
pub struct ExecPlan {
    /// The user to run it as.
    pub uid: u32,
    /// The group to run it as.
    pub gid: u32,
    /// What to add to its environment.
    pub env: Env,
}

/// The words of the error for a user that the system does not know.
pub open spec fn no_uid_words(user: Seq<char>) -> Seq<char> {
    "No uid for user '"@ + user + "' could be found"@
}

/// The words of the error for a group that the system does not know.
pub open spec fn no_gid_words(group: Seq<char>) -> Seq<char> {
    "No gid for group '"@ + group + "' could be found"@
}

/// Plans the running of a program of the package `pkg`. Where the
/// supervisor can set the user and the group of a process, `uid` and `gid`
/// are the numbers that the system has for the user and the group of the
/// package, if it knows them, and the user is looked at first. Where it
/// cannot, the program runs as the supervisor does.
pub fn run(
    pkg: &Pkg,
    can_set_user_and_group: bool,
    uid: Option<u32>,
    gid: Option<u32>,
    effective_uid: u32,
    effective_gid: u32,
) -> (r: Result<ExecPlan, Error>)
    ensures
        match r {
            Ok(plan) => {
                &&& plan.env@ == pkg.env@
                &&& can_set_user_and_group ==> uid == Some(plan.uid) && gid == Some(plan.gid)
                &&& !can_set_user_and_group ==> plan.uid == effective_uid && plan.gid
                    == effective_gid
            },
            Err(e) => {
                &&& can_set_user_and_group
                &&& uid is None ==> (e matches Error::Permissions(words) && words@ == no_uid_words(
                    pkg.svc_user@,
                ))
                &&& uid is Some ==> gid is None && (e matches Error::Permissions(words) && words@
                    == no_gid_words(pkg.svc_group@))
            },
        },
{
    if can_set_user_and_group {
        let uid = match uid {
            Some(uid) => uid,
            None => {
                let mut words = "No uid for user '".to_owned();
                words.append(pkg.svc_user.as_str());
                words.append("' could be found");
                return Err(Error::Permissions(words));
            },
        };
        let gid = match gid {
            Some(gid) => gid,
            None => {
                let mut words = "No gid for group '".to_owned();
                words.append(pkg.svc_group.as_str());
                words.append("' could be found");
                return Err(Error::Permissions(words));
            },
        };
        Ok(ExecPlan { uid, gid, env: pkg.env.clone() })
    } else {
        Ok(ExecPlan { uid: effective_uid, gid: effective_gid, env: pkg.env.clone() })
    }
}

} // verus!
