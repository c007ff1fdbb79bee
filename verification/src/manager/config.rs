//! The settings of the manager and the paths under its state directory.

use vstd::prelude::*;
use vstd::string::*;
use crate::error::Error;
use crate::numbers::{parse_int, parse_unsigned};
use crate::spec::ServiceGroup;

verus! {

/// Where the state directories of supervisors stand.
pub const STATE_PATH_PREFIX: &'static str = "/hab/sup";

/// The name of the state directory of a supervisor that was given none.
pub const DEFAULT_STATE_NAME: &'static str = "default";

/// The name under which a thread count is looked for in the environment.
pub const TOKIO_THREAD_COUNT_ENVVAR: &'static str = "HAB_TOKIO_THREAD_COUNT";

/// A path and a name below it: the two with one `/` between them. A path
/// that ends in `/` gets no second one, and below the empty path the name
/// stands alone.
pub open spec fn joined(base: Seq<char>, name: Seq<char>) -> Seq<char> {
    if base.len() == 0 {
        name
    } else if base.last() == '/' {
        base + name
    } else {
        base.push('/') + name
    }
}

/// The path of `name` below `base`.
pub fn join_path(base: &str, name: &str) -> (r: String)
    ensures
        r@ == joined(base@, name@),
{
    proof {
        reveal_strlit("/");
    }
    let n = base.unicode_len();
    let mut out = base.to_owned();
    if n > 0 && base.get_char(n - 1) != '/' {
        out.append("/");
        assert(out@ =~= base@.push('/'));
    }
    out.append(name);
    out
}

/// The state directory of a supervisor: the one it was given, else the
/// default one.
pub open spec fn state_root(custom: Option<Seq<char>>) -> Seq<char> {
    match custom {
        Some(path) => path,
        None => joined(STATE_PATH_PREFIX@, DEFAULT_STATE_NAME@),
    }
}

/// The state directory of a supervisor.
pub fn sup_root(custom_state_path: Option<&str>) -> (r: String)
    ensures
        r@ == state_root(
            match custom_state_path {
                Some(p) => Some(p@),
                None => None,
            },
        ),
{
    match custom_state_path {
        Some(path) => path.to_owned(),
        None => join_path(STATE_PATH_PREFIX, DEFAULT_STATE_NAME),
    }
}

/// The paths below the state directory where the manager keeps its data.
#[derive(Debug, PartialEq, Eq)]
pub struct FsCfg {
    pub sup_root: String,
    pub data_path: String,
    pub specs_path: String,
    pub composites_path: String,
    pub member_id_file: String,
    pub proc_lock_file: String,
}

impl FsCfg {
    /// The paths below the state directory `sup_root`.
    pub fn new(sup_root: &str) -> (r: FsCfg)
        ensures
            r.sup_root@ == sup_root@,
            r.data_path@ == joined(sup_root@, "data"@),
            r.specs_path@ == joined(sup_root@, "specs"@),
            r.composites_path@ == joined(sup_root@, "composites"@),
            r.member_id_file@ == joined(sup_root@, "MEMBER_ID"@),
            r.proc_lock_file@ == joined(sup_root@, "LOCK"@),
    {
        FsCfg {
            specs_path: join_path(sup_root, "specs"),
            data_path: join_path(sup_root, "data"),
            composites_path: join_path(sup_root, "composites"),
            member_id_file: join_path(sup_root, "MEMBER_ID"),
            proc_lock_file: join_path(sup_root, "LOCK"),
            sup_root: sup_root.to_owned(),
        }
    }
}

/// The settings of the manager.
#[derive(Debug, PartialEq, Eq)]
pub struct ManagerConfig {
    pub auto_update: bool,
    pub custom_state_path: Option<String>,
    pub eventsrv_group: Option<ServiceGroup>,
    pub update_url: String,
    pub update_channel: String,
    pub gossip_listen: String,
    pub ctl_listen: String,
    pub http_listen: String,
    pub http_disable: bool,
    pub gossip_peers: Vec<String>,
    pub gossip_permanent: bool,
    pub ring_key: Option<String>,
    pub organization: Option<String>,
    pub watch_peer_file: Option<String>,
    pub tls_files: Option<(String, String)>,
}

impl Default for ManagerConfig {
    fn default() -> (r: ManagerConfig)
        ensures
            !r.auto_update,
            r.custom_state_path is None,
            r.eventsrv_group is None,
            r.update_url@ == ""@,
            r.update_channel@ == ""@,
            r.gossip_listen@ == "0.0.0.0:9638"@,
            r.ctl_listen@ == "127.0.0.1:9632"@,
            r.http_listen@ == "0.0.0.0:9631"@,
            !r.http_disable,
            r.gossip_peers@.len() == 0,
            !r.gossip_permanent,
            r.ring_key is None,
            r.organization is None,
            r.watch_peer_file is None,
            r.tls_files is None,
    {
        ManagerConfig {
            auto_update: false,
            custom_state_path: None,
            eventsrv_group: None,
            update_url: "".to_owned(),
            update_channel: "".to_owned(),
            gossip_listen: "0.0.0.0:9638".to_owned(),
            ctl_listen: "127.0.0.1:9632".to_owned(),
            http_listen: "0.0.0.0:9631".to_owned(),
            http_disable: false,
            gossip_peers: Vec::new(),
            gossip_permanent: false,
            ring_key: None,
            organization: None,
            watch_peer_file: None,
            tls_files: None,
        }
    }
}

impl ManagerConfig {
    /// The state directory of the supervisor.
    pub fn sup_root(&self) -> (r: String)
        ensures
            r@ == state_root(crate::text::opt_text(self.custom_state_path)),
    {
        match &self.custom_state_path {
            Some(path) => sup_root(Some(path.as_str())),
            None => sup_root(None),
        }
    }
}

/// `num_cpus::get`: the number of CPUs that the process may use. Nothing
/// is claimed of the number.
#[verifier::external_body]
pub(crate) fn cpu_count() -> (r: usize)
{
    num_cpus::get()
}

/// The thread count for a machine with `cpus` CPUs: one thread for each,
/// and one at least.
pub fn threads_for(cpus: usize) -> (r: TokioThreadCount)
    ensures
        r.0 == if cpus < 1 {
            1
        } else {
            cpus
        },
{
    if cpus < 1 {
        TokioThreadCount(1)
    } else {
        TokioThreadCount(cpus)
    }
}

/// How many threads the runtime of the supervisor gets.
#[derive(Debug, Clone, Copy, PartialEq, Eq, Structural)]
pub struct TokioThreadCount(pub usize);

impl TokioThreadCount {
    /// The thread count that a text stands for: a number greater than
    /// zero.
    pub open spec fn parse(s: Seq<char>) -> Option<int> {
        match parse_int(s, 0, usize::MAX as int) {
            Some(n) => if n > 0 {
                Some(n)
            } else {
                None
            },
            None => None,
        }
    }

    /// Reads a thread count: a number greater than zero.
    pub fn from_str(s: &str) -> (r: Result<TokioThreadCount, Error>)
        ensures
            match r {
                Ok(count) => Self::parse(s@) == Some(count.0 as int),
                Err(e) => Self::parse(s@) is None && e == Error::InvalidTokioThreadCount,
            },
    {
        match parse_unsigned(s, usize::MAX as u64) {
            Some(raw) => {
                if raw > 0 {
                    Ok(TokioThreadCount(raw as usize))
                } else {
                    Err(Error::InvalidTokioThreadCount)
                }
            },
            None => Err(Error::InvalidTokioThreadCount),
        }
    }

    /// The thread count to use where the environment gives `value`: the
    /// number it stands for, else `fallback`.
    pub fn or_default(value: Option<&str>, fallback: usize) -> (r: TokioThreadCount)
        ensures
            r.0 == match value {
                Some(s) => match Self::parse(s@) {
                    Some(n) => n as usize,
                    None => fallback,
                },
                None => fallback,
            },
    {
        match value {
            Some(s) => match TokioThreadCount::from_str(s) {
                Ok(count) => count,
                Err(_) => TokioThreadCount(fallback),
            },
            None => TokioThreadCount(fallback),
        }
    }

    /// The thread count to use where the environment gives `value`: the
    /// number it stands for, else the number of CPUs.
    pub fn configured_value(value: Option<&str>) -> (r: TokioThreadCount)
        ensures
            r.0 >= 1,
            value matches Some(s) && Self::parse(s@) is Some ==> r.0 == Self::parse(value->0@)->0,
    {
        let fallback = threads_for(cpu_count());
        TokioThreadCount::or_default(value, fallback.0)
    }

    /// The number of threads.
    pub fn into(self) -> (r: usize)
        ensures
            r == self.0,
    {
        self.0
    }
}

impl Default for TokioThreadCount {
    fn default() -> (r: TokioThreadCount)
        ensures
            r.0 >= 1,
    {
        threads_for(cpu_count())
    }
}

} // verus!
