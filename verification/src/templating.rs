//! What templates are told of the members of a service group and of the
//! package of a service.

use vstd::prelude::*;
use vstd::string::*;
use crate::manager::config::{join_path, joined};
use crate::text::{split, split_text, texts};

verus! {

/// What a template is told of one member at which `eachAlive` stops.
#[derive(Debug, Clone, Copy, PartialEq, Eq, Structural)]
pub struct AliveItem {
    /// The place of the member in the list.
    pub index: usize,
    /// Whether the member is the first of the list.
    pub first: bool,
    /// Whether the member is the last of the list.
    pub last: bool,
}

/// The members at which `eachAlive` stops among the first `n` members of a
/// list, where `alive` tells of each member whether it is alive: the live
/// ones, in order, each with its place in the whole list.
pub open spec fn alive_upto(alive: Seq<bool>, n: int) -> Seq<AliveItem>
    decreases n,
{
    if n <= 0 {
        Seq::empty()
    } else {
        let before = alive_upto(alive, n - 1);
        if alive[n - 1] {
            before.push(
                AliveItem { index: (n - 1) as usize, first: n - 1 == 0, last: n == alive.len() },
            )
        } else {
            before
        }
    }
}

/// The helper `eachAlive` of the templates: renders its block once for
/// each live member of a list.
#[derive(Debug, Clone, Copy, PartialEq, Eq, Structural)]
pub struct EachAliveHelper;

impl EachAliveHelper {
    /// The members for which the block is rendered, with what the block
    /// is told of each.
    pub fn items(&self, alive: &Vec<bool>) -> (r: Vec<AliveItem>)
        ensures
            r@ == alive_upto(alive@, alive@.len() as int),
    {
        let n = alive.len();
        let mut out: Vec<AliveItem> = Vec::new();
        let mut i: usize = 0;
        while i < n
            invariant
                i <= n,
                n == alive@.len(),
                out@ == alive_upto(alive@, i as int),
            decreases n - i,
        {
            if alive[i] {
                out.push(AliveItem { index: i, first: i == 0, last: i + 1 == n });
            }
            i = i + 1;
        }
        out
    }
}

/// The paths of a search path, which has `:` between them.
pub open spec fn search_paths(path: Seq<char>) -> Seq<Seq<char>> {
    split(path, ':')
}

/// A path below the root `fs_root` of the file system: a path that starts
/// at the root is moved below `fs_root`, another path stays as it is.
pub open spec fn rooted(fs_root: Seq<char>, path: Seq<char>) -> Seq<char> {
    if path.len() > 0 && path[0] == '/' {
        joined(fs_root, path.subrange(1, path.len() as int))
    } else {
        path
    }
}

/// The paths of a search path, each below the root `fs_root` of the file
/// system. Without a search path there are no paths.
pub open spec fn rooted_paths(path: Option<Seq<char>>, fs_root: Seq<char>) -> Seq<Seq<char>> {
    match path {
        Some(p) => search_paths(p).map_values(|s: Seq<char>| rooted(fs_root, s)),
        None => Seq::<Seq<char>>::empty(),
    }
}

/// The paths of the search path `path`, each below the root `fs_root` of
/// the file system.
pub fn transform_path(path: Option<&str>, fs_root: &str) -> (r: Vec<String>)
    ensures
        texts(r@) == rooted_paths(
            match path {
                Some(p) => Some(p@),
                None => None,
            },
            fs_root@,
        ),
{
    let parts = match path {
        Some(p) => split_text(p, ':'),
        None => {
            let out: Vec<String> = Vec::new();
            assert(texts(out@) =~= Seq::<Seq<char>>::empty());
            return out;
        },
    };
    let ghost all = texts(parts@);
    let mut out: Vec<String> = Vec::new();
    let mut i: usize = 0;
    while i < parts.len()
        invariant
            i <= parts.len(),
            all == texts(parts@),
            out@.len() == i,
            forall|j: int| 0 <= j < i ==> (#[trigger] out@[j])@ == rooted(fs_root@, all[j]),
        decreases parts.len() - i,
    {
        let p = parts[i].as_str();
        assert(p@ == all[i as int]);
        let n = p.unicode_len();
        if n > 0 && p.get_char(0) == '/' {
            out.push(join_path(fs_root, p.substring_char(1, n)));
        } else {
            out.push(p.to_owned());
        }
        i = i + 1;
    }
    assert(texts(out@) =~= rooted_paths(Some(path->0@), fs_root@));
    out
}

/// How the gossip layer judges a member.
#[derive(Debug, Clone, Copy, PartialEq, Eq, Structural)]
pub enum Health {
    Alive,
    Suspect,
    Confirmed,
    Departed,
}

/// Where an election stands.
#[derive(Debug, Clone, Copy, PartialEq, Eq, Structural)]
pub enum ElectionStatus {
    /// No election was held.
    NoElection,
    ElectionInProgress,
    ElectionNoQuorum,
    ElectionFinished,
}

/// What templates are told of where an election stands.
#[derive(Debug, Clone, Copy, PartialEq, Eq, Structural)]
pub struct ElectionFlags {
    pub is_running: bool,
    pub is_no_quorum: bool,
    pub is_finished: bool,
}

/// What templates are told of the health of a member.
#[derive(Debug, Clone, Copy, PartialEq, Eq, Structural)]
pub struct HealthFlags {
    pub alive: bool,
    pub suspect: bool,
    pub confirmed: bool,
    pub departed: bool,
}

/// What templates are told of an election: at most one of the three holds.
pub fn election_flags(status: ElectionStatus) -> (r: ElectionFlags)
    ensures
        r.is_running == (status == ElectionStatus::ElectionInProgress),
        r.is_no_quorum == (status == ElectionStatus::ElectionNoQuorum),
        r.is_finished == (status == ElectionStatus::ElectionFinished),
{
    ElectionFlags {
        is_running: match status {
            ElectionStatus::ElectionInProgress => true,
            _ => false,
        },
        is_no_quorum: match status {
            ElectionStatus::ElectionNoQuorum => true,
            _ => false,
        },
        is_finished: match status {
            ElectionStatus::ElectionFinished => true,
            _ => false,
        },
    }
}

/// What templates are told of the health of a member: exactly one of the
/// four holds.
pub fn health_flags(health: Health) -> (r: HealthFlags)
    ensures
        r.alive == (health == Health::Alive),
        r.suspect == (health == Health::Suspect),
        r.confirmed == (health == Health::Confirmed),
        r.departed == (health == Health::Departed),
{
    HealthFlags {
        alive: match health {
            Health::Alive => true,
            _ => false,
        },
        suspect: match health {
            Health::Suspect => true,
            _ => false,
        },
        confirmed: match health {
            Health::Confirmed => true,
            _ => false,
        },
        departed: match health {
            Health::Departed => true,
            _ => false,
        },
    }
}

/// The place among `members` of the member that templates know as the
/// first of a group: the leader where there is one, else the member that
/// comes first. `leader` is the place of the leader.
pub fn select_first(leader: Option<usize>, members: usize) -> (r: Option<usize>)
    ensures
        r == match leader {
            Some(at) => Some(at),
            None => if members > 0 {
                Some(0usize)
            } else {
                None
            },
        },
{
    match leader {
        Some(at) => Some(at),
        None => {
            if members > 0 {
                Some(0)
            } else {
                None
            }
        },
    }
}

} // verus!
