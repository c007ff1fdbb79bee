//! What the command line asks of the manager.
//!
//! The words of the command line and of the environment are taken as they
//! were given; what they mean for the manager is laid down here. Names are
//! resolved and keys are fetched by whoever holds the words.

use vstd::prelude::*;
use vstd::string::*;
use crate::cli::{
    bldr_url, channel, peer_address, DEFAULT_BLDR_URL, DEFAULT_CHANNEL, GOSSIP_DEFAULT_PORT,
};
use crate::manager::config::{join_path, joined, ManagerConfig, STATE_PATH_PREFIX};
use crate::spec::{ServiceGroup, ServiceGroupView};
use crate::text::{copy_opt_text, opt_text};

verus! {

/// The words that bear on the manager, as they were given.
#[derive(Debug, PartialEq, Eq)]
pub struct ManagerInput {
    /// Whether the supervisor is to update itself.
    pub auto_update: bool,
    /// The depot that the user has named.
    pub bldr_url: Option<String>,
    /// The channel that the user has named.
    pub channel: Option<String>,
    /// The address to gossip on.
    pub listen_gossip: Option<String>,
    /// The address of the HTTP gateway.
    pub listen_http: Option<String>,
    /// The name of this supervisor among several on one machine.
    pub name: Option<String>,
    /// The organization of the supervisor.
    pub organization: Option<String>,
    /// Whether the supervisor is a permanent peer.
    pub permanent_peer: bool,
    /// The peers to gossip with at first.
    pub peers: Vec<String>,
    /// The name of the ring, from the command line.
    pub ring: Option<String>,
    /// The key of the ring, from the environment.
    pub ring_key_env: Option<String>,
    /// The name of the ring, from the environment.
    pub ring_env: Option<String>,
    /// The service group that takes events.
    pub events: Option<String>,
}

/// Where the key of the ring comes from.
#[derive(Debug, PartialEq, Eq)]
pub enum RingSource {
    /// The latest key of the ring with this name, from the cache of keys.
    Latest(String),
    /// This key, which is written to the cache of keys first.
    Given(String),
    /// There is no ring key: the gossip is not encrypted.
    NoRing,
}

/// The mathematical value of a `RingSource`.
pub enum RingSourceView {
    Latest(Seq<char>),
    Given(Seq<char>),
    NoRing,
}

impl View for RingSource {
    type V = RingSourceView;

    open spec fn view(&self) -> RingSourceView {
        match *self {
            RingSource::Latest(name) => RingSourceView::Latest(name@),
            RingSource::Given(key) => RingSourceView::Given(key@),
            RingSource::NoRing => RingSourceView::NoRing,
        }
    }
}

/// Where the key of the ring comes from: the name on the command line
/// counts first, then a key in the environment, then a name in the
/// environment.
pub open spec fn ring_source_of(
    ring: Option<Seq<char>>,
    ring_key_env: Option<Seq<char>>,
    ring_env: Option<Seq<char>>,
) -> RingSourceView {
    match ring {
        Some(name) => RingSourceView::Latest(name),
        None => match ring_key_env {
            Some(key) => RingSourceView::Given(key),
            None => match ring_env {
                Some(name) => RingSourceView::Latest(name),
                None => RingSourceView::NoRing,
            },
        },
    }
}

/// Where the key of the ring comes from.
pub fn ring_source(ring: Option<&str>, ring_key_env: Option<&str>, ring_env: Option<&str>) -> (r:
    RingSource)
    ensures
        r@ == ring_source_of(
            match ring {
                Some(s) => Some(s@),
                None => None,
            },
            match ring_key_env {
                Some(s) => Some(s@),
                None => None,
            },
            match ring_env {
                Some(s) => Some(s@),
                None => None,
            },
        ),
{
    match ring {
        Some(name) => RingSource::Latest(name.to_owned()),
        None => match ring_key_env {
            Some(key) => RingSource::Given(key.to_owned()),
            None => match ring_env {
                Some(name) => RingSource::Latest(name.to_owned()),
                None => RingSource::NoRing,
            },
        },
    }
}

/// The address of a peer as the user named it: with the default gossip
/// port where the user has named none.
pub open spec fn peer_address_of(peer: Seq<char>) -> Seq<char> {
    if peer.contains(':') {
        peer
    } else {
        peer.push(':') + GOSSIP_DEFAULT_PORT@
    }
}

/// What the words mean for the manager.
#[derive(Debug, PartialEq, Eq)]
pub struct ManagerPlan {
    /// The settings of the manager. They hold no ring key yet.
    pub cfg: ManagerConfig,
    /// Where the key of the ring comes from.
    pub ring: RingSource,
    /// Whether the user is to be warned against running several
    /// supervisors on one machine.
    pub caution: bool,
}

/// Reads the words that bear on the manager. What the user has not said
/// stays as the default settings have it. A supervisor with a name keeps
/// its state in the directory of that name, and the user who names one is
/// warned. Every peer gets the default port where it names none. A group
/// for events that is no service group is passed over.
pub fn mgrcfg_from_input(input: &ManagerInput) -> (r: ManagerPlan)
    ensures
        r.cfg.auto_update == input.auto_update,
        r.cfg.update_url@ == match input.bldr_url {
            Some(u) => u@,
            None => DEFAULT_BLDR_URL@,
        },
        r.cfg.update_channel@ == match input.channel {
            Some(c) => c@,
            None => DEFAULT_CHANNEL@,
        },
        r.cfg.gossip_listen@ == match input.listen_gossip {
            Some(a) => a@,
            None => "0.0.0.0:9638"@,
        },
        r.cfg.http_listen@ == match input.listen_http {
            Some(a) => a@,
            None => "0.0.0.0:9631"@,
        },
        r.cfg.ctl_listen@ == "127.0.0.1:9632"@,
        !r.cfg.http_disable,
        opt_text(r.cfg.custom_state_path) == match input.name {
            Some(n) => Some(joined(STATE_PATH_PREFIX@, n@)),
            None => None,
        },
        opt_text(r.cfg.organization) == opt_text(input.organization),
        r.cfg.gossip_permanent == input.permanent_peer,
        r.cfg.gossip_peers@.len() == input.peers@.len(),
        forall|i: int|
            0 <= i < input.peers@.len() ==> (#[trigger] r.cfg.gossip_peers@[i])@
                == peer_address_of(input.peers@[i]@),
        r.cfg.ring_key is None,
        r.cfg.watch_peer_file is None,
        r.cfg.tls_files is None,
        match r.cfg.eventsrv_group {
            Some(g) => input.events matches Some(e) && ServiceGroupView::parse(e@) == Some(g@),
            None => input.events matches Some(e) ==> ServiceGroupView::parse(e@) is None,
        },
        r.ring@ == ring_source_of(
            opt_text(input.ring),
            opt_text(input.ring_key_env),
            opt_text(input.ring_env),
        ),
        r.caution == (input.name is Some),
{
    let mut cfg = ManagerConfig::default();
    cfg.auto_update = input.auto_update;
    cfg.update_url = bldr_url(
        match &input.bldr_url {
            Some(u) => Some(u.as_str()),
            None => None,
        },
    );
    cfg.update_channel = channel(
        match &input.channel {
            Some(c) => Some(c.as_str()),
            None => None,
        },
    );
    match &input.listen_gossip {
        Some(a) => {
            cfg.gossip_listen = a.clone();
        },
        None => {},
    }
    match &input.listen_http {
        Some(a) => {
            cfg.http_listen = a.clone();
        },
        None => {},
    }
    let caution = match &input.name {
        Some(name) => {
            cfg.custom_state_path = Some(join_path(STATE_PATH_PREFIX, name.as_str()));
            true
        },
        None => false,
    };
    cfg.organization = copy_opt_text(&input.organization);
    cfg.gossip_permanent = input.permanent_peer;
    let mut peers: Vec<String> = Vec::new();
    let mut i: usize = 0;
    while i < input.peers.len()
        invariant
            i <= input.peers.len(),
            peers@.len() == i,
            forall|j: int|
                0 <= j < i ==> (#[trigger] peers@[j])@ == peer_address_of(input.peers@[j]@),
        decreases input.peers.len() - i,
    {
        peers.push(peer_address(input.peers[i].as_str()));
        i = i + 1;
    }
    cfg.gossip_peers = peers;
    match &input.events {
        Some(events) => {
            cfg.eventsrv_group = match ServiceGroup::from_str(events.as_str()) {
                Ok(group) => Some(group),
                Err(_) => None,
            };
        },
        None => {},
    }
    let ring = ring_source(
        match &input.ring {
            Some(s) => Some(s.as_str()),
            None => None,
        },
        match &input.ring_key_env {
            Some(s) => Some(s.as_str()),
            None => None,
        },
        match &input.ring_env {
            Some(s) => Some(s.as_str()),
            None => None,
        },
    );
    ManagerPlan { cfg, ring, caution }
}

} // verus!
