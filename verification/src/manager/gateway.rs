//! What the manager publishes for the gateways to read, and what it keeps
//! on disk between runs.
//!
//! The gateways never look at the live services. They read the views that
//! the manager last published: whole texts, each swapped for the next one
//! in a single step.

use vstd::prelude::*;
use vstd::string::*;
use crate::ident::{PackageIdent, PackageIdentView};
use crate::spec::{specs_view, ServiceSpec, ServiceSpecView};
use crate::spec_path::{extension, path_extension};
use crate::text::{opt_text, same_text};

verus! {

/// The name under which a token for the gateway is looked for in the
/// environment.
pub const GATEWAY_AUTH_TOKEN_ENVVAR: &'static str = "HAB_SUP_GATEWAY_AUTH_TOKEN";

/// The views that the gateways read.
#[derive(Debug, PartialEq, Eq)]
pub struct GatewayState {
    /// The census, as last published.
    pub census_data: String,
    /// What the gossip layer holds, as last published.
    pub butterfly_data: String,
    /// The services, as last published.
    pub services_data: String,
    /// The token that a caller of the gateway must present, if any.
    pub auth_token: Option<String>,
}

impl Default for GatewayState {
    fn default() -> (r: GatewayState)
        ensures
            r.census_data@.len() == 0,
            r.butterfly_data@.len() == 0,
            r.services_data@.len() == 0,
            r.auth_token is None,
    {
        GatewayState {
            census_data: String::new(),
            butterfly_data: String::new(),
            services_data: String::new(),
            auth_token: None,
        }
    }
}

impl GatewayState {
    /// The views of a supervisor that has published nothing yet, with the
    /// token that the environment holds, if it holds one.
    pub fn new(auth_token: Option<&str>) -> (r: GatewayState)
        ensures
            r.census_data@.len() == 0,
            r.butterfly_data@.len() == 0,
            r.services_data@.len() == 0,
            opt_text(r.auth_token) == match auth_token {
                Some(t) => Some(t@),
                None => None,
            },
    {
        GatewayState {
            census_data: String::new(),
            butterfly_data: String::new(),
            services_data: String::new(),
            auth_token: match auth_token {
                Some(t) => Some(t.to_owned()),
                None => None,
            },
        }
    }

    /// Publishes the census, the gossip and the services anew. Nothing
    /// else changes.
    pub fn persist_state(&mut self, census: String, butterfly: String, services: String)
        ensures
            *final(self) == (GatewayState {
                census_data: census,
                butterfly_data: butterfly,
                services_data: services,
                ..*old(self)
            }),
    {
        self.census_data = census;
        self.butterfly_data = butterfly;
        self.services_data = services;
    }

    /// Whether a caller that presents `token` may use the gateway: anyone
    /// may where no token is set, else only who presents the token that
    /// is set.
    pub fn admits(&self, token: Option<&str>) -> (r: bool)
        ensures
            r == match self.auth_token {
                None => true,
                Some(wanted) => token matches Some(t) && t@ == wanted@,
            },
    {
        match &self.auth_token {
            None => true,
            Some(wanted) => match token {
                Some(t) => same_text(t, wanted.as_str()),
                None => false,
            },
        }
    }
}

/// Whether a file in the data directory is left over from an earlier run
/// and is to be removed at the start: temporary files and cached health
/// checks are.
pub fn clean_dirty_state(path: &str) -> (r: bool)
    ensures
        r == (extension(path@) == Some("tmp"@) || extension(path@) == Some("health"@)),
{
    match path_extension(path) {
        Some(ext) => same_text(ext, "tmp") || same_text(ext, "health"),
        None => false,
    }
}

/// Whether one of `idents` is the package `ident`.
pub open spec fn has_ident(idents: Seq<PackageIdent>, ident: PackageIdentView) -> bool {
    exists|i: int| 0 <= i < idents.len() && (#[trigger] idents[i])@ == ident
}

/// The specs among the first `n` of `loaded` whose package is not running.
pub open spec fn watched_upto(loaded: Seq<ServiceSpec>, running: Seq<PackageIdent>, n: int) -> Seq<
    ServiceSpecView,
>
    decreases n,
{
    if n <= 0 {
        Seq::empty()
    } else {
        let before = watched_upto(loaded, running, n - 1);
        if has_ident(running, loaded[n - 1]@.ident) {
            before
        } else {
            before.push(loaded[n - 1]@)
        }
    }
}

/// Whether one of `idents` is the package `ident`.
pub fn contains_ident(idents: &Vec<PackageIdent>, ident: &PackageIdent) -> (r: bool)
    ensures
        r == has_ident(idents@, ident@),
{
    let mut i: usize = 0;
    while i < idents.len()
        invariant
            i <= idents.len(),
            forall|j: int| 0 <= j < i ==> (#[trigger] idents@[j])@ != ident@,
        decreases idents.len() - i,
    {
        if idents[i].same(ident) {
            return true;
        }
        i = i + 1;
    }
    false
}

/// The services that are watched without running: those of the specs on
/// disk whose package is not among the running ones, in the order of the
/// specs. They are published beside the running services.
pub fn watched_services(loaded: &Vec<ServiceSpec>, running: &Vec<PackageIdent>) -> (r: Vec<
    ServiceSpec,
>)
    ensures
        specs_view(r@) == watched_upto(loaded@, running@, loaded@.len() as int),
{
    let mut out: Vec<ServiceSpec> = Vec::new();
    let mut i: usize = 0;
    assert(specs_view(out@) =~= watched_upto(loaded@, running@, 0));
    while i < loaded.len()
        invariant
            i <= loaded.len(),
            specs_view(out@) == watched_upto(loaded@, running@, i as int),
        decreases loaded.len() - i,
    {
        if !contains_ident(running, &loaded[i].ident) {
            let ghost before = specs_view(out@);
            out.push(loaded[i].clone());
            assert(specs_view(out@) =~= before.push(loaded@[i as int]@));
        }
        i = i + 1;
    }
    out
}

/// Whether the peers are to be read from the peer file anew: if the gossip
/// layer wants peers, a peer file is watched, and it has changed.
pub fn update_peers_from_watch_file(need_peer_seeding: bool, watches_file: bool, has_events: bool) -> (r:
    bool)
    ensures
        r == (need_peer_seeding && watches_file && has_events),
{
    need_peer_seeding && watches_file && has_events
}

} // verus!
