//! What the command line asks of a spec.
//!
//! The words of the command line are read into settings first; a word that
//! does not stand for what it should is an error there. The settings are
//! then laid over a spec: over the default spec of a package for a new
//! service, over the spec on disk for a service that is loaded again, where
//! only what the user has said changes anything.

use vstd::prelude::*;
use vstd::string::*;
use crate::error::Error;
use crate::ident::{PackageIdent, PackageIdentView};
use crate::spec::{
    binds_view, copy_binds, copy_opt_app_env, opt_app_env, ApplicationEnvironment,
    ApplicationEnvironmentView, DesiredState, ServiceBind, ServiceBindView, ServiceGroup,
    ServiceGroupView, ServiceSpec, ServiceSpecView, StartStyle, Topology, UpdateStrategy,
};
use crate::text::{copy_opt_text, opt_text, same_text};

verus! {

/// The depot that packages come from where nothing else is said.
pub const DEFAULT_BLDR_URL: &'static str = "https://bldr.habitat.sh";

/// The channel that packages come from where nothing else is said.
pub const DEFAULT_CHANNEL: &'static str = "stable";

/// The port on which peers gossip where nothing else is said.
pub const GOSSIP_DEFAULT_PORT: &'static str = "9638";

/// The words of the command line that bear on a spec, as they were given.
#[derive(Debug, PartialEq, Eq)]
pub struct UserInput {
    pub group: Option<String>,
    pub application: Option<String>,
    pub environment: Option<String>,
    pub bldr_url: Option<String>,
    pub channel: Option<String>,
    pub topology: Option<String>,
    pub strategy: Option<String>,
    pub binds: Option<Vec<String>>,
    pub config_from: Option<String>,
    pub password: Option<String>,
}

/// What the user has said of a spec, read.
#[derive(Debug, PartialEq, Eq)]
pub struct Settings {
    pub group: Option<String>,
    pub application_environment: Option<ApplicationEnvironment>,
    pub bldr_url: Option<String>,
    pub channel: Option<String>,
    pub topology: Option<Topology>,
    pub strategy: Option<UpdateStrategy>,
    pub binds: Option<Vec<ServiceBind>>,
    pub config_from: Option<String>,
    pub password: Option<String>,
}

/// The mathematical value of `Settings`.
pub struct SettingsView {
    pub group: Option<Seq<char>>,
    pub application_environment: Option<ApplicationEnvironmentView>,
    pub bldr_url: Option<Seq<char>>,
    pub channel: Option<Seq<char>>,
    pub topology: Option<Topology>,
    pub strategy: Option<UpdateStrategy>,
    pub binds: Option<Seq<ServiceBindView>>,
    pub config_from: Option<Seq<char>>,
    pub password: Option<Seq<char>>,
}

impl View for Settings {
    type V = SettingsView;

    open spec fn view(&self) -> SettingsView {
        SettingsView {
            group: opt_text(self.group),
            application_environment: opt_app_env(self.application_environment),
            bldr_url: opt_text(self.bldr_url),
            channel: opt_text(self.channel),
            topology: self.topology,
            strategy: self.strategy,
            binds: match self.binds {
                Some(b) => Some(binds_view(b@)),
                None => None,
            },
            config_from: opt_text(self.config_from),
            password: opt_text(self.password),
        }
    }
}

/// A setting where the user has made one, else what was there.
pub open spec fn or_kept<T>(setting: Option<T>, kept: T) -> T {
    match setting {
        Some(v) => v,
        None => kept,
    }
}

/// A setting where the user has made one, else what was there, if
/// anything.
pub open spec fn or_kept_opt<T>(setting: Option<T>, kept: Option<T>) -> Option<T> {
    match setting {
        Some(v) => Some(v),
        None => kept,
    }
}

impl SettingsView {
    /// The settings laid over a spec: what the user has said replaces what
    /// the spec holds, and everything else stays.
    pub open spec fn over(self, spec: ServiceSpecView) -> ServiceSpecView {
        ServiceSpecView {
            bldr_url: or_kept(self.bldr_url, spec.bldr_url),
            channel: or_kept(self.channel, spec.channel),
            application_environment: or_kept_opt(
                self.application_environment,
                spec.application_environment,
            ),
            group: or_kept(self.group, spec.group),
            update_strategy: or_kept(self.strategy, spec.update_strategy),
            topology: or_kept(self.topology, spec.topology),
            binds: or_kept(self.binds, spec.binds),
            config_from: or_kept_opt(self.config_from, spec.config_from),
            svc_encrypted_password: or_kept_opt(self.password, spec.svc_encrypted_password),
            ..spec
        }
    }

    /// The spec of a new service of the package `ident`: the default spec
    /// with the settings laid over it.
    pub open spec fn new_spec(self, ident: PackageIdentView) -> ServiceSpecView {
        self.over(ServiceSpecView::default_for(ident))
    }
}

/// The depot to get packages from: the one the user has named, else the
/// default one.
pub fn bldr_url(from_input: Option<&str>) -> (r: String)
    ensures
        r@ == match from_input {
            Some(u) => u@,
            None => DEFAULT_BLDR_URL@,
        },
{
    match from_input {
        Some(url) => url.to_owned(),
        None => DEFAULT_BLDR_URL.to_owned(),
    }
}

/// The depot that the user has named: on the command line first, in the
/// environment else.
pub fn bldr_url_from_input(argument: Option<&str>, from_env: Option<&str>) -> (r: Option<String>)
    ensures
        opt_text(r) == match argument {
            Some(u) => Some(u@),
            None => match from_env {
                Some(u) => Some(u@),
                None => None,
            },
        },
{
    match argument {
        Some(url) => Some(url.to_owned()),
        None => match from_env {
            Some(url) => Some(url.to_owned()),
            None => None,
        },
    }
}

/// The channel to get packages from: the one the user has named, else the
/// default one.
pub fn channel(from_input: Option<&str>) -> (r: String)
    ensures
        r@ == match from_input {
            Some(c) => c@,
            None => DEFAULT_CHANNEL@,
        },
{
    match from_input {
        Some(channel) => channel.to_owned(),
        None => DEFAULT_CHANNEL.to_owned(),
    }
}

/// Lays what the user has said over a spec.
pub fn update_spec_from_user(spec: &mut ServiceSpec, settings: &Settings)
    ensures
        final(spec)@ == settings@.over(old(spec)@),
{
    match &settings.bldr_url {
        Some(url) => {
            spec.bldr_url = url.clone();
        },
        None => {},
    }
    match &settings.channel {
        Some(channel) => {
            spec.channel = channel.clone();
        },
        None => {},
    }
    match &settings.application_environment {
        Some(ae) => {
            spec.application_environment = Some(ae.clone());
        },
        None => {},
    }
    match &settings.group {
        Some(g) => {
            spec.group = g.clone();
        },
        None => {},
    }
    match settings.strategy {
        Some(s) => {
            spec.update_strategy = s;
        },
        None => {},
    }
    match settings.topology {
        Some(t) => {
            spec.topology = t;
        },
        None => {},
    }
    match &settings.binds {
        Some(binds) => {
            spec.binds = copy_binds(binds);
        },
        None => {},
    }
    match &settings.config_from {
        Some(dir) => {
            spec.config_from = Some(dir.clone());
        },
        None => {},
    }
    match &settings.password {
        Some(p) => {
            spec.svc_encrypted_password = Some(p.clone());
        },
        None => {},
    }
}

/// The spec of a new service of the package `ident`: the default spec with
/// what the user has said laid over it.
pub fn new_service_spec(ident: PackageIdent, settings: &Settings) -> (r: ServiceSpec)
    ensures
        r@ == settings@.new_spec(ident@),
{
    let mut spec = ServiceSpec::default_for(ident);
    update_spec_from_user(&mut spec, settings);
    spec
}

/// Whether `e` is the error that reading the bind `s` gives: that `s` is
/// no bind, where it is not a name and a group with one `:` between them,
/// else that its group is no service group.
pub open spec fn is_bind_error(e: Error, s: Seq<char>) -> bool {
    if crate::text::split(s, ':').len() != 2 {
        e matches Error::InvalidBinding(t) && t@ == s
    } else {
        e matches Error::InvalidServiceGroup(t) && t@ == crate::text::split(s, ':')[1]
    }
}

/// The place of the first of `binds` that is no bind; the number of binds
/// if all of them are.
pub open spec fn first_bad_bind(binds: Seq<String>) -> int
    decreases binds.len(),
{
    if binds.len() == 0 {
        0
    } else if ServiceBindView::parse(binds.first()@) is None {
        0
    } else {
        1 + first_bad_bind(binds.drop_first())
    }
}

proof fn lemma_first_bad_bind(binds: Seq<String>, i: int)
    requires
        0 <= i <= binds.len(),
        forall|j: int| 0 <= j < i ==> ServiceBindView::parse((#[trigger] binds[j])@) is Some,
        i < binds.len() ==> ServiceBindView::parse(binds[i]@) is None,
    ensures
        first_bad_bind(binds) == i,
    decreases binds.len(),
{
    if binds.len() > 0 && i > 0 {
        assert(ServiceBindView::parse(binds[0]@) is Some);
        let rest = binds.drop_first();
        assert forall|j: int| 0 <= j < i - 1 implies ServiceBindView::parse(
            (#[trigger] rest[j])@,
        ) is Some by {
            assert(rest[j] == binds[j + 1]);
        }
        if i < binds.len() {
            assert(rest[i - 1] == binds[i]);
        }
        lemma_first_bad_bind(rest, i - 1);
    }
}

/// Reads the binds that the user has given, in order. The first that is
/// none is the error.
pub fn read_binds(binds: &Vec<String>) -> (r: Result<Vec<ServiceBind>, Error>)
    ensures
        match r {
            Ok(read) => first_bad_bind(binds@) == binds@.len() && read@.len() == binds@.len()
                && forall|i: int|
                0 <= i < binds@.len() ==> ServiceBindView::parse(binds@[i]@) == Some(
                    (#[trigger] read@[i])@,
                ),
            Err(e) => first_bad_bind(binds@) < binds@.len() && is_bind_error(
                e,
                binds@[first_bad_bind(binds@)]@,
            ),
        },
{
    let mut out: Vec<ServiceBind> = Vec::new();
    let mut i: usize = 0;
    while i < binds.len()
        invariant
            i <= binds.len(),
            out@.len() == i,
            forall|j: int|
                0 <= j < i ==> ServiceBindView::parse(binds@[j]@) == Some((#[trigger] out@[j])@),
        decreases binds.len() - i,
    {
        match ServiceBind::from_str(binds[i].as_str()) {
            Ok(bind) => out.push(bind),
            Err(e) => {
                proof {
                    assert forall|j: int| 0 <= j < i implies ServiceBindView::parse(
                        (#[trigger] binds@[j])@,
                    ) is Some by {
                        assert(ServiceBindView::parse(binds@[j]@) == Some(out@[j]@));
                    }
                    lemma_first_bad_bind(binds@, i as int);
                }
                return Err(e);
            },
        }
        i = i + 1;
    }
    proof {
        assert forall|j: int| 0 <= j < i implies ServiceBindView::parse((#[trigger] binds@[j])@) is Some by {
            assert(ServiceBindView::parse(binds@[j]@) == Some(out@[j]@));
        }
        lemma_first_bad_bind(binds@, i as int);
    }
    Ok(out)
}

/// Whether the user has named an application environment that is none.
pub open spec fn bad_app_env(input: UserInput) -> bool {
    input.application is Some && input.environment is Some && !(crate::spec::is_name(
        input.application->0@,
    ) && crate::spec::is_name(input.environment->0@))
}

/// Whether the user has named an update strategy that is none.
pub open spec fn bad_strategy(input: UserInput) -> bool {
    input.strategy is Some && UpdateStrategy::parse(input.strategy->0@) is None
}

/// Whether the user has named a topology that is none.
pub open spec fn bad_topology(input: UserInput) -> bool {
    input.topology is Some && Topology::parse(input.topology->0@) is None
}

/// Whether the user has given a bind that is none.
pub open spec fn bad_binds(input: UserInput) -> bool {
    input.binds is Some && first_bad_bind(input.binds->0@) < input.binds->0@.len()
}

/// Reads the words of the command line into settings. An application
/// counts only together with an environment. The first word that does not
/// stand for what it should is the error: the application environment is
/// looked at first, then the update strategy, the topology and the binds.
pub fn read_settings(input: &UserInput) -> (r: Result<Settings, Error>)
    ensures
        match r {
            Ok(settings) => {
                &&& !bad_app_env(*input) && !bad_strategy(*input) && !bad_topology(*input)
                    && !bad_binds(*input)
                &&& settings@.group == opt_text(input.group)
                &&& settings@.bldr_url == opt_text(input.bldr_url)
                &&& settings@.channel == opt_text(input.channel)
                &&& settings@.config_from == opt_text(input.config_from)
                &&& settings@.password == opt_text(input.password)
                &&& match (input.application, input.environment) {
                    (Some(a), Some(e)) => settings@.application_environment == Some(
                        ApplicationEnvironmentView { application: a@, environment: e@ },
                    ),
                    _ => settings@.application_environment is None,
                }
                &&& match input.strategy {
                    Some(s) => settings.strategy is Some && UpdateStrategy::parse(s@)
                        == settings.strategy,
                    None => settings.strategy is None,
                }
                &&& match input.topology {
                    Some(t) => settings.topology is Some && Topology::parse(t@) == settings.topology,
                    None => settings.topology is None,
                }
                &&& match input.binds {
                    Some(b) => settings.binds is Some && settings.binds->0@.len() == b@.len()
                        && forall|i: int|
                        0 <= i < b@.len() ==> ServiceBindView::parse(b@[i]@) == Some(
                            (#[trigger] settings.binds->0@[i])@,
                        ),
                    None => settings.binds is None,
                }
            },
            Err(e) => if bad_app_env(*input) {
                e matches Error::InvalidApplicationEnvironment(t) && t@ == (
                input.application->0@.push('.') + input.environment->0@)
            } else if bad_strategy(*input) {
                e matches Error::InvalidUpdateStrategy(t) && t@ == input.strategy->0@
            } else if bad_topology(*input) {
                e matches Error::InvalidTopology(t) && t@ == input.topology->0@
            } else {
                bad_binds(*input) && is_bind_error(
                    e,
                    input.binds->0@[first_bad_bind(input.binds->0@)]@,
                )
            },
        },
{
    let application_environment = match (&input.application, &input.environment) {
        (Some(app), Some(env)) => match ApplicationEnvironment::new(app.as_str(), env.as_str()) {
            Ok(ae) => Some(ae),
            Err(e) => {
                return Err(e);
            },
        },
        _ => None,
    };
    let strategy = match &input.strategy {
        Some(s) => match UpdateStrategy::from_str(s.as_str()) {
            Ok(v) => Some(v),
            Err(e) => {
                return Err(e);
            },
        },
        None => None,
    };
    let topology = match &input.topology {
        Some(t) => match Topology::from_str(t.as_str()) {
            Ok(v) => Some(v),
            Err(e) => {
                return Err(e);
            },
        },
        None => None,
    };
    let binds = match &input.binds {
        Some(b) => match read_binds(b) {
            Ok(v) => Some(v),
            Err(e) => {
                return Err(e);
            },
        },
        None => None,
    };
    Ok(
        Settings {
            group: copy_opt_text(&input.group),
            application_environment,
            bldr_url: copy_opt_text(&input.bldr_url),
            channel: copy_opt_text(&input.channel),
            topology,
            strategy,
            binds,
            config_from: copy_opt_text(&input.config_from),
            password: copy_opt_text(&input.password),
        },
    )
}

/// Whether `val` names a service group; the words of the error otherwise.
pub fn valid_service_group(val: &str) -> (r: Result<(), String>)
    ensures
        r is Ok <==> ServiceGroupView::parse(val@) is Some,
        r matches Err(msg) ==> msg@ == "Service group: '"@ + val@ + "' is not valid"@,
{
    match ServiceGroup::validate(val) {
        Ok(_) => Ok(()),
        Err(_) => Err(not_valid("Service group: '", val)),
    }
}

/// Whether `val` names a topology; the words of the error otherwise.
pub fn valid_topology(val: &str) -> (r: Result<(), String>)
    ensures
        r is Ok <==> Topology::parse(val@) is Some,
        r matches Err(msg) ==> msg@ == "Service topology: '"@ + val@ + "' is not valid"@,
{
    match Topology::from_str(val) {
        Ok(_) => Ok(()),
        Err(_) => Err(not_valid("Service topology: '", val)),
    }
}

/// Whether `val` names an update strategy; the words of the error
/// otherwise.
pub fn valid_update_strategy(val: &str) -> (r: Result<(), String>)
    ensures
        r is Ok <==> UpdateStrategy::parse(val@) is Some,
        r matches Err(msg) ==> msg@ == "Update strategy: '"@ + val@ + "' is not valid"@,
{
    match UpdateStrategy::from_str(val) {
        Ok(_) => Ok(()),
        Err(_) => Err(not_valid("Update strategy: '", val)),
    }
}

/// The words that tell that `val` is not valid as what `what` names.
fn not_valid(what: &str, val: &str) -> (r: String)
    ensures
        r@ == what@ + val@ + "' is not valid"@,
{
    let mut msg = what.to_owned();
    msg.append(val);
    msg.append("' is not valid");
    msg
}

/// Whether `url::Url::parse` takes a text as an absolute URL.
pub uninterp spec fn is_url(s: Seq<char>) -> bool;

/// `url::Url::parse`, asked only whether it takes `val` as an absolute URL.
#[verifier::external_body]
fn parses_as_url(val: &str) -> (r: bool)
    ensures
        r == is_url(val@),
{
    url::Url::parse(val).is_ok()
}

/// What is told of a URL of which it is known whether it is one: nothing
/// if it is, the words of the error otherwise.
pub fn url_validity(val: &str, is_one: bool) -> (r: Result<(), String>)
    ensures
        r is Ok <==> is_one,
        r matches Err(msg) ==> msg@ == "URL: '"@ + val@ + "' is not valid"@,
{
    if is_one {
        Ok(())
    } else {
        Err(not_valid("URL: '", val))
    }
}

/// Whether `val` is an absolute URL; the words of the error otherwise.
pub fn valid_url(val: &str) -> (r: Result<(), String>)
    ensures
        r is Ok <==> is_url(val@),
        r matches Err(msg) ==> msg@ == "URL: '"@ + val@ + "' is not valid"@,
{
    url_validity(val, parses_as_url(val))
}

/// Whether `s` holds the character `c`.
pub fn holds(s: &str, c: char) -> (r: bool)
    ensures
        r == s@.contains(c),
{
    let n = s.unicode_len();
    let mut i: usize = 0;
    while i < n
        invariant
            i <= n,
            n == s@.len(),
            forall|j: int| 0 <= j < i ==> s@[j] != c,
        decreases n - i,
    {
        if s.get_char(i) == c {
            return true;
        }
        i = i + 1;
    }
    false
}

/// The address of a peer as the user named it: with the default gossip
/// port where the user has named none.
pub fn peer_address(peer: &str) -> (r: String)
    ensures
        r@ == if peer@.contains(':') {
            peer@
        } else {
            peer@.push(':') + GOSSIP_DEFAULT_PORT@
        },
{
    if holds(peer, ':') {
        peer.to_owned()
    } else {
        proof {
            reveal_strlit(":");
        }
        let mut out = peer.to_owned();
        out.append(":");
        assert(out@ =~= peer@.push(':'));
        out.append(GOSSIP_DEFAULT_PORT);
        out
    }
}

/// Whether a feature is switched on by what the environment holds for it:
/// by `true` or `TRUE`, and by nothing else.
pub fn feature_enabled(value: Option<&str>) -> (r: bool)
    ensures
        r == (value matches Some(v) && (v@ == "true"@ || v@ == "TRUE"@)),
{
    match value {
        Some(v) => same_text(v, "true") || same_text(v, "TRUE"),
        None => false,
    }
}

/// What loading a service does whose spec exists already.
#[derive(Debug, PartialEq, Eq)]
pub struct LoadPlan {
    /// The spec to write.
    pub spec: ServiceSpec,
    /// Whether the package is to be installed first: it is where the
    /// package has changed and no update strategy would bring it.
    pub install: bool,
}

/// Loads a service again whose spec exists: without force that is an
/// error. With force the spec takes the package `ident` and what the user
/// has said, and is persistent from now on.
pub fn load_existing(spec: ServiceSpec, ident: PackageIdent, settings: &Settings, force: bool) -> (r:
    Result<LoadPlan, Error>)
    ensures
        match r {
            Ok(plan) => {
                let updated = settings@.over(ServiceSpecView { ident: ident@, ..spec@ });
                &&& force
                &&& plan.spec@ == (ServiceSpecView { start_style: StartStyle::Persistent, ..updated })
                &&& plan.install == (spec@.ident != ident@ && updated.update_strategy
                    == UpdateStrategy::Never)
            },
            Err(e) => !force && (e matches Error::ServiceLoaded(t) && t@ == spec@.ident.text()),
        },
{
    if !force {
        return Err(Error::ServiceLoaded(spec.ident.to_string()));
    }
    let mut spec = spec;
    let ident_changed = !ident.same(&spec.ident);
    spec.ident = ident;
    update_spec_from_user(&mut spec, settings);
    let strategy_is_none = match spec.update_strategy {
        UpdateStrategy::Never => true,
        _ => false,
    };
    spec.start_style = StartStyle::Persistent;
    Ok(LoadPlan { spec, install: ident_changed && strategy_is_none })
}

/// What starting a service does whose spec exists already.
#[derive(Debug, PartialEq, Eq)]
pub enum StartPlan {
    /// The service was down: write this spec, which asks for it to be up.
    BringUp(ServiceSpec),
    /// The service is up already and no supervisor runs: run one.
    RunSupervisor,
    /// The service is up already and a supervisor runs: leave, with the
    /// exit code that tells not to try again.
    AlreadyRunning,
}

/// Starts a service whose spec exists already.
pub fn start_existing(spec: ServiceSpec, supervisor_running: bool) -> (r: StartPlan)
    ensures
        match r {
            StartPlan::BringUp(up) => spec.desired_state == DesiredState::Down && up@ == (
            ServiceSpecView { desired_state: DesiredState::Up, ..spec@ }),
            StartPlan::RunSupervisor => spec.desired_state == DesiredState::Up
                && !supervisor_running,
            StartPlan::AlreadyRunning => spec.desired_state == DesiredState::Up
                && supervisor_running,
        },
{
    match spec.desired_state {
        DesiredState::Down => {
            let mut spec = spec;
            spec.desired_state = DesiredState::Up;
            StartPlan::BringUp(spec)
        },
        DesiredState::Up => {
            if supervisor_running {
                StartPlan::AlreadyRunning
            } else {
                StartPlan::RunSupervisor
            }
        },
    }
}

/// The spec of a service that is asked to stop: the same spec, meant to be
/// down.
pub fn stopped_spec(spec: ServiceSpec) -> (r: ServiceSpec)
    ensures
        r@ == (ServiceSpecView { desired_state: DesiredState::Down, ..spec@ }),
{
    let mut spec = spec;
    spec.desired_state = DesiredState::Down;
    spec
}

/// The spec of a service that is loaded: the same spec, persistent.
pub fn loaded_spec(spec: ServiceSpec) -> (r: ServiceSpec)
    ensures
        r@ == (ServiceSpecView { start_style: StartStyle::Persistent, ..spec@ }),
{
    let mut spec = spec;
    spec.start_style = StartStyle::Persistent;
    spec
}

/// One bind of a service in a composite: the name of the bind and the
/// name of the service of the composite that satisfies it.
#[derive(Debug, PartialEq, Eq)]
pub struct BindMapping {
    pub bind_name: String,
    pub satisfying_service: String,
}

/// The bind that a mapping in a composite gives to a service with the spec
/// `spec`: to the group of the satisfying service that has the name of
/// the spec's own group and its application environment, in no
/// organization.
pub open spec fn composite_bind(spec: ServiceSpecView, name: Seq<char>, service: Seq<char>) -> ServiceBindView {
    ServiceBindView {
        name,
        service_group: ServiceGroupView {
            application_environment: spec.application_environment,
            service,
            group: spec.group,
            organization: None,
        },
    }
}

/// The binds that the mappings of a composite give to a service.
pub fn composite_binds(spec: &ServiceSpec, mappings: &Vec<BindMapping>) -> (r: Vec<ServiceBind>)
    ensures
        r@.len() == mappings@.len(),
        forall|i: int|
            0 <= i < r@.len() ==> (#[trigger] r@[i])@ == composite_bind(
                spec@,
                mappings@[i].bind_name@,
                mappings@[i].satisfying_service@,
            ),
{
    let mut out: Vec<ServiceBind> = Vec::new();
    let mut i: usize = 0;
    while i < mappings.len()
        invariant
            i <= mappings.len(),
            out@.len() == i,
            forall|j: int|
                0 <= j < i ==> (#[trigger] out@[j])@ == composite_bind(
                    spec@,
                    mappings@[j].bind_name@,
                    mappings@[j].satisfying_service@,
                ),
        decreases mappings.len() - i,
    {
        let app_env = match &spec.application_environment {
            Some(ae) => Some(ae),
            None => None,
        };
        let group = ServiceGroup::new(
            app_env,
            mappings[i].satisfying_service.as_str(),
            spec.group.as_str(),
            None,
        );
        out.push(ServiceBind { name: mappings[i].bind_name.clone(), service_group: group });
        i = i + 1;
    }
    out
}

/// The spec of one service of a composite named `composite`: the default
/// spec with what the user has said laid over it, but for binds and a
/// directory of configuration, which belong to one service alone.
/// `mappings` holds the binds that the composite maps for the service, if
/// it maps any.
pub fn composite_member_spec(
    settings: &Settings,
    composite: &str,
    service: PackageIdent,
    mappings: Option<&Vec<BindMapping>>,
) -> (r: ServiceSpec)
    ensures
        r@.ident == service@,
        r@.composite == Some(composite@),
        r@.group == or_kept(settings@.group, "default"@),
        r@.bldr_url == or_kept(settings@.bldr_url, DEFAULT_BLDR_URL@),
        r@.channel == or_kept(settings@.channel, DEFAULT_CHANNEL@),
        r@.application_environment == settings@.application_environment,
        r@.update_strategy == or_kept(settings@.strategy, UpdateStrategy::Never),
        r@.topology == or_kept(settings@.topology, Topology::Standalone),
        r@.svc_encrypted_password == settings@.password,
        r@.config_from is None,
        r@.desired_state == DesiredState::Up,
        r@.start_style == StartStyle::Transient,
        match mappings {
            Some(m) => r@.binds.len() == m@.len() && forall|i: int|
                0 <= i < m@.len() ==> #[trigger] r@.binds[i] == composite_bind(
                    r@,
                    m@[i].bind_name@,
                    m@[i].satisfying_service@,
                ),
            None => r@.binds.len() == 0,
        },
{
    let mut spec = ServiceSpec::default();
    let shared = Settings {
        group: copy_opt_text(&settings.group),
        application_environment: copy_opt_app_env(&settings.application_environment),
        bldr_url: copy_opt_text(&settings.bldr_url),
        channel: copy_opt_text(&settings.channel),
        topology: settings.topology,
        strategy: settings.strategy,
        binds: None,
        config_from: None,
        password: copy_opt_text(&settings.password),
    };
    update_spec_from_user(&mut spec, &shared);
    spec.composite = Some(composite.to_owned());
    spec.ident = service;
    match mappings {
        Some(m) => {
            let binds = composite_binds(&spec, m);
            spec.binds = binds;
            assert(binds_view(spec.binds@).len() == m@.len());
        },
        None => {},
    }
    spec
}

} // verus!
