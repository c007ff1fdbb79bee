//! Service specs: the declared, desired state of one service.

use vstd::prelude::*;
use vstd::string::*;
use crate::error::Error;
use crate::ident::{PackageIdent, PackageIdentView};
use crate::text::{
    copy_opt_text, lemma_split_nonempty, opt_text, same_opt_text, same_text, split, split_text, texts,
};

verus! {

/// Whether a service is meant to run.
#[derive(Debug, Clone, Copy, PartialEq, Eq, Structural)]
pub enum DesiredState {
    Down,
    Up,
}

/// Whether a service outlives the supervisor's restart.
#[derive(Debug, Clone, Copy, PartialEq, Eq, Structural)]
pub enum StartStyle {
    Persistent,
    Transient,
}

/// How a service group takes up a newer package.
#[derive(Debug, Clone, Copy, PartialEq, Eq, Structural)]
pub enum UpdateStrategy {
    /// The service is never updated by the supervisor.
    Never,
    AtOnce,
    Rolling,
}

/// Whether the members of a service group elect a leader.
#[derive(Debug, Clone, Copy, PartialEq, Eq, Structural)]
pub enum Topology {
    Standalone,
    Leader,
}

impl DesiredState {
    /// The state that a name stands for.
    pub open spec fn parse(s: Seq<char>) -> Option<DesiredState> {
        if s == "up"@ {
            Some(DesiredState::Up)
        } else if s == "down"@ {
            Some(DesiredState::Down)
        } else {
            None
        }
    }

    /// Reads `up` or `down`.
    pub fn from_str(s: &str) -> (r: Result<DesiredState, Error>)
        ensures
            match r {
                Ok(v) => Self::parse(s@) == Some(v),
                Err(e) => {
                    &&& Self::parse(s@) is None
                    &&& e matches Error::InvalidDesiredState(t)
                    &&& t@ == s@
                },
            },
    {
        if same_text(s, "up") {
            Ok(DesiredState::Up)
        } else if same_text(s, "down") {
            Ok(DesiredState::Down)
        } else {
            Err(Error::InvalidDesiredState(s.to_owned()))
        }
    }

    /// The name of the state.
    pub fn as_str(&self) -> (r: &'static str)
        ensures
            r@ == match *self {
                DesiredState::Up => "up"@,
                DesiredState::Down => "down"@,
            },
    {
        match self {
            DesiredState::Up => "up",
            DesiredState::Down => "down",
        }
    }
}

impl StartStyle {
    /// The style that a name stands for.
    pub open spec fn parse(s: Seq<char>) -> Option<StartStyle> {
        if s == "persistent"@ {
            Some(StartStyle::Persistent)
        } else if s == "transient"@ {
            Some(StartStyle::Transient)
        } else {
            None
        }
    }

    /// Reads `persistent` or `transient`.
    pub fn from_str(s: &str) -> (r: Result<StartStyle, Error>)
        ensures
            match r {
                Ok(v) => Self::parse(s@) == Some(v),
                Err(e) => {
                    &&& Self::parse(s@) is None
                    &&& e matches Error::InvalidStartStyle(t)
                    &&& t@ == s@
                },
            },
    {
        if same_text(s, "persistent") {
            Ok(StartStyle::Persistent)
        } else if same_text(s, "transient") {
            Ok(StartStyle::Transient)
        } else {
            Err(Error::InvalidStartStyle(s.to_owned()))
        }
    }

    /// The name of the style.
    pub fn as_str(&self) -> (r: &'static str)
        ensures
            r@ == match *self {
                StartStyle::Persistent => "persistent"@,
                StartStyle::Transient => "transient"@,
            },
    {
        match self {
            StartStyle::Persistent => "persistent",
            StartStyle::Transient => "transient",
        }
    }
}

impl UpdateStrategy {
    /// The strategy that a name stands for.
    pub open spec fn parse(s: Seq<char>) -> Option<UpdateStrategy> {
        if s == "none"@ {
            Some(UpdateStrategy::Never)
        } else if s == "at-once"@ {
            Some(UpdateStrategy::AtOnce)
        } else if s == "rolling"@ {
            Some(UpdateStrategy::Rolling)
        } else {
            None
        }
    }

    /// Reads `none`, `at-once` or `rolling`.
    pub fn from_str(s: &str) -> (r: Result<UpdateStrategy, Error>)
        ensures
            match r {
                Ok(v) => Self::parse(s@) == Some(v),
                Err(e) => {
                    &&& Self::parse(s@) is None
                    &&& e matches Error::InvalidUpdateStrategy(t)
                    &&& t@ == s@
                },
            },
    {
        if same_text(s, "none") {
            Ok(UpdateStrategy::Never)
        } else if same_text(s, "at-once") {
            Ok(UpdateStrategy::AtOnce)
        } else if same_text(s, "rolling") {
            Ok(UpdateStrategy::Rolling)
        } else {
            Err(Error::InvalidUpdateStrategy(s.to_owned()))
        }
    }

    /// The name of the strategy.
    pub fn as_str(&self) -> (r: &'static str)
        ensures
            r@ == match *self {
                UpdateStrategy::Never => "none"@,
                UpdateStrategy::AtOnce => "at-once"@,
                UpdateStrategy::Rolling => "rolling"@,
            },
    {
        match self {
            UpdateStrategy::Never => "none",
            UpdateStrategy::AtOnce => "at-once",
            UpdateStrategy::Rolling => "rolling",
        }
    }
}

impl Topology {
    /// The topology that a name stands for.
    pub open spec fn parse(s: Seq<char>) -> Option<Topology> {
        if s == "none"@ {
            Some(Topology::Standalone)
        } else if s == "leader"@ {
            Some(Topology::Leader)
        } else {
            None
        }
    }

    /// Reads `none` or `leader`.
    pub fn from_str(s: &str) -> (r: Result<Topology, Error>)
        ensures
            match r {
                Ok(v) => Self::parse(s@) == Some(v),
                Err(e) => {
                    &&& Self::parse(s@) is None
                    &&& e matches Error::InvalidTopology(t)
                    &&& t@ == s@
                },
            },
    {
        if same_text(s, "none") {
            Ok(Topology::Standalone)
        } else if same_text(s, "leader") {
            Ok(Topology::Leader)
        } else {
            Err(Error::InvalidTopology(s.to_owned()))
        }
    }

    /// The name of the topology.
    pub fn as_str(&self) -> (r: &'static str)
        ensures
            r@ == match *self {
                Topology::Standalone => "none"@,
                Topology::Leader => "leader"@,
            },
    {
        match self {
            Topology::Standalone => "none",
            Topology::Leader => "leader",
        }
    }
}

/// An application and the environment it runs in.
#[derive(Debug, PartialEq, Eq)]
pub struct ApplicationEnvironment {
    pub application: String,
    pub environment: String,
}

/// The mathematical value of an `ApplicationEnvironment`.
pub struct ApplicationEnvironmentView {
    pub application: Seq<char>,
    pub environment: Seq<char>,
}

impl View for ApplicationEnvironment {
    type V = ApplicationEnvironmentView;

    open spec fn view(&self) -> ApplicationEnvironmentView {
        ApplicationEnvironmentView {
            application: self.application@,
            environment: self.environment@,
        }
    }
}

/// The view of an optional application environment.
pub open spec fn opt_app_env(o: Option<ApplicationEnvironment>) -> Option<
    ApplicationEnvironmentView,
> {
    match o {
        Some(a) => Some(a@),
        None => None,
    }
}

impl Clone for ApplicationEnvironment {
    fn clone(&self) -> (r: Self)
        ensures
            r@ == self@,
    {
        ApplicationEnvironment {
            application: self.application.clone(),
            environment: self.environment.clone(),
        }
    }
}

impl ApplicationEnvironment {
    /// Whether `other` names the same application and environment.
    pub fn same(&self, other: &ApplicationEnvironment) -> (r: bool)
        ensures
            r == (self@ == other@),
    {
        self.application == other.application && self.environment == other.environment
    }
}

/// Whether two optional application environments are the same.
pub fn same_opt_app_env(a: &Option<ApplicationEnvironment>, b: &Option<ApplicationEnvironment>) -> (r:
    bool)
    ensures
        r == (opt_app_env(*a) == opt_app_env(*b)),
{
    match (a, b) {
        (Some(x), Some(y)) => x.same(y),
        (None, None) => true,
        _ => false,
    }
}

/// A copy of an optional application environment.
pub fn copy_opt_app_env(a: &Option<ApplicationEnvironment>) -> (r: Option<ApplicationEnvironment>)
    ensures
        opt_app_env(r) == opt_app_env(*a),
{
    match a {
        Some(x) => Some(x.clone()),
        None => None,
    }
}

/// The members of one service that gossip together.
#[derive(Debug, PartialEq, Eq)]
pub struct ServiceGroup {
    pub application_environment: Option<ApplicationEnvironment>,
    pub service: String,
    pub group: String,
    pub organization: Option<String>,
}

/// The mathematical value of a `ServiceGroup`.
pub struct ServiceGroupView {
    pub application_environment: Option<ApplicationEnvironmentView>,
    pub service: Seq<char>,
    pub group: Seq<char>,
    pub organization: Option<Seq<char>>,
}

impl View for ServiceGroup {
    type V = ServiceGroupView;

    open spec fn view(&self) -> ServiceGroupView {
        ServiceGroupView {
            application_environment: opt_app_env(self.application_environment),
            service: self.service@,
            group: self.group@,
            organization: opt_text(self.organization),
        }
    }
}

impl ServiceGroupView {
    /// The group as text: `[application.environment#]service.group[@organization]`.
    pub open spec fn text(self) -> Seq<char> {
        let head = match self.application_environment {
            Some(ae) => (ae.application.push('.') + ae.environment).push('#'),
            None => Seq::<char>::empty(),
        };
        let body = head + self.service.push('.') + self.group;
        match self.organization {
            Some(org) => body.push('@') + org,
            None => body,
        }
    }
}

impl Clone for ServiceGroup {
    fn clone(&self) -> (r: Self)
        ensures
            r@ == self@,
    {
        ServiceGroup {
            application_environment: copy_opt_app_env(&self.application_environment),
            service: self.service.clone(),
            group: self.group.clone(),
            organization: copy_opt_text(&self.organization),
        }
    }
}

impl ServiceGroup {
    /// The group of `service` named `group`, within an application
    /// environment and an organization where these are given.
    pub fn new(
        application_environment: Option<&ApplicationEnvironment>,
        service: &str,
        group: &str,
        organization: Option<&str>,
    ) -> (r: Self)
        ensures
            r@.application_environment == match application_environment {
                Some(a) => Some(a@),
                None => None,
            },
            r@.service == service@,
            r@.group == group@,
            r@.organization == match organization {
                Some(o) => Some(o@),
                None => None,
            },
    {
        ServiceGroup {
            application_environment: match application_environment {
                Some(a) => Some(a.clone()),
                None => None,
            },
            service: service.to_owned(),
            group: group.to_owned(),
            organization: match organization {
                Some(o) => Some(o.to_owned()),
                None => None,
            },
        }
    }

    /// Whether `other` is the same group in every part.
    pub fn same(&self, other: &ServiceGroup) -> (r: bool)
        ensures
            r == (self@ == other@),
    {
        same_opt_app_env(&self.application_environment, &other.application_environment)
            && self.service == other.service && self.group == other.group && same_opt_text(
            &self.organization,
            &other.organization,
        )
    }

    /// The name of the service.
    pub fn service(&self) -> (r: &str)
        ensures
            r@ == self@.service,
    {
        self.service.as_str()
    }

    /// The group as text.
    pub fn to_string(&self) -> (r: String)
        ensures
            r@ == self@.text(),
    {
        proof {
            reveal_strlit(".");
            reveal_strlit("#");
            reveal_strlit("@");
        }
        let mut out = String::new();
        match &self.application_environment {
            Some(ae) => {
                out.append(ae.application.as_str());
                let ghost a = out@;
                out.append(".");
                assert(out@ =~= a.push('.'));
                out.append(ae.environment.as_str());
                let ghost b = out@;
                out.append("#");
                assert(out@ =~= b.push('#'));
                assert(out@ =~= (ae@.application.push('.') + ae@.environment).push('#'));
            },
            None => {},
        }
        let ghost head = out@;
        out.append(self.service.as_str());
        let ghost c = out@;
        out.append(".");
        assert(out@ =~= c.push('.'));
        out.append(self.group.as_str());
        assert(out@ =~= head + self.service@.push('.') + self.group@);
        match &self.organization {
            Some(org) => {
                let ghost d = out@;
                out.append("@");
                assert(out@ =~= d.push('@'));
                out.append(org.as_str());
            },
            None => {},
        }
        out
    }
}

/// A named reference from one service to the group of another.
#[derive(Debug, PartialEq, Eq)]
pub struct ServiceBind {
    pub name: String,
    pub service_group: ServiceGroup,
}

/// The mathematical value of a `ServiceBind`.
pub struct ServiceBindView {
    pub name: Seq<char>,
    pub service_group: ServiceGroupView,
}

impl View for ServiceBind {
    type V = ServiceBindView;

    open spec fn view(&self) -> ServiceBindView {
        ServiceBindView { name: self.name@, service_group: self.service_group@ }
    }
}

/// The views of a list of binds.
pub open spec fn binds_view(v: Seq<ServiceBind>) -> Seq<ServiceBindView> {
    v.map_values(|b: ServiceBind| b@)
}

impl Clone for ServiceBind {
    fn clone(&self) -> (r: Self)
        ensures
            r@ == self@,
    {
        ServiceBind { name: self.name.clone(), service_group: self.service_group.clone() }
    }
}

impl ServiceBind {
    /// Whether `other` is the same bind.
    pub fn same(&self, other: &ServiceBind) -> (r: bool)
        ensures
            r == (self@ == other@),
    {
        self.name == other.name && self.service_group.same(&other.service_group)
    }
}

/// Whether two lists of binds hold the same binds in the same order.
pub fn same_binds(a: &Vec<ServiceBind>, b: &Vec<ServiceBind>) -> (r: bool)
    ensures
        r == (binds_view(a@) == binds_view(b@)),
{
    if a.len() != b.len() {
        assert(binds_view(a@).len() != binds_view(b@).len());
        return false;
    }
    let mut i: usize = 0;
    while i < a.len()
        invariant
            a.len() == b.len(),
            i <= a.len(),
            forall|j: int| 0 <= j < i ==> a@[j]@ == b@[j]@,
        decreases a.len() - i,
    {
        if !a[i].same(&b[i]) {
            assert(binds_view(a@)[i as int] != binds_view(b@)[i as int]);
            return false;
        }
        i = i + 1;
    }
    assert(binds_view(a@) =~= binds_view(b@));
    true
}

/// A copy of a list of binds.
pub fn copy_binds(a: &Vec<ServiceBind>) -> (r: Vec<ServiceBind>)
    ensures
        binds_view(r@) == binds_view(a@),
{
    let mut out: Vec<ServiceBind> = Vec::new();
    let mut i: usize = 0;
    while i < a.len()
        invariant
            i <= a.len(),
            out.len() == i,
            forall|j: int| 0 <= j < i ==> out@[j]@ == a@[j]@,
        decreases a.len() - i,
    {
        out.push(a[i].clone());
        i = i + 1;
    }
    assert(binds_view(out@) =~= binds_view(a@));
    out
}

/// The declared, desired state of one service.
#[derive(Debug, PartialEq, Eq)]
pub struct ServiceSpec {
    pub ident: PackageIdent,
    pub group: String,
    pub application_environment: Option<ApplicationEnvironment>,
    pub bldr_url: String,
    pub channel: String,
    pub topology: Topology,
    pub update_strategy: UpdateStrategy,
    pub binds: Vec<ServiceBind>,
    pub config_from: Option<String>,
    pub desired_state: DesiredState,
    pub start_style: StartStyle,
    pub svc_encrypted_password: Option<String>,
    pub composite: Option<String>,
}

/// The mathematical value of a `ServiceSpec`.
pub struct ServiceSpecView {
    pub ident: PackageIdentView,
    pub group: Seq<char>,
    pub application_environment: Option<ApplicationEnvironmentView>,
    pub bldr_url: Seq<char>,
    pub channel: Seq<char>,
    pub topology: Topology,
    pub update_strategy: UpdateStrategy,
    pub binds: Seq<ServiceBindView>,
    pub config_from: Option<Seq<char>>,
    pub desired_state: DesiredState,
    pub start_style: StartStyle,
    pub svc_encrypted_password: Option<Seq<char>>,
    pub composite: Option<Seq<char>>,
}

impl View for ServiceSpec {
    type V = ServiceSpecView;

    open spec fn view(&self) -> ServiceSpecView {
        ServiceSpecView {
            ident: self.ident@,
            group: self.group@,
            application_environment: opt_app_env(self.application_environment),
            bldr_url: self.bldr_url@,
            channel: self.channel@,
            topology: self.topology,
            update_strategy: self.update_strategy,
            binds: binds_view(self.binds@),
            config_from: opt_text(self.config_from),
            desired_state: self.desired_state,
            start_style: self.start_style,
            svc_encrypted_password: opt_text(self.svc_encrypted_password),
            composite: opt_text(self.composite),
        }
    }
}

/// The views of a list of specs.
pub open spec fn specs_view(v: Seq<ServiceSpec>) -> Seq<ServiceSpecView> {
    v.map_values(|s: ServiceSpec| s@)
}

impl ServiceSpecView {
    /// The spec that a package gets when nothing else is said: group
    /// `default`, the stable channel of the public depot, no update
    /// strategy, no leader, no binds, up, transient.
    pub open spec fn default_for(ident: PackageIdentView) -> ServiceSpecView {
        ServiceSpecView {
            ident,
            group: "default"@,
            application_environment: None,
            bldr_url: "https://bldr.habitat.sh"@,
            channel: "stable"@,
            topology: Topology::Standalone,
            update_strategy: UpdateStrategy::Never,
            binds: Seq::<ServiceBindView>::empty(),
            config_from: None,
            desired_state: DesiredState::Up,
            start_style: StartStyle::Transient,
            svc_encrypted_password: None,
            composite: None,
        }
    }

    /// The name under which the service is known: the name of its package.
    /// One spec file exists per name.
    pub open spec fn identity(self) -> Seq<char> {
        self.ident.name
    }

    /// The name of the spec's file.
    pub open spec fn file_name(self) -> Seq<char> {
        self.ident.name + ".spec"@
    }
}

impl Clone for ServiceSpec {
    fn clone(&self) -> (r: Self)
        ensures
            r@ == self@,
    {
        ServiceSpec {
            ident: self.ident.clone(),
            group: self.group.clone(),
            application_environment: copy_opt_app_env(&self.application_environment),
            bldr_url: self.bldr_url.clone(),
            channel: self.channel.clone(),
            topology: self.topology,
            update_strategy: self.update_strategy,
            binds: copy_binds(&self.binds),
            config_from: copy_opt_text(&self.config_from),
            desired_state: self.desired_state,
            start_style: self.start_style,
            svc_encrypted_password: copy_opt_text(&self.svc_encrypted_password),
            composite: copy_opt_text(&self.composite),
        }
    }
}

impl Default for ServiceSpec {
    fn default() -> (r: Self)
        ensures
            r@ == ServiceSpecView::default_for(PackageIdentView::empty()),
    {
        ServiceSpec::default_for(PackageIdent::default())
    }
}

impl ServiceSpec {
    /// The spec that the package `ident` gets when nothing else is said.
    pub fn default_for(ident: PackageIdent) -> (r: Self)
        ensures
            r@ == ServiceSpecView::default_for(ident@),
    {
        let r = ServiceSpec {
            ident,
            group: "default".to_owned(),
            application_environment: None,
            bldr_url: "https://bldr.habitat.sh".to_owned(),
            channel: "stable".to_owned(),
            topology: Topology::Standalone,
            update_strategy: UpdateStrategy::Never,
            binds: Vec::new(),
            config_from: None,
            desired_state: DesiredState::Up,
            start_style: StartStyle::Transient,
            svc_encrypted_password: None,
            composite: None,
        };
        assert(binds_view(r.binds@) =~= Seq::<ServiceBindView>::empty());
        r
    }

    /// Whether `other` is the same spec in every field.
    pub fn same(&self, other: &ServiceSpec) -> (r: bool)
        ensures
            r == (self@ == other@),
    {
        self.ident.same(&other.ident) && self.group == other.group && same_opt_app_env(
            &self.application_environment,
            &other.application_environment,
        ) && self.bldr_url == other.bldr_url && self.channel == other.channel && self.topology
            == other.topology && self.update_strategy == other.update_strategy && same_binds(
            &self.binds,
            &other.binds,
        ) && same_opt_text(&self.config_from, &other.config_from) && self.desired_state
            == other.desired_state && self.start_style == other.start_style && same_opt_text(
            &self.svc_encrypted_password,
            &other.svc_encrypted_password,
        ) && same_opt_text(&self.composite, &other.composite)
    }

    /// The name of the spec's file: the package's name and the spec extension.
    pub fn file_name(&self) -> (r: String)
        ensures
            r@ == self@.file_name(),
    {
        let mut out = self.ident.name.clone();
        out.append(".spec");
        out
    }
}

/// Whether `c` may stand in the name of a service, a group, an
/// application, an environment or an organization: a letter of the English
/// alphabet, a decimal digit, `_` or `-`.
pub open spec fn is_name_char(c: char) -> bool {
    ('a' <= c && c <= 'z') || ('A' <= c && c <= 'Z') || ('0' <= c && c <= '9') || c == '_' || c
        == '-'
}

/// Whether `s` is a name: one or more name characters.
pub open spec fn is_name(s: Seq<char>) -> bool {
    s.len() > 0 && forall|i: int| 0 <= i < s.len() ==> is_name_char(#[trigger] s[i])
}

/// Whether `s` is a name.
pub fn check_name(s: &str) -> (r: bool)
    ensures
        r == is_name(s@),
{
    let n = s.unicode_len();
    if n == 0 {
        return false;
    }
    let mut i: usize = 0;
    while i < n
        invariant
            i <= n,
            n == s@.len(),
            forall|j: int| 0 <= j < i ==> is_name_char(#[trigger] s@[j]),
        decreases n - i,
    {
        let c = s.get_char(i);
        let ok = (c >= 'a' && c <= 'z') || (c >= 'A' && c <= 'Z') || (c >= '0' && c <= '9') || c
            == '_' || c == '-';
        if !ok {
            return false;
        }
        i = i + 1;
    }
    true
}

impl ApplicationEnvironmentView {
    /// What `application.environment` names, if it is that: two names with
    /// a `.` between them.
    pub open spec fn parse(s: Seq<char>) -> Option<ApplicationEnvironmentView> {
        let parts = split(s, '.');
        if parts.len() == 2 && is_name(parts[0]) && is_name(parts[1]) {
            Some(ApplicationEnvironmentView { application: parts[0], environment: parts[1] })
        } else {
            None
        }
    }
}

impl ApplicationEnvironment {
    /// The environment `environment` of the application `application`,
    /// if both are names.
    pub fn new(application: &str, environment: &str) -> (r: Result<ApplicationEnvironment, Error>)
        ensures
            match r {
                Ok(ae) => is_name(application@) && is_name(environment@) && ae@.application
                    == application@ && ae@.environment == environment@,
                Err(e) => !(is_name(application@) && is_name(environment@)) && (
                e matches Error::InvalidApplicationEnvironment(t) && t@ == (application@.push('.')
                    + environment@)),
            },
    {
        if check_name(application) && check_name(environment) {
            Ok(
                ApplicationEnvironment {
                    application: application.to_owned(),
                    environment: environment.to_owned(),
                },
            )
        } else {
            proof {
                reveal_strlit(".");
            }
            let mut text = application.to_owned();
            text.append(".");
            assert(text@ =~= application@.push('.'));
            text.append(environment);
            Err(Error::InvalidApplicationEnvironment(text))
        }
    }
}

impl ServiceGroupView {
    /// What `[application.environment#]service.group[@organization]`
    /// names, if it is that. Every part is a name.
    pub open spec fn parse(s: Seq<char>) -> Option<ServiceGroupView> {
        let by_org = split(s, '@');
        if by_org.len() > 2 || (by_org.len() == 2 && !is_name(by_org[1])) {
            None
        } else {
            let organization = if by_org.len() == 2 {
                Some(by_org[1])
            } else {
                None
            };
            let by_app = split(by_org[0], '#');
            if by_app.len() > 2 {
                None
            } else {
                let body = by_app.last();
                let names = split(body, '.');
                if names.len() != 2 || !is_name(names[0]) || !is_name(names[1]) {
                    None
                } else if by_app.len() == 2 {
                    match ApplicationEnvironmentView::parse(by_app[0]) {
                        Some(ae) => Some(
                            ServiceGroupView {
                                application_environment: Some(ae),
                                service: names[0],
                                group: names[1],
                                organization,
                            },
                        ),
                        None => None,
                    }
                } else {
                    Some(
                        ServiceGroupView {
                            application_environment: None,
                            service: names[0],
                            group: names[1],
                            organization,
                        },
                    )
                }
            }
        }
    }
}

impl ServiceGroup {
    /// Reads a service group from
    /// `[application.environment#]service.group[@organization]`.
    pub fn from_str(s: &str) -> (r: Result<ServiceGroup, Error>)
        ensures
            match r {
                Ok(g) => ServiceGroupView::parse(s@) == Some(g@),
                Err(e) => ServiceGroupView::parse(s@) is None && (
                e matches Error::InvalidServiceGroup(t) && t@ == s@),
            },
    {
        let mut by_org = split_text(s, '@');
        proof {
            lemma_split_nonempty(s@, '@');
            assert(texts(by_org@).len() == by_org@.len());
            assert(forall|i: int| 0 <= i < by_org@.len() ==> texts(by_org@)[i] == #[trigger] by_org@[i]@);
        }
        if by_org.len() > 2 {
            return Err(Error::InvalidServiceGroup(s.to_owned()));
        }
        let organization = if by_org.len() == 2 {
            let org = by_org.pop().unwrap();
            if !check_name(org.as_str()) {
                return Err(Error::InvalidServiceGroup(s.to_owned()));
            }
            Some(org)
        } else {
            None
        };
        let head = by_org.pop().unwrap();
        let mut by_app = split_text(head.as_str(), '#');
        proof {
            lemma_split_nonempty(head@, '#');
            assert(texts(by_app@).len() == by_app@.len());
            assert(forall|i: int| 0 <= i < by_app@.len() ==> texts(by_app@)[i] == #[trigger] by_app@[i]@);
        }
        if by_app.len() > 2 {
            return Err(Error::InvalidServiceGroup(s.to_owned()));
        }
        let body = by_app.pop().unwrap();
        let mut names = split_text(body.as_str(), '.');
        proof {
            assert(texts(names@).len() == names@.len());
            assert(forall|i: int| 0 <= i < names@.len() ==> texts(names@)[i] == #[trigger] names@[i]@);
        }
        if names.len() != 2 {
            return Err(Error::InvalidServiceGroup(s.to_owned()));
        }
        let group = names.pop().unwrap();
        let service = names.pop().unwrap();
        if !check_name(service.as_str()) || !check_name(group.as_str()) {
            return Err(Error::InvalidServiceGroup(s.to_owned()));
        }
        let application_environment = if by_app.len() == 1 {
            let app_env = by_app.pop().unwrap();
            let mut parts = split_text(app_env.as_str(), '.');
            proof {
                assert(texts(parts@).len() == parts@.len());
                assert(forall|i: int|
                    0 <= i < parts@.len() ==> texts(parts@)[i] == #[trigger] parts@[i]@);
            }
            if parts.len() != 2 {
                return Err(Error::InvalidServiceGroup(s.to_owned()));
            }
            let environment = parts.pop().unwrap();
            let application = parts.pop().unwrap();
            if !check_name(application.as_str()) || !check_name(environment.as_str()) {
                return Err(Error::InvalidServiceGroup(s.to_owned()));
            }
            Some(ApplicationEnvironment { application, environment })
        } else {
            None
        };
        Ok(ServiceGroup { application_environment, service, group, organization })
    }

    /// Whether `s` names a service group.
    pub fn validate(s: &str) -> (r: Result<(), Error>)
        ensures
            match r {
                Ok(_) => ServiceGroupView::parse(s@) is Some,
                Err(e) => ServiceGroupView::parse(s@) is None && (
                e matches Error::InvalidServiceGroup(t) && t@ == s@),
            },
    {
        match ServiceGroup::from_str(s) {
            Ok(_) => Ok(()),
            Err(e) => Err(e),
        }
    }
}

impl ServiceBindView {
    /// What `name:service.group` names, if it is that.
    pub open spec fn parse(s: Seq<char>) -> Option<ServiceBindView> {
        let parts = split(s, ':');
        if parts.len() != 2 {
            None
        } else {
            match ServiceGroupView::parse(parts[1]) {
                Some(g) => Some(ServiceBindView { name: parts[0], service_group: g }),
                None => None,
            }
        }
    }
}

impl ServiceBind {
    /// Reads a bind from `name:service.group`.
    pub fn from_str(s: &str) -> (r: Result<ServiceBind, Error>)
        ensures
            match r {
                Ok(b) => ServiceBindView::parse(s@) == Some(b@),
                Err(e) => {
                    &&& ServiceBindView::parse(s@) is None
                    &&& split(s@, ':').len() != 2 ==> (e matches Error::InvalidBinding(t) && t@
                        == s@)
                    &&& split(s@, ':').len() == 2 ==> (e matches Error::InvalidServiceGroup(t)
                        && t@ == split(s@, ':')[1])
                },
            },
    {
        let mut values = split_text(s, ':');
        proof {
            assert(texts(values@).len() == values@.len());
            assert(forall|i: int| 0 <= i < values@.len() ==> texts(values@)[i] == #[trigger] values@[i]@);
        }
        if values.len() != 2 {
            return Err(Error::InvalidBinding(s.to_owned()));
        }
        let group = values.pop().unwrap();
        let name = values.pop().unwrap();
        match ServiceGroup::from_str(group.as_str()) {
            Ok(service_group) => Ok(ServiceBind { name, service_group }),
            Err(e) => Err(e),
        }
    }
}

} // verus!
