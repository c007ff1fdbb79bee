//! Specs as their files hold them.
//!
//! A spec file is a document of keys and words. What is read from it is a
//! record: each key with the word that the file gives it, where it gives
//! one. A record becomes a spec when every word stands for what it should,
//! and a spec is written as the record that reads back as that spec.

use vstd::prelude::*;
use vstd::string::*;
use crate::composite::CompositeSpec;
use crate::error::Error;
use crate::ident::{PackageIdent, PackageIdentView};
use crate::spec::{
    binds_view, is_name, is_name_char, ApplicationEnvironment, ApplicationEnvironmentView,
    DesiredState, ServiceBind, ServiceBindView, ServiceGroupView, ServiceSpec, ServiceSpecView,
    StartStyle, Topology, UpdateStrategy,
};
use crate::text::{
    copy_opt_text, join, lemma_pieces_hold_no_sep, lemma_split_join, lemma_split_whole, opt_text,
    split, split_text, texts,
};

verus! {

/// A name holds no character that is not a name character.
pub proof fn lemma_name_holds_no(s: Seq<char>, c: char)
    requires
        is_name(s),
        !is_name_char(c),
    ensures
        !s.contains(c),
{
    if s.contains(c) {
        let i = choose|i: int| 0 <= i < s.len() && s[i] == c;
        assert(is_name_char(s[i]));
    }
}

/// Two texts without `c` hold no `c` when one stands behind the other.
pub proof fn lemma_concat_holds_no(a: Seq<char>, b: Seq<char>, c: char)
    requires
        !a.contains(c),
        !b.contains(c),
    ensures
        !(a + b).contains(c),
{
    if (a + b).contains(c) {
        let i = choose|i: int| 0 <= i < (a + b).len() && (a + b)[i] == c;
        if i < a.len() {
            assert(a.contains(a[i]));
        } else {
            assert(b.contains(b[i - a.len()]));
        }
    }
}

/// A text without `c` holds no `c` behind another character either.
pub proof fn lemma_push_holds_no(a: Seq<char>, d: char, c: char)
    requires
        !a.contains(c),
        d != c,
    ensures
        !a.push(d).contains(c),
{
    if a.push(d).contains(c) {
        let i = choose|i: int| 0 <= i < a.push(d).len() && a.push(d)[i] == c;
        if i < a.len() {
            assert(a.contains(a[i]));
        }
    }
}

/// Two texts without `sep`, with `sep` between them, split into the two.
pub proof fn lemma_split_pair(a: Seq<char>, b: Seq<char>, sep: char)
    requires
        !a.contains(sep),
        !b.contains(sep),
    ensures
        split(a.push(sep) + b, sep) == seq![a, b],
{
    let parts = seq![a, b];
    assert(parts.drop_last() =~= seq![a]);
    assert(join(parts.drop_last(), sep) == a);
    assert(join(parts, sep) == a.push(sep) + b);
    lemma_split_join(parts, sep);
}

impl PackageIdentView {
    /// Whether the identifier can be written and read back: no part holds
    /// a `/`, and a release comes only with a version.
    pub open spec fn writable(self) -> bool {
        &&& !self.origin.contains('/')
        &&& !self.name.contains('/')
        &&& match self.version {
            Some(v) => !v.contains('/'),
            None => self.release is None,
        }
        &&& match self.release {
            Some(r) => !r.contains('/'),
            None => true,
        }
    }
}

/// An identifier that can be written reads back from its text.
pub proof fn lemma_ident_reads_back(ident: PackageIdentView)
    requires
        ident.writable(),
    ensures
        PackageIdentView::parse(ident.text()) == Some(ident),
{
    let base = seq![ident.origin, ident.name];
    assert(base.drop_last() =~= seq![ident.origin]);
    assert(join(base.drop_last(), '/') == ident.origin);
    assert(join(base, '/') == ident.origin.push('/') + ident.name);
    match ident.version {
        None => {
            lemma_split_join(base, '/');
        },
        Some(v) => {
            let three = seq![ident.origin, ident.name, v];
            assert(three.drop_last() =~= base);
            assert(join(three, '/') == (ident.origin.push('/') + ident.name).push('/') + v);
            match ident.release {
                None => {
                    lemma_split_join(three, '/');
                },
                Some(r) => {
                    let four = seq![ident.origin, ident.name, v, r];
                    assert(four.drop_last() =~= three);
                    assert(join(four, '/') == ((ident.origin.push('/') + ident.name).push('/')
                        + v).push('/') + r);
                    lemma_split_join(four, '/');
                },
            }
        },
    }
}

impl ApplicationEnvironmentView {
    /// The application environment as text: `application.environment`.
    pub open spec fn text(self) -> Seq<char> {
        self.application.push('.') + self.environment
    }

    /// Whether both parts are names.
    pub open spec fn named(self) -> bool {
        is_name(self.application) && is_name(self.environment)
    }
}

/// An application environment of two names reads back from its text.
pub proof fn lemma_app_env_reads_back(ae: ApplicationEnvironmentView)
    requires
        ae.named(),
    ensures
        ApplicationEnvironmentView::parse(ae.text()) == Some(ae),
{
    lemma_name_holds_no(ae.application, '.');
    lemma_name_holds_no(ae.environment, '.');
    lemma_split_pair(ae.application, ae.environment, '.');
}

impl ServiceGroupView {
    /// Whether every part of the group is a name.
    pub open spec fn named(self) -> bool {
        &&& is_name(self.service)
        &&& is_name(self.group)
        &&& match self.application_environment {
            Some(ae) => ae.named(),
            None => true,
        }
        &&& match self.organization {
            Some(org) => is_name(org),
            None => true,
        }
    }
}

/// The text of a group of names holds no `c`, where `c` is neither a name
/// character nor one of the marks between the parts.
pub proof fn lemma_group_text_holds_no(group: ServiceGroupView, c: char)
    requires
        group.named(),
        !is_name_char(c),
        c != '.',
        c != '#',
        c != '@',
    ensures
        !group.text().contains(c),
{
    lemma_body_holds_no(group, c);
    match group.organization {
        Some(org) => {
            lemma_name_holds_no(org, c);
            lemma_push_holds_no(group_body(group), '@', c);
            lemma_concat_holds_no(group_body(group).push('@'), org, c);
        },
        None => {},
    }
}

/// The text of a group before its organization.
pub open spec fn group_body(group: ServiceGroupView) -> Seq<char> {
    let head = match group.application_environment {
        Some(ae) => (ae.application.push('.') + ae.environment).push('#'),
        None => Seq::<char>::empty(),
    };
    head + group.service.push('.') + group.group
}

/// The text of a group of names before its organization holds no `c`,
/// where `c` is neither a name character nor one of the marks in it.
pub proof fn lemma_body_holds_no(group: ServiceGroupView, c: char)
    requires
        group.named(),
        !is_name_char(c),
        c != '.',
        c != '#',
    ensures
        !group_body(group).contains(c),
{
    lemma_name_holds_no(group.service, c);
    lemma_name_holds_no(group.group, c);
    lemma_push_holds_no(group.service, '.', c);
    let head = match group.application_environment {
        Some(ae) => (ae.application.push('.') + ae.environment).push('#'),
        None => Seq::<char>::empty(),
    };
    match group.application_environment {
        Some(ae) => {
            lemma_name_holds_no(ae.application, c);
            lemma_name_holds_no(ae.environment, c);
            lemma_push_holds_no(ae.application, '.', c);
            lemma_concat_holds_no(ae.application.push('.'), ae.environment, c);
            lemma_push_holds_no(ae.application.push('.') + ae.environment, '#', c);
        },
        None => {},
    }
    lemma_concat_holds_no(head, group.service.push('.'), c);
    lemma_concat_holds_no(head + group.service.push('.'), group.group, c);
}

/// A group of names reads back from its text.
pub proof fn lemma_group_reads_back(group: ServiceGroupView)
    requires
        group.named(),
    ensures
        ServiceGroupView::parse(group.text()) == Some(group),
{
    let body = group_body(group);
    let tail = group.service.push('.') + group.group;
    lemma_body_holds_no(group, '@');
    // The pieces around the organization.
    match group.organization {
        Some(org) => {
            lemma_name_holds_no(org, '@');
            lemma_split_pair(body, org, '@');
        },
        None => {
            lemma_split_whole(body, '@');
        },
    }
    // The pieces around the application environment.
    lemma_name_holds_no(group.service, '#');
    lemma_name_holds_no(group.group, '#');
    lemma_push_holds_no(group.service, '.', '#');
    lemma_concat_holds_no(group.service.push('.'), group.group, '#');
    match group.application_environment {
        Some(ae) => {
            lemma_name_holds_no(ae.application, '#');
            lemma_name_holds_no(ae.environment, '#');
            lemma_push_holds_no(ae.application, '.', '#');
            lemma_concat_holds_no(ae.application.push('.'), ae.environment, '#');
            assert(body =~= ae.text().push('#') + tail);
            lemma_split_pair(ae.text(), tail, '#');
            lemma_app_env_reads_back(ae);
        },
        None => {
            assert(body =~= tail);
            lemma_split_whole(tail, '#');
        },
    }
    // The service and the group.
    lemma_name_holds_no(group.service, '.');
    lemma_name_holds_no(group.group, '.');
    lemma_split_pair(group.service, group.group, '.');
}

impl ServiceBindView {
    /// The bind as text: its name, a colon, and the group.
    pub open spec fn text(self) -> Seq<char> {
        self.name.push(':') + self.service_group.text()
    }

    /// Whether the bind can be written and read back: its name holds no
    /// colon and every part of its group is a name.
    pub open spec fn writable(self) -> bool {
        !self.name.contains(':') && self.service_group.named()
    }
}

/// A bind that can be written reads back from its text.
pub proof fn lemma_bind_reads_back(bind: ServiceBindView)
    requires
        bind.writable(),
    ensures
        ServiceBindView::parse(bind.text()) == Some(bind),
{
    lemma_group_text_holds_no(bind.service_group, ':');
    lemma_split_pair(bind.name, bind.service_group.text(), ':');
    lemma_group_reads_back(bind.service_group);
}

/// What a spec file holds: each key with the word that the file gives it,
/// where it gives one, and the binds in their order.
#[derive(Debug, PartialEq, Eq)]
pub struct SpecRecord {
    pub ident: Option<String>,
    pub group: Option<String>,
    pub application_environment: Option<String>,
    pub bldr_url: Option<String>,
    pub channel: Option<String>,
    pub topology: Option<String>,
    pub update_strategy: Option<String>,
    pub binds: Vec<String>,
    pub config_from: Option<String>,
    pub desired_state: Option<String>,
    pub svc_encrypted_password: Option<String>,
    pub composite: Option<String>,
}

/// The mathematical value of a `SpecRecord`.
pub struct SpecRecordView {
    pub ident: Option<Seq<char>>,
    pub group: Option<Seq<char>>,
    pub application_environment: Option<Seq<char>>,
    pub bldr_url: Option<Seq<char>>,
    pub channel: Option<Seq<char>>,
    pub topology: Option<Seq<char>>,
    pub update_strategy: Option<Seq<char>>,
    pub binds: Seq<Seq<char>>,
    pub config_from: Option<Seq<char>>,
    pub desired_state: Option<Seq<char>>,
    pub svc_encrypted_password: Option<Seq<char>>,
    pub composite: Option<Seq<char>>,
}

impl View for SpecRecord {
    type V = SpecRecordView;

    open spec fn view(&self) -> SpecRecordView {
        SpecRecordView {
            ident: opt_text(self.ident),
            group: opt_text(self.group),
            application_environment: opt_text(self.application_environment),
            bldr_url: opt_text(self.bldr_url),
            channel: opt_text(self.channel),
            topology: opt_text(self.topology),
            update_strategy: opt_text(self.update_strategy),
            binds: texts(self.binds@),
            config_from: opt_text(self.config_from),
            desired_state: opt_text(self.desired_state),
            svc_encrypted_password: opt_text(self.svc_encrypted_password),
            composite: opt_text(self.composite),
        }
    }
}

/// Why a record is no spec.
pub enum Fault {
    /// The record names no package.
    MissingIdent,
    /// The word does not stand for what its key asks for.
    Unreadable(Seq<char>),
}

/// Whether `e` is the error that reports the fault `f`.
pub open spec fn is_fault(e: Error, f: Fault) -> bool {
    match f {
        Fault::MissingIdent => e == Error::MissingRequiredIdent,
        Fault::Unreadable(word) => e matches Error::ServiceSpecParse(t) && t@ == word,
    }
}

/// Why the word under the key `ident` names no package, if it names none.
pub open spec fn ident_fault(word: Option<Seq<char>>) -> Option<Fault> {
    match word {
        None => Some(Fault::MissingIdent),
        Some(t) => match PackageIdentView::parse(t) {
            None => Some(Fault::Unreadable(t)),
            Some(ident) => if ident == PackageIdentView::empty() {
                Some(Fault::MissingIdent)
            } else {
                None
            },
        },
    }
}

/// The place of the first of `binds` that is no bind; the number of binds
/// if all of them are.
pub open spec fn first_unread(binds: Seq<Seq<char>>) -> int
    decreases binds.len(),
{
    if binds.len() == 0 {
        0
    } else if ServiceBindView::parse(binds.first()) is None {
        0
    } else {
        1 + first_unread(binds.drop_first())
    }
}

/// The first bind that is none stands behind binds only.
pub proof fn lemma_first_unread(binds: Seq<Seq<char>>, i: int)
    requires
        0 <= i <= binds.len(),
        forall|j: int| 0 <= j < i ==> ServiceBindView::parse(#[trigger] binds[j]) is Some,
        i < binds.len() ==> ServiceBindView::parse(binds[i]) is None,
    ensures
        first_unread(binds) == i,
    decreases binds.len(),
{
    if binds.len() > 0 && i > 0 {
        assert(ServiceBindView::parse(binds[0]) is Some);
        let rest = binds.drop_first();
        assert forall|j: int| 0 <= j < i - 1 implies ServiceBindView::parse(
            #[trigger] rest[j],
        ) is Some by {
            assert(rest[j] == binds[j + 1]);
        }
        if i < binds.len() {
            assert(rest[i - 1] == binds[i]);
        }
        lemma_first_unread(rest, i - 1);
    }
}

/// The first fault of a record, in the order of ident, application
/// environment, topology, update strategy, binds and desired state; `None`
/// where every word stands for what it should.
pub open spec fn record_fault(r: SpecRecordView) -> Option<Fault> {
    if ident_fault(r.ident) is Some {
        ident_fault(r.ident)
    } else if r.application_environment is Some && ApplicationEnvironmentView::parse(
        r.application_environment.unwrap(),
    ) is None {
        Some(Fault::Unreadable(r.application_environment.unwrap()))
    } else if r.topology is Some && Topology::parse(r.topology.unwrap()) is None {
        Some(Fault::Unreadable(r.topology.unwrap()))
    } else if r.update_strategy is Some && UpdateStrategy::parse(r.update_strategy.unwrap())
        is None {
        Some(Fault::Unreadable(r.update_strategy.unwrap()))
    } else if first_unread(r.binds) < r.binds.len() {
        Some(Fault::Unreadable(r.binds[first_unread(r.binds)]))
    } else if r.desired_state is Some && DesiredState::parse(r.desired_state.unwrap()) is None {
        Some(Fault::Unreadable(r.desired_state.unwrap()))
    } else {
        None
    }
}

/// The word under a key, or what the key stands for where the file gives
/// it no word.
pub open spec fn or_default<T>(word: Option<T>, default: T) -> T {
    match word {
        Some(w) => w,
        None => default,
    }
}

/// The spec that a record without fault holds. A key without a word has
/// its default: the group `default`, the stable channel of the public
/// depot, no topology, no update strategy, up. The start style is not in
/// the file: it is the one that the reader gives.
pub open spec fn record_spec(r: SpecRecordView, start_style: StartStyle) -> ServiceSpecView {
    ServiceSpecView {
        ident: PackageIdentView::parse(r.ident.unwrap()).unwrap(),
        group: or_default(r.group, "default"@),
        application_environment: match r.application_environment {
            Some(t) => ApplicationEnvironmentView::parse(t),
            None => None,
        },
        bldr_url: or_default(r.bldr_url, "https://bldr.habitat.sh"@),
        channel: or_default(r.channel, "stable"@),
        topology: match r.topology {
            Some(t) => Topology::parse(t).unwrap(),
            None => Topology::Standalone,
        },
        update_strategy: match r.update_strategy {
            Some(t) => UpdateStrategy::parse(t).unwrap(),
            None => UpdateStrategy::Never,
        },
        binds: Seq::new(r.binds.len(), |j: int| ServiceBindView::parse(r.binds[j]).unwrap()),
        config_from: r.config_from,
        desired_state: match r.desired_state {
            Some(t) => DesiredState::parse(t).unwrap(),
            None => DesiredState::Up,
        },
        start_style,
        svc_encrypted_password: r.svc_encrypted_password,
        composite: r.composite,
    }
}

/// The word under a key, or the default of the key.
fn word_or(word: &Option<String>, default: &str) -> (r: String)
    ensures
        r@ == or_default(opt_text(*word), default@),
{
    match word {
        Some(w) => w.clone(),
        None => default.to_owned(),
    }
}

/// Reads the package that a record names.
pub fn read_ident(word: &Option<String>) -> (r: Result<PackageIdent, Error>)
    ensures
        match r {
            Ok(ident) => ident_fault(opt_text(*word)) is None && Some(ident@)
                == PackageIdentView::parse(opt_text(*word).unwrap()),
            Err(e) => ident_fault(opt_text(*word)) matches Some(f) && is_fault(e, f),
        },
{
    match word {
        None => Err(Error::MissingRequiredIdent),
        Some(text) => match PackageIdent::from_str(text.as_str()) {
            Ok(ident) => {
                if ident.is_empty() {
                    Err(Error::MissingRequiredIdent)
                } else {
                    Ok(ident)
                }
            },
            Err(_) => Err(Error::ServiceSpecParse(text.clone())),
        },
    }
}

/// Reads the binds of a record, in order, and stops at the first that is
/// none.
pub fn read_record_binds(binds: &Vec<String>) -> (r: Result<Vec<ServiceBind>, Error>)
    ensures
        match r {
            Ok(read) => first_unread(texts(binds@)) == binds@.len() && binds_view(read@)
                == Seq::new(
                texts(binds@).len(),
                |j: int| ServiceBindView::parse(texts(binds@)[j]).unwrap(),
            ),
            Err(e) => first_unread(texts(binds@)) < binds@.len() && is_fault(
                e,
                Fault::Unreadable(texts(binds@)[first_unread(texts(binds@))]),
            ),
        },
{
    let mut out: Vec<ServiceBind> = Vec::new();
    let mut i: usize = 0;
    while i < binds.len()
        invariant
            i <= binds.len(),
            out@.len() == i,
            forall|j: int|
                0 <= j < i ==> ServiceBindView::parse(#[trigger] texts(binds@)[j]) == Some(
                    out@[j]@,
                ),
        decreases binds.len() - i,
    {
        match ServiceBind::from_str(binds[i].as_str()) {
            Ok(bind) => out.push(bind),
            Err(_) => {
                proof {
                    lemma_first_unread(texts(binds@), i as int);
                }
                return Err(Error::ServiceSpecParse(binds[i].clone()));
            },
        }
        i = i + 1;
    }
    proof {
        lemma_first_unread(texts(binds@), i as int);
        assert(binds_view(out@) =~= Seq::new(
            texts(binds@).len(),
            |j: int| ServiceBindView::parse(texts(binds@)[j]).unwrap(),
        ));
    }
    Ok(out)
}

impl ServiceSpec {
    /// The spec that a record holds, with the start style that the reader
    /// gives. The first word that does not stand for what it should is the
    /// error.
    pub fn from_record(record: &SpecRecord, start_style: StartStyle) -> (r: Result<
        ServiceSpec,
        Error,
    >)
        ensures
            match r {
                Ok(spec) => record_fault(record@) is None && spec@ == record_spec(
                    record@,
                    start_style,
                ),
                Err(e) => record_fault(record@) matches Some(f) && is_fault(e, f),
            },
    {
        let ident = match read_ident(&record.ident) {
            Ok(ident) => ident,
            Err(e) => {
                return Err(e);
            },
        };
        let application_environment = match &record.application_environment {
            Some(text) => {
                let parts = split_text(text.as_str(), '.');
                if parts.len() != 2 {
                    return Err(Error::ServiceSpecParse(text.clone()));
                }
                match ApplicationEnvironment::new(parts[0].as_str(), parts[1].as_str()) {
                    Ok(ae) => Some(ae),
                    Err(_) => {
                        return Err(Error::ServiceSpecParse(text.clone()));
                    },
                }
            },
            None => None,
        };
        let topology = match &record.topology {
            Some(text) => match Topology::from_str(text.as_str()) {
                Ok(t) => t,
                Err(_) => {
                    return Err(Error::ServiceSpecParse(text.clone()));
                },
            },
            None => Topology::Standalone,
        };
        let update_strategy = match &record.update_strategy {
            Some(text) => match UpdateStrategy::from_str(text.as_str()) {
                Ok(s) => s,
                Err(_) => {
                    return Err(Error::ServiceSpecParse(text.clone()));
                },
            },
            None => UpdateStrategy::Never,
        };
        let binds = match read_record_binds(&record.binds) {
            Ok(binds) => binds,
            Err(e) => {
                return Err(e);
            },
        };
        let desired_state = match &record.desired_state {
            Some(text) => match DesiredState::from_str(text.as_str()) {
                Ok(s) => s,
                Err(_) => {
                    return Err(Error::ServiceSpecParse(text.clone()));
                },
            },
            None => DesiredState::Up,
        };
        Ok(
            ServiceSpec {
                ident,
                group: word_or(&record.group, "default"),
                application_environment,
                bldr_url: word_or(&record.bldr_url, "https://bldr.habitat.sh"),
                channel: word_or(&record.channel, "stable"),
                topology,
                update_strategy,
                binds,
                config_from: copy_opt_text(&record.config_from),
                desired_state,
                start_style,
                svc_encrypted_password: copy_opt_text(&record.svc_encrypted_password),
                composite: copy_opt_text(&record.composite),
            },
        )
    }
}

impl Topology {
    /// The word for the topology.
    pub open spec fn word(self) -> Seq<char> {
        match self {
            Topology::Standalone => "none"@,
            Topology::Leader => "leader"@,
        }
    }
}

impl UpdateStrategy {
    /// The word for the strategy.
    pub open spec fn word(self) -> Seq<char> {
        match self {
            UpdateStrategy::Never => "none"@,
            UpdateStrategy::AtOnce => "at-once"@,
            UpdateStrategy::Rolling => "rolling"@,
        }
    }
}

impl DesiredState {
    /// The word for the state.
    pub open spec fn word(self) -> Seq<char> {
        match self {
            DesiredState::Up => "up"@,
            DesiredState::Down => "down"@,
        }
    }
}

/// The texts of binds, in order.
pub open spec fn bind_texts(binds: Seq<ServiceBindView>) -> Seq<Seq<char>> {
    Seq::new(binds.len(), |j: int| binds[j].text())
}

/// The record that a spec is written as: every key with its word. The
/// start style is not written.
pub open spec fn written(spec: ServiceSpecView) -> SpecRecordView {
    SpecRecordView {
        ident: Some(spec.ident.text()),
        group: Some(spec.group),
        application_environment: match spec.application_environment {
            Some(ae) => Some(ae.text()),
            None => None,
        },
        bldr_url: Some(spec.bldr_url),
        channel: Some(spec.channel),
        topology: Some(spec.topology.word()),
        update_strategy: Some(spec.update_strategy.word()),
        binds: bind_texts(spec.binds),
        config_from: spec.config_from,
        desired_state: Some(spec.desired_state.word()),
        svc_encrypted_password: spec.svc_encrypted_password,
        composite: spec.composite,
    }
}

impl ServiceBind {
    /// The bind as text: its name, a colon, and the group.
    pub fn to_string(&self) -> (r: String)
        ensures
            r@ == self@.text(),
    {
        proof {
            reveal_strlit(":");
        }
        let mut out = self.name.clone();
        out.append(":");
        assert(out@ =~= self.name@.push(':'));
        let group = self.service_group.to_string();
        out.append(group.as_str());
        out
    }
}

impl ApplicationEnvironment {
    /// The application environment as text: `application.environment`.
    pub fn to_string(&self) -> (r: String)
        ensures
            r@ == self@.text(),
    {
        proof {
            reveal_strlit(".");
        }
        let mut out = self.application.clone();
        out.append(".");
        assert(out@ =~= self.application@.push('.'));
        out.append(self.environment.as_str());
        out
    }
}

impl ServiceSpec {
    /// The record that the spec is written as. A spec that names no
    /// package is not written.
    pub fn to_record(&self) -> (r: Result<SpecRecord, Error>)
        ensures
            match r {
                Ok(record) => self@.ident != PackageIdentView::empty() && record@ == written(
                    self@,
                ),
                Err(e) => self@.ident == PackageIdentView::empty() && e
                    == Error::MissingRequiredIdent,
            },
    {
        if self.ident.is_empty() {
            return Err(Error::MissingRequiredIdent);
        }
        let mut binds: Vec<String> = Vec::new();
        let mut i: usize = 0;
        while i < self.binds.len()
            invariant
                i <= self.binds.len(),
                binds@.len() == i,
                forall|j: int| 0 <= j < i ==> (#[trigger] binds@[j])@ == self.binds@[j]@.text(),
            decreases self.binds.len() - i,
        {
            binds.push(self.binds[i].to_string());
            i = i + 1;
        }
        let record = SpecRecord {
            ident: Some(self.ident.to_string()),
            group: Some(self.group.clone()),
            application_environment: match &self.application_environment {
                Some(ae) => Some(ae.to_string()),
                None => None,
            },
            bldr_url: Some(self.bldr_url.clone()),
            channel: Some(self.channel.clone()),
            topology: Some(self.topology.as_str().to_owned()),
            update_strategy: Some(self.update_strategy.as_str().to_owned()),
            binds,
            config_from: copy_opt_text(&self.config_from),
            desired_state: Some(self.desired_state.as_str().to_owned()),
            svc_encrypted_password: copy_opt_text(&self.svc_encrypted_password),
            composite: copy_opt_text(&self.composite),
        };
        assert(record@.binds =~= bind_texts(self@.binds));
        Ok(record)
    }
}

impl ServiceSpecView {
    /// Whether the spec can be written and read back: it names a package
    /// whose parts hold no `/`, and its application environment and its
    /// binds are made of names.
    pub open spec fn writable(self) -> bool {
        &&& self.ident != PackageIdentView::empty()
        &&& self.ident.writable()
        &&& match self.application_environment {
            Some(ae) => ae.named(),
            None => true,
        }
        &&& forall|j: int| 0 <= j < self.binds.len() ==> (#[trigger] self.binds[j]).writable()
    }
}

/// The words of the enumerations read back as the values that they were
/// written for.
pub proof fn lemma_words_read_back(spec: ServiceSpecView)
    ensures
        Topology::parse(spec.topology.word()) == Some(spec.topology),
        UpdateStrategy::parse(spec.update_strategy.word()) == Some(spec.update_strategy),
        DesiredState::parse(spec.desired_state.word()) == Some(spec.desired_state),
{
    reveal_strlit("none");
    reveal_strlit("leader");
    reveal_strlit("at-once");
    reveal_strlit("rolling");
    reveal_strlit("up");
    reveal_strlit("down");
    assert("leader"@.len() != "none"@.len());
    assert("at-once"@.len() != "none"@.len());
    assert("rolling"@.len() != "none"@.len());
    assert("rolling"@.len() == "at-once"@.len());
    assert("rolling"@[0] != "at-once"@[0]);
    assert("down"@.len() != "up"@.len());
}

/// A spec that is written and read again, with its own start style, is the
/// spec that was written.
pub proof fn law_spec_reads_back(spec: ServiceSpecView)
    requires
        spec.writable(),
    ensures
        record_fault(written(spec)) is None,
        record_spec(written(spec), spec.start_style) == spec,
{
    let record = written(spec);
    lemma_ident_reads_back(spec.ident);
    match spec.application_environment {
        Some(ae) => {
            lemma_app_env_reads_back(ae);
        },
        None => {},
    }
    lemma_words_read_back(spec);
    assert forall|j: int| 0 <= j < record.binds.len() implies ServiceBindView::parse(
        #[trigger] record.binds[j],
    ) == Some(spec.binds[j]) by {
        lemma_bind_reads_back(spec.binds[j]);
    }
    lemma_first_unread(record.binds, record.binds.len() as int);
    assert(record_spec(record, spec.start_style).binds =~= spec.binds);
}

/// What the file of a composite holds: the word under its one key, where
/// the file gives it one.
#[derive(Debug, PartialEq, Eq)]
pub struct CompositeRecord {
    pub ident: Option<String>,
}

impl CompositeSpec {
    /// The composite spec that a record holds: none where the record names
    /// no package, and none for a package that is not named in full.
    pub fn from_record(record: &CompositeRecord) -> (r: Result<CompositeSpec, Error>)
        ensures
            match r {
                Ok(spec) => ident_fault(opt_text(record.ident)) is None && Some(spec@)
                    == PackageIdentView::parse(opt_text(record.ident).unwrap()) && spec.wf(),
                Err(e) => match ident_fault(opt_text(record.ident)) {
                    Some(f) => is_fault(e, f),
                    None => {
                        let ident = PackageIdentView::parse(opt_text(record.ident).unwrap()).unwrap();
                        !ident.fully_qualified() && (
                        e matches Error::FullyQualifiedPackageIdentRequired(t) && t@
                            == ident.text())
                    },
                },
            },
    {
        match read_ident(&record.ident) {
            Ok(ident) => CompositeSpec::from_ident(ident),
            Err(e) => Err(e),
        }
    }

    /// The record that the composite spec is written as.
    pub fn to_record(&self) -> (r: CompositeRecord)
        ensures
            opt_text(r.ident) == Some(self@.text()),
    {
        CompositeRecord { ident: Some(self.ident().to_string()) }
    }
}

/// A composite spec that is written and read again is the spec that was
/// written.
pub proof fn law_composite_reads_back(ident: PackageIdentView)
    requires
        ident.writable(),
        ident.fully_qualified(),
    ensures
        ident_fault(Some(ident.text())) is None,
        PackageIdentView::parse(ident.text()) == Some(ident),
{
    lemma_ident_reads_back(ident);
}

/// What a text names as a package can be written and read back.
pub proof fn lemma_parsed_ident_is_writable(t: Seq<char>)
    requires
        PackageIdentView::parse(t) is Some,
    ensures
        PackageIdentView::parse(t)->0.writable(),
{
    lemma_pieces_hold_no_sep(t, '/');
    let parts = split(t, '/');
    assert(!parts[0].contains('/'));
    assert(!parts[1].contains('/'));
    if parts.len() >= 3 {
        assert(!parts[2].contains('/'));
    }
    if parts.len() >= 4 {
        assert(!parts[3].contains('/'));
    }
}

/// What a text names as a service group is made of names.
pub proof fn lemma_parsed_group_is_named(t: Seq<char>)
    requires
        ServiceGroupView::parse(t) is Some,
    ensures
        ServiceGroupView::parse(t)->0.named(),
{
}

/// What a text names as a bind can be written and read back.
pub proof fn lemma_parsed_bind_is_writable(t: Seq<char>)
    requires
        ServiceBindView::parse(t) is Some,
    ensures
        ServiceBindView::parse(t)->0.writable(),
{
    lemma_pieces_hold_no_sep(t, ':');
    let parts = split(t, ':');
    assert(!parts[0].contains(':'));
    lemma_parsed_group_is_named(parts[1]);
}

/// Whatever spec a record holds, the spec is written as a record that
/// holds the same spec: a spec file that could be read can be written anew
/// without a change to what it says.
pub proof fn law_what_was_read_reads_back(record: SpecRecordView, start_style: StartStyle)
    requires
        record_fault(record) is None,
    ensures
        record_spec(record, start_style).writable(),
        record_fault(written(record_spec(record, start_style))) is None,
        record_spec(written(record_spec(record, start_style)), start_style) == record_spec(
            record,
            start_style,
        ),
{
    let spec = record_spec(record, start_style);
    lemma_parsed_ident_is_writable(record.ident.unwrap());
    assert forall|j: int| 0 <= j < spec.binds.len() implies (#[trigger] spec.binds[j]).writable() by {
        if ServiceBindView::parse(record.binds[j]) is None {
            lemma_first_unread_is_none(record.binds, j);
        }
        lemma_parsed_bind_is_writable(record.binds[j]);
    }
    law_spec_reads_back(spec);
}

/// The first bind that is none stands at or before every bind that is
/// none.
pub proof fn lemma_first_unread_is_none(binds: Seq<Seq<char>>, j: int)
    requires
        0 <= j < binds.len(),
        ServiceBindView::parse(binds[j]) is None,
    ensures
        first_unread(binds) <= j,
    decreases binds.len(),
{
    if ServiceBindView::parse(binds.first()) is Some {
        let rest = binds.drop_first();
        assert(rest[j - 1] == binds[j]);
        lemma_first_unread_is_none(rest, j - 1);
    }
}

} // verus!
