//! Composites expanded into the specs of their services.
//!
//! A composite is a package that holds the packages of several services.
//! Before anything is started it is replaced by one ordinary spec for each
//! of its services; nothing after that knows of composites but by the name
//! that each of these specs carries.

use vstd::prelude::*;
use vstd::string::*;
use crate::cli::{
    composite_bind, composite_member_spec, is_bind_error, new_service_spec, or_kept, BindMapping,
    Settings, SettingsView,
};
use crate::composite::{CompositeSpec, PackageType};
use crate::error::Error;
use crate::ident::{PackageIdent, PackageIdentView};
use crate::manager::config::{join_path, joined};
use crate::spec::{
    binds_view, DesiredState, ServiceBind, ServiceBindView, ServiceSpec, ServiceSpecView,
    StartStyle, Topology, UpdateStrategy,
};

verus! {

/// One service of a composite: its package, and the binds that the
/// composite maps for it, if it maps any.
#[derive(Debug, PartialEq, Eq)]
pub struct CompositeService {
    pub ident: PackageIdent,
    pub mappings: Option<Vec<BindMapping>>,
}

/// The binds that the mappings of a composite give to a service with the
/// spec `spec`, in the order of the mappings.
pub open spec fn member_binds(spec: ServiceSpecView, mappings: Seq<BindMapping>) -> Seq<
    ServiceBindView,
> {
    Seq::new(
        mappings.len(),
        |i: int| composite_bind(spec, mappings[i].bind_name@, mappings[i].satisfying_service@),
    )
}

/// The spec that a service of the composite named `composite` gets from
/// what the user has said: the default spec with the settings laid over it,
/// but for binds and a directory of configuration, which belong to one
/// service alone; its binds are those that the composite maps for it.
pub open spec fn member_spec(
    settings: SettingsView,
    composite: Seq<char>,
    service: CompositeService,
) -> ServiceSpecView {
    let base = ServiceSpecView {
        ident: service.ident@,
        group: or_kept(settings.group, "default"@),
        application_environment: settings.application_environment,
        bldr_url: or_kept(settings.bldr_url, "https://bldr.habitat.sh"@),
        channel: or_kept(settings.channel, "stable"@),
        topology: or_kept(settings.topology, Topology::Standalone),
        update_strategy: or_kept(settings.strategy, UpdateStrategy::Never),
        binds: Seq::<ServiceBindView>::empty(),
        config_from: None,
        desired_state: DesiredState::Up,
        start_style: StartStyle::Transient,
        svc_encrypted_password: settings.password,
        composite: Some(composite),
    };
    match service.mappings {
        Some(m) => ServiceSpecView { binds: member_binds(base, m@), ..base },
        None => base,
    }
}

/// The specs that a package gives rise to when the user asks for it. A
/// standalone package gets one spec, for the package as the user named it.
/// A composite gets one spec for each of its services, in their order, each
/// under the name of the composite's package.
pub fn specs_from_package(
    named_ident: PackageIdent,
    package_type: PackageType,
    package: &PackageIdent,
    services: &Vec<CompositeService>,
    settings: &Settings,
) -> (r: Vec<ServiceSpec>)
    ensures
        package_type == PackageType::Standalone ==> r@.len() == 1 && r@[0]@
            == settings@.new_spec(named_ident@),
        package_type == PackageType::Composite ==> r@.len() == services@.len() && forall|
            i: int,
        |
            0 <= i < services@.len() ==> (#[trigger] r@[i])@ == member_spec(
                settings@,
                package@.name,
                services@[i],
            ),
{
    let mut specs: Vec<ServiceSpec> = Vec::new();
    match package_type {
        PackageType::Standalone => {
            specs.push(new_service_spec(named_ident, settings));
        },
        PackageType::Composite => {
            proof {
                reveal_strlit("default");
                reveal_strlit("https://bldr.habitat.sh");
                reveal_strlit("stable");
            }
            let mut i: usize = 0;
            while i < services.len()
                invariant
                    i <= services.len(),
                    specs@.len() == i,
                    forall|j: int|
                        0 <= j < i ==> (#[trigger] specs@[j])@ == member_spec(
                            settings@,
                            package@.name,
                            services@[j],
                        ),
                decreases services.len() - i,
            {
                let mappings = match &services[i].mappings {
                    Some(m) => Some(m),
                    None => None,
                };
                let spec = composite_member_spec(
                    settings,
                    package.name.as_str(),
                    services[i].ident.clone(),
                    mappings,
                );
                proof {
                    let want = member_spec(settings@, package@.name, services@[i as int]);
                    assert(spec@.binds =~= want.binds);
                    assert(spec@ == want);
                }
                specs.push(spec);
                i = i + 1;
            }
        },
    }
    specs
}

/// The text of the bind that a mapping gives to a service in the group
/// `group`: the name of the bind, a colon, and the satisfying service in
/// that group.
pub open spec fn bind_text(mapping: BindMapping, group: Seq<char>) -> Seq<char> {
    mapping.bind_name@ + seq![':'] + mapping.satisfying_service@ + seq!['.'] + group
}

/// Whether the texts of the first `n` of `mappings` all are binds.
pub open spec fn binds_read(mappings: Seq<BindMapping>, group: Seq<char>, n: int) -> bool {
    forall|j: int|
        0 <= j < n ==> ServiceBindView::parse(bind_text(#[trigger] mappings[j], group)) is Some
}

/// Whether the mappings of a service, if it has any, all give binds.
pub open spec fn service_reads(service: CompositeService, group: Seq<char>) -> bool {
    match service.mappings {
        Some(m) => binds_read(m@, group, m@.len() as int),
        None => true,
    }
}

/// Whether the mapping at `j` is the first of the service's mappings that
/// gives no bind, and `e` the error of reading it.
pub open spec fn fails_at(service: CompositeService, group: Seq<char>, j: int, e: Error) -> bool {
    match service.mappings {
        Some(m) => 0 <= j < m@.len() && binds_read(m@, group, j) && ServiceBindView::parse(
            bind_text(m@[j], group),
        ) is None && is_bind_error(e, bind_text(m@[j], group)),
        None => false,
    }
}

/// Whether the mappings of the services before the one at `i` all give
/// binds.
pub open spec fn only_fails_at(services: Seq<CompositeService>, group: Seq<char>, i: int) -> bool {
    forall|k: int| 0 <= k < i ==> service_reads(#[trigger] services[k], group)
}

/// The spec of a service of a composite that was given by the spec `spec`:
/// that spec, for the package of the service and under the name of the
/// composite's package, with the binds that the composite maps for the
/// service where it maps any.
pub open spec fn expanded(spec: ServiceSpecView, service: CompositeService) -> ServiceSpecView {
    ServiceSpecView {
        ident: service.ident@,
        composite: Some(spec.ident.name),
        binds: match service.mappings {
            Some(m) => Seq::new(
                m@.len(),
                |j: int| ServiceBindView::parse(bind_text(m@[j], spec.group)).unwrap(),
            ),
            None => spec.binds,
        },
        ..spec
    }
}

/// The text of the bind that a mapping gives to a service in the group
/// `group`.
pub fn write_bind(mapping: &BindMapping, group: &str) -> (r: String)
    ensures
        r@ == bind_text(*mapping, group@),
{
    proof {
        reveal_strlit(":");
        reveal_strlit(".");
    }
    let mut out = String::new();
    out.append(mapping.bind_name.as_str());
    out.append(":");
    out.append(mapping.satisfying_service.as_str());
    out.append(".");
    out.append(group);
    assert(out@ =~= bind_text(*mapping, group@));
    out
}

/// Reads the binds that the mappings of one service give in the group
/// `group`, and stops at the first that is no bind.
pub fn read_mapped_binds(mappings: &Vec<BindMapping>, group: &str) -> (r: Result<
    Vec<ServiceBind>,
    Error,
>)
    ensures
        match r {
            Ok(binds) => binds_read(mappings@, group@, mappings@.len() as int) && binds@.len()
                == mappings@.len() && forall|j: int|
                0 <= j < mappings@.len() ==> Some((#[trigger] binds@[j])@)
                    == ServiceBindView::parse(bind_text(mappings@[j], group@)),
            Err(e) => exists|j: int|
                0 <= j < mappings@.len() && binds_read(mappings@, group@, j)
                    && ServiceBindView::parse(bind_text(#[trigger] mappings@[j], group@)) is None
                    && is_bind_error(e, bind_text(mappings@[j], group@)),
        },
{
    let mut out: Vec<ServiceBind> = Vec::new();
    let mut j: usize = 0;
    while j < mappings.len()
        invariant
            j <= mappings.len(),
            out@.len() == j,
            binds_read(mappings@, group@, j as int),
            forall|k: int|
                0 <= k < j ==> Some((#[trigger] out@[k])@) == ServiceBindView::parse(
                    bind_text(mappings@[k], group@),
                ),
        decreases mappings.len() - j,
    {
        let text = write_bind(&mappings[j], group);
        match ServiceBind::from_str(text.as_str()) {
            Ok(bind) => {
                out.push(bind);
            },
            Err(e) => {
                assert(is_bind_error(e, bind_text(mappings@[j as int], group@)));
                return Err(e);
            },
        }
        j = j + 1;
    }
    Ok(out)
}

/// The specs of the services of a package that the spec `spec` names. A
/// standalone package gives the spec itself. A composite gives one spec
/// for each of its services, in their order. Where a mapping of the
/// composite gives no bind, the error of the first such mapping comes
/// back and no spec.
pub fn composite_specs_from_spec(
    spec: &ServiceSpec,
    package_type: PackageType,
    services: &Vec<CompositeService>,
) -> (r: Result<Vec<ServiceSpec>, Error>)
    ensures
        package_type == PackageType::Standalone ==> (r matches Ok(specs) && specs@.len() == 1
            && specs@[0]@ == spec@),
        package_type == PackageType::Composite ==> match r {
            Ok(specs) => {
                &&& forall|i: int|
                    0 <= i < services@.len() ==> service_reads(
                        #[trigger] services@[i],
                        spec@.group,
                    )
                &&& specs@.len() == services@.len()
                &&& forall|i: int|
                    0 <= i < services@.len() ==> (#[trigger] specs@[i])@ == expanded(
                        spec@,
                        services@[i],
                    )
            },
            Err(e) => exists|i: int, j: int|
                0 <= i < services@.len() && only_fails_at(services@, spec@.group, i) && #[trigger] fails_at(
                    services@[i],
                    spec@.group,
                    j,
                    e,
                ),
        },
{
    let mut specs: Vec<ServiceSpec> = Vec::new();
    match package_type {
        PackageType::Standalone => {
            specs.push(spec.clone());
        },
        PackageType::Composite => {
            let mut i: usize = 0;
            while i < services.len()
                invariant
                    package_type == PackageType::Composite,
                    i <= services.len(),
                    specs@.len() == i,
                    forall|k: int|
                        0 <= k < i ==> service_reads(#[trigger] services@[k], spec@.group),
                    forall|k: int|
                        0 <= k < i ==> (#[trigger] specs@[k])@ == expanded(spec@, services@[k]),
                decreases services.len() - i,
            {
                let mut member = spec.clone();
                member.ident = services[i].ident.clone();
                member.composite = Some(spec.ident.name.clone());
                match &services[i].mappings {
                    Some(m) => {
                        match read_mapped_binds(m, spec.group.as_str()) {
                            Ok(binds) => {
                                member.binds = binds;
                                assert(binds_view(member.binds@) =~= expanded(
                                    spec@,
                                    services@[i as int],
                                ).binds);
                            },
                            Err(e) => {
                                proof {
                                    let j = choose|j: int|
                                        0 <= j < m@.len() && binds_read(m@, spec@.group, j)
                                            && ServiceBindView::parse(
                                            bind_text(#[trigger] m@[j], spec@.group),
                                        ) is None && is_bind_error(
                                            e,
                                            bind_text(m@[j], spec@.group),
                                        );
                                    assert(fails_at(services@[i as int], spec@.group, j, e));
                                    assert(only_fails_at(services@, spec@.group, i as int));
                                }
                                return Err(e);
                            },
                        }
                    },
                    None => {},
                }
                assert(member@ == expanded(spec@, services@[i as int]));
                specs.push(member);
                i = i + 1;
            }
        },
    }
    Ok(specs)
}

/// The path of the spec file of the service of a package, in the
/// directory of spec files at `specs_path`: the name of the package with
/// the spec extension.
pub open spec fn spec_path_of(specs_path: Seq<char>, ident: PackageIdentView) -> Seq<char> {
    joined(specs_path, ident.name + ".spec"@)
}

/// The path of the spec file of the service of a package.
pub fn spec_path_by_ident(specs_path: &str, ident: &PackageIdent) -> (r: String)
    ensures
        r@ == spec_path_of(specs_path@, ident@),
{
    let mut name = ident.name.clone();
    name.append(".spec");
    join_path(specs_path, name.as_str())
}

/// What a package that is to be unloaded stands for.
#[derive(Debug, Clone, Copy, PartialEq, Eq, Structural)]
pub enum Unload {
    /// A service: its spec file goes.
    Service,
    /// A composite: the spec files of its services go, and its own.
    Composite,
    /// Nothing that was loaded: nothing goes.
    Nothing,
}

/// What a package that is to be unloaded stands for. A name is looked up
/// among the services first, among the composites only then.
pub fn what_to_unload(spec_file_exists: bool, composite_file_exists: bool) -> (r: Unload)
    ensures
        r == if spec_file_exists {
            Unload::Service
        } else if composite_file_exists {
            Unload::Composite
        } else {
            Unload::Nothing
        },
{
    if spec_file_exists {
        Unload::Service
    } else if composite_file_exists {
        Unload::Composite
    } else {
        Unload::Nothing
    }
}

/// The files that go when a composite is unloaded: the spec file of each
/// of its services, in their order, and the file of the composite last.
pub fn files_to_unload(specs_path: &str, services: &Vec<PackageIdent>, composite_file: &str) -> (r:
    Vec<String>)
    ensures
        r@.len() == services@.len() + 1,
        forall|i: int|
            0 <= i < services@.len() ==> (#[trigger] r@[i])@ == spec_path_of(
                specs_path@,
                services@[i]@,
            ),
        r@[services@.len() as int]@ == composite_file@,
{
    let mut files: Vec<String> = Vec::new();
    let mut i: usize = 0;
    while i < services.len()
        invariant
            i <= services.len(),
            files@.len() == i,
            forall|j: int|
                0 <= j < i ==> (#[trigger] files@[j])@ == spec_path_of(
                    specs_path@,
                    services@[j]@,
                ),
        decreases services.len() - i,
    {
        files.push(spec_path_by_ident(specs_path, &services[i]));
        i = i + 1;
    }
    files.push(composite_file.to_owned());
    files
}

/// What `load` writes for a package that is installed: the specs of the
/// package, each of them persistent, and the record of the composite where
/// the package is one that is named in full.
pub fn specs_to_load(
    named_ident: PackageIdent,
    package_type: PackageType,
    package: &PackageIdent,
    services: &Vec<CompositeService>,
    settings: &Settings,
) -> (r: (Vec<ServiceSpec>, Option<CompositeSpec>))
    ensures
        package_type == PackageType::Standalone ==> r.0@.len() == 1 && r.0@[0]@ == (
        ServiceSpecView {
            start_style: StartStyle::Persistent,
            ..settings@.new_spec(named_ident@)
        }),
        package_type == PackageType::Composite ==> r.0@.len() == services@.len() && forall|
            i: int,
        |
            0 <= i < services@.len() ==> (#[trigger] r.0@[i])@ == (ServiceSpecView {
                start_style: StartStyle::Persistent,
                ..member_spec(settings@, package@.name, services@[i])
            }),
        match r.1 {
            Some(composite) => package_type == PackageType::Composite && package@.fully_qualified()
                && composite@ == package@ && composite.wf(),
            None => !(package_type == PackageType::Composite && package@.fully_qualified()),
        },
{
    let mut specs = specs_from_package(named_ident, package_type, package, services, settings);
    let ghost before = specs@;
    let mut i: usize = 0;
    while i < specs.len()
        invariant
            i <= specs.len(),
            specs@.len() == before.len(),
            forall|j: int|
                0 <= j < i ==> (#[trigger] specs@[j])@ == (ServiceSpecView {
                    start_style: StartStyle::Persistent,
                    ..before[j]@
                }),
            forall|j: int| i <= j < specs@.len() ==> specs@[j] == before[j],
        decreases specs.len() - i,
    {
        let mut spec = specs[i].clone();
        spec.start_style = StartStyle::Persistent;
        specs.set(i, spec);
        i = i + 1;
    }
    let composite = match CompositeSpec::from_package_install(package_type, package) {
        Ok(c) => Some(c),
        Err(_) => None,
    };
    (specs, composite)
}

} // verus!
