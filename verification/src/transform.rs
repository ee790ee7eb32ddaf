//! Normalization: from the descriptors as written to the descriptors that
//! validation and resolution work on.

use vstd::prelude::*;
use crate::error::{TransformError, TransformErrorView};
use crate::seqs::{
    first_from, first_where, fold, index_view, lemma_fold_step, lemma_try_fold_step, result_view,
    try_fold,
};
use crate::sources::{
    DescriptorFiles, DescriptorFilesView, ExtraSpecContent, ExtraSpecContentView, ExtraSpecSnapshot,
    ExtraSpecSnapshotView,
};
use crate::spec::{
    AppEnvironment, AppEnvironmentView, AppSecretOption, AppSpec, AppSpecView, ConfigSpec,
    ConfigSpecView, DeploymentEnvironmentSpec, DeploymentEnvironmentSpecView, DeploymentEnvType,
    DeploymentServiceEntry, DeploymentServiceEntryView, DeploymentSpec, DeploymentSpecView,
    DockerIngressType, DockerSpecificSpec, ExternalEnvVariable, HostSpec, HostSpecView, IngressSpec,
    IngressSpecView, IngressTlsSpec, IngressTlsSpecView, InternalEnvVariable, LetsEncryptSpec,
    LetsEncryptSpecView, OptionalEnvVariable, RegistryMapping, RegistryMappingView,
    RelativeEnvVariable, ServicePort,
};
use crate::spec_yaml::{
    AppSpecYaml, AppSpecYamlView, DeploymentEnvironmentSpecYaml, DeploymentEnvironmentSpecYamlView,
    DeploymentEnvTypeYaml, DeploymentSpecYamlView, HostSpecYaml, HostSpecYamlView, IngressSpecYaml,
    IngressSpecYamlView, IngressTlsSpecYamlView, ServiceSpecYaml, ServiceSpecYamlView,
};
use crate::text::same_text;
use crate::transform_declarations::{environment_of, secrets_of};
use crate::transform_deployment::{convert_deployment, deployment_of};
use crate::transform_service::{convert_service_entries, services_of};
use crate::version::{AppVersion, semver_version_parses};

pub use crate::transform_declarations::{convert_environment, convert_secrets};
pub use crate::transform_deployment::{
    convert_defaults, convert_deployment_service, convert_env_variables, convert_limits,
};
pub use crate::transform_service::{convert_service, convert_service_secrets, convert_services};

verus! {

/// One written host as an ingress host.
pub open spec fn written_host() -> spec_fn((Seq<char>, HostSpecYamlView)) -> HostSpecView {
    |e: (Seq<char>, HostSpecYamlView)|
        HostSpecView {
            name: e.0,
            domain_names: match e.1 {
                HostSpecYamlView::Single(domain) => seq![domain],
                HostSpecYamlView::Multiple(domains) => domains,
            },
        }
}

/// The TLS of an ingress, from what is written. An environment that is not
/// local must write a TLS block; a block that says `disable` switches TLS off.
pub open spec fn tls_of(tls: Option<IngressTlsSpecYamlView>, env_type: DeploymentEnvTypeYaml) -> Result<
    Option<IngressTlsSpecView>,
    TransformErrorView,
> {
    match tls {
        None => if env_type == DeploymentEnvTypeYaml::Local {
            Ok(None)
        } else {
            Err(TransformErrorView::TlsRequired)
        },
        Some(t) => if t.disable == Some(true) {
            Ok(None)
        } else {
            Ok(
                Some(
                    IngressTlsSpecView {
                        secret: t.secret,
                        letsencrypt: match t.letsencrypt {
                            Some(le) => Some(
                                LetsEncryptSpecView { server: le.server, email: le.email },
                            ),
                            None => None,
                        },
                    },
                ),
            )
        },
    }
}

/// The ingress of an environment, from what is written.
pub open spec fn ingress_of(yaml: IngressSpecYamlView, env_type: DeploymentEnvTypeYaml) -> Result<
    IngressSpecView,
    TransformErrorView,
> {
    match tls_of(yaml.tls, env_type) {
        Ok(tls) => Ok(
            IngressSpecView { name: yaml.name, hosts: yaml.hosts.map_values(written_host()), tls },
        ),
        Err(e) => Err(e),
    }
}

/// Normalizes the ingress of an environment of the kind `env_type`.
pub fn convert_ingress(yaml: &IngressSpecYaml, env_type: &DeploymentEnvTypeYaml) -> (r: Result<
    IngressSpec,
    TransformError,
>)
    ensures
        result_view(r) == ingress_of(yaml@, *env_type),
{
    let ghost f = written_host();
    let mut hosts: Vec<HostSpec> = Vec::new();
    let mut i: usize = 0;
    assert(hosts.deep_view() =~= yaml.hosts.deep_view().map_values(f).take(0));
    while i < yaml.hosts.len()
        invariant
            i <= yaml.hosts.len(),
            f == written_host(),
            hosts.deep_view() == yaml.hosts.deep_view().map_values(f).take(i as int),
        decreases yaml.hosts.len() - i,
    {
        let ghost before = hosts.deep_view();
        let domain_names = match &yaml.hosts[i].1 {
            HostSpecYaml::Single(domain) => {
                let mut names: Vec<String> = Vec::new();
                names.push(domain.clone());
                assert(names.deep_view() =~= seq![domain@]);
                names
            },
            HostSpecYaml::Multiple(domains) => {
                let names = domains.clone();
                assert(names.deep_view() =~= domains.deep_view());
                names
            },
        };
        let host = HostSpec { name: yaml.hosts[i].0.clone(), domain_names };
        hosts.push(host);
        assert(hosts.deep_view() =~= before.push(host@));
        assert(yaml.hosts.deep_view().map_values(f).take(i + 1) =~= before.push(host@));
        i += 1;
    }
    assert(yaml.hosts.deep_view().map_values(f).take(i as int) =~= yaml.hosts.deep_view().map_values(
        f,
    ));
    let tls = match &yaml.tls {
        None => match env_type {
            DeploymentEnvTypeYaml::Local => None,
            _ => {
                return Err(TransformError::TlsRequired);
            },
        },
        Some(t) => {
            let disabled = match t.disable {
                Some(d) => d,
                None => false,
            };
            if disabled {
                None
            } else {
                Some(
                    IngressTlsSpec {
                        secret: t.secret.clone(),
                        letsencrypt: match &t.letsencrypt {
                            Some(le) => Some(
                                LetsEncryptSpec {
                                    server: le.server.clone(),
                                    email: le.email.clone(),
                                },
                            ),
                            None => None,
                        },
                    },
                )
            }
        },
    };
    Ok(IngressSpec { name: yaml.name.clone(), hosts, tls })
}

/// One written registry entry as a mapping.
pub open spec fn mapping_entry() -> spec_fn((Seq<char>, Seq<char>)) -> RegistryMappingView {
    |e: (Seq<char>, Seq<char>)| RegistryMappingView { namespace: e.0, host: e.1 }
}

/// The registry mappings of an environment, from what is written.
pub open spec fn registry_of(entries: Option<Seq<(Seq<char>, Seq<char>)>>) -> Seq<
    RegistryMappingView,
> {
    match entries {
        Some(e) => e.map_values(mapping_entry()),
        None => Seq::empty(),
    }
}

fn convert_registry(written: &Option<Vec<(String, String)>>) -> (r: Vec<RegistryMapping>)
    ensures
        r.deep_view() == registry_of(written.deep_view()),
{
    let mut registry: Vec<RegistryMapping> = Vec::new();
    assert(registry.deep_view() =~= Seq::empty());
    match written {
        Some(entries) => {
            let ghost f = mapping_entry();
            let mut i: usize = 0;
            assert(entries.deep_view().map_values(f).take(0) =~= Seq::empty());
            while i < entries.len()
                invariant
                    i <= entries.len(),
                    f == mapping_entry(),
                    registry.deep_view() == entries.deep_view().map_values(f).take(i as int),
                decreases entries.len() - i,
            {
                let ghost before = registry.deep_view();
                let mapping = RegistryMapping {
                    namespace: entries[i].0.clone(),
                    host: entries[i].1.clone(),
                };
                registry.push(mapping);
                assert(registry.deep_view() =~= before.push(mapping@));
                assert(entries.deep_view().map_values(f).take(i + 1) =~= before.push(mapping@));
                i += 1;
            }
            assert(entries.deep_view().map_values(f).take(i as int) =~= entries.deep_view().map_values(
                f,
            ));
        },
        None => {},
    }
    registry
}

/// The reverse proxy of a Docker environment, from what is written:
/// `nginx` or `traefik`, and Traefik where nothing is written.
pub open spec fn ingress_kind_of(text: Option<Seq<char>>) -> Result<
    DockerIngressType,
    TransformErrorView,
> {
    match text {
        None => Ok(DockerIngressType::Traefik),
        Some(t) => if t == "nginx"@ {
            Ok(DockerIngressType::Nginx)
        } else if t == "traefik"@ {
            Ok(DockerIngressType::Traefik)
        } else {
            Err(TransformErrorView::UnknownIngressType { ingress_type: t })
        },
    }
}

/// Selects the ports equal to `port`.
pub open spec fn same_port(port: u16) -> spec_fn(u16) -> bool {
    |p: u16| p == port
}

/// Takes one port of a local deployment: its outside must not be taken yet.
pub open spec fn local_port_step() -> spec_fn(Seq<u16>, ServicePort) -> Result<
    Seq<u16>,
    TransformErrorView,
> {
    |taken: Seq<u16>, port: ServicePort|
        match first_where(taken, same_port(port.external)) {
            Some(_) => Err(TransformErrorView::DuplicateExternalPort { external: port.external }),
            None => Ok(taken.push(port.external)),
        }
}

/// Takes the ports of one overridden service of a local deployment: it must
/// have one at least.
pub open spec fn local_service_step() -> spec_fn(Seq<u16>, DeploymentServiceEntryView) -> Result<
    Seq<u16>,
    TransformErrorView,
> {
    |taken: Seq<u16>, entry: DeploymentServiceEntryView|
        if entry.spec.ports.len() == 0 {
            Err(TransformErrorView::LocalServiceWithoutPorts { service: entry.service_name })
        } else {
            try_fold(entry.spec.ports, taken, local_port_step())
        }
}

/// Takes the ports of the overridden services of one local deployment.
pub open spec fn local_deployment_step() -> spec_fn(Seq<u16>, DeploymentSpecView) -> Result<
    Seq<u16>,
    TransformErrorView,
> {
    |taken: Seq<u16>, deployment: DeploymentSpecView|
        match deployment.services {
            Some(entries) => try_fold(entries, taken, local_service_step()),
            None => Ok(taken),
        }
}

/// The outside ports that the deployments of a local environment take:
/// every overridden service has a port, and no outside port is taken twice.
pub open spec fn local_ports(deployments: Seq<DeploymentSpecView>) -> Result<
    Seq<u16>,
    TransformErrorView,
> {
    try_fold(deployments, Seq::empty(), local_deployment_step())
}

/// The kind of an environment, from what is written, with the rules that
/// each kind sets.
///
/// Only Docker may set the swarm mode and the kind of its ingress. A local
/// environment maps no registry, declares exactly one deployment, gives
/// every overridden service a port, and takes no outside port twice.
pub open spec fn env_type_of(
    yaml: DeploymentEnvironmentSpecYamlView,
    deployments: Seq<DeploymentSpecView>,
) -> Result<DeploymentEnvType, TransformErrorView> {
    match yaml.env_type {
        DeploymentEnvTypeYaml::K8S => if yaml.swarm_mode is Some {
            Err(TransformErrorView::SwarmModeNotAllowed)
        } else if yaml.ingress.ingress_type is Some {
            Err(TransformErrorView::IngressTypeNotAllowed)
        } else {
            Ok(DeploymentEnvType::K8S)
        },
        DeploymentEnvTypeYaml::Docker => match ingress_kind_of(yaml.ingress.ingress_type) {
            Ok(ingress_type) => Ok(
                DeploymentEnvType::Docker(
                    DockerSpecificSpec {
                        ingress_type,
                        swarm_mode: match yaml.swarm_mode {
                            Some(swarm) => swarm,
                            None => false,
                        },
                    },
                ),
            ),
            Err(e) => Err(e),
        },
        DeploymentEnvTypeYaml::Local => if yaml.swarm_mode is Some {
            Err(TransformErrorView::SwarmModeNotAllowed)
        } else if yaml.ingress.ingress_type is Some {
            Err(TransformErrorView::IngressTypeNotAllowed)
        } else if registry_of(yaml.registry).len() > 0 {
            Err(TransformErrorView::RegistryNotAllowed)
        } else if deployments.len() != 1 {
            Err(TransformErrorView::LocalDeploymentCount { count: deployments.len() as usize })
        } else {
            match local_ports(deployments) {
                Ok(_) => Ok(DeploymentEnvType::Local),
                Err(e) => Err(e),
            }
        },
    }
}

/// Adds one written deployment to the deployments read so far.
pub open spec fn deployment_step(files: DescriptorFilesView) -> spec_fn(
    Seq<DeploymentSpecView>,
    (Seq<char>, DeploymentSpecYamlView),
) -> Result<Seq<DeploymentSpecView>, TransformErrorView> {
    |acc: Seq<DeploymentSpecView>, e: (Seq<char>, DeploymentSpecYamlView)|
        match deployment_of(e.0, e.1, files) {
            Ok(deployment) => Ok(acc.push(deployment)),
            Err(err) => Err(err),
        }
}

/// The environment, from what is written. Its parts are read in this order,
/// and the first that is refused gives the error: the ingress, the
/// deployments one by one, the rules of the kind of environment.
pub open spec fn env_spec_of(yaml: DeploymentEnvironmentSpecYamlView, files: DescriptorFilesView) -> Result<
    DeploymentEnvironmentSpecView,
    TransformErrorView,
> {
    match ingress_of(yaml.ingress, yaml.env_type) {
        Err(e) => Err(e),
        Ok(ingress) => match try_fold(yaml.deployments, Seq::empty(), deployment_step(files)) {
            Err(e) => Err(e),
            Ok(deployments) => match env_type_of(yaml, deployments) {
                Err(e) => Err(e),
                Ok(env_type) => Ok(
                    DeploymentEnvironmentSpecView {
                        env_type,
                        ingress,
                        registry: registry_of(yaml.registry),
                        deployments,
                    },
                ),
            },
        },
    }
}

fn find_port(taken: &Vec<u16>, port: u16) -> (r: Option<usize>)
    ensures
        index_view(r) == first_where(taken.deep_view(), same_port(port)),
{
    let mut k: usize = 0;
    while k < taken.len()
        invariant
            first_where(taken.deep_view(), same_port(port)) == first_from(
                taken.deep_view(),
                same_port(port),
                k as int,
            ),
        decreases taken.len() - k,
    {
        if taken[k] == port {
            return Some(k);
        }
        k += 1;
    }
    None
}

fn take_local_ports(start: Vec<u16>, ports: &Vec<ServicePort>) -> (r: Result<Vec<u16>, TransformError>)
    ensures
        result_view(r) == try_fold(ports.deep_view(), start.deep_view(), local_port_step()),
{
    let ghost step = local_port_step();
    let mut taken = start;
    let mut i: usize = 0;
    proof {
        assert(ports.deep_view().skip(0) =~= ports.deep_view());
    }
    while i < ports.len()
        invariant
            i <= ports.len(),
            step == local_port_step(),
            try_fold(ports.deep_view(), start.deep_view(), step) == try_fold(
                ports.deep_view().skip(i as int),
                taken.deep_view(),
                step,
            ),
        decreases ports.len() - i,
    {
        proof {
            lemma_try_fold_step(ports.deep_view(), i as int, taken.deep_view(), step);
        }
        let port = ports[i].external;
        let ghost before = taken.deep_view();
        if find_port(&taken, port).is_some() {
            return Err(TransformError::DuplicateExternalPort { external: port });
        }
        taken.push(port);
        assert(taken.deep_view() =~= before.push(port));
        i += 1;
    }
    proof {
        lemma_try_fold_step(ports.deep_view(), i as int, taken.deep_view(), step);
    }
    Ok(taken)
}

fn take_local_service_ports(start: Vec<u16>, entries: &Vec<DeploymentServiceEntry>) -> (r: Result<
    Vec<u16>,
    TransformError,
>)
    ensures
        result_view(r) == try_fold(entries.deep_view(), start.deep_view(), local_service_step()),
{
    let ghost step = local_service_step();
    let mut taken = start;
    let mut i: usize = 0;
    proof {
        assert(entries.deep_view().skip(0) =~= entries.deep_view());
    }
    while i < entries.len()
        invariant
            i <= entries.len(),
            step == local_service_step(),
            try_fold(entries.deep_view(), start.deep_view(), step) == try_fold(
                entries.deep_view().skip(i as int),
                taken.deep_view(),
                step,
            ),
        decreases entries.len() - i,
    {
        proof {
            lemma_try_fold_step(entries.deep_view(), i as int, taken.deep_view(), step);
        }
        let entry = &entries[i];
        if entry.spec.ports.len() == 0 {
            return Err(
                TransformError::LocalServiceWithoutPorts { service: entry.service_name.clone() },
            );
        }
        match take_local_ports(taken, &entry.spec.ports) {
            Ok(next) => {
                taken = next;
            },
            Err(e) => {
                return Err(e);
            },
        }
        i += 1;
    }
    proof {
        lemma_try_fold_step(entries.deep_view(), i as int, taken.deep_view(), step);
    }
    Ok(taken)
}

fn check_local_ports(deployments: &Vec<DeploymentSpec>) -> (r: Result<Vec<u16>, TransformError>)
    ensures
        result_view(r) == local_ports(deployments.deep_view()),
{
    let ghost step = local_deployment_step();
    let mut taken: Vec<u16> = Vec::new();
    let mut i: usize = 0;
    proof {
        assert(deployments.deep_view().skip(0) =~= deployments.deep_view());
        assert(taken.deep_view() =~= Seq::empty());
    }
    while i < deployments.len()
        invariant
            i <= deployments.len(),
            step == local_deployment_step(),
            local_ports(deployments.deep_view()) == try_fold(
                deployments.deep_view().skip(i as int),
                taken.deep_view(),
                step,
            ),
        decreases deployments.len() - i,
    {
        proof {
            lemma_try_fold_step(deployments.deep_view(), i as int, taken.deep_view(), step);
        }
        match &deployments[i].services {
            Some(entries) => match take_local_service_ports(taken, entries) {
                Ok(next) => {
                    taken = next;
                },
                Err(e) => {
                    return Err(e);
                },
            },
            None => {},
        }
        i += 1;
    }
    proof {
        lemma_try_fold_step(deployments.deep_view(), i as int, taken.deep_view(), step);
    }
    Ok(taken)
}

fn convert_env_type(
    yaml: &DeploymentEnvironmentSpecYaml,
    registry: &Vec<RegistryMapping>,
    deployments: &Vec<DeploymentSpec>,
) -> (r: Result<DeploymentEnvType, TransformError>)
    requires
        registry.deep_view() == registry_of(yaml@.registry),
    ensures
        result_view(r) == env_type_of(yaml@, deployments.deep_view()),
{
    match yaml.env_type {
        DeploymentEnvTypeYaml::K8S => {
            if yaml.swarm_mode.is_some() {
                return Err(TransformError::SwarmModeNotAllowed);
            }
            if yaml.ingress.ingress_type.is_some() {
                return Err(TransformError::IngressTypeNotAllowed);
            }
            Ok(DeploymentEnvType::K8S)
        },
        DeploymentEnvTypeYaml::Docker => {
            let swarm_mode = match yaml.swarm_mode {
                Some(swarm) => swarm,
                None => false,
            };
            let ingress_type = match &yaml.ingress.ingress_type {
                None => DockerIngressType::Traefik,
                Some(t) => {
                    if same_text(t.as_str(), "nginx") {
                        DockerIngressType::Nginx
                    } else if same_text(t.as_str(), "traefik") {
                        DockerIngressType::Traefik
                    } else {
                        return Err(TransformError::UnknownIngressType { ingress_type: t.clone() });
                    }
                },
            };
            Ok(DeploymentEnvType::Docker(DockerSpecificSpec { ingress_type, swarm_mode }))
        },
        DeploymentEnvTypeYaml::Local => {
            if yaml.swarm_mode.is_some() {
                return Err(TransformError::SwarmModeNotAllowed);
            }
            if yaml.ingress.ingress_type.is_some() {
                return Err(TransformError::IngressTypeNotAllowed);
            }
            if registry.len() > 0 {
                return Err(TransformError::RegistryNotAllowed);
            }
            if deployments.len() != 1 {
                return Err(TransformError::LocalDeploymentCount { count: deployments.len() });
            }
            match check_local_ports(deployments) {
                Ok(_) => Ok(DeploymentEnvType::Local),
                Err(e) => Err(e),
            }
        },
    }
}

/// Normalizes an environment descriptor. `files` holds the env files and the
/// config directories that its deployments refer to.
pub fn convert_env_spec(yaml: &DeploymentEnvironmentSpecYaml, files: &DescriptorFiles) -> (r: Result<
    DeploymentEnvironmentSpec,
    TransformError,
>)
    ensures
        result_view(r) == env_spec_of(yaml@, files@),
{
    let ingress = match convert_ingress(&yaml.ingress, &yaml.env_type) {
        Ok(ingress) => ingress,
        Err(e) => {
            return Err(e);
        },
    };
    let registry = convert_registry(&yaml.registry);
    let ghost step = deployment_step(files@);
    let mut deployments: Vec<DeploymentSpec> = Vec::new();
    let mut i: usize = 0;
    proof {
        assert(yaml.deployments.deep_view().skip(0) =~= yaml.deployments.deep_view());
        assert(deployments.deep_view() =~= Seq::empty());
    }
    while i < yaml.deployments.len()
        invariant
            i <= yaml.deployments.len(),
            step == deployment_step(files@),
            Ok::<IngressSpecView, TransformErrorView>(ingress@) == ingress_of(
                yaml@.ingress,
                yaml@.env_type,
            ),
            try_fold(yaml.deployments.deep_view(), Seq::empty(), step) == try_fold(
                yaml.deployments.deep_view().skip(i as int),
                deployments.deep_view(),
                step,
            ),
        decreases yaml.deployments.len() - i,
    {
        proof {
            lemma_try_fold_step(
                yaml.deployments.deep_view(),
                i as int,
                deployments.deep_view(),
                step,
            );
        }
        let ghost before = deployments.deep_view();
        match convert_deployment(&yaml.deployments[i].0, &yaml.deployments[i].1, files) {
            Ok(deployment) => {
                deployments.push(deployment);
                assert(deployments.deep_view() =~= before.push(deployment@));
            },
            Err(e) => {
                return Err(e);
            },
        }
        i += 1;
    }
    proof {
        lemma_try_fold_step(yaml.deployments.deep_view(), i as int, deployments.deep_view(), step);
    }
    let env_type = match convert_env_type(yaml, &registry, &deployments) {
        Ok(env_type) => env_type,
        Err(e) => {
            return Err(e);
        },
    };
    Ok(DeploymentEnvironmentSpec { env_type, ingress, registry, deployments })
}

/// Selects the written services of the name `name`.
pub open spec fn written_as(name: Seq<char>) -> spec_fn((Seq<char>, ServiceSpecYamlView)) -> bool {
    |e: (Seq<char>, ServiceSpecYamlView)| e.0 == name
}

/// Puts one written service among others: in the place of the first of its
/// name, or at the end where there is none.
pub open spec fn put_service() -> spec_fn(
    Seq<(Seq<char>, ServiceSpecYamlView)>,
    (Seq<char>, ServiceSpecYamlView),
) -> Seq<(Seq<char>, ServiceSpecYamlView)> {
    |entries: Seq<(Seq<char>, ServiceSpecYamlView)>, e: (Seq<char>, ServiceSpecYamlView)|
        match first_where(entries, written_as(e.0)) {
            Some(i) => entries.update(i, e),
            None => entries.push(e),
        }
}

/// Puts the written services of `more` among `entries`, one after the other.
pub open spec fn put_services(
    entries: Seq<(Seq<char>, ServiceSpecYamlView)>,
    more: Option<Seq<(Seq<char>, ServiceSpecYamlView)>>,
) -> Seq<(Seq<char>, ServiceSpecYamlView)> {
    match more {
        Some(m) => fold(m, entries, put_service()),
        None => entries,
    }
}

/// Selects the descriptor files at the path `path`.
pub open spec fn extra_spec_at(path: Seq<char>) -> spec_fn(ExtraSpecSnapshotView) -> bool {
    |f: ExtraSpecSnapshotView| f.path == path
}

/// Puts the extra services of one descriptor file among those gathered so far.
pub open spec fn extra_file_step(extra_specs: Seq<ExtraSpecSnapshotView>) -> spec_fn(
    Seq<(Seq<char>, ServiceSpecYamlView)>,
    Seq<char>,
) -> Result<Seq<(Seq<char>, ServiceSpecYamlView)>, TransformErrorView> {
    |acc: Seq<(Seq<char>, ServiceSpecYamlView)>, path: Seq<char>|
        match first_where(extra_specs, extra_spec_at(path)) {
            None => Err(TransformErrorView::ExtraSpecUnreadable { path }),
            Some(i) => match extra_specs[i].content {
                ExtraSpecContentView::Unreadable => Err(
                    TransformErrorView::ExtraSpecUnreadable { path },
                ),
                ExtraSpecContentView::Invalid => Err(
                    TransformErrorView::ExtraSpecInvalid { path },
                ),
                ExtraSpecContentView::Parsed(doc) => Ok(put_services(acc, doc.extra_services)),
            },
        }
}

/// Selects the deployments that are for the application of the name `name`.
pub open spec fn deploys(name: Seq<char>) -> spec_fn(DeploymentSpecView) -> bool {
    |d: DeploymentSpecView| d.application.name == name
}

/// The descriptor files with extra services that the environment names for
/// the application `name`: those of the first deployment that is for it.
pub open spec fn extra_paths_of(env: Option<DeploymentEnvironmentSpecView>, name: Seq<char>) -> Seq<
    Seq<char>,
> {
    match env {
        Some(e) => match first_where(e.deployments, deploys(name)) {
            Some(i) => e.deployments[i].application.extra,
            None => Seq::empty(),
        },
        None => Seq::empty(),
    }
}

/// The written extra services of an application: those of the descriptor
/// files that the environment names for it, file by file, and over them
/// those of its own descriptor. A later service of a name takes the place
/// of an earlier one.
pub open spec fn extra_entries_of(
    yaml: AppSpecYamlView,
    env: Option<DeploymentEnvironmentSpecView>,
    extra_specs: Seq<ExtraSpecSnapshotView>,
) -> Result<Seq<(Seq<char>, ServiceSpecYamlView)>, TransformErrorView> {
    match try_fold(extra_paths_of(env, yaml.name), Seq::empty(), extra_file_step(extra_specs)) {
        Ok(entries) => Ok(put_services(entries, yaml.extra_services)),
        Err(e) => Err(e),
    }
}

/// One written config group as a config group.
pub open spec fn written_config() -> spec_fn((Seq<char>, Seq<Seq<char>>)) -> ConfigSpecView {
    |e: (Seq<char>, Seq<Seq<char>>)| ConfigSpecView { name: e.0, files: e.1 }
}

/// The services of an application and what follows them in its descriptor.
pub open spec fn app_services_of(
    yaml: AppSpecYamlView,
    env: Option<DeploymentEnvironmentSpecView>,
    extra_specs: Seq<ExtraSpecSnapshotView>,
    environment: AppEnvironmentView,
) -> Result<AppSpecView, TransformErrorView> {
    match services_of(
        match yaml.app_services {
            Some(entries) => entries,
            None => Seq::empty(),
        },
        true,
    ) {
        Err(e) => Err(e),
        Ok(app_services) => match extra_entries_of(yaml, env, extra_specs) {
            Err(e) => Err(e),
            Ok(entries) => match services_of(entries, false) {
                Err(e) => Err(e),
                Ok(extra_services) => Ok(
                    AppSpecView {
                        name: yaml.name,
                        version: yaml.version,
                        environment,
                        app_services,
                        extra_services,
                        configs: match yaml.configs {
                            Some(c) => c.map_values(written_config()),
                            None => Seq::empty(),
                        },
                        secrets: match yaml.secrets {
                            Some(s) => secrets_of(s),
                            None => Seq::empty(),
                        },
                    },
                ),
            },
        },
    }
}

/// The application, from what is written. Its parts are read in this order,
/// and the first that is refused gives the error: the version, the variable
/// declarations, the services it builds, the descriptor files with extra
/// services, the extra services.
pub open spec fn app_spec_of(
    yaml: AppSpecYamlView,
    env: Option<DeploymentEnvironmentSpecView>,
    extra_specs: Seq<ExtraSpecSnapshotView>,
) -> Result<AppSpecView, TransformErrorView> {
    if !semver_version_parses(yaml.version) {
        Err(TransformErrorView::InvalidVersion { text: yaml.version })
    } else {
        match yaml.environment {
            Some(e) => match environment_of(e) {
                Ok(environment) => app_services_of(yaml, env, extra_specs, environment),
                Err(err) => Err(err),
            },
            None => app_services_of(
                yaml,
                env,
                extra_specs,
                AppEnvironmentView {
                    external: Seq::empty(),
                    optional: Seq::empty(),
                    relative: Seq::empty(),
                    internal: Seq::empty(),
                },
            ),
        }
    }
}

fn put_entry<'a>(
    entries: &mut Vec<(&'a String, &'a ServiceSpecYaml)>,
    name: &'a String,
    yaml: &'a ServiceSpecYaml,
)
    ensures
        final(entries).deep_view() == put_service()(old(entries).deep_view(), (name@, yaml@)),
{
    let ghost before = entries.deep_view();
    let ghost p = written_as(name@);
    let mut i: usize = 0;
    while i < entries.len()
        invariant
            i <= entries.len(),
            p == written_as(name@),
            before == old(entries).deep_view(),
            entries.deep_view() == before,
            first_where(before, p) == first_from(before, p, i as int),
        decreases entries.len() - i,
    {
        if *entries[i].0 == *name {
            entries.set(i, (name, yaml));
            assert(entries.deep_view() =~= before.update(i as int, (name@, yaml@)));
            return ;
        }
        i += 1;
    }
    entries.push((name, yaml));
    assert(entries.deep_view() =~= before.push((name@, yaml@)));
}

fn put_entries<'a>(
    entries: &mut Vec<(&'a String, &'a ServiceSpecYaml)>,
    more: &'a Option<Vec<(String, ServiceSpecYaml)>>,
)
    ensures
        final(entries).deep_view() == put_services(old(entries).deep_view(), more.deep_view()),
{
    match more {
        Some(m) => {
            let ghost step = put_service();
            let mut i: usize = 0;
            proof {
                assert(m.deep_view().skip(0) =~= m.deep_view());
            }
            while i < m.len()
                invariant
                    i <= m.len(),
                    step == put_service(),
                    fold(m.deep_view(), old(entries).deep_view(), step) == fold(
                        m.deep_view().skip(i as int),
                        entries.deep_view(),
                        step,
                    ),
                decreases m.len() - i,
            {
                proof {
                    lemma_fold_step(m.deep_view(), i as int, entries.deep_view(), step);
                }
                put_entry(entries, &m[i].0, &m[i].1);
                i += 1;
            }
            proof {
                lemma_fold_step(m.deep_view(), i as int, entries.deep_view(), step);
            }
        },
        None => {},
    }
}

fn find_extra_spec(files: &Vec<ExtraSpecSnapshot>, path: &str) -> (r: Option<usize>)
    ensures
        index_view(r) == first_where(files.deep_view(), extra_spec_at(path@)),
        r matches Some(i) ==> i < files.len(),
{
    let mut i: usize = 0;
    while i < files.len()
        invariant
            first_where(files.deep_view(), extra_spec_at(path@)) == first_from(
                files.deep_view(),
                extra_spec_at(path@),
                i as int,
            ),
        decreases files.len() - i,
    {
        if same_text(files[i].path.as_str(), path) {
            return Some(i);
        }
        i += 1;
    }
    None
}

fn extra_paths<'a>(env_spec: Option<&'a DeploymentEnvironmentSpec>, name: &String, none: &'a Vec<
    String,
>) -> (r: &'a Vec<String>)
    requires
        none.len() == 0,
    ensures
        r.deep_view() == extra_paths_of(env_spec.deep_view(), name@),
{
    assert(none.deep_view() =~= Seq::empty());
    match env_spec {
        Some(env) => {
            let ghost p = deploys(name@);
            let mut i: usize = 0;
            while i < env.deployments.len()
                invariant
                    i <= env.deployments.len(),
                    p == deploys(name@),
                    env_spec.deep_view() == Some(env@),
                    none.deep_view() == Seq::<Seq<char>>::empty(),
                    first_where(env.deployments.deep_view(), p) == first_from(
                        env.deployments.deep_view(),
                        p,
                        i as int,
                    ),
                decreases env.deployments.len() - i,
            {
                if env.deployments[i].application.name == *name {
                    return &env.deployments[i].application.extra;
                }
                i += 1;
            }
            none
        },
        None => none,
    }
}

fn gather_extra_entries<'a>(
    yaml: &'a AppSpecYaml,
    env_spec: Option<&DeploymentEnvironmentSpec>,
    extra_specs: &'a Vec<ExtraSpecSnapshot>,
) -> (r: Result<Vec<(&'a String, &'a ServiceSpecYaml)>, TransformError>)
    ensures
        result_view(r) == extra_entries_of(yaml@, env_spec.deep_view(), extra_specs.deep_view()),
{
    let none: Vec<String> = Vec::new();
    let paths = extra_paths(env_spec, &yaml.name, &none);
    let ghost step = extra_file_step(extra_specs.deep_view());
    let mut entries: Vec<(&String, &ServiceSpecYaml)> = Vec::new();
    let mut i: usize = 0;
    proof {
        assert(paths.deep_view().skip(0) =~= paths.deep_view());
        assert(entries.deep_view() =~= Seq::empty());
    }
    while i < paths.len()
        invariant
            i <= paths.len(),
            step == extra_file_step(extra_specs.deep_view()),
            paths.deep_view() == extra_paths_of(env_spec.deep_view(), yaml@.name),
            try_fold(paths.deep_view(), Seq::empty(), step) == try_fold(
                paths.deep_view().skip(i as int),
                entries.deep_view(),
                step,
            ),
        decreases paths.len() - i,
    {
        proof {
            lemma_try_fold_step(paths.deep_view(), i as int, entries.deep_view(), step);
        }
        let path = &paths[i];
        match find_extra_spec(extra_specs, path.as_str()) {
            None => {
                return Err(TransformError::ExtraSpecUnreadable { path: path.clone() });
            },
            Some(k) => match &extra_specs[k].content {
                ExtraSpecContent::Unreadable => {
                    return Err(TransformError::ExtraSpecUnreadable { path: path.clone() });
                },
                ExtraSpecContent::Invalid => {
                    return Err(TransformError::ExtraSpecInvalid { path: path.clone() });
                },
                ExtraSpecContent::Parsed(doc) => {
                    put_entries(&mut entries, &doc.extra_services);
                },
            },
        }
        i += 1;
    }
    proof {
        lemma_try_fold_step(paths.deep_view(), i as int, entries.deep_view(), step);
    }
    put_entries(&mut entries, &yaml.extra_services);
    Ok(entries)
}

fn convert_app_configs(written: &Option<Vec<(String, Vec<String>)>>) -> (r: Vec<ConfigSpec>)
    ensures
        r.deep_view() == match written.deep_view() {
            Some(c) => c.map_values(written_config()),
            None => Seq::empty(),
        },
{
    let mut configs: Vec<ConfigSpec> = Vec::new();
    assert(configs.deep_view() =~= Seq::empty());
    match written {
        Some(entries) => {
            let ghost f = written_config();
            let mut i: usize = 0;
            assert(entries.deep_view().map_values(f).take(0) =~= Seq::empty());
            while i < entries.len()
                invariant
                    i <= entries.len(),
                    f == written_config(),
                    configs.deep_view() == entries.deep_view().map_values(f).take(i as int),
                decreases entries.len() - i,
            {
                let ghost before = configs.deep_view();
                let files = entries[i].1.clone();
                assert(files.deep_view() =~= entries[i as int].1.deep_view());
                let config = ConfigSpec { name: entries[i].0.clone(), files };
                configs.push(config);
                assert(configs.deep_view() =~= before.push(config@));
                assert(entries.deep_view().map_values(f).take(i + 1) =~= before.push(config@));
                i += 1;
            }
            assert(entries.deep_view().map_values(f).take(i as int) =~= entries.deep_view().map_values(
                f,
            ));
        },
        None => {},
    }
    configs
}

/// Normalizes an application descriptor.
///
/// `env_spec` is the environment that the application is deployed into, if
/// one is at hand: it may name descriptor files with extra services for the
/// application. `extra_specs` holds those files, read beforehand.
pub fn convert_app_spec(
    yaml: &AppSpecYaml,
    env_spec: Option<&DeploymentEnvironmentSpec>,
    extra_specs: &Vec<ExtraSpecSnapshot>,
) -> (r: Result<AppSpec, TransformError>)
    ensures
        result_view(r) == app_spec_of(yaml@, env_spec.deep_view(), extra_specs.deep_view()),
{
    let version = match AppVersion::parse(yaml.version.as_str()) {
        Some(version) => version,
        None => {
            return Err(TransformError::InvalidVersion { text: yaml.version.clone() });
        },
    };
    let environment = match &yaml.environment {
        Some(e) => match convert_environment(e) {
            Ok(environment) => environment,
            Err(err) => {
                return Err(err);
            },
        },
        None => {
            let external: Vec<ExternalEnvVariable> = Vec::new();
            let optional: Vec<OptionalEnvVariable> = Vec::new();
            let relative: Vec<RelativeEnvVariable> = Vec::new();
            let internal: Vec<InternalEnvVariable> = Vec::new();
            assert(external.deep_view() =~= Seq::empty());
            assert(optional.deep_view() =~= Seq::empty());
            assert(relative.deep_view() =~= Seq::empty());
            assert(internal.deep_view() =~= Seq::empty());
            AppEnvironment { external, optional, relative, internal }
        },
    };
    let secrets = match &yaml.secrets {
        Some(s) => match convert_secrets(s) {
            Ok(secrets) => secrets,
            Err(err) => {
                return Err(err);
            },
        },
        None => {
            let secrets: Vec<AppSecretOption> = Vec::new();
            assert(secrets.deep_view() =~= Seq::empty());
            secrets
        },
    };
    let configs = convert_app_configs(&yaml.configs);
    let no_services: Vec<(String, ServiceSpecYaml)> = Vec::new();
    assert(no_services.deep_view() =~= Seq::empty());
    let written = match &yaml.app_services {
        Some(entries) => entries,
        None => &no_services,
    };
    let app_services = match convert_services(written, true) {
        Ok(services) => services,
        Err(err) => {
            return Err(err);
        },
    };
    let entries = match gather_extra_entries(yaml, env_spec, extra_specs) {
        Ok(entries) => entries,
        Err(err) => {
            return Err(err);
        },
    };
    let extra_services = match convert_service_entries(&entries, false) {
        Ok(services) => services,
        Err(err) => {
            return Err(err);
        },
    };
    Ok(
        AppSpec {
            name: yaml.name.clone(),
            version,
            environment,
            app_services,
            extra_services,
            configs,
            secrets,
        },
    )
}

} // verus!
