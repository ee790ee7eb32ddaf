//! The resolved deployment model: every value concrete, every reference checked.

use vstd::prelude::*;
use crate::spec::{
    DeploymentEnvType, EnvVariable, EnvVariableView, ResourcesSpec, ResourcesSpecView,
    ServiceConfigOption, ServiceConfigOptionView, ServicePort, ServiceSecret, ServiceSecretView,
    ServiceType,
};

verus! {

/// An ACME account, with the server filled in.
#[derive(Debug, PartialEq, Eq)]
pub struct LetsEncryptResolvedSpec {
    /// The URL of the ACME directory.
    pub server: String,
    /// The contact address.
    pub email: String,
}

/// The mathematical value of a [`LetsEncryptResolvedSpec`].
pub struct LetsEncryptResolvedSpecView {
    pub server: Seq<char>,
    pub email: Seq<char>,
}

impl View for LetsEncryptResolvedSpec {
    type V = LetsEncryptResolvedSpecView;

    open spec fn view(&self) -> LetsEncryptResolvedSpecView {
        LetsEncryptResolvedSpecView {
            server: self.server@,
            email: self.email@,
        }
    }
}

impl DeepView for LetsEncryptResolvedSpec {
    type V = LetsEncryptResolvedSpecView;

    open spec fn deep_view(&self) -> LetsEncryptResolvedSpecView {
        self@
    }
}

impl Clone for LetsEncryptResolvedSpec {
    fn clone(&self) -> (r: Self)
        ensures
            r@ == self@,
    {
        LetsEncryptResolvedSpec { server: self.server.clone(), email: self.email.clone() }
    }
}

/// How the ingress gets its certificate: from a named secret, or else from an ACME server.
#[derive(Debug, PartialEq, Eq)]
pub struct IngressTlsResolvedSpec {
    /// The name of the secret that holds the certificate.
    pub secret: Option<String>,
    /// The ACME account; only where no secret is named.
    pub letsencrypt: Option<LetsEncryptResolvedSpec>,
}

/// The mathematical value of a [`IngressTlsResolvedSpec`].
pub struct IngressTlsResolvedSpecView {
    pub secret: Option<Seq<char>>,
    pub letsencrypt: Option<LetsEncryptResolvedSpecView>,
}

impl View for IngressTlsResolvedSpec {
    type V = IngressTlsResolvedSpecView;

    open spec fn view(&self) -> IngressTlsResolvedSpecView {
        IngressTlsResolvedSpecView {
            secret: self.secret.deep_view(),
            letsencrypt: self.letsencrypt.deep_view(),
        }
    }
}

impl DeepView for IngressTlsResolvedSpec {
    type V = IngressTlsResolvedSpecView;

    open spec fn deep_view(&self) -> IngressTlsResolvedSpecView {
        self@
    }
}

impl Clone for IngressTlsResolvedSpec {
    fn clone(&self) -> (r: Self)
        ensures
            r@ == self@,
    {
        IngressTlsResolvedSpec { secret: self.secret.clone(), letsencrypt: self.letsencrypt.clone() }
    }
}

/// Routes one path prefix of a domain to a service.
#[derive(Debug, PartialEq, Eq)]
pub struct IngressToServiceRule {
    /// The full name of the service.
    pub service_name: String,
    /// The port of the service that receives the requests.
    pub port: u16,
    /// The path prefix.
    pub prefix: String,
    /// Whether the prefix is removed before the request reaches the service.
    pub strip_prefix: bool,
}

/// The mathematical value of a [`IngressToServiceRule`].
pub struct IngressToServiceRuleView {
    pub service_name: Seq<char>,
    pub port: u16,
    pub prefix: Seq<char>,
    pub strip_prefix: bool,
}

impl View for IngressToServiceRule {
    type V = IngressToServiceRuleView;

    open spec fn view(&self) -> IngressToServiceRuleView {
        IngressToServiceRuleView {
            service_name: self.service_name@,
            port: self.port,
            prefix: self.prefix@,
            strip_prefix: self.strip_prefix,
        }
    }
}

impl DeepView for IngressToServiceRule {
    type V = IngressToServiceRuleView;

    open spec fn deep_view(&self) -> IngressToServiceRuleView {
        self@
    }
}

impl Clone for IngressToServiceRule {
    fn clone(&self) -> (r: Self)
        ensures
            r@ == self@,
    {
        IngressToServiceRule { service_name: self.service_name.clone(), port: self.port, prefix: self.prefix.clone(), strip_prefix: self.strip_prefix }
    }
}

/// The routes of one domain.
#[derive(Debug, PartialEq, Eq)]
pub struct IngressRule {
    /// The domain.
    pub domain_name: String,
    /// Its routes, in the order of the services; never empty.
    pub services: Vec<IngressToServiceRule>,
}

/// The mathematical value of a [`IngressRule`].
pub struct IngressRuleView {
    pub domain_name: Seq<char>,
    pub services: Seq<IngressToServiceRuleView>,
}

impl View for IngressRule {
    type V = IngressRuleView;

    open spec fn view(&self) -> IngressRuleView {
        IngressRuleView {
            domain_name: self.domain_name@,
            services: self.services.deep_view(),
        }
    }
}

impl DeepView for IngressRule {
    type V = IngressRuleView;

    open spec fn deep_view(&self) -> IngressRuleView {
        self@
    }
}

impl Clone for IngressRule {
    fn clone(&self) -> (r: Self)
        ensures
            r@ == self@,
    {
        let services = self.services.clone();
        assert(services.deep_view() =~= self.services.deep_view());
        IngressRule { domain_name: self.domain_name.clone(), services }
    }
}

/// The ingress of the resolved deployment.
#[derive(Debug, PartialEq, Eq)]
pub struct IngressResolvedSpec {
    /// The name of the ingress.
    pub name: String,
    /// How it gets its certificate, if it serves TLS.
    pub tls: Option<IngressTlsResolvedSpec>,
    /// Every domain of every host, in order.
    pub domains: Vec<String>,
    /// The routes of each domain that has any.
    pub rules: Vec<IngressRule>,
}

/// The mathematical value of a [`IngressResolvedSpec`].
pub struct IngressResolvedSpecView {
    pub name: Seq<char>,
    pub tls: Option<IngressTlsResolvedSpecView>,
    pub domains: Seq<Seq<char>>,
    pub rules: Seq<IngressRuleView>,
}

impl View for IngressResolvedSpec {
    type V = IngressResolvedSpecView;

    open spec fn view(&self) -> IngressResolvedSpecView {
        IngressResolvedSpecView {
            name: self.name@,
            tls: self.tls.deep_view(),
            domains: self.domains.deep_view(),
            rules: self.rules.deep_view(),
        }
    }
}

impl DeepView for IngressResolvedSpec {
    type V = IngressResolvedSpecView;

    open spec fn deep_view(&self) -> IngressResolvedSpecView {
        self@
    }
}

impl Clone for IngressResolvedSpec {
    fn clone(&self) -> (r: Self)
        ensures
            r@ == self@,
    {
        let domains = self.domains.clone();
        assert(domains.deep_view() =~= self.domains.deep_view());
        let rules = self.rules.clone();
        assert(rules.deep_view() =~= self.rules.deep_view());
        IngressResolvedSpec { name: self.name.clone(), tls: self.tls.clone(), domains, rules }
    }
}

/// A service with everything it needs to run.
#[derive(Debug, PartialEq, Eq)]
pub struct ServiceResolvedSpec {
    /// How the service is exposed.
    pub service_type: ServiceType,
    /// The name of the application, a hyphen, and the name of the service.
    pub full_name: String,
    /// The image reference with registry host and version.
    pub image: String,
    /// The first domain of the ingress host that the service is bound to.
    pub service_host: Option<String>,
    /// The variables of the service; no name occurs twice.
    pub environment_variables: Vec<EnvVariable>,
    /// The variables of the service when it runs outside a container.
    pub undockerized_environment_variables: Vec<EnvVariable>,
    /// The mounted config groups, under their full names.
    pub configs: Vec<ServiceConfigOption>,
    /// The bound secrets, under their full names.
    pub secrets: Vec<ServiceSecret>,
    /// The ports of the service.
    pub ports: Vec<ServicePort>,
}

/// The mathematical value of a [`ServiceResolvedSpec`].
pub struct ServiceResolvedSpecView {
    pub service_type: ServiceType,
    pub full_name: Seq<char>,
    pub image: Seq<char>,
    pub service_host: Option<Seq<char>>,
    pub environment_variables: Seq<EnvVariableView>,
    pub undockerized_environment_variables: Seq<EnvVariableView>,
    pub configs: Seq<ServiceConfigOptionView>,
    pub secrets: Seq<ServiceSecretView>,
    pub ports: Seq<ServicePort>,
}

impl View for ServiceResolvedSpec {
    type V = ServiceResolvedSpecView;

    open spec fn view(&self) -> ServiceResolvedSpecView {
        ServiceResolvedSpecView {
            service_type: self.service_type,
            full_name: self.full_name@,
            image: self.image@,
            service_host: self.service_host.deep_view(),
            environment_variables: self.environment_variables.deep_view(),
            undockerized_environment_variables: self.undockerized_environment_variables.deep_view(),
            configs: self.configs.deep_view(),
            secrets: self.secrets.deep_view(),
            ports: self.ports.deep_view(),
        }
    }
}

impl DeepView for ServiceResolvedSpec {
    type V = ServiceResolvedSpecView;

    open spec fn deep_view(&self) -> ServiceResolvedSpecView {
        self@
    }
}

impl Clone for ServiceResolvedSpec {
    fn clone(&self) -> (r: Self)
        ensures
            r@ == self@,
    {
        let environment_variables = self.environment_variables.clone();
        assert(environment_variables.deep_view() =~= self.environment_variables.deep_view());
        let undockerized_environment_variables = self.undockerized_environment_variables.clone();
        assert(undockerized_environment_variables.deep_view() =~= self.undockerized_environment_variables.deep_view());
        let configs = self.configs.clone();
        assert(configs.deep_view() =~= self.configs.deep_view());
        let secrets = self.secrets.clone();
        assert(secrets.deep_view() =~= self.secrets.deep_view());
        let ports = self.ports.clone();
        assert(ports.deep_view() =~= self.ports.deep_view());
        ServiceResolvedSpec { service_type: self.service_type, full_name: self.full_name.clone(), image: self.image.clone(), service_host: self.service_host.clone(), environment_variables, undockerized_environment_variables, configs, secrets, ports }
    }
}

/// A secret with its value.
#[derive(Debug, PartialEq, Eq)]
pub struct SecretResolvedSpec {
    /// The name of the application, a hyphen, and the name of the secret.
    pub name: String,
    /// The value, exactly as its source gave it.
    pub value: String,
}

/// The mathematical value of a [`SecretResolvedSpec`].
pub struct SecretResolvedSpecView {
    pub name: Seq<char>,
    pub value: Seq<char>,
}

impl View for SecretResolvedSpec {
    type V = SecretResolvedSpecView;

    open spec fn view(&self) -> SecretResolvedSpecView {
        SecretResolvedSpecView {
            name: self.name@,
            value: self.value@,
        }
    }
}

impl DeepView for SecretResolvedSpec {
    type V = SecretResolvedSpecView;

    open spec fn deep_view(&self) -> SecretResolvedSpecView {
        self@
    }
}

impl Clone for SecretResolvedSpec {
    fn clone(&self) -> (r: Self)
        ensures
            r@ == self@,
    {
        SecretResolvedSpec { name: self.name.clone(), value: self.value.clone() }
    }
}

/// One file of a config group.
#[derive(Debug, PartialEq, Eq)]
pub struct ConfigResolvedFile {
    /// The file name, without directories.
    pub name: String,
    /// The bytes of the file.
    pub content: Vec<u8>,
}

/// The mathematical value of a [`ConfigResolvedFile`].
pub struct ConfigResolvedFileView {
    pub name: Seq<char>,
    pub content: Seq<u8>,
}

impl View for ConfigResolvedFile {
    type V = ConfigResolvedFileView;

    open spec fn view(&self) -> ConfigResolvedFileView {
        ConfigResolvedFileView {
            name: self.name@,
            content: self.content.deep_view(),
        }
    }
}

impl DeepView for ConfigResolvedFile {
    type V = ConfigResolvedFileView;

    open spec fn deep_view(&self) -> ConfigResolvedFileView {
        self@
    }
}

impl Clone for ConfigResolvedFile {
    fn clone(&self) -> (r: Self)
        ensures
            r@ == self@,
    {
        let content = self.content.clone();
        assert(content.deep_view() =~= self.content.deep_view());
        ConfigResolvedFile { name: self.name.clone(), content }
    }
}

/// A config group with the content of its files.
#[derive(Debug, PartialEq, Eq)]
pub struct ConfigResolvedSpec {
    /// The name of the application, a hyphen, and the name of the group.
    pub name: String,
    /// The files of the group.
    pub files: Vec<ConfigResolvedFile>,
}

/// The mathematical value of a [`ConfigResolvedSpec`].
pub struct ConfigResolvedSpecView {
    pub name: Seq<char>,
    pub files: Seq<ConfigResolvedFileView>,
}

impl View for ConfigResolvedSpec {
    type V = ConfigResolvedSpecView;

    open spec fn view(&self) -> ConfigResolvedSpecView {
        ConfigResolvedSpecView {
            name: self.name@,
            files: self.files.deep_view(),
        }
    }
}

impl DeepView for ConfigResolvedSpec {
    type V = ConfigResolvedSpecView;

    open spec fn deep_view(&self) -> ConfigResolvedSpecView {
        self@
    }
}

impl Clone for ConfigResolvedSpec {
    fn clone(&self) -> (r: Self)
        ensures
            r@ == self@,
    {
        let files = self.files.clone();
        assert(files.deep_view() =~= self.files.deep_view());
        ConfigResolvedSpec { name: self.name.clone(), files }
    }
}

/// The resolved deployment.
#[derive(Debug, PartialEq, Eq)]
pub struct DeploymentResolvedSpec {
    /// The name of the deployment.
    pub name: String,
    /// The name of the application that the deployment is for.
    pub application_name: String,
    /// The config groups that the deployment supplies.
    pub configs: Vec<ConfigResolvedSpec>,
    /// The secrets that the deployment supplies.
    pub secrets: Vec<SecretResolvedSpec>,
    /// The sizing of services that have no override.
    pub defaults: ResourcesSpec,
    /// The services of the application, those it builds first.
    pub services: Vec<ServiceResolvedSpec>,
}

/// The mathematical value of a [`DeploymentResolvedSpec`].
pub struct DeploymentResolvedSpecView {
    pub name: Seq<char>,
    pub application_name: Seq<char>,
    pub configs: Seq<ConfigResolvedSpecView>,
    pub secrets: Seq<SecretResolvedSpecView>,
    pub defaults: ResourcesSpecView,
    pub services: Seq<ServiceResolvedSpecView>,
}

impl View for DeploymentResolvedSpec {
    type V = DeploymentResolvedSpecView;

    open spec fn view(&self) -> DeploymentResolvedSpecView {
        DeploymentResolvedSpecView {
            name: self.name@,
            application_name: self.application_name@,
            configs: self.configs.deep_view(),
            secrets: self.secrets.deep_view(),
            defaults: self.defaults@,
            services: self.services.deep_view(),
        }
    }
}

impl DeepView for DeploymentResolvedSpec {
    type V = DeploymentResolvedSpecView;

    open spec fn deep_view(&self) -> DeploymentResolvedSpecView {
        self@
    }
}

impl Clone for DeploymentResolvedSpec {
    fn clone(&self) -> (r: Self)
        ensures
            r@ == self@,
    {
        let configs = self.configs.clone();
        assert(configs.deep_view() =~= self.configs.deep_view());
        let secrets = self.secrets.clone();
        assert(secrets.deep_view() =~= self.secrets.deep_view());
        let services = self.services.clone();
        assert(services.deep_view() =~= self.services.deep_view());
        DeploymentResolvedSpec { name: self.name.clone(), application_name: self.application_name.clone(), configs, secrets, defaults: self.defaults.clone(), services }
    }
}

/// What resolution yields: one deployment and the ingress in front of it.
#[derive(Debug, PartialEq, Eq)]
pub struct EnvironmentResolvedSpec {
    /// The ingress.
    pub ingress: IngressResolvedSpec,
    /// The deployment.
    pub current_deployment: DeploymentResolvedSpec,
    /// The kind of target.
    pub env_type: DeploymentEnvType,
}

/// The mathematical value of a [`EnvironmentResolvedSpec`].
pub struct EnvironmentResolvedSpecView {
    pub ingress: IngressResolvedSpecView,
    pub current_deployment: DeploymentResolvedSpecView,
    pub env_type: DeploymentEnvType,
}

impl View for EnvironmentResolvedSpec {
    type V = EnvironmentResolvedSpecView;

    open spec fn view(&self) -> EnvironmentResolvedSpecView {
        EnvironmentResolvedSpecView {
            ingress: self.ingress@,
            current_deployment: self.current_deployment@,
            env_type: self.env_type,
        }
    }
}

impl DeepView for EnvironmentResolvedSpec {
    type V = EnvironmentResolvedSpecView;

    open spec fn deep_view(&self) -> EnvironmentResolvedSpecView {
        self@
    }
}

impl Clone for EnvironmentResolvedSpec {
    fn clone(&self) -> (r: Self)
        ensures
            r@ == self@,
    {
        EnvironmentResolvedSpec { ingress: self.ingress.clone(), current_deployment: self.current_deployment.clone(), env_type: self.env_type }
    }
}

} // verus!
