//! The two descriptors that resolution starts from: the application and the
//! environment it is deployed into.

use vstd::prelude::*;
use crate::version::{AppVersion, VersionRange};

verus! {

/// A named group of configuration files.
#[derive(Debug, PartialEq, Eq)]
pub struct ConfigSpec {
    /// The name of the group.
    pub name: String,
    /// The paths that make up the group: files, or directories of files.
    pub files: Vec<String>,
}

/// The mathematical value of a [`ConfigSpec`].
pub struct ConfigSpecView {
    pub name: Seq<char>,
    pub files: Seq<Seq<char>>,
}

impl View for ConfigSpec {
    type V = ConfigSpecView;

    open spec fn view(&self) -> ConfigSpecView {
        ConfigSpecView {
            name: self.name@,
            files: self.files.deep_view(),
        }
    }
}

impl DeepView for ConfigSpec {
    type V = ConfigSpecView;

    open spec fn deep_view(&self) -> ConfigSpecView {
        self@
    }
}

impl Clone for ConfigSpec {
    fn clone(&self) -> (r: Self)
        ensures
            r@ == self@,
    {
        let files = self.files.clone();
        assert(files.deep_view() =~= self.files.deep_view());
        ConfigSpec { name: self.name.clone(), files }
    }
}

/// A variable that the deployment supplies, or that falls back to a default.
#[derive(Debug, PartialEq, Eq)]
pub struct ExternalEnvVariable {
    /// The name of the variable.
    pub name: String,
    /// The value used when the deployment gives none.
    pub default: Option<String>,
}

/// The mathematical value of a [`ExternalEnvVariable`].
pub struct ExternalEnvVariableView {
    pub name: Seq<char>,
    pub default: Option<Seq<char>>,
}

impl View for ExternalEnvVariable {
    type V = ExternalEnvVariableView;

    open spec fn view(&self) -> ExternalEnvVariableView {
        ExternalEnvVariableView {
            name: self.name@,
            default: self.default.deep_view(),
        }
    }
}

impl DeepView for ExternalEnvVariable {
    type V = ExternalEnvVariableView;

    open spec fn deep_view(&self) -> ExternalEnvVariableView {
        self@
    }
}

impl Clone for ExternalEnvVariable {
    fn clone(&self) -> (r: Self)
        ensures
            r@ == self@,
    {
        ExternalEnvVariable { name: self.name.clone(), default: self.default.clone() }
    }
}

/// A variable that exists only when the deployment supplies a value.
#[derive(Debug, PartialEq, Eq)]
pub struct OptionalEnvVariable {
    /// The name of the variable.
    pub name: String,
}

/// The mathematical value of a [`OptionalEnvVariable`].
pub struct OptionalEnvVariableView {
    pub name: Seq<char>,
}

impl View for OptionalEnvVariable {
    type V = OptionalEnvVariableView;

    open spec fn view(&self) -> OptionalEnvVariableView {
        OptionalEnvVariableView {
            name: self.name@,
        }
    }
}

impl DeepView for OptionalEnvVariable {
    type V = OptionalEnvVariableView;

    open spec fn deep_view(&self) -> OptionalEnvVariableView {
        self@
    }
}

impl Clone for OptionalEnvVariable {
    fn clone(&self) -> (r: Self)
        ensures
            r@ == self@,
    {
        OptionalEnvVariable { name: self.name.clone() }
    }
}

/// A variable whose value is a URL on the host of the service.
#[derive(Debug, PartialEq, Eq)]
pub struct RelativeEnvVariable {
    /// The name of the variable.
    pub name: String,
    /// The path part of the URL; it starts with `/`.
    pub relative_value: String,
}

/// The mathematical value of a [`RelativeEnvVariable`].
pub struct RelativeEnvVariableView {
    pub name: Seq<char>,
    pub relative_value: Seq<char>,
}

impl View for RelativeEnvVariable {
    type V = RelativeEnvVariableView;

    open spec fn view(&self) -> RelativeEnvVariableView {
        RelativeEnvVariableView {
            name: self.name@,
            relative_value: self.relative_value@,
        }
    }
}

impl DeepView for RelativeEnvVariable {
    type V = RelativeEnvVariableView;

    open spec fn deep_view(&self) -> RelativeEnvVariableView {
        self@
    }
}

impl Clone for RelativeEnvVariable {
    fn clone(&self) -> (r: Self)
        ensures
            r@ == self@,
    {
        RelativeEnvVariable { name: self.name.clone(), relative_value: self.relative_value.clone() }
    }
}

/// A variable with a fixed value, which may refer to variables of earlier tiers.
#[derive(Debug, PartialEq, Eq)]
pub struct InternalEnvVariable {
    /// The name of the variable.
    pub name: String,
    /// The value, with `${name}` references.
    pub value: String,
}

/// The mathematical value of a [`InternalEnvVariable`].
pub struct InternalEnvVariableView {
    pub name: Seq<char>,
    pub value: Seq<char>,
}

impl View for InternalEnvVariable {
    type V = InternalEnvVariableView;

    open spec fn view(&self) -> InternalEnvVariableView {
        InternalEnvVariableView {
            name: self.name@,
            value: self.value@,
        }
    }
}

impl DeepView for InternalEnvVariable {
    type V = InternalEnvVariableView;

    open spec fn deep_view(&self) -> InternalEnvVariableView {
        self@
    }
}

impl Clone for InternalEnvVariable {
    fn clone(&self) -> (r: Self)
        ensures
            r@ == self@,
    {
        InternalEnvVariable { name: self.name.clone(), value: self.value.clone() }
    }
}

/// The four tiers of variable declarations, in the order in which they are resolved.
#[derive(Debug, PartialEq, Eq)]
pub struct AppEnvironment {
    /// First tier: supplied by the deployment.
    pub external: Vec<ExternalEnvVariable>,
    /// Second tier: present only when supplied.
    pub optional: Vec<OptionalEnvVariable>,
    /// Third tier: URLs on the host of the service.
    pub relative: Vec<RelativeEnvVariable>,
    /// Fourth tier: fixed values.
    pub internal: Vec<InternalEnvVariable>,
}

/// The mathematical value of a [`AppEnvironment`].
pub struct AppEnvironmentView {
    pub external: Seq<ExternalEnvVariableView>,
    pub optional: Seq<OptionalEnvVariableView>,
    pub relative: Seq<RelativeEnvVariableView>,
    pub internal: Seq<InternalEnvVariableView>,
}

impl View for AppEnvironment {
    type V = AppEnvironmentView;

    open spec fn view(&self) -> AppEnvironmentView {
        AppEnvironmentView {
            external: self.external.deep_view(),
            optional: self.optional.deep_view(),
            relative: self.relative.deep_view(),
            internal: self.internal.deep_view(),
        }
    }
}

impl DeepView for AppEnvironment {
    type V = AppEnvironmentView;

    open spec fn deep_view(&self) -> AppEnvironmentView {
        self@
    }
}

impl Clone for AppEnvironment {
    fn clone(&self) -> (r: Self)
        ensures
            r@ == self@,
    {
        let external = self.external.clone();
        assert(external.deep_view() =~= self.external.deep_view());
        let optional = self.optional.clone();
        assert(optional.deep_view() =~= self.optional.deep_view());
        let relative = self.relative.clone();
        assert(relative.deep_view() =~= self.relative.deep_view());
        let internal = self.internal.clone();
        assert(internal.deep_view() =~= self.internal.deep_view());
        AppEnvironment { external, optional, relative, internal }
    }
}

/// A secret that the application expects the deployment to supply.
#[derive(Debug, PartialEq, Eq)]
pub struct AppSecretOption {
    /// The name of the secret.
    pub secret_name: String,
}

/// The mathematical value of a [`AppSecretOption`].
pub struct AppSecretOptionView {
    pub secret_name: Seq<char>,
}

impl View for AppSecretOption {
    type V = AppSecretOptionView;

    open spec fn view(&self) -> AppSecretOptionView {
        AppSecretOptionView {
            secret_name: self.secret_name@,
        }
    }
}

impl DeepView for AppSecretOption {
    type V = AppSecretOptionView;

    open spec fn deep_view(&self) -> AppSecretOptionView {
        self@
    }
}

impl Clone for AppSecretOption {
    fn clone(&self) -> (r: Self)
        ensures
            r@ == self@,
    {
        AppSecretOption { secret_name: self.secret_name.clone() }
    }
}

/// A port of a service: the port seen from outside and the port inside the container.
#[derive(Clone, Copy, Debug, PartialEq, Eq, Structural)]
pub struct ServicePort {
    /// The port seen from outside.
    pub external: u16,
    /// The port inside the container.
    pub internal: u16,
}

impl View for ServicePort {
    type V = ServicePort;

    open spec fn view(&self) -> ServicePort {
        *self
    }
}

impl DeepView for ServicePort {
    type V = ServicePort;

    open spec fn deep_view(&self) -> ServicePort {
        *self
    }
}

/// One selector of the variables that a service receives.
#[derive(Debug, PartialEq, Eq)]
pub enum ServiceEnvOption {
    /// Every resolved variable.
    All,
    /// The resolved variable of this name.
    Simple(String),
    /// A variable of this name with this value, in which `${name}` references are replaced.
    WithValue(String, String),
}

/// The mathematical value of a [`ServiceEnvOption`].
pub enum ServiceEnvOptionView {
    All,
    Simple(Seq<char>),
    WithValue(Seq<char>, Seq<char>),
}

impl View for ServiceEnvOption {
    type V = ServiceEnvOptionView;

    open spec fn view(&self) -> ServiceEnvOptionView {
        match *self {
            ServiceEnvOption::All => ServiceEnvOptionView::All,
            ServiceEnvOption::Simple(a0) => ServiceEnvOptionView::Simple(a0@),
            ServiceEnvOption::WithValue(a0, a1) => ServiceEnvOptionView::WithValue(a0@, a1@),
        }
    }
}

impl DeepView for ServiceEnvOption {
    type V = ServiceEnvOptionView;

    open spec fn deep_view(&self) -> ServiceEnvOptionView {
        self@
    }
}

impl Clone for ServiceEnvOption {
    fn clone(&self) -> (r: Self)
        ensures
            r@ == self@,
    {
        match self {
            ServiceEnvOption::All => ServiceEnvOption::All,
            ServiceEnvOption::Simple(a0) => ServiceEnvOption::Simple(a0.clone()),
            ServiceEnvOption::WithValue(a0, a1) => ServiceEnvOption::WithValue(a0.clone(), a1.clone()),
        }
    }
}

/// A config group mounted into a service.
#[derive(Debug, PartialEq, Eq)]
pub struct ServiceConfigOption {
    /// The name of the config group.
    pub config_name: String,
    /// Where the group is mounted.
    pub mount_path: String,
}

/// The mathematical value of a [`ServiceConfigOption`].
pub struct ServiceConfigOptionView {
    pub config_name: Seq<char>,
    pub mount_path: Seq<char>,
}

impl View for ServiceConfigOption {
    type V = ServiceConfigOptionView;

    open spec fn view(&self) -> ServiceConfigOptionView {
        ServiceConfigOptionView {
            config_name: self.config_name@,
            mount_path: self.mount_path@,
        }
    }
}

impl DeepView for ServiceConfigOption {
    type V = ServiceConfigOptionView;

    open spec fn deep_view(&self) -> ServiceConfigOptionView {
        self@
    }
}

impl Clone for ServiceConfigOption {
    fn clone(&self) -> (r: Self)
        ensures
            r@ == self@,
    {
        ServiceConfigOption { config_name: self.config_name.clone(), mount_path: self.mount_path.clone() }
    }
}

/// One named alternative for the image of a service.
#[derive(Debug, PartialEq, Eq)]
pub struct ImageVariant {
    /// The name of the variant.
    pub variant_name: String,
    /// The image reference, without registry host and version.
    pub image: String,
}

/// The mathematical value of a [`ImageVariant`].
pub struct ImageVariantView {
    pub variant_name: Seq<char>,
    pub image: Seq<char>,
}

impl View for ImageVariant {
    type V = ImageVariantView;

    open spec fn view(&self) -> ImageVariantView {
        ImageVariantView {
            variant_name: self.variant_name@,
            image: self.image@,
        }
    }
}

impl DeepView for ImageVariant {
    type V = ImageVariantView;

    open spec fn deep_view(&self) -> ImageVariantView {
        self@
    }
}

impl Clone for ImageVariant {
    fn clone(&self) -> (r: Self)
        ensures
            r@ == self@,
    {
        ImageVariant { variant_name: self.variant_name.clone(), image: self.image.clone() }
    }
}

/// How a service is exposed.
#[derive(Clone, Copy, Debug, PartialEq, Eq, Structural)]
pub enum ServiceType {
    /// Reachable through the ingress.
    Public,
    /// Reachable only from other services.
    Internal,
    /// Runs to completion; resolved like an internal service.
    Job,
}

impl View for ServiceType {
    type V = ServiceType;

    open spec fn view(&self) -> ServiceType {
        *self
    }
}

impl DeepView for ServiceType {
    type V = ServiceType;

    open spec fn deep_view(&self) -> ServiceType {
        *self
    }
}

/// How a secret reaches a service.
#[derive(Debug, PartialEq, Eq)]
pub enum SecretMount {
    /// As a file at this path.
    FilePath(String),
    /// As the environment variable of this name.
    EnvVariable(String),
}

/// The mathematical value of a [`SecretMount`].
pub enum SecretMountView {
    FilePath(Seq<char>),
    EnvVariable(Seq<char>),
}

impl View for SecretMount {
    type V = SecretMountView;

    open spec fn view(&self) -> SecretMountView {
        match *self {
            SecretMount::FilePath(a0) => SecretMountView::FilePath(a0@),
            SecretMount::EnvVariable(a0) => SecretMountView::EnvVariable(a0@),
        }
    }
}

impl DeepView for SecretMount {
    type V = SecretMountView;

    open spec fn deep_view(&self) -> SecretMountView {
        self@
    }
}

impl Clone for SecretMount {
    fn clone(&self) -> (r: Self)
        ensures
            r@ == self@,
    {
        match self {
            SecretMount::FilePath(a0) => SecretMount::FilePath(a0.clone()),
            SecretMount::EnvVariable(a0) => SecretMount::EnvVariable(a0.clone()),
        }
    }
}

/// A secret bound to a service.
#[derive(Debug, PartialEq, Eq)]
pub struct ServiceSecret {
    /// The name of the secret.
    pub name: String,
    /// How the service receives it.
    pub mount: SecretMount,
}

/// The mathematical value of a [`ServiceSecret`].
pub struct ServiceSecretView {
    pub name: Seq<char>,
    pub mount: SecretMountView,
}

impl View for ServiceSecret {
    type V = ServiceSecretView;

    open spec fn view(&self) -> ServiceSecretView {
        ServiceSecretView {
            name: self.name@,
            mount: self.mount@,
        }
    }
}

impl DeepView for ServiceSecret {
    type V = ServiceSecretView;

    open spec fn deep_view(&self) -> ServiceSecretView {
        self@
    }
}

impl Clone for ServiceSecret {
    fn clone(&self) -> (r: Self)
        ensures
            r@ == self@,
    {
        ServiceSecret { name: self.name.clone(), mount: self.mount.clone() }
    }
}

/// One service of an application.
#[derive(Debug, PartialEq, Eq)]
pub struct ServiceSpec {
    /// The name of the service.
    pub name: String,
    /// How the service is exposed.
    pub service_type: ServiceType,
    /// Whether the application builds this service itself, so that its image carries the
    /// application's version.
    pub is_app_service: bool,
    /// The images to choose from, by variant name.
    pub image_variants: Vec<ImageVariant>,
    /// The selectors of the variables that the service receives, applied in order.
    pub environment: Vec<ServiceEnvOption>,
    /// The config groups mounted into the service.
    pub configs: Vec<ServiceConfigOption>,
    /// The secrets bound to the service.
    pub secrets: Vec<ServiceSecret>,
    /// The ports that the service declares.
    pub ports: Vec<ServicePort>,
}

/// The mathematical value of a [`ServiceSpec`].
pub struct ServiceSpecView {
    pub name: Seq<char>,
    pub service_type: ServiceType,
    pub is_app_service: bool,
    pub image_variants: Seq<ImageVariantView>,
    pub environment: Seq<ServiceEnvOptionView>,
    pub configs: Seq<ServiceConfigOptionView>,
    pub secrets: Seq<ServiceSecretView>,
    pub ports: Seq<ServicePort>,
}

impl View for ServiceSpec {
    type V = ServiceSpecView;

    open spec fn view(&self) -> ServiceSpecView {
        ServiceSpecView {
            name: self.name@,
            service_type: self.service_type,
            is_app_service: self.is_app_service,
            image_variants: self.image_variants.deep_view(),
            environment: self.environment.deep_view(),
            configs: self.configs.deep_view(),
            secrets: self.secrets.deep_view(),
            ports: self.ports.deep_view(),
        }
    }
}

impl DeepView for ServiceSpec {
    type V = ServiceSpecView;

    open spec fn deep_view(&self) -> ServiceSpecView {
        self@
    }
}

impl Clone for ServiceSpec {
    fn clone(&self) -> (r: Self)
        ensures
            r@ == self@,
    {
        let image_variants = self.image_variants.clone();
        assert(image_variants.deep_view() =~= self.image_variants.deep_view());
        let environment = self.environment.clone();
        assert(environment.deep_view() =~= self.environment.deep_view());
        let configs = self.configs.clone();
        assert(configs.deep_view() =~= self.configs.deep_view());
        let secrets = self.secrets.clone();
        assert(secrets.deep_view() =~= self.secrets.deep_view());
        let ports = self.ports.clone();
        assert(ports.deep_view() =~= self.ports.deep_view());
        ServiceSpec { name: self.name.clone(), service_type: self.service_type, is_app_service: self.is_app_service, image_variants, environment, configs, secrets, ports }
    }
}

/// An application: its services and what they need from a deployment.
#[derive(Debug, PartialEq, Eq)]
pub struct AppSpec {
    /// The name of the application.
    pub name: String,
    /// The version of the application.
    pub version: AppVersion,
    /// The variables that the application declares.
    pub environment: AppEnvironment,
    /// The services built by the application; their images carry its version.
    pub app_services: Vec<ServiceSpec>,
    /// Services supplied from elsewhere, such as a database.
    pub extra_services: Vec<ServiceSpec>,
    /// The config groups that the application expects.
    pub configs: Vec<ConfigSpec>,
    /// The secrets that the application expects.
    pub secrets: Vec<AppSecretOption>,
}

/// The mathematical value of a [`AppSpec`].
pub struct AppSpecView {
    pub name: Seq<char>,
    pub version: Seq<char>,
    pub environment: AppEnvironmentView,
    pub app_services: Seq<ServiceSpecView>,
    pub extra_services: Seq<ServiceSpecView>,
    pub configs: Seq<ConfigSpecView>,
    pub secrets: Seq<AppSecretOptionView>,
}

impl View for AppSpec {
    type V = AppSpecView;

    open spec fn view(&self) -> AppSpecView {
        AppSpecView {
            name: self.name@,
            version: self.version@,
            environment: self.environment@,
            app_services: self.app_services.deep_view(),
            extra_services: self.extra_services.deep_view(),
            configs: self.configs.deep_view(),
            secrets: self.secrets.deep_view(),
        }
    }
}

impl DeepView for AppSpec {
    type V = AppSpecView;

    open spec fn deep_view(&self) -> AppSpecView {
        self@
    }
}

impl Clone for AppSpec {
    fn clone(&self) -> (r: Self)
        ensures
            r@ == self@,
    {
        let app_services = self.app_services.clone();
        assert(app_services.deep_view() =~= self.app_services.deep_view());
        let extra_services = self.extra_services.clone();
        assert(extra_services.deep_view() =~= self.extra_services.deep_view());
        let configs = self.configs.clone();
        assert(configs.deep_view() =~= self.configs.deep_view());
        let secrets = self.secrets.clone();
        assert(secrets.deep_view() =~= self.secrets.deep_view());
        AppSpec { name: self.name.clone(), version: self.version.clone(), environment: self.environment.clone(), app_services, extra_services, configs, secrets }
    }
}

/// The reverse proxy in front of a Docker deployment.
#[derive(Clone, Copy, Debug, PartialEq, Eq, Structural)]
pub enum DockerIngressType {
    Nginx,
    Traefik,
}

impl View for DockerIngressType {
    type V = DockerIngressType;

    open spec fn view(&self) -> DockerIngressType {
        *self
    }
}

impl DeepView for DockerIngressType {
    type V = DockerIngressType;

    open spec fn deep_view(&self) -> DockerIngressType {
        *self
    }
}

/// What only a Docker environment declares.
#[derive(Clone, Copy, Debug, PartialEq, Eq, Structural)]
pub struct DockerSpecificSpec {
    /// The reverse proxy in front of the services.
    pub ingress_type: DockerIngressType,
    /// Whether the services run as a swarm stack.
    pub swarm_mode: bool,
}

impl View for DockerSpecificSpec {
    type V = DockerSpecificSpec;

    open spec fn view(&self) -> DockerSpecificSpec {
        *self
    }
}

impl DeepView for DockerSpecificSpec {
    type V = DockerSpecificSpec;

    open spec fn deep_view(&self) -> DockerSpecificSpec {
        *self
    }
}

/// The kind of target that an environment describes.
#[derive(Clone, Copy, Debug, PartialEq, Eq, Structural)]
pub enum DeploymentEnvType {
    /// A Kubernetes cluster.
    K8S,
    /// Docker, standalone or as a swarm.
    Docker(DockerSpecificSpec),
    /// The developer's machine.
    Local,
}

impl View for DeploymentEnvType {
    type V = DeploymentEnvType;

    open spec fn view(&self) -> DeploymentEnvType {
        *self
    }
}

impl DeepView for DeploymentEnvType {
    type V = DeploymentEnvType;

    open spec fn deep_view(&self) -> DeploymentEnvType {
        *self
    }
}

/// The registry host that serves the images of one namespace.
#[derive(Debug, PartialEq, Eq)]
pub struct RegistryMapping {
    /// The first path segment of the image references it applies to.
    pub namespace: String,
    /// The host of the registry.
    pub host: String,
}

/// The mathematical value of a [`RegistryMapping`].
pub struct RegistryMappingView {
    pub namespace: Seq<char>,
    pub host: Seq<char>,
}

impl View for RegistryMapping {
    type V = RegistryMappingView;

    open spec fn view(&self) -> RegistryMappingView {
        RegistryMappingView {
            namespace: self.namespace@,
            host: self.host@,
        }
    }
}

impl DeepView for RegistryMapping {
    type V = RegistryMappingView;

    open spec fn deep_view(&self) -> RegistryMappingView {
        self@
    }
}

impl Clone for RegistryMapping {
    fn clone(&self) -> (r: Self)
        ensures
            r@ == self@,
    {
        RegistryMapping { namespace: self.namespace.clone(), host: self.host.clone() }
    }
}

/// Certificates obtained from an ACME server.
#[derive(Debug, PartialEq, Eq)]
pub struct LetsEncryptSpec {
    /// The URL of the ACME directory; the Let's Encrypt production directory when absent.
    pub server: Option<String>,
    /// The contact address.
    pub email: String,
}

/// The mathematical value of a [`LetsEncryptSpec`].
pub struct LetsEncryptSpecView {
    pub server: Option<Seq<char>>,
    pub email: Seq<char>,
}

impl View for LetsEncryptSpec {
    type V = LetsEncryptSpecView;

    open spec fn view(&self) -> LetsEncryptSpecView {
        LetsEncryptSpecView {
            server: self.server.deep_view(),
            email: self.email@,
        }
    }
}

impl DeepView for LetsEncryptSpec {
    type V = LetsEncryptSpecView;

    open spec fn deep_view(&self) -> LetsEncryptSpecView {
        self@
    }
}

impl Clone for LetsEncryptSpec {
    fn clone(&self) -> (r: Self)
        ensures
            r@ == self@,
    {
        LetsEncryptSpec { server: self.server.clone(), email: self.email.clone() }
    }
}

/// How the ingress gets its certificate.
#[derive(Debug, PartialEq, Eq)]
pub struct IngressTlsSpec {
    /// The name of a secret that holds the certificate.
    pub secret: Option<String>,
    /// An ACME account to obtain one with.
    pub letsencrypt: Option<LetsEncryptSpec>,
}

/// The mathematical value of a [`IngressTlsSpec`].
pub struct IngressTlsSpecView {
    pub secret: Option<Seq<char>>,
    pub letsencrypt: Option<LetsEncryptSpecView>,
}

impl View for IngressTlsSpec {
    type V = IngressTlsSpecView;

    open spec fn view(&self) -> IngressTlsSpecView {
        IngressTlsSpecView {
            secret: self.secret.deep_view(),
            letsencrypt: self.letsencrypt.deep_view(),
        }
    }
}

impl DeepView for IngressTlsSpec {
    type V = IngressTlsSpecView;

    open spec fn deep_view(&self) -> IngressTlsSpecView {
        self@
    }
}

impl Clone for IngressTlsSpec {
    fn clone(&self) -> (r: Self)
        ensures
            r@ == self@,
    {
        IngressTlsSpec { secret: self.secret.clone(), letsencrypt: self.letsencrypt.clone() }
    }
}

/// A named ingress host and the domains it answers to.
#[derive(Debug, PartialEq, Eq)]
pub struct HostSpec {
    /// The name by which deployments refer to the host.
    pub name: String,
    /// Its domain names; the first is the one that services are told.
    pub domain_names: Vec<String>,
}

/// The mathematical value of a [`HostSpec`].
pub struct HostSpecView {
    pub name: Seq<char>,
    pub domain_names: Seq<Seq<char>>,
}

impl View for HostSpec {
    type V = HostSpecView;

    open spec fn view(&self) -> HostSpecView {
        HostSpecView {
            name: self.name@,
            domain_names: self.domain_names.deep_view(),
        }
    }
}

impl DeepView for HostSpec {
    type V = HostSpecView;

    open spec fn deep_view(&self) -> HostSpecView {
        self@
    }
}

impl Clone for HostSpec {
    fn clone(&self) -> (r: Self)
        ensures
            r@ == self@,
    {
        let domain_names = self.domain_names.clone();
        assert(domain_names.deep_view() =~= self.domain_names.deep_view());
        HostSpec { name: self.name.clone(), domain_names }
    }
}

/// The ingress of an environment.
#[derive(Debug, PartialEq, Eq)]
pub struct IngressSpec {
    /// The name of the ingress.
    pub name: String,
    /// The hosts it serves.
    pub hosts: Vec<HostSpec>,
    /// How it gets its certificate, if it serves TLS.
    pub tls: Option<IngressTlsSpec>,
}

/// The mathematical value of a [`IngressSpec`].
pub struct IngressSpecView {
    pub name: Seq<char>,
    pub hosts: Seq<HostSpecView>,
    pub tls: Option<IngressTlsSpecView>,
}

impl View for IngressSpec {
    type V = IngressSpecView;

    open spec fn view(&self) -> IngressSpecView {
        IngressSpecView {
            name: self.name@,
            hosts: self.hosts.deep_view(),
            tls: self.tls.deep_view(),
        }
    }
}

impl DeepView for IngressSpec {
    type V = IngressSpecView;

    open spec fn deep_view(&self) -> IngressSpecView {
        self@
    }
}

impl Clone for IngressSpec {
    fn clone(&self) -> (r: Self)
        ensures
            r@ == self@,
    {
        let hosts = self.hosts.clone();
        assert(hosts.deep_view() =~= self.hosts.deep_view());
        IngressSpec { name: self.name.clone(), hosts, tls: self.tls.clone() }
    }
}

/// A variable with its value.
#[derive(Debug, PartialEq, Eq)]
pub struct EnvVariable {
    /// The name of the variable.
    pub name: String,
    /// Its value.
    pub value: String,
}

/// The mathematical value of a [`EnvVariable`].
pub struct EnvVariableView {
    pub name: Seq<char>,
    pub value: Seq<char>,
}

impl View for EnvVariable {
    type V = EnvVariableView;

    open spec fn view(&self) -> EnvVariableView {
        EnvVariableView {
            name: self.name@,
            value: self.value@,
        }
    }
}

impl DeepView for EnvVariable {
    type V = EnvVariableView;

    open spec fn deep_view(&self) -> EnvVariableView {
        self@
    }
}

impl Clone for EnvVariable {
    fn clone(&self) -> (r: Self)
        ensures
            r@ == self@,
    {
        EnvVariable { name: self.name.clone(), value: self.value.clone() }
    }
}

/// Where the value of a secret comes from.
#[derive(Debug, PartialEq, Eq)]
pub enum DeploymentSecretSource {
    /// The process environment variable of this name.
    EnvVariable(String),
    /// The whole content of the file at this path.
    FilePath(String),
    /// This text itself.
    Embedded(String),
}

/// The mathematical value of a [`DeploymentSecretSource`].
pub enum DeploymentSecretSourceView {
    EnvVariable(Seq<char>),
    FilePath(Seq<char>),
    Embedded(Seq<char>),
}

impl View for DeploymentSecretSource {
    type V = DeploymentSecretSourceView;

    open spec fn view(&self) -> DeploymentSecretSourceView {
        match *self {
            DeploymentSecretSource::EnvVariable(a0) => DeploymentSecretSourceView::EnvVariable(a0@),
            DeploymentSecretSource::FilePath(a0) => DeploymentSecretSourceView::FilePath(a0@),
            DeploymentSecretSource::Embedded(a0) => DeploymentSecretSourceView::Embedded(a0@),
        }
    }
}

impl DeepView for DeploymentSecretSource {
    type V = DeploymentSecretSourceView;

    open spec fn deep_view(&self) -> DeploymentSecretSourceView {
        self@
    }
}

impl Clone for DeploymentSecretSource {
    fn clone(&self) -> (r: Self)
        ensures
            r@ == self@,
    {
        match self {
            DeploymentSecretSource::EnvVariable(a0) => DeploymentSecretSource::EnvVariable(a0.clone()),
            DeploymentSecretSource::FilePath(a0) => DeploymentSecretSource::FilePath(a0.clone()),
            DeploymentSecretSource::Embedded(a0) => DeploymentSecretSource::Embedded(a0.clone()),
        }
    }
}

/// A secret that a deployment supplies.
#[derive(Debug, PartialEq, Eq)]
pub struct DeploymentSecretSpec {
    /// The name of the secret.
    pub secret_name: String,
    /// Where its value comes from.
    pub source: DeploymentSecretSource,
}

/// The mathematical value of a [`DeploymentSecretSpec`].
pub struct DeploymentSecretSpecView {
    pub secret_name: Seq<char>,
    pub source: DeploymentSecretSourceView,
}

impl View for DeploymentSecretSpec {
    type V = DeploymentSecretSpecView;

    open spec fn view(&self) -> DeploymentSecretSpecView {
        DeploymentSecretSpecView {
            secret_name: self.secret_name@,
            source: self.source@,
        }
    }
}

impl DeepView for DeploymentSecretSpec {
    type V = DeploymentSecretSpecView;

    open spec fn deep_view(&self) -> DeploymentSecretSpecView {
        self@
    }
}

impl Clone for DeploymentSecretSpec {
    fn clone(&self) -> (r: Self)
        ensures
            r@ == self@,
    {
        DeploymentSecretSpec { secret_name: self.secret_name.clone(), source: self.source.clone() }
    }
}

/// The application that a deployment is for.
#[derive(Debug, PartialEq, Eq)]
pub struct DeploymentAppSpec {
    /// The name of the application.
    pub name: String,
    /// The versions of it that the deployment accepts; any, when absent.
    pub version: Option<VersionRange>,
    /// Paths of further descriptor files with extra services.
    pub extra: Vec<String>,
}

/// The mathematical value of a [`DeploymentAppSpec`].
pub struct DeploymentAppSpecView {
    pub name: Seq<char>,
    pub version: Option<Seq<char>>,
    pub extra: Seq<Seq<char>>,
}

impl View for DeploymentAppSpec {
    type V = DeploymentAppSpecView;

    open spec fn view(&self) -> DeploymentAppSpecView {
        DeploymentAppSpecView {
            name: self.name@,
            version: self.version.deep_view(),
            extra: self.extra.deep_view(),
        }
    }
}

impl DeepView for DeploymentAppSpec {
    type V = DeploymentAppSpecView;

    open spec fn deep_view(&self) -> DeploymentAppSpecView {
        self@
    }
}

impl Clone for DeploymentAppSpec {
    fn clone(&self) -> (r: Self)
        ensures
            r@ == self@,
    {
        let extra = self.extra.clone();
        assert(extra.deep_view() =~= self.extra.deep_view());
        DeploymentAppSpec { name: self.name.clone(), version: self.version.clone(), extra }
    }
}

/// Amounts of memory and CPU, in the notation of the target.
#[derive(Debug, PartialEq, Eq)]
pub struct ResourceLimits {
    /// The amount of memory.
    pub memory: String,
    /// The amount of CPU.
    pub cpu: String,
}

/// The mathematical value of a [`ResourceLimits`].
pub struct ResourceLimitsView {
    pub memory: Seq<char>,
    pub cpu: Seq<char>,
}

impl View for ResourceLimits {
    type V = ResourceLimitsView;

    open spec fn view(&self) -> ResourceLimitsView {
        ResourceLimitsView {
            memory: self.memory@,
            cpu: self.cpu@,
        }
    }
}

impl DeepView for ResourceLimits {
    type V = ResourceLimitsView;

    open spec fn deep_view(&self) -> ResourceLimitsView {
        self@
    }
}

impl Clone for ResourceLimits {
    fn clone(&self) -> (r: Self)
        ensures
            r@ == self@,
    {
        ResourceLimits { memory: self.memory.clone(), cpu: self.cpu.clone() }
    }
}

/// The sizing of a service.
#[derive(Debug, PartialEq, Eq)]
pub struct ResourcesSpec {
    /// The number of instances.
    pub replicas: u32,
    /// What each instance asks for.
    pub requests: ResourceLimits,
    /// What each instance may use at most.
    pub limits: ResourceLimits,
}

/// The mathematical value of a [`ResourcesSpec`].
pub struct ResourcesSpecView {
    pub replicas: u32,
    pub requests: ResourceLimitsView,
    pub limits: ResourceLimitsView,
}

impl View for ResourcesSpec {
    type V = ResourcesSpecView;

    open spec fn view(&self) -> ResourcesSpecView {
        ResourcesSpecView {
            replicas: self.replicas,
            requests: self.requests@,
            limits: self.limits@,
        }
    }
}

impl DeepView for ResourcesSpec {
    type V = ResourcesSpecView;

    open spec fn deep_view(&self) -> ResourcesSpecView {
        self@
    }
}

impl Clone for ResourcesSpec {
    fn clone(&self) -> (r: Self)
        ensures
            r@ == self@,
    {
        ResourcesSpec { replicas: self.replicas, requests: self.requests.clone(), limits: self.limits.clone() }
    }
}

/// A path prefix under which a public service is reachable.
#[derive(Debug, PartialEq, Eq)]
pub struct Prefix {
    /// The path prefix.
    pub prefix: String,
    /// Whether the prefix is removed before the request reaches the service.
    pub strip: bool,
}

/// The mathematical value of a [`Prefix`].
pub struct PrefixView {
    pub prefix: Seq<char>,
    pub strip: bool,
}

impl View for Prefix {
    type V = PrefixView;

    open spec fn view(&self) -> PrefixView {
        PrefixView {
            prefix: self.prefix@,
            strip: self.strip,
        }
    }
}

impl DeepView for Prefix {
    type V = PrefixView;

    open spec fn deep_view(&self) -> PrefixView {
        self@
    }
}

impl Clone for Prefix {
    fn clone(&self) -> (r: Self)
        ensures
            r@ == self@,
    {
        Prefix { prefix: self.prefix.clone(), strip: self.strip }
    }
}

/// What a deployment overrides for one service.
#[derive(Debug, PartialEq, Eq)]
pub struct DeploymentServiceSpec {
    /// The image variant to use; `"default"` when absent.
    pub variant: Option<String>,
    /// The ingress host to bind to; the primary host when absent.
    pub host: Option<String>,
    /// The path prefixes under which the service is reachable.
    pub prefixes: Vec<Prefix>,
    /// The sizing of the service.
    pub resources: ResourcesSpec,
    /// The ports of the service in this deployment.
    pub ports: Vec<ServicePort>,
}

/// The mathematical value of a [`DeploymentServiceSpec`].
pub struct DeploymentServiceSpecView {
    pub variant: Option<Seq<char>>,
    pub host: Option<Seq<char>>,
    pub prefixes: Seq<PrefixView>,
    pub resources: ResourcesSpecView,
    pub ports: Seq<ServicePort>,
}

impl View for DeploymentServiceSpec {
    type V = DeploymentServiceSpecView;

    open spec fn view(&self) -> DeploymentServiceSpecView {
        DeploymentServiceSpecView {
            variant: self.variant.deep_view(),
            host: self.host.deep_view(),
            prefixes: self.prefixes.deep_view(),
            resources: self.resources@,
            ports: self.ports.deep_view(),
        }
    }
}

impl DeepView for DeploymentServiceSpec {
    type V = DeploymentServiceSpecView;

    open spec fn deep_view(&self) -> DeploymentServiceSpecView {
        self@
    }
}

impl Clone for DeploymentServiceSpec {
    fn clone(&self) -> (r: Self)
        ensures
            r@ == self@,
    {
        let prefixes = self.prefixes.clone();
        assert(prefixes.deep_view() =~= self.prefixes.deep_view());
        let ports = self.ports.clone();
        assert(ports.deep_view() =~= self.ports.deep_view());
        DeploymentServiceSpec { variant: self.variant.clone(), host: self.host.clone(), prefixes, resources: self.resources.clone(), ports }
    }
}

/// The overrides of a deployment for the service of one name.
#[derive(Debug, PartialEq, Eq)]
pub struct DeploymentServiceEntry {
    /// The name of the service.
    pub service_name: String,
    /// What the deployment overrides for it.
    pub spec: DeploymentServiceSpec,
}

/// The mathematical value of a [`DeploymentServiceEntry`].
pub struct DeploymentServiceEntryView {
    pub service_name: Seq<char>,
    pub spec: DeploymentServiceSpecView,
}

impl View for DeploymentServiceEntry {
    type V = DeploymentServiceEntryView;

    open spec fn view(&self) -> DeploymentServiceEntryView {
        DeploymentServiceEntryView {
            service_name: self.service_name@,
            spec: self.spec@,
        }
    }
}

impl DeepView for DeploymentServiceEntry {
    type V = DeploymentServiceEntryView;

    open spec fn deep_view(&self) -> DeploymentServiceEntryView {
        self@
    }
}

impl Clone for DeploymentServiceEntry {
    fn clone(&self) -> (r: Self)
        ensures
            r@ == self@,
    {
        DeploymentServiceEntry { service_name: self.service_name.clone(), spec: self.spec.clone() }
    }
}

/// One deployment of an application into an environment.
#[derive(Debug, PartialEq, Eq)]
pub struct DeploymentSpec {
    /// The name of the deployment.
    pub name: String,
    /// The ingress host that services bind to unless they name another.
    pub primary_host: String,
    /// The application that is deployed.
    pub application: DeploymentAppSpec,
    /// The values that the deployment gives to variables.
    pub environment: Vec<EnvVariable>,
    /// Values that replace or extend `environment` when the services run outside containers.
    pub undockerized_environment: Vec<EnvVariable>,
    /// The config groups that the deployment supplies, with the paths of their sources.
    pub configs: Vec<ConfigSpec>,
    /// The secrets that the deployment supplies.
    pub secrets: Vec<DeploymentSecretSpec>,
    /// The sizing of services that have no override.
    pub defaults: ResourcesSpec,
    /// The overrides per service; the first entry of a name counts.
    pub services: Option<Vec<DeploymentServiceEntry>>,
}

/// The mathematical value of a [`DeploymentSpec`].
pub struct DeploymentSpecView {
    pub name: Seq<char>,
    pub primary_host: Seq<char>,
    pub application: DeploymentAppSpecView,
    pub environment: Seq<EnvVariableView>,
    pub undockerized_environment: Seq<EnvVariableView>,
    pub configs: Seq<ConfigSpecView>,
    pub secrets: Seq<DeploymentSecretSpecView>,
    pub defaults: ResourcesSpecView,
    pub services: Option<Seq<DeploymentServiceEntryView>>,
}

impl View for DeploymentSpec {
    type V = DeploymentSpecView;

    open spec fn view(&self) -> DeploymentSpecView {
        DeploymentSpecView {
            name: self.name@,
            primary_host: self.primary_host@,
            application: self.application@,
            environment: self.environment.deep_view(),
            undockerized_environment: self.undockerized_environment.deep_view(),
            configs: self.configs.deep_view(),
            secrets: self.secrets.deep_view(),
            defaults: self.defaults@,
            services: self.services.deep_view(),
        }
    }
}

impl DeepView for DeploymentSpec {
    type V = DeploymentSpecView;

    open spec fn deep_view(&self) -> DeploymentSpecView {
        self@
    }
}

impl Clone for DeploymentSpec {
    fn clone(&self) -> (r: Self)
        ensures
            r@ == self@,
    {
        let environment = self.environment.clone();
        assert(environment.deep_view() =~= self.environment.deep_view());
        let undockerized_environment = self.undockerized_environment.clone();
        assert(undockerized_environment.deep_view() =~= self.undockerized_environment.deep_view());
        let configs = self.configs.clone();
        assert(configs.deep_view() =~= self.configs.deep_view());
        let secrets = self.secrets.clone();
        assert(secrets.deep_view() =~= self.secrets.deep_view());
        let services = match &self.services {
            Some(v) => {
                let c = v.clone();
                assert(c.deep_view() =~= v.deep_view());
                Some(c)
            },
            None => None,
        };
        DeploymentSpec { name: self.name.clone(), primary_host: self.primary_host.clone(), application: self.application.clone(), environment, undockerized_environment, configs, secrets, defaults: self.defaults.clone(), services }
    }
}

/// A target environment with the deployments it hosts.
#[derive(Debug, PartialEq, Eq)]
pub struct DeploymentEnvironmentSpec {
    /// The kind of target.
    pub env_type: DeploymentEnvType,
    /// The ingress of the environment.
    pub ingress: IngressSpec,
    /// The registry host of each image namespace; the first mapping of a namespace counts.
    pub registry: Vec<RegistryMapping>,
    /// The deployments; the first of a name counts.
    pub deployments: Vec<DeploymentSpec>,
}

/// The mathematical value of a [`DeploymentEnvironmentSpec`].
pub struct DeploymentEnvironmentSpecView {
    pub env_type: DeploymentEnvType,
    pub ingress: IngressSpecView,
    pub registry: Seq<RegistryMappingView>,
    pub deployments: Seq<DeploymentSpecView>,
}

impl View for DeploymentEnvironmentSpec {
    type V = DeploymentEnvironmentSpecView;

    open spec fn view(&self) -> DeploymentEnvironmentSpecView {
        DeploymentEnvironmentSpecView {
            env_type: self.env_type,
            ingress: self.ingress@,
            registry: self.registry.deep_view(),
            deployments: self.deployments.deep_view(),
        }
    }
}

impl DeepView for DeploymentEnvironmentSpec {
    type V = DeploymentEnvironmentSpecView;

    open spec fn deep_view(&self) -> DeploymentEnvironmentSpecView {
        self@
    }
}

impl Clone for DeploymentEnvironmentSpec {
    fn clone(&self) -> (r: Self)
        ensures
            r@ == self@,
    {
        let registry = self.registry.clone();
        assert(registry.deep_view() =~= self.registry.deep_view());
        let deployments = self.deployments.clone();
        assert(deployments.deep_view() =~= self.deployments.deep_view());
        DeploymentEnvironmentSpec { env_type: self.env_type, ingress: self.ingress.clone(), registry, deployments }
    }
}

impl DeploymentSpecView {
    /// Whether the deployment overrides no service twice.
    pub open spec fn overrides_are_unique(self) -> bool {
        match self.services {
            Some(entries) => forall|i: int, j: int|
                0 <= i < j < entries.len() ==> (#[trigger] entries[i]).service_name != (
                #[trigger] entries[j]).service_name,
            None => true,
        }
    }
}

impl DeploymentEnvironmentSpecView {
    /// Whether the registry maps no namespace twice.
    pub open spec fn registry_is_a_mapping(self) -> bool {
        forall|i: int, j: int|
            0 <= i < j < self.registry.len() ==> (#[trigger] self.registry[i]).namespace != (
            #[trigger] self.registry[j]).namespace
    }

    /// Whether no ingress host is named twice.
    pub open spec fn hosts_are_unique(self) -> bool {
        forall|i: int, j: int|
            0 <= i < j < self.ingress.hosts.len() ==> (#[trigger] self.ingress.hosts[i]).name != (
            #[trigger] self.ingress.hosts[j]).name
    }

    /// Whether no deployment is named twice.
    pub open spec fn deployments_are_unique(self) -> bool {
        forall|i: int, j: int|
            0 <= i < j < self.deployments.len() ==> (#[trigger] self.deployments[i]).name != (
            #[trigger] self.deployments[j]).name
    }

    /// Whether the lists of the environment that stand for mappings are
    /// mappings: no namespace, no host, no deployment and no overridden
    /// service occurs twice.
    ///
    /// Nothing requires this. Where a name occurs twice, the first
    /// occurrence is the one that is found.
    pub open spec fn holds_mappings(self) -> bool {
        &&& self.registry_is_a_mapping()
        &&& self.hosts_are_unique()
        &&& self.deployments_are_unique()
        &&& forall|d: int|
            0 <= d < self.deployments.len() ==> (#[trigger] self.deployments[d]).overrides_are_unique()
    }
}

impl AppSpecView {
    /// The services of the application: those it builds, then the extra ones.
    pub open spec fn all_services(self) -> Seq<ServiceSpecView> {
        self.app_services + self.extra_services
    }
}

impl AppSpec {
    /// The services of the application: those it builds, then the extra ones.
    pub fn all_services(&self) -> (r: Vec<&ServiceSpec>)
        ensures
            r.deep_view() == self@.all_services(),
    {
        let mut r: Vec<&ServiceSpec> = Vec::new();
        let mut i: usize = 0;
        assert(r.deep_view() =~= self.app_services.deep_view().take(0));
        while i < self.app_services.len()
            invariant
                i <= self.app_services.len(),
                r.deep_view() == self.app_services.deep_view().take(i as int),
            decreases self.app_services.len() - i,
        {
            let ghost before = r.deep_view();
            r.push(&self.app_services[i]);
            assert(r.deep_view() =~= before.push(self.app_services[i as int]@));
            assert(self.app_services.deep_view().take(i + 1) =~= before.push(
                self.app_services[i as int]@,
            ));
            i += 1;
        }
        assert(self.app_services.deep_view().take(i as int) =~= self.app_services.deep_view());
        let mut j: usize = 0;
        assert(r.deep_view() =~= self.app_services.deep_view()
            + self.extra_services.deep_view().take(0));
        while j < self.extra_services.len()
            invariant
                j <= self.extra_services.len(),
                r.deep_view() == self.app_services.deep_view()
                    + self.extra_services.deep_view().take(j as int),
            decreases self.extra_services.len() - j,
        {
            let ghost before = r.deep_view();
            r.push(&self.extra_services[j]);
            assert(r.deep_view() =~= before.push(self.extra_services[j as int]@));
            assert(self.app_services.deep_view() + self.extra_services.deep_view().take(j + 1)
                =~= before.push(self.extra_services[j as int]@));
            j += 1;
        }
        assert(self.extra_services.deep_view().take(j as int) =~= self.extra_services.deep_view());
        r
    }
}

} // verus!
