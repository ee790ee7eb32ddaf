//! The two descriptors as they are written, before they are normalized.
//!
//! The types follow the documents field by field. Where a document holds a
//! mapping, the type holds the list of its entries, in the order of the
//! document.

use vstd::prelude::*;

verus! {

/// An image variant as written.
#[derive(Debug)]
pub struct ImageVariantYaml {
    /// The image reference.
    pub image: String,
}

/// The mathematical value of a [`ImageVariantYaml`].
pub struct ImageVariantYamlView {
    pub image: Seq<char>,
}

impl View for ImageVariantYaml {
    type V = ImageVariantYamlView;

    open spec fn view(&self) -> ImageVariantYamlView {
        ImageVariantYamlView {
            image: self.image@,
        }
    }
}

impl DeepView for ImageVariantYaml {
    type V = ImageVariantYamlView;

    open spec fn deep_view(&self) -> ImageVariantYamlView {
        self@
    }
}

/// Where a service asks to be exposed.
#[derive(Debug)]
pub struct ExportSpecYaml {
    /// The ingress host.
    pub host: Option<String>,
    /// The path prefix.
    pub prefix: Option<String>,
}

/// The mathematical value of a [`ExportSpecYaml`].
pub struct ExportSpecYamlView {
    pub host: Option<Seq<char>>,
    pub prefix: Option<Seq<char>>,
}

impl View for ExportSpecYaml {
    type V = ExportSpecYamlView;

    open spec fn view(&self) -> ExportSpecYamlView {
        ExportSpecYamlView {
            host: self.host.deep_view(),
            prefix: self.prefix.deep_view(),
        }
    }
}

impl DeepView for ExportSpecYaml {
    type V = ExportSpecYamlView;

    open spec fn deep_view(&self) -> ExportSpecYamlView {
        self@
    }
}

/// How a service is exposed, as written.
#[derive(Clone, Copy, Debug, PartialEq, Eq, Structural)]
pub enum ServiceTypeYaml {
    Public,
    Internal,
    Job,
}

impl View for ServiceTypeYaml {
    type V = ServiceTypeYaml;

    open spec fn view(&self) -> ServiceTypeYaml {
        *self
    }
}

impl DeepView for ServiceTypeYaml {
    type V = ServiceTypeYaml;

    open spec fn deep_view(&self) -> ServiceTypeYaml {
        *self
    }
}

/// How a secret reaches a service, as written: as a file or as a variable.
#[derive(Debug)]
pub struct SecretConfigYaml {
    /// The path of the file.
    pub path: Option<String>,
    /// The name of the environment variable.
    pub variable: Option<String>,
}

/// The mathematical value of a [`SecretConfigYaml`].
pub struct SecretConfigYamlView {
    pub path: Option<Seq<char>>,
    pub variable: Option<Seq<char>>,
}

impl View for SecretConfigYaml {
    type V = SecretConfigYamlView;

    open spec fn view(&self) -> SecretConfigYamlView {
        SecretConfigYamlView {
            path: self.path.deep_view(),
            variable: self.variable.deep_view(),
        }
    }
}

impl DeepView for SecretConfigYaml {
    type V = SecretConfigYamlView;

    open spec fn deep_view(&self) -> SecretConfigYamlView {
        self@
    }
}

/// The secrets of a service, as written.
#[derive(Debug)]
pub enum ServiceSecretYaml {
    /// A secret by its name alone; it is mounted as a file under `/secrets/`.
    Simple(String),
    /// Secrets by name, each with how it reaches the service.
    Detailed(Vec<(String, Option<SecretConfigYaml>)>),
}

/// The mathematical value of a [`ServiceSecretYaml`].
pub enum ServiceSecretYamlView {
    Simple(Seq<char>),
    Detailed(Seq<(Seq<char>, Option<SecretConfigYamlView>)>),
}

impl View for ServiceSecretYaml {
    type V = ServiceSecretYamlView;

    open spec fn view(&self) -> ServiceSecretYamlView {
        match *self {
            ServiceSecretYaml::Simple(a0) => ServiceSecretYamlView::Simple(a0@),
            ServiceSecretYaml::Detailed(a0) => ServiceSecretYamlView::Detailed(a0.deep_view()),
        }
    }
}

impl DeepView for ServiceSecretYaml {
    type V = ServiceSecretYamlView;

    open spec fn deep_view(&self) -> ServiceSecretYamlView {
        self@
    }
}

/// A service as written.
#[derive(Debug)]
pub struct ServiceSpecYaml {
    /// How the service is exposed; internal when absent.
    pub service_type: Option<ServiceTypeYaml>,
    /// The image of the variant `default`.
    pub image: Option<String>,
    /// Further image variants by name.
    pub variants: Option<Vec<(String, ImageVariantYaml)>>,
    /// Where the service asks to be exposed.
    pub export: Option<ExportSpecYaml>,
    /// The selectors of its variables: `$all`, `NAME` or `NAME=value`.
    pub environment: Option<Vec<String>>,
    /// The mounted config groups: name and mount path.
    pub configs: Option<Vec<Vec<(String, String)>>>,
    /// The bound secrets.
    pub secrets: Option<Vec<ServiceSecretYaml>>,
}

/// The mathematical value of a [`ServiceSpecYaml`].
pub struct ServiceSpecYamlView {
    pub service_type: Option<ServiceTypeYaml>,
    pub image: Option<Seq<char>>,
    pub variants: Option<Seq<(Seq<char>, ImageVariantYamlView)>>,
    pub export: Option<ExportSpecYamlView>,
    pub environment: Option<Seq<Seq<char>>>,
    pub configs: Option<Seq<Seq<(Seq<char>, Seq<char>)>>>,
    pub secrets: Option<Seq<ServiceSecretYamlView>>,
}

impl View for ServiceSpecYaml {
    type V = ServiceSpecYamlView;

    open spec fn view(&self) -> ServiceSpecYamlView {
        ServiceSpecYamlView {
            service_type: self.service_type.deep_view(),
            image: self.image.deep_view(),
            variants: self.variants.deep_view(),
            export: self.export.deep_view(),
            environment: self.environment.deep_view(),
            configs: self.configs.deep_view(),
            secrets: self.secrets.deep_view(),
        }
    }
}

impl DeepView for ServiceSpecYaml {
    type V = ServiceSpecYamlView;

    open spec fn deep_view(&self) -> ServiceSpecYamlView {
        self@
    }
}

/// The variable declarations of an application, as written: one descriptor per entry.
#[derive(Debug)]
pub struct AppEnvironmentYaml {
    /// `NAME` or `NAME=default`.
    pub external: Option<Vec<String>>,
    /// `NAME`.
    pub optional: Option<Vec<String>>,
    /// `NAME=/path`.
    pub relative: Option<Vec<String>>,
    /// `NAME=value`.
    pub internal: Option<Vec<String>>,
}

/// The mathematical value of a [`AppEnvironmentYaml`].
pub struct AppEnvironmentYamlView {
    pub external: Option<Seq<Seq<char>>>,
    pub optional: Option<Seq<Seq<char>>>,
    pub relative: Option<Seq<Seq<char>>>,
    pub internal: Option<Seq<Seq<char>>>,
}

impl View for AppEnvironmentYaml {
    type V = AppEnvironmentYamlView;

    open spec fn view(&self) -> AppEnvironmentYamlView {
        AppEnvironmentYamlView {
            external: self.external.deep_view(),
            optional: self.optional.deep_view(),
            relative: self.relative.deep_view(),
            internal: self.internal.deep_view(),
        }
    }
}

impl DeepView for AppEnvironmentYaml {
    type V = AppEnvironmentYamlView;

    open spec fn deep_view(&self) -> AppEnvironmentYamlView {
        self@
    }
}

/// The secrets that an application expects, as written.
#[derive(Debug)]
pub enum AppSecretsYaml {
    /// A list of names.
    Simple(Vec<String>),
    /// A mapping by name; only the names count.
    Detailed(Vec<String>),
}

/// The mathematical value of a [`AppSecretsYaml`].
pub enum AppSecretsYamlView {
    Simple(Seq<Seq<char>>),
    Detailed(Seq<Seq<char>>),
}

impl View for AppSecretsYaml {
    type V = AppSecretsYamlView;

    open spec fn view(&self) -> AppSecretsYamlView {
        match *self {
            AppSecretsYaml::Simple(a0) => AppSecretsYamlView::Simple(a0.deep_view()),
            AppSecretsYaml::Detailed(a0) => AppSecretsYamlView::Detailed(a0.deep_view()),
        }
    }
}

impl DeepView for AppSecretsYaml {
    type V = AppSecretsYamlView;

    open spec fn deep_view(&self) -> AppSecretsYamlView {
        self@
    }
}

/// A descriptor file that holds extra services only.
#[derive(Debug)]
pub struct ExtraAppSpecYaml {
    /// The extra services by name.
    pub extra_services: Option<Vec<(String, ServiceSpecYaml)>>,
}

/// The mathematical value of a [`ExtraAppSpecYaml`].
pub struct ExtraAppSpecYamlView {
    pub extra_services: Option<Seq<(Seq<char>, ServiceSpecYamlView)>>,
}

impl View for ExtraAppSpecYaml {
    type V = ExtraAppSpecYamlView;

    open spec fn view(&self) -> ExtraAppSpecYamlView {
        ExtraAppSpecYamlView {
            extra_services: self.extra_services.deep_view(),
        }
    }
}

impl DeepView for ExtraAppSpecYaml {
    type V = ExtraAppSpecYamlView;

    open spec fn deep_view(&self) -> ExtraAppSpecYamlView {
        self@
    }
}

/// An application descriptor as written. A mapping is held as the list of its entries.
#[derive(Debug)]
pub struct AppSpecYaml {
    /// The name of the application.
    pub name: String,
    /// Its version.
    pub version: String,
    /// Its variable declarations.
    pub environment: Option<AppEnvironmentYaml>,
    /// The services it builds, by name.
    pub app_services: Option<Vec<(String, ServiceSpecYaml)>>,
    /// The services supplied from elsewhere, by name.
    pub extra_services: Option<Vec<(String, ServiceSpecYaml)>>,
    /// The config groups by name, each with its paths.
    pub configs: Option<Vec<(String, Vec<String>)>>,
    /// The secrets it expects.
    pub secrets: Option<AppSecretsYaml>,
}

/// The mathematical value of a [`AppSpecYaml`].
pub struct AppSpecYamlView {
    pub name: Seq<char>,
    pub version: Seq<char>,
    pub environment: Option<AppEnvironmentYamlView>,
    pub app_services: Option<Seq<(Seq<char>, ServiceSpecYamlView)>>,
    pub extra_services: Option<Seq<(Seq<char>, ServiceSpecYamlView)>>,
    pub configs: Option<Seq<(Seq<char>, Seq<Seq<char>>)>>,
    pub secrets: Option<AppSecretsYamlView>,
}

impl View for AppSpecYaml {
    type V = AppSpecYamlView;

    open spec fn view(&self) -> AppSpecYamlView {
        AppSpecYamlView {
            name: self.name@,
            version: self.version@,
            environment: self.environment.deep_view(),
            app_services: self.app_services.deep_view(),
            extra_services: self.extra_services.deep_view(),
            configs: self.configs.deep_view(),
            secrets: self.secrets.deep_view(),
        }
    }
}

impl DeepView for AppSpecYaml {
    type V = AppSpecYamlView;

    open spec fn deep_view(&self) -> AppSpecYamlView {
        self@
    }
}

/// The kind of target, as written.
#[derive(Clone, Copy, Debug, PartialEq, Eq, Structural)]
pub enum DeploymentEnvTypeYaml {
    K8S,
    Docker,
    Local,
}

impl View for DeploymentEnvTypeYaml {
    type V = DeploymentEnvTypeYaml;

    open spec fn view(&self) -> DeploymentEnvTypeYaml {
        *self
    }
}

impl DeepView for DeploymentEnvTypeYaml {
    type V = DeploymentEnvTypeYaml;

    open spec fn deep_view(&self) -> DeploymentEnvTypeYaml {
        *self
    }
}

/// An ACME account as written.
#[derive(Debug)]
pub struct LetsEncryptSpecYaml {
    /// The URL of the ACME directory.
    pub server: Option<String>,
    /// The contact address.
    pub email: String,
}

/// The mathematical value of a [`LetsEncryptSpecYaml`].
pub struct LetsEncryptSpecYamlView {
    pub server: Option<Seq<char>>,
    pub email: Seq<char>,
}

impl View for LetsEncryptSpecYaml {
    type V = LetsEncryptSpecYamlView;

    open spec fn view(&self) -> LetsEncryptSpecYamlView {
        LetsEncryptSpecYamlView {
            server: self.server.deep_view(),
            email: self.email@,
        }
    }
}

impl DeepView for LetsEncryptSpecYaml {
    type V = LetsEncryptSpecYamlView;

    open spec fn deep_view(&self) -> LetsEncryptSpecYamlView {
        self@
    }
}

/// The TLS block of an ingress, as written.
#[derive(Debug)]
pub struct IngressTlsSpecYaml {
    /// Set to switch TLS off on purpose.
    pub disable: Option<bool>,
    /// The name of a secret that holds the certificate.
    pub secret: Option<String>,
    /// An ACME account to obtain one with.
    pub letsencrypt: Option<LetsEncryptSpecYaml>,
}

/// The mathematical value of a [`IngressTlsSpecYaml`].
pub struct IngressTlsSpecYamlView {
    pub disable: Option<bool>,
    pub secret: Option<Seq<char>>,
    pub letsencrypt: Option<LetsEncryptSpecYamlView>,
}

impl View for IngressTlsSpecYaml {
    type V = IngressTlsSpecYamlView;

    open spec fn view(&self) -> IngressTlsSpecYamlView {
        IngressTlsSpecYamlView {
            disable: self.disable.deep_view(),
            secret: self.secret.deep_view(),
            letsencrypt: self.letsencrypt.deep_view(),
        }
    }
}

impl DeepView for IngressTlsSpecYaml {
    type V = IngressTlsSpecYamlView;

    open spec fn deep_view(&self) -> IngressTlsSpecYamlView {
        self@
    }
}

/// The domains of an ingress host, as written.
#[derive(Debug)]
pub enum HostSpecYaml {
    /// One domain.
    Single(String),
    /// Several domains.
    Multiple(Vec<String>),
}

/// The mathematical value of a [`HostSpecYaml`].
pub enum HostSpecYamlView {
    Single(Seq<char>),
    Multiple(Seq<Seq<char>>),
}

impl View for HostSpecYaml {
    type V = HostSpecYamlView;

    open spec fn view(&self) -> HostSpecYamlView {
        match *self {
            HostSpecYaml::Single(a0) => HostSpecYamlView::Single(a0@),
            HostSpecYaml::Multiple(a0) => HostSpecYamlView::Multiple(a0.deep_view()),
        }
    }
}

impl DeepView for HostSpecYaml {
    type V = HostSpecYamlView;

    open spec fn deep_view(&self) -> HostSpecYamlView {
        self@
    }
}

/// An ingress as written.
#[derive(Debug)]
pub struct IngressSpecYaml {
    /// The name of the ingress.
    pub name: String,
    /// The hosts by name.
    pub hosts: Vec<(String, HostSpecYaml)>,
    /// The TLS block.
    pub tls: Option<IngressTlsSpecYaml>,
    /// For Docker: `nginx` or `traefik`.
    pub ingress_type: Option<String>,
}

/// The mathematical value of a [`IngressSpecYaml`].
pub struct IngressSpecYamlView {
    pub name: Seq<char>,
    pub hosts: Seq<(Seq<char>, HostSpecYamlView)>,
    pub tls: Option<IngressTlsSpecYamlView>,
    pub ingress_type: Option<Seq<char>>,
}

impl View for IngressSpecYaml {
    type V = IngressSpecYamlView;

    open spec fn view(&self) -> IngressSpecYamlView {
        IngressSpecYamlView {
            name: self.name@,
            hosts: self.hosts.deep_view(),
            tls: self.tls.deep_view(),
            ingress_type: self.ingress_type.deep_view(),
        }
    }
}

impl DeepView for IngressSpecYaml {
    type V = IngressSpecYamlView;

    open spec fn deep_view(&self) -> IngressSpecYamlView {
        self@
    }
}

/// The source of a secret, as written: a process environment variable or a file.
#[derive(Debug)]
pub struct DeploymentSecretSpecYaml {
    /// The name of the process environment variable.
    pub env: Option<String>,
    /// The path of the file.
    pub file: Option<String>,
}

/// The mathematical value of a [`DeploymentSecretSpecYaml`].
pub struct DeploymentSecretSpecYamlView {
    pub env: Option<Seq<char>>,
    pub file: Option<Seq<char>>,
}

impl View for DeploymentSecretSpecYaml {
    type V = DeploymentSecretSpecYamlView;

    open spec fn view(&self) -> DeploymentSecretSpecYamlView {
        DeploymentSecretSpecYamlView {
            env: self.env.deep_view(),
            file: self.file.deep_view(),
        }
    }
}

impl DeepView for DeploymentSecretSpecYaml {
    type V = DeploymentSecretSpecYamlView;

    open spec fn deep_view(&self) -> DeploymentSecretSpecYamlView {
        self@
    }
}

/// A secret of a deployment, as written.
#[derive(Debug)]
pub enum DeploymentSecretSpecExYaml {
    /// The value itself.
    Local(String),
    /// Where the value comes from.
    Detailed(DeploymentSecretSpecYaml),
}

/// The mathematical value of a [`DeploymentSecretSpecExYaml`].
pub enum DeploymentSecretSpecExYamlView {
    Local(Seq<char>),
    Detailed(DeploymentSecretSpecYamlView),
}

impl View for DeploymentSecretSpecExYaml {
    type V = DeploymentSecretSpecExYamlView;

    open spec fn view(&self) -> DeploymentSecretSpecExYamlView {
        match *self {
            DeploymentSecretSpecExYaml::Local(a0) => DeploymentSecretSpecExYamlView::Local(a0@),
            DeploymentSecretSpecExYaml::Detailed(a0) => DeploymentSecretSpecExYamlView::Detailed(a0@),
        }
    }
}

impl DeepView for DeploymentSecretSpecExYaml {
    type V = DeploymentSecretSpecExYamlView;

    open spec fn deep_view(&self) -> DeploymentSecretSpecExYamlView {
        self@
    }
}

/// The variables of a deployment, as written.
#[derive(Debug)]
pub enum DeploymentEnvVariablesYaml {
    /// The path of an env file.
    FromEnvFile(String),
    /// A list of `NAME=value`.
    FromList(Vec<String>),
}

/// The mathematical value of a [`DeploymentEnvVariablesYaml`].
pub enum DeploymentEnvVariablesYamlView {
    FromEnvFile(Seq<char>),
    FromList(Seq<Seq<char>>),
}

impl View for DeploymentEnvVariablesYaml {
    type V = DeploymentEnvVariablesYamlView;

    open spec fn view(&self) -> DeploymentEnvVariablesYamlView {
        match *self {
            DeploymentEnvVariablesYaml::FromEnvFile(a0) => DeploymentEnvVariablesYamlView::FromEnvFile(a0@),
            DeploymentEnvVariablesYaml::FromList(a0) => DeploymentEnvVariablesYamlView::FromList(a0.deep_view()),
        }
    }
}

impl DeepView for DeploymentEnvVariablesYaml {
    type V = DeploymentEnvVariablesYamlView;

    open spec fn deep_view(&self) -> DeploymentEnvVariablesYamlView {
        self@
    }
}

/// The application of a deployment, as written.
#[derive(Debug)]
pub struct DeploymentAppSpecYaml {
    /// The name of the application.
    pub name: String,
    /// The range of versions that the deployment accepts.
    pub version: Option<String>,
    /// Paths of descriptor files with extra services.
    pub extra: Option<Vec<String>>,
}

/// The mathematical value of a [`DeploymentAppSpecYaml`].
pub struct DeploymentAppSpecYamlView {
    pub name: Seq<char>,
    pub version: Option<Seq<char>>,
    pub extra: Option<Seq<Seq<char>>>,
}

impl View for DeploymentAppSpecYaml {
    type V = DeploymentAppSpecYamlView;

    open spec fn view(&self) -> DeploymentAppSpecYamlView {
        DeploymentAppSpecYamlView {
            name: self.name@,
            version: self.version.deep_view(),
            extra: self.extra.deep_view(),
        }
    }
}

impl DeepView for DeploymentAppSpecYaml {
    type V = DeploymentAppSpecYamlView;

    open spec fn deep_view(&self) -> DeploymentAppSpecYamlView {
        self@
    }
}

/// Amounts of memory and CPU, as written.
#[derive(Debug)]
pub struct ResourceLimitsYaml {
    /// The amount of memory; `128Mi` when absent.
    pub memory: Option<String>,
    /// The amount of CPU; `100m` when absent.
    pub cpu: Option<String>,
}

/// The mathematical value of a [`ResourceLimitsYaml`].
pub struct ResourceLimitsYamlView {
    pub memory: Option<Seq<char>>,
    pub cpu: Option<Seq<char>>,
}

impl View for ResourceLimitsYaml {
    type V = ResourceLimitsYamlView;

    open spec fn view(&self) -> ResourceLimitsYamlView {
        ResourceLimitsYamlView {
            memory: self.memory.deep_view(),
            cpu: self.cpu.deep_view(),
        }
    }
}

impl DeepView for ResourceLimitsYaml {
    type V = ResourceLimitsYamlView;

    open spec fn deep_view(&self) -> ResourceLimitsYamlView {
        self@
    }
}

/// The resources of a service, as written.
#[derive(Debug)]
pub struct ResourcesSpecYaml {
    /// What each instance asks for.
    pub requests: Option<ResourceLimitsYaml>,
    /// What each instance may use at most.
    pub limits: Option<ResourceLimitsYaml>,
}

/// The mathematical value of a [`ResourcesSpecYaml`].
pub struct ResourcesSpecYamlView {
    pub requests: Option<ResourceLimitsYamlView>,
    pub limits: Option<ResourceLimitsYamlView>,
}

impl View for ResourcesSpecYaml {
    type V = ResourcesSpecYamlView;

    open spec fn view(&self) -> ResourcesSpecYamlView {
        ResourcesSpecYamlView {
            requests: self.requests.deep_view(),
            limits: self.limits.deep_view(),
        }
    }
}

impl DeepView for ResourcesSpecYaml {
    type V = ResourcesSpecYamlView;

    open spec fn deep_view(&self) -> ResourcesSpecYamlView {
        self@
    }
}

/// The default sizing of a deployment, as written.
#[derive(Debug)]
pub struct DefaultsSpecYaml {
    /// The number of instances; 1 when absent.
    pub replicas: Option<u32>,
    /// The resources of each instance.
    pub resources: Option<ResourcesSpecYaml>,
}

/// The mathematical value of a [`DefaultsSpecYaml`].
pub struct DefaultsSpecYamlView {
    pub replicas: Option<u32>,
    pub resources: Option<ResourcesSpecYamlView>,
}

impl View for DefaultsSpecYaml {
    type V = DefaultsSpecYamlView;

    open spec fn view(&self) -> DefaultsSpecYamlView {
        DefaultsSpecYamlView {
            replicas: self.replicas.deep_view(),
            resources: self.resources.deep_view(),
        }
    }
}

impl DeepView for DefaultsSpecYaml {
    type V = DefaultsSpecYamlView;

    open spec fn deep_view(&self) -> DefaultsSpecYamlView {
        self@
    }
}

/// The options of one path prefix, as written.
#[derive(Debug)]
pub struct PrefixOptionsYaml {
    /// Whether the prefix is removed; it is kept when absent.
    pub strip: Option<bool>,
}

/// The mathematical value of a [`PrefixOptionsYaml`].
pub struct PrefixOptionsYamlView {
    pub strip: Option<bool>,
}

impl View for PrefixOptionsYaml {
    type V = PrefixOptionsYamlView;

    open spec fn view(&self) -> PrefixOptionsYamlView {
        PrefixOptionsYamlView {
            strip: self.strip.deep_view(),
        }
    }
}

impl DeepView for PrefixOptionsYaml {
    type V = PrefixOptionsYamlView;

    open spec fn deep_view(&self) -> PrefixOptionsYamlView {
        self@
    }
}

/// The overrides of a deployment for one service, as written.
#[derive(Debug)]
pub struct DeploymentServiceSpecYaml {
    /// The image variant.
    pub variant: Option<String>,
    /// The ingress host.
    pub host: Option<String>,
    /// A single path prefix; it comes after those of `prefixes`.
    pub prefix: Option<String>,
    /// Whether the single prefix is removed; it is when absent.
    pub strip_prefix: Option<bool>,
    /// Path prefixes, each with its options.
    pub prefixes: Option<Vec<(String, PrefixOptionsYaml)>>,
    /// The number of instances.
    pub replicas: Option<u32>,
    /// The resources of each instance.
    pub resources: Option<ResourcesSpecYaml>,
    /// The ports, each as `external:internal`.
    pub ports: Option<Vec<String>>,
}

/// The mathematical value of a [`DeploymentServiceSpecYaml`].
pub struct DeploymentServiceSpecYamlView {
    pub variant: Option<Seq<char>>,
    pub host: Option<Seq<char>>,
    pub prefix: Option<Seq<char>>,
    pub strip_prefix: Option<bool>,
    pub prefixes: Option<Seq<(Seq<char>, PrefixOptionsYamlView)>>,
    pub replicas: Option<u32>,
    pub resources: Option<ResourcesSpecYamlView>,
    pub ports: Option<Seq<Seq<char>>>,
}

impl View for DeploymentServiceSpecYaml {
    type V = DeploymentServiceSpecYamlView;

    open spec fn view(&self) -> DeploymentServiceSpecYamlView {
        DeploymentServiceSpecYamlView {
            variant: self.variant.deep_view(),
            host: self.host.deep_view(),
            prefix: self.prefix.deep_view(),
            strip_prefix: self.strip_prefix.deep_view(),
            prefixes: self.prefixes.deep_view(),
            replicas: self.replicas.deep_view(),
            resources: self.resources.deep_view(),
            ports: self.ports.deep_view(),
        }
    }
}

impl DeepView for DeploymentServiceSpecYaml {
    type V = DeploymentServiceSpecYamlView;

    open spec fn deep_view(&self) -> DeploymentServiceSpecYamlView {
        self@
    }
}

/// A deployment as written.
#[derive(Debug)]
pub struct DeploymentSpecYaml {
    /// The application that is deployed.
    pub application: DeploymentAppSpecYaml,
    /// The ingress host that services bind to unless they name another.
    pub primary_host: String,
    /// The values of variables.
    pub environment: Option<DeploymentEnvVariablesYaml>,
    /// The values of variables for services that run outside containers.
    pub undockerized_environment: Option<DeploymentEnvVariablesYaml>,
    /// The config groups by name, each with the directory that holds its files.
    pub configs: Option<Vec<(String, String)>>,
    /// The secrets by name.
    pub secrets: Option<Vec<(String, DeploymentSecretSpecExYaml)>>,
    /// The default sizing.
    pub defaults: Option<DefaultsSpecYaml>,
    /// The overrides per service.
    pub services: Option<Vec<(String, DeploymentServiceSpecYaml)>>,
}

/// The mathematical value of a [`DeploymentSpecYaml`].
pub struct DeploymentSpecYamlView {
    pub application: DeploymentAppSpecYamlView,
    pub primary_host: Seq<char>,
    pub environment: Option<DeploymentEnvVariablesYamlView>,
    pub undockerized_environment: Option<DeploymentEnvVariablesYamlView>,
    pub configs: Option<Seq<(Seq<char>, Seq<char>)>>,
    pub secrets: Option<Seq<(Seq<char>, DeploymentSecretSpecExYamlView)>>,
    pub defaults: Option<DefaultsSpecYamlView>,
    pub services: Option<Seq<(Seq<char>, DeploymentServiceSpecYamlView)>>,
}

impl View for DeploymentSpecYaml {
    type V = DeploymentSpecYamlView;

    open spec fn view(&self) -> DeploymentSpecYamlView {
        DeploymentSpecYamlView {
            application: self.application@,
            primary_host: self.primary_host@,
            environment: self.environment.deep_view(),
            undockerized_environment: self.undockerized_environment.deep_view(),
            configs: self.configs.deep_view(),
            secrets: self.secrets.deep_view(),
            defaults: self.defaults.deep_view(),
            services: self.services.deep_view(),
        }
    }
}

impl DeepView for DeploymentSpecYaml {
    type V = DeploymentSpecYamlView;

    open spec fn deep_view(&self) -> DeploymentSpecYamlView {
        self@
    }
}

/// An environment descriptor as written.
#[derive(Debug)]
pub struct DeploymentEnvironmentSpecYaml {
    /// The kind of target.
    pub env_type: DeploymentEnvTypeYaml,
    /// For Docker: whether the services run as a swarm stack.
    pub swarm_mode: Option<bool>,
    /// The ingress.
    pub ingress: IngressSpecYaml,
    /// The registry host of each image namespace.
    pub registry: Option<Vec<(String, String)>>,
    /// The deployments by name.
    pub deployments: Vec<(String, DeploymentSpecYaml)>,
}

/// The mathematical value of a [`DeploymentEnvironmentSpecYaml`].
pub struct DeploymentEnvironmentSpecYamlView {
    pub env_type: DeploymentEnvTypeYaml,
    pub swarm_mode: Option<bool>,
    pub ingress: IngressSpecYamlView,
    pub registry: Option<Seq<(Seq<char>, Seq<char>)>>,
    pub deployments: Seq<(Seq<char>, DeploymentSpecYamlView)>,
}

impl View for DeploymentEnvironmentSpecYaml {
    type V = DeploymentEnvironmentSpecYamlView;

    open spec fn view(&self) -> DeploymentEnvironmentSpecYamlView {
        DeploymentEnvironmentSpecYamlView {
            env_type: self.env_type,
            swarm_mode: self.swarm_mode.deep_view(),
            ingress: self.ingress@,
            registry: self.registry.deep_view(),
            deployments: self.deployments.deep_view(),
        }
    }
}

impl DeepView for DeploymentEnvironmentSpecYaml {
    type V = DeploymentEnvironmentSpecYamlView;

    open spec fn deep_view(&self) -> DeploymentEnvironmentSpecYamlView {
        self@
    }
}

} // verus!
