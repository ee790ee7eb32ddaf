use simpled::error::{ErrorKind, InterpolationError, ResolveError};
use simpled::resolved_spec::{
    ConfigResolvedFile, ConfigResolvedSpec, IngressRule, IngressTlsResolvedSpec,
    IngressToServiceRule, LetsEncryptResolvedSpec, SecretResolvedSpec,
};
use simpled::resolver::resolve;
use simpled::sources::{
    ConfigPathContent, ConfigPathSnapshot, HostSnapshot, SecretFileContent, SecretFileSnapshot,
};
use simpled::spec::{
    AppEnvironment, AppSpec, ConfigSpec, DeploymentAppSpec, DeploymentEnvType,
    DeploymentEnvironmentSpec, DeploymentSecretSource, DeploymentSecretSpec,
    DeploymentServiceEntry, DeploymentServiceSpec, DeploymentSpec, DockerIngressType,
    DockerSpecificSpec, EnvVariable, ExternalEnvVariable, HostSpec, ImageVariant, IngressSpec,
    IngressTlsSpec, InternalEnvVariable, LetsEncryptSpec, Prefix, RegistryMapping,
    RelativeEnvVariable, ResourceLimits, ResourcesSpec, SecretMount, ServiceConfigOption,
    ServiceEnvOption, ServicePort, ServiceSecret, ServiceSpec, ServiceType,
};
use simpled::version::AppVersion;

fn s(text: &str) -> String {
    text.to_string()
}

fn var(name: &str, value: &str) -> EnvVariable {
    EnvVariable { name: s(name), value: s(value) }
}

fn sizing() -> ResourcesSpec {
    ResourcesSpec {
        replicas: 1,
        requests: ResourceLimits { memory: s("128Mi"), cpu: s("100m") },
        limits: ResourceLimits { memory: s("256Mi"), cpu: s("200m") },
    }
}

fn service(name: &str, service_type: ServiceType, image: &str) -> ServiceSpec {
    ServiceSpec {
        name: s(name),
        service_type,
        is_app_service: true,
        image_variants: vec![ImageVariant { variant_name: s("default"), image: s(image) }],
        environment: vec![],
        configs: vec![],
        secrets: vec![],
        ports: vec![],
    }
}

fn app(services: Vec<ServiceSpec>) -> AppSpec {
    AppSpec {
        name: s("web"),
        version: AppVersion::parse("1.2.3").unwrap(),
        environment: AppEnvironment {
            external: vec![],
            optional: vec![],
            relative: vec![],
            internal: vec![],
        },
        app_services: services,
        extra_services: vec![],
        configs: vec![],
        secrets: vec![],
    }
}

fn deployment(services: Option<Vec<DeploymentServiceEntry>>) -> DeploymentSpec {
    DeploymentSpec {
        name: s("prod"),
        primary_host: s("main"),
        application: DeploymentAppSpec { name: s("web"), version: None, extra: vec![] },
        environment: vec![],
        undockerized_environment: vec![],
        configs: vec![],
        secrets: vec![],
        defaults: sizing(),
        services,
    }
}

fn overridden(name: &str, prefixes: &[(&str, bool)], ports: &[(u16, u16)]) -> DeploymentServiceEntry {
    DeploymentServiceEntry {
        service_name: s(name),
        spec: DeploymentServiceSpec {
            variant: None,
            host: None,
            prefixes: prefixes.iter().map(|p| Prefix { prefix: s(p.0), strip: p.1 }).collect(),
            resources: sizing(),
            ports: ports.iter().map(|p| ServicePort { external: p.0, internal: p.1 }).collect(),
        },
    }
}

fn environment(env_type: DeploymentEnvType, deployments: Vec<DeploymentSpec>) -> DeploymentEnvironmentSpec {
    DeploymentEnvironmentSpec {
        env_type,
        ingress: IngressSpec {
            name: s("gate"),
            hosts: vec![HostSpec { name: s("main"), domain_names: vec![s("example.com")] }],
            tls: None,
        },
        registry: vec![RegistryMapping { namespace: s("web"), host: s("registry.io") }],
        deployments,
    }
}

fn nothing() -> HostSnapshot {
    HostSnapshot { config_paths: vec![], secret_files: vec![], env_vars: vec![] }
}

#[test]
fn image_gets_registry_host_and_version() {
    let app = app(vec![service("api", ServiceType::Internal, "web/api")]);
    let env = environment(DeploymentEnvType::K8S, vec![deployment(None)]);
    let model = resolve(&env, &app, "prod", &nothing()).unwrap();
    assert_eq!(model.current_deployment.services.len(), 1);
    assert_eq!(model.current_deployment.services[0].image, "registry.io/web/api:1.2.3");
    assert_eq!(model.current_deployment.services[0].full_name, "web-api");
    assert_eq!(model.current_deployment.services[0].service_host, Some(s("example.com")));
    assert_eq!(model.env_type, DeploymentEnvType::K8S);
}

#[test]
fn local_image_is_tagged_latest_without_registry() {
    let app = app(vec![service("api", ServiceType::Internal, "web/api")]);
    let mut env = environment(DeploymentEnvType::Local, vec![deployment(None)]);
    env.registry = vec![];
    let model = resolve(&env, &app, "prod", &nothing()).unwrap();
    assert_eq!(model.current_deployment.services[0].image, "web/api:latest");
    // A registry that a local environment should not have is not used.
    env.registry = vec![RegistryMapping { namespace: s("web"), host: s("registry.io") }];
    let model = resolve(&env, &app, "prod", &nothing()).unwrap();
    assert_eq!(model.current_deployment.services[0].image, "web/api:latest");
}

#[test]
fn image_namespace_is_matched_exactly() {
    let app = app(vec![service("api", ServiceType::Internal, "webby/api")]);
    let env = environment(DeploymentEnvType::K8S, vec![deployment(None)]);
    let err = resolve(&env, &app, "prod", &nothing()).unwrap_err();
    assert_eq!(err, ResolveError::RegistryNotFound { service: s("api"), namespace: s("webby") });
    assert_eq!(err.kind(), ErrorKind::UndefinedReference);

    let app = app_with_image("we/b/api");
    assert_eq!(
        resolve(&env, &app, "prod", &nothing()),
        Err(ResolveError::RegistryNotFound { service: s("api"), namespace: s("we") })
    );
}

fn app_with_image(image: &str) -> AppSpec {
    app(vec![service("api", ServiceType::Internal, image)])
}

#[test]
fn image_without_namespace_is_not_prefixed() {
    let env = environment(
        DeploymentEnvType::Docker(DockerSpecificSpec {
            ingress_type: DockerIngressType::Nginx,
            swarm_mode: false,
        }),
        vec![deployment(None)],
    );
    let model = resolve(&env, &app_with_image("api"), "prod", &nothing()).unwrap();
    assert_eq!(model.current_deployment.services[0].image, "api:1.2.3");
    // The namespace may be empty, and is then looked up as the empty name.
    assert_eq!(
        resolve(&env, &app_with_image("/api"), "prod", &nothing()),
        Err(ResolveError::RegistryNotFound { service: s("api"), namespace: s("") })
    );
}

#[test]
fn registry_host_loses_one_trailing_slash() {
    let mut env = environment(DeploymentEnvType::K8S, vec![deployment(None)]);
    env.registry = vec![
        RegistryMapping { namespace: s("web"), host: s("registry.io//") },
        RegistryMapping { namespace: s("web"), host: s("second.io") },
    ];
    let model = resolve(&env, &app_with_image("web/api"), "prod", &nothing()).unwrap();
    assert_eq!(model.current_deployment.services[0].image, "registry.io//web/api:1.2.3");
}

#[test]
fn extra_service_image_stays_as_written() {
    let mut app = app(vec![]);
    let mut db = service("db", ServiceType::Internal, "library/postgres:15");
    db.is_app_service = false;
    app.extra_services = vec![db];
    let env = environment(DeploymentEnvType::K8S, vec![deployment(None)]);
    let model = resolve(&env, &app, "prod", &nothing()).unwrap();
    assert_eq!(model.current_deployment.services[0].image, "library/postgres:15");
    assert_eq!(model.current_deployment.services[0].full_name, "web-db");
}

#[test]
fn image_variant_is_chosen_by_the_deployment() {
    let mut api = service("api", ServiceType::Internal, "web/api");
    api.image_variants.push(ImageVariant { variant_name: s("slim"), image: s("web/api-slim") });
    let app = app(vec![api]);
    let mut entry = overridden("api", &[], &[]);
    entry.spec.variant = Some(s("slim"));
    let env = environment(DeploymentEnvType::K8S, vec![deployment(Some(vec![entry]))]);
    let model = resolve(&env, &app, "prod", &nothing()).unwrap();
    assert_eq!(model.current_deployment.services[0].image, "registry.io/web/api-slim:1.2.3");

    let mut entry = overridden("api", &[], &[]);
    entry.spec.variant = Some(s("fat"));
    let env = environment(DeploymentEnvType::K8S, vec![deployment(Some(vec![entry]))]);
    let err = resolve(&env, &app, "prod", &nothing()).unwrap_err();
    assert_eq!(err, ResolveError::ImageVariantNotFound { service: s("api"), variant: s("fat") });
    assert_eq!(err.kind(), ErrorKind::UndefinedReference);
}

#[test]
fn service_without_default_variant_fails() {
    let mut api = service("api", ServiceType::Internal, "web/api");
    api.image_variants[0].variant_name = s("only");
    let env = environment(DeploymentEnvType::K8S, vec![deployment(None)]);
    assert_eq!(
        resolve(&env, &app(vec![api]), "prod", &nothing()),
        Err(ResolveError::ImageVariantNotFound { service: s("api"), variant: s("default") })
    );
}

#[test]
fn relative_variable_uses_the_domain_of_the_primary_host() {
    let mut api = service("api", ServiceType::Internal, "web/api");
    api.environment = vec![ServiceEnvOption::All];
    let mut app = app(vec![api]);
    app.environment.relative =
        vec![RelativeEnvVariable { name: s("ROOT"), relative_value: s("/api") }];
    let env = environment(DeploymentEnvType::K8S, vec![deployment(None)]);
    let model = resolve(&env, &app, "prod", &nothing()).unwrap();
    assert_eq!(
        model.current_deployment.services[0].environment_variables,
        vec![var("ROOT", "https://example.com/api")]
    );
    assert_eq!(
        model.current_deployment.services[0].undockerized_environment_variables,
        vec![var("ROOT", "https://example.com/api")]
    );
}

#[test]
fn relative_variable_uses_the_host_of_the_service() {
    let mut api = service("api", ServiceType::Public, "web/api");
    api.environment = vec![ServiceEnvOption::Simple(s("ROOT"))];
    let mut app = app(vec![api]);
    app.environment.relative =
        vec![RelativeEnvVariable { name: s("ROOT"), relative_value: s("/api") }];
    let mut entry = overridden("api", &[("/", false)], &[(80, 8080)]);
    entry.spec.host = Some(s("second"));
    let mut env = environment(DeploymentEnvType::K8S, vec![deployment(Some(vec![entry]))]);
    env.ingress.hosts.push(HostSpec {
        name: s("second"),
        domain_names: vec![s("api.example.org"), s("alias.example.org")],
    });
    let model = resolve(&env, &app, "prod", &nothing()).unwrap();
    let resolved = &model.current_deployment.services[0];
    assert_eq!(resolved.service_host, Some(s("api.example.org")));
    assert_eq!(resolved.environment_variables, vec![var("ROOT", "https://api.example.org/api")]);
}

#[test]
fn duplicate_host_prefix_names_both_services() {
    let app = app(vec![
        service("one", ServiceType::Public, "web/one"),
        service("two", ServiceType::Public, "web/two"),
    ]);
    let env = environment(
        DeploymentEnvType::K8S,
        vec![deployment(Some(vec![
            overridden("one", &[("/app", false)], &[(80, 80)]),
            overridden("two", &[("/other", false), ("/app", true)], &[(80, 80)]),
        ]))],
    );
    let err = resolve(&env, &app, "prod", &nothing()).unwrap_err();
    assert_eq!(
        err,
        ResolveError::DuplicateHostPrefix {
            service: s("two"),
            other_service: s("one"),
            host: s("main"),
            prefix: s("/app"),
        }
    );
    assert_eq!(err.kind(), ErrorKind::ConstraintViolation);
}

#[test]
fn same_prefix_on_different_hosts_is_fine() {
    let app = app(vec![
        service("one", ServiceType::Public, "web/one"),
        service("two", ServiceType::Public, "web/two"),
    ]);
    let mut second = overridden("two", &[("/app", false)], &[(80, 80)]);
    second.spec.host = Some(s("other"));
    let mut env = environment(
        DeploymentEnvType::K8S,
        vec![deployment(Some(vec![overridden("one", &[("/app", false)], &[(80, 80)]), second]))],
    );
    env.ingress.hosts.push(HostSpec { name: s("other"), domain_names: vec![s("other.com")] });
    assert!(resolve(&env, &app, "prod", &nothing()).is_ok());
}

#[test]
fn only_public_services_claim_prefixes() {
    let app = app(vec![
        service("one", ServiceType::Internal, "web/one"),
        service("two", ServiceType::Job, "web/two"),
        service("three", ServiceType::Public, "web/three"),
    ]);
    let env = environment(
        DeploymentEnvType::K8S,
        vec![deployment(Some(vec![
            overridden("one", &[("/app", false)], &[]),
            overridden("two", &[("/app", false)], &[]),
            overridden("three", &[("/app", false)], &[]),
        ]))],
    );
    let model = resolve(&env, &app, "prod", &nothing()).unwrap();
    assert_eq!(
        model.ingress.rules,
        vec![IngressRule {
            domain_name: s("example.com"),
            services: vec![IngressToServiceRule {
                service_name: s("web-three"),
                port: 80,
                prefix: s("/app"),
                strip_prefix: false,
            }],
        }]
    );
}

#[test]
fn a_service_may_not_claim_a_prefix_twice() {
    let app = app(vec![service("one", ServiceType::Public, "web/one")]);
    let env = environment(
        DeploymentEnvType::K8S,
        vec![deployment(Some(vec![overridden("one", &[("/a", false), ("/a", true)], &[])]))],
    );
    assert_eq!(
        resolve(&env, &app, "prod", &nothing()),
        Err(ResolveError::DuplicateHostPrefix {
            service: s("one"),
            other_service: s("one"),
            host: s("main"),
            prefix: s("/a"),
        })
    );
}

#[test]
fn missing_secret_names_service_and_secret() {
    let mut api = service("api", ServiceType::Internal, "web/api");
    api.secrets =
        vec![ServiceSecret { name: s("db-password"), mount: SecretMount::EnvVariable(s("PW")) }];
    let env = environment(DeploymentEnvType::K8S, vec![deployment(None)]);
    let err = resolve(&env, &app(vec![api]), "prod", &nothing()).unwrap_err();
    assert_eq!(
        err,
        ResolveError::UndefinedSecret { service: s("api"), secret: s("web-db-password") }
    );
    assert_eq!(err.kind(), ErrorKind::UndefinedReference);
}

#[test]
fn missing_config_names_service_and_config() {
    let mut api = service("api", ServiceType::Internal, "web/api");
    api.configs = vec![ServiceConfigOption { config_name: s("nginx"), mount_path: s("/etc") }];
    let env = environment(DeploymentEnvType::K8S, vec![deployment(None)]);
    let err = resolve(&env, &app(vec![api]), "prod", &nothing()).unwrap_err();
    assert_eq!(err, ResolveError::UndefinedConfig { service: s("api"), config: s("web-nginx") });
    assert_eq!(err.kind(), ErrorKind::UndefinedReference);
}

fn file(name: &str, content: &[u8]) -> ConfigResolvedFile {
    ConfigResolvedFile { name: s(name), content: content.to_vec() }
}

#[test]
fn configs_and_secrets_are_read_and_bound() {
    let mut api = service("api", ServiceType::Internal, "web/api");
    api.configs = vec![ServiceConfigOption { config_name: s("nginx"), mount_path: s("/etc/nginx") }];
    api.secrets = vec![
        ServiceSecret { name: s("token"), mount: SecretMount::EnvVariable(s("TOKEN")) },
        ServiceSecret { name: s("key"), mount: SecretMount::FilePath(s("/run/key")) },
        ServiceSecret { name: s("pin"), mount: SecretMount::FilePath(s("/run/pin")) },
    ];
    let mut dep = deployment(None);
    dep.configs = vec![ConfigSpec {
        name: s("nginx"),
        files: vec![s("conf/extra.conf"), s("conf/dir"), s("conf/empty")],
    }];
    dep.secrets = vec![
        DeploymentSecretSpec {
            secret_name: s("token"),
            source: DeploymentSecretSource::EnvVariable(s("API_TOKEN")),
        },
        DeploymentSecretSpec {
            secret_name: s("key"),
            source: DeploymentSecretSource::FilePath(s("secrets/key.pem")),
        },
        DeploymentSecretSpec {
            secret_name: s("pin"),
            source: DeploymentSecretSource::Embedded(s("1234")),
        },
    ];
    let env = environment(DeploymentEnvType::K8S, vec![dep]);
    let sources = HostSnapshot {
        config_paths: vec![
            ConfigPathSnapshot {
                path: s("conf/dir"),
                content: ConfigPathContent::Directory(vec![file("a.conf", b"a"), file("b.conf", b"")]),
            },
            ConfigPathSnapshot {
                path: s("conf/extra.conf"),
                content: ConfigPathContent::File(file("extra.conf", b"\x00\xff")),
            },
            ConfigPathSnapshot { path: s("conf/empty"), content: ConfigPathContent::Directory(vec![]) },
        ],
        secret_files: vec![SecretFileSnapshot {
            path: s("secrets/key.pem"),
            content: SecretFileContent::Text(s("  key with blanks \n")),
        }],
        env_vars: vec![var("HOME", "/root"), var("API_TOKEN", "t0ken")],
    };
    let model = resolve(&env, &app(vec![api]), "prod", &sources).unwrap();
    assert_eq!(
        model.current_deployment.configs,
        vec![ConfigResolvedSpec {
            name: s("web-nginx"),
            files: vec![file("extra.conf", b"\x00\xff"), file("a.conf", b"a"), file("b.conf", b"")],
        }]
    );
    assert_eq!(
        model.current_deployment.secrets,
        vec![
            SecretResolvedSpec { name: s("web-token"), value: s("t0ken") },
            SecretResolvedSpec { name: s("web-key"), value: s("  key with blanks \n") },
            SecretResolvedSpec { name: s("web-pin"), value: s("1234") },
        ]
    );
    let resolved = &model.current_deployment.services[0];
    assert_eq!(
        resolved.configs,
        vec![ServiceConfigOption { config_name: s("web-nginx"), mount_path: s("/etc/nginx") }]
    );
    assert_eq!(
        resolved.secrets,
        vec![
            ServiceSecret { name: s("web-token"), mount: SecretMount::EnvVariable(s("TOKEN")) },
            ServiceSecret { name: s("web-key"), mount: SecretMount::FilePath(s("/run/key")) },
            ServiceSecret { name: s("web-pin"), mount: SecretMount::FilePath(s("/run/pin")) },
        ]
    );
    assert_eq!(model.current_deployment.name, "prod");
    assert_eq!(model.current_deployment.application_name, "web");
    assert_eq!(model.current_deployment.defaults, sizing());
}

#[test]
fn unreadable_sources_are_io_failures() {
    let mut dep = deployment(None);
    dep.configs = vec![ConfigSpec { name: s("c"), files: vec![s("gone")] }];
    let env = environment(DeploymentEnvType::K8S, vec![dep]);
    let err = resolve(&env, &app(vec![]), "prod", &nothing()).unwrap_err();
    assert_eq!(err, ResolveError::ConfigSourceMissing { path: s("gone") });
    assert_eq!(err.kind(), ErrorKind::IoFailure);

    let mut sources = nothing();
    sources.config_paths =
        vec![ConfigPathSnapshot { path: s("gone"), content: ConfigPathContent::Missing }];
    assert_eq!(
        resolve(&env, &app(vec![]), "prod", &sources),
        Err(ResolveError::ConfigSourceMissing { path: s("gone") })
    );
    sources.config_paths =
        vec![ConfigPathSnapshot { path: s("gone"), content: ConfigPathContent::Unreadable }];
    let err = resolve(&env, &app(vec![]), "prod", &sources).unwrap_err();
    assert_eq!(err, ResolveError::ConfigSourceUnreadable { path: s("gone") });
    assert_eq!(err.kind(), ErrorKind::IoFailure);

    let secret = |source| {
        let mut dep = deployment(None);
        dep.secrets = vec![DeploymentSecretSpec { secret_name: s("pw"), source }];
        environment(DeploymentEnvType::K8S, vec![dep])
    };
    let env = secret(DeploymentSecretSource::EnvVariable(s("PW")));
    let err = resolve(&env, &app(vec![]), "prod", &nothing()).unwrap_err();
    assert_eq!(err, ResolveError::SecretVariableNotSet { secret: s("pw"), variable: s("PW") });
    assert_eq!(err.kind(), ErrorKind::IoFailure);

    let env = secret(DeploymentSecretSource::FilePath(s("pw.txt")));
    let err = resolve(&env, &app(vec![]), "prod", &nothing()).unwrap_err();
    assert_eq!(err, ResolveError::SecretFileMissing { secret: s("pw"), path: s("pw.txt") });
    assert_eq!(err.kind(), ErrorKind::IoFailure);
    let mut sources = nothing();
    sources.secret_files =
        vec![SecretFileSnapshot { path: s("pw.txt"), content: SecretFileContent::Missing }];
    assert_eq!(
        resolve(&env, &app(vec![]), "prod", &sources),
        Err(ResolveError::SecretFileMissing { secret: s("pw"), path: s("pw.txt") })
    );
    sources.secret_files =
        vec![SecretFileSnapshot { path: s("pw.txt"), content: SecretFileContent::Unreadable }];
    let err = resolve(&env, &app(vec![]), "prod", &sources).unwrap_err();
    assert_eq!(err, ResolveError::SecretFileUnreadable { secret: s("pw"), path: s("pw.txt") });
    assert_eq!(err.kind(), ErrorKind::IoFailure);
}

#[test]
fn unknown_deployment_fails() {
    let env = environment(DeploymentEnvType::K8S, vec![deployment(None)]);
    let err = resolve(&env, &app(vec![]), "staging", &nothing()).unwrap_err();
    assert_eq!(err, ResolveError::DeploymentNotFound { deployment: s("staging") });
    assert_eq!(err.kind(), ErrorKind::UndefinedReference);
}

#[test]
fn unknown_host_fails() {
    let mut dep = deployment(None);
    dep.primary_host = s("nowhere");
    let env = environment(DeploymentEnvType::K8S, vec![dep]);
    let app = app(vec![service("api", ServiceType::Internal, "web/api")]);
    let err = resolve(&env, &app, "prod", &nothing()).unwrap_err();
    assert_eq!(err, ResolveError::HostNotFound { service: s("api"), host: s("nowhere") });
    assert_eq!(err.kind(), ErrorKind::UndefinedReference);

    // A host without a domain is no better.
    let mut env = environment(DeploymentEnvType::K8S, vec![deployment(None)]);
    env.ingress.hosts[0].domain_names = vec![];
    assert_eq!(
        resolve(&env, &app, "prod", &nothing()),
        Err(ResolveError::HostNotFound { service: s("api"), host: s("main") })
    );
}

#[test]
fn ports_come_from_the_override_if_there_is_one() {
    let mut one = service("one", ServiceType::Internal, "web/one");
    one.ports = vec![ServicePort { external: 1, internal: 2 }];
    let mut two = service("two", ServiceType::Internal, "web/two");
    two.ports = vec![ServicePort { external: 3, internal: 4 }];
    let mut three = service("three", ServiceType::Internal, "web/three");
    three.ports = vec![ServicePort { external: 5, internal: 6 }];
    let env = environment(
        DeploymentEnvType::K8S,
        vec![deployment(Some(vec![
            overridden("two", &[], &[(30, 40), (31, 41)]),
            overridden("three", &[], &[]),
        ]))],
    );
    let model = resolve(&env, &app(vec![one, two, three]), "prod", &nothing()).unwrap();
    let services = &model.current_deployment.services;
    assert_eq!(services[0].ports, vec![ServicePort { external: 1, internal: 2 }]);
    assert_eq!(
        services[1].ports,
        vec![ServicePort { external: 30, internal: 40 }, ServicePort { external: 31, internal: 41 }]
    );
    assert_eq!(services[2].ports, vec![]);
}

fn route(service: &str, port: u16, prefix: &str, strip: bool) -> IngressToServiceRule {
    IngressToServiceRule {
        service_name: s(service),
        port,
        prefix: s(prefix),
        strip_prefix: strip,
    }
}

#[test]
fn ingress_routes_every_domain_of_a_host() {
    let app = app(vec![
        service("site", ServiceType::Public, "web/site"),
        service("api", ServiceType::Public, "web/api"),
        service("admin", ServiceType::Public, "web/admin"),
        service("worker", ServiceType::Internal, "web/worker"),
        service("bare", ServiceType::Public, "web/bare"),
    ]);
    let mut admin = overridden("admin", &[("/", false)], &[]);
    admin.spec.host = Some(s("back"));
    let mut env = environment(
        DeploymentEnvType::K8S,
        vec![deployment(Some(vec![
            overridden("site", &[("/", false)], &[(8080, 80), (80, 8000)]),
            overridden("api", &[("/api", true), ("/v2", false)], &[(9000, 90), (9001, 91)]),
            admin,
            overridden("worker", &[("/w", false)], &[(80, 80)]),
        ]))],
    );
    env.ingress.hosts = vec![
        HostSpec { name: s("main"), domain_names: vec![s("example.com"), s("www.example.com")] },
        HostSpec { name: s("unused"), domain_names: vec![s("unused.com")] },
        HostSpec { name: s("back"), domain_names: vec![s("admin.example.com")] },
    ];
    let model = resolve(&env, &app, "prod", &nothing()).unwrap();
    let main = vec![
        route("web-site", 80, "/", false),
        route("web-api", 9000, "/api", true),
        route("web-api", 9000, "/v2", false),
    ];
    assert_eq!(
        model.ingress.rules,
        vec![
            IngressRule { domain_name: s("example.com"), services: main.clone() },
            IngressRule { domain_name: s("www.example.com"), services: main },
            IngressRule {
                domain_name: s("admin.example.com"),
                services: vec![route("web-admin", 80, "/", false)],
            },
        ]
    );
    assert_eq!(
        model.ingress.domains,
        vec![s("example.com"), s("www.example.com"), s("unused.com"), s("admin.example.com")]
    );
    assert_eq!(model.ingress.name, "gate");
    assert_eq!(model.ingress.tls, None);
}

#[test]
fn tls_takes_the_secret_or_else_the_acme_account() {
    let app = app(vec![]);
    let with_tls = |tls| {
        let mut env = environment(DeploymentEnvType::K8S, vec![deployment(None)]);
        env.ingress.tls = Some(tls);
        resolve(&env, &app, "prod", &nothing()).unwrap().ingress.tls
    };
    assert_eq!(
        with_tls(IngressTlsSpec { secret: Some(s("cert")), letsencrypt: None }),
        Some(IngressTlsResolvedSpec { secret: Some(s("cert")), letsencrypt: None })
    );
    assert_eq!(
        with_tls(IngressTlsSpec {
            secret: None,
            letsencrypt: Some(LetsEncryptSpec { server: None, email: s("ops@example.com") }),
        }),
        Some(IngressTlsResolvedSpec {
            secret: None,
            letsencrypt: Some(LetsEncryptResolvedSpec {
                server: s("https://acme-v02.api.letsencrypt.org/directory"),
                email: s("ops@example.com"),
            }),
        })
    );
    assert_eq!(
        with_tls(IngressTlsSpec {
            secret: None,
            letsencrypt: Some(LetsEncryptSpec {
                server: Some(s("https://acme.test/dir")),
                email: s("ops@example.com"),
            }),
        }),
        Some(IngressTlsResolvedSpec {
            secret: None,
            letsencrypt: Some(LetsEncryptResolvedSpec {
                server: s("https://acme.test/dir"),
                email: s("ops@example.com"),
            }),
        })
    );
    // A named secret goes before an ACME account.
    assert_eq!(
        with_tls(IngressTlsSpec {
            secret: Some(s("cert")),
            letsencrypt: Some(LetsEncryptSpec { server: None, email: s("ops@example.com") }),
        }),
        Some(IngressTlsResolvedSpec { secret: Some(s("cert")), letsencrypt: None })
    );
    assert_eq!(
        with_tls(IngressTlsSpec { secret: None, letsencrypt: None }),
        Some(IngressTlsResolvedSpec { secret: None, letsencrypt: None })
    );
}

#[test]
fn undockerized_values_replace_or_extend() {
    let mut api = service("api", ServiceType::Internal, "web/api");
    api.environment = vec![ServiceEnvOption::All];
    let mut app = app(vec![api]);
    app.environment.external = vec![
        ExternalEnvVariable { name: s("DB"), default: None },
        ExternalEnvVariable { name: s("CACHE"), default: Some(s("none")) },
    ];
    app.environment.internal = vec![InternalEnvVariable { name: s("URL"), value: s("${DB}/${CACHE}") }];
    let mut dep = deployment(None);
    dep.environment = vec![var("DB", "db.internal")];
    dep.undockerized_environment = vec![var("CACHE", "localhost:6379"), var("DB", "localhost")];
    let env = environment(DeploymentEnvType::Local, vec![dep]);
    let model = resolve(&env, &app, "prod", &nothing()).unwrap();
    let resolved = &model.current_deployment.services[0];
    assert_eq!(
        resolved.environment_variables,
        vec![var("DB", "db.internal"), var("CACHE", "none"), var("URL", "db.internal/none")]
    );
    assert_eq!(
        resolved.undockerized_environment_variables,
        vec![
            var("DB", "localhost"),
            var("CACHE", "localhost:6379"),
            var("URL", "localhost/localhost:6379"),
        ]
    );
}

#[test]
fn variable_errors_carry_their_cause() {
    let mut api = service("api", ServiceType::Internal, "web/api");
    api.environment = vec![ServiceEnvOption::WithValue(s("X"), s("${"))];
    let env = environment(DeploymentEnvType::K8S, vec![deployment(None)]);
    let err = resolve(&env, &app(vec![api]), "prod", &nothing()).unwrap_err();
    assert_eq!(
        err,
        ResolveError::ServiceVariable {
            service: s("api"),
            name: s("X"),
            cause: InterpolationError::Malformed { template: s("${") },
        }
    );
    assert_eq!(err.kind(), ErrorKind::MalformedInput);
}

#[test]
fn the_first_deployment_of_a_name_is_resolved() {
    let mut first = deployment(None);
    first.application.name = s("first");
    let mut second = deployment(None);
    second.application.name = s("second");
    let mut other = deployment(None);
    other.name = s("other");
    let env = environment(DeploymentEnvType::K8S, vec![other, first, second]);
    let model = resolve(&env, &app(vec![]), "prod", &nothing()).unwrap();
    assert_eq!(model.current_deployment.application_name, "first");
}

#[test]
fn checks_fail_in_order() {
    // The host is looked up before the image, the image before the prefixes.
    let mut one = service("one", ServiceType::Public, "nowhere/one");
    one.secrets = vec![ServiceSecret { name: s("x"), mount: SecretMount::FilePath(s("/x")) }];
    let app = app(vec![service("zero", ServiceType::Public, "web/zero"), one]);
    let mut bad_host = overridden("one", &[("/", false)], &[]);
    bad_host.spec.host = Some(s("nowhere"));
    let env = environment(
        DeploymentEnvType::K8S,
        vec![deployment(Some(vec![overridden("zero", &[("/", false)], &[]), bad_host]))],
    );
    assert_eq!(
        resolve(&env, &app, "prod", &nothing()),
        Err(ResolveError::HostNotFound { service: s("one"), host: s("nowhere") })
    );
    let env = environment(
        DeploymentEnvType::K8S,
        vec![deployment(Some(vec![
            overridden("zero", &[("/", false)], &[]),
            overridden("one", &[("/", false)], &[]),
        ]))],
    );
    assert_eq!(
        resolve(&env, &app, "prod", &nothing()),
        Err(ResolveError::RegistryNotFound { service: s("one"), namespace: s("nowhere") })
    );
    let mut env = env;
    env.registry.push(RegistryMapping { namespace: s("nowhere"), host: s("r.io") });
    assert_eq!(
        resolve(&env, &app, "prod", &nothing()),
        Err(ResolveError::DuplicateHostPrefix {
            service: s("one"),
            other_service: s("zero"),
            host: s("main"),
            prefix: s("/"),
        })
    );
}

#[test]
fn resolution_is_repeatable() {
    let mut api = service("api", ServiceType::Public, "web/api");
    api.environment = vec![ServiceEnvOption::All];
    let mut app = app(vec![api]);
    app.environment.internal = vec![InternalEnvVariable { name: s("A"), value: s("1") }];
    let env = environment(
        DeploymentEnvType::K8S,
        vec![deployment(Some(vec![overridden("api", &[("/", true)], &[(80, 8080)])]))],
    );
    let first = resolve(&env, &app, "prod", &nothing());
    let second = resolve(&env, &app, "prod", &nothing());
    assert!(first.is_ok());
    assert_eq!(first, second);
    let first = resolve(&env, &app, "nope", &nothing());
    let second = resolve(&env, &app, "nope", &nothing());
    assert!(first.is_err());
    assert_eq!(first, second);
}
