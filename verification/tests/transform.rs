use simpled::error::{EnvFileError, EnvParseError, ErrorKind, TransformError};
use simpled::sources::{
    ConfigDirContent, ConfigDirSnapshot, DescriptorFiles, EnvFileSnapshot, ExtraSpecContent,
    ExtraSpecSnapshot,
};
use simpled::spec::{
    AppEnvironment, AppSecretOption, ConfigSpec, DeploymentEnvType, DeploymentSecretSource,
    DeploymentSecretSpec, DockerIngressType, DockerSpecificSpec, EnvVariable,
    ExternalEnvVariable, HostSpec, ImageVariant, IngressTlsSpec, InternalEnvVariable,
    LetsEncryptSpec, OptionalEnvVariable, Prefix, RegistryMapping, RelativeEnvVariable,
    ResourceLimits, ResourcesSpec, SecretMount, ServiceConfigOption, ServiceEnvOption,
    ServicePort, ServiceSecret, ServiceType,
};
use simpled::spec_yaml::{
    AppEnvironmentYaml, AppSecretsYaml, AppSpecYaml, DefaultsSpecYaml, DeploymentAppSpecYaml,
    DeploymentEnvTypeYaml, DeploymentEnvVariablesYaml, DeploymentEnvironmentSpecYaml,
    DeploymentSecretSpecExYaml, DeploymentSecretSpecYaml, DeploymentServiceSpecYaml,
    DeploymentSpecYaml, ExtraAppSpecYaml, HostSpecYaml, ImageVariantYaml, IngressSpecYaml,
    IngressTlsSpecYaml, LetsEncryptSpecYaml, PrefixOptionsYaml, ResourceLimitsYaml,
    ResourcesSpecYaml, SecretConfigYaml, ServiceSecretYaml, ServiceSpecYaml, ServiceTypeYaml,
};
use simpled::transform::{
    convert_app_spec, convert_defaults, convert_deployment_service, convert_env_spec,
    convert_env_variables, convert_environment, convert_ingress, convert_limits,
    convert_secrets, convert_service, convert_service_secrets, convert_services,
};

fn s(text: &str) -> String {
    text.to_string()
}

fn texts(list: &[&str]) -> Option<Vec<String>> {
    Some(list.iter().map(|t| s(t)).collect())
}

fn default_limits() -> ResourceLimits {
    ResourceLimits { memory: s("128Mi"), cpu: s("100m") }
}

fn default_sizing() -> ResourcesSpec {
    ResourcesSpec { replicas: 1, requests: default_limits(), limits: default_limits() }
}

fn no_files() -> DescriptorFiles {
    DescriptorFiles { env_files: vec![], config_dirs: vec![] }
}

fn service_yaml() -> ServiceSpecYaml {
    ServiceSpecYaml {
        service_type: None,
        image: Some(s("web/api")),
        variants: None,
        export: None,
        environment: None,
        configs: None,
        secrets: None,
    }
}

fn override_yaml() -> DeploymentServiceSpecYaml {
    DeploymentServiceSpecYaml {
        variant: None,
        host: None,
        prefix: None,
        strip_prefix: None,
        prefixes: None,
        replicas: None,
        resources: None,
        ports: None,
    }
}

fn deployment_yaml() -> DeploymentSpecYaml {
    DeploymentSpecYaml {
        application: DeploymentAppSpecYaml { name: s("web"), version: None, extra: None },
        primary_host: s("main"),
        environment: None,
        undockerized_environment: None,
        configs: None,
        secrets: None,
        defaults: None,
        services: None,
    }
}

fn env_yaml(env_type: DeploymentEnvTypeYaml, deployments: Vec<(String, DeploymentSpecYaml)>) -> DeploymentEnvironmentSpecYaml {
    DeploymentEnvironmentSpecYaml {
        env_type,
        swarm_mode: None,
        ingress: IngressSpecYaml {
            name: s("gate"),
            hosts: vec![(s("main"), HostSpecYaml::Single(s("example.com")))],
            tls: Some(IngressTlsSpecYaml { disable: Some(true), secret: None, letsencrypt: None }),
            ingress_type: None,
        },
        registry: None,
        deployments,
    }
}

fn app_yaml() -> AppSpecYaml {
    AppSpecYaml {
        name: s("web"),
        version: s("1.2.3"),
        environment: None,
        app_services: None,
        extra_services: None,
        configs: None,
        secrets: None,
    }
}

#[test]
fn limits_fall_back_to_defaults() {
    assert_eq!(convert_limits(None), default_limits());
    let none = ResourceLimitsYaml { memory: None, cpu: None };
    assert_eq!(convert_limits(Some(&none)), default_limits());
    let some = ResourceLimitsYaml { memory: Some(s("1Gi")), cpu: None };
    assert_eq!(convert_limits(Some(&some)), ResourceLimits { memory: s("1Gi"), cpu: s("100m") });
    let both = ResourceLimitsYaml { memory: Some(s("1Gi")), cpu: Some(s("2")) };
    assert_eq!(convert_limits(Some(&both)), ResourceLimits { memory: s("1Gi"), cpu: s("2") });
}

#[test]
fn defaults_fall_back_to_one_replica() {
    let yaml = DefaultsSpecYaml { replicas: None, resources: None };
    assert_eq!(convert_defaults(&yaml), Ok(default_sizing()));
    let yaml = DefaultsSpecYaml {
        replicas: Some(3),
        resources: Some(ResourcesSpecYaml {
            requests: Some(ResourceLimitsYaml { memory: None, cpu: Some(s("1")) }),
            limits: None,
        }),
    };
    assert_eq!(
        convert_defaults(&yaml),
        Ok(ResourcesSpec {
            replicas: 3,
            requests: ResourceLimits { memory: s("128Mi"), cpu: s("1") },
            limits: default_limits(),
        })
    );
}

#[test]
fn deployment_service_reads_prefixes_resources_and_ports() {
    let defaults = ResourcesSpec {
        replicas: 2,
        requests: ResourceLimits { memory: s("1Gi"), cpu: s("1") },
        limits: ResourceLimits { memory: s("2Gi"), cpu: s("2") },
    };
    let yaml = DeploymentServiceSpecYaml {
        variant: Some(s("slim")),
        host: Some(s("second")),
        prefix: Some(s("/single")),
        strip_prefix: None,
        prefixes: Some(vec![
            (s("/a"), PrefixOptionsYaml { strip: None }),
            (s("/b"), PrefixOptionsYaml { strip: Some(true) }),
        ]),
        replicas: None,
        resources: None,
        ports: texts(&["80:8080", "+443:0443", "0:65535"]),
    };
    let spec = convert_deployment_service(&yaml, &defaults).unwrap();
    assert_eq!(spec.variant, Some(s("slim")));
    assert_eq!(spec.host, Some(s("second")));
    assert_eq!(
        spec.prefixes,
        vec![
            Prefix { prefix: s("/a"), strip: false },
            Prefix { prefix: s("/b"), strip: true },
            Prefix { prefix: s("/single"), strip: true },
        ]
    );
    assert_eq!(spec.resources, defaults);
    assert_eq!(
        spec.ports,
        vec![
            ServicePort { external: 80, internal: 8080 },
            ServicePort { external: 443, internal: 443 },
            ServicePort { external: 0, internal: 65535 },
        ]
    );

    let yaml = DeploymentServiceSpecYaml {
        prefix: Some(s("/kept")),
        strip_prefix: Some(false),
        replicas: Some(5),
        resources: Some(ResourcesSpecYaml { requests: None, limits: None }),
        ..override_yaml()
    };
    let spec = convert_deployment_service(&yaml, &defaults).unwrap();
    assert_eq!(spec.prefixes, vec![Prefix { prefix: s("/kept"), strip: false }]);
    assert_eq!(
        spec.resources,
        ResourcesSpec { replicas: 5, requests: default_limits(), limits: default_limits() }
    );
    assert_eq!(spec.ports, vec![]);
}

#[test]
fn ports_must_be_two_numbers() {
    let with_ports = |ports: &[&str]| {
        let yaml = DeploymentServiceSpecYaml { ports: texts(ports), ..override_yaml() };
        convert_deployment_service(&yaml, &default_sizing())
    };
    let err = with_ports(&["80:80", "8080"]).unwrap_err();
    assert_eq!(err, TransformError::InvalidPort { text: s("8080") });
    assert_eq!(err.kind(), ErrorKind::MalformedInput);
    assert_eq!(
        with_ports(&["x:80"]),
        Err(TransformError::InvalidExternalPort { port: s("x"), text: s("x:80") })
    );
    assert_eq!(
        with_ports(&["80:"]),
        Err(TransformError::InvalidInternalPort { port: s(""), text: s("80:") })
    );
    assert_eq!(
        with_ports(&["65536:1"]),
        Err(TransformError::InvalidExternalPort { port: s("65536"), text: s("65536:1") })
    );
    assert_eq!(
        with_ports(&["1:99999999999999999999"]),
        Err(TransformError::InvalidInternalPort {
            port: s("99999999999999999999"),
            text: s("1:99999999999999999999"),
        })
    );
    for bad in ["-1:1", " 1:1", "1 :1", "+:1", "1.0:1", "٣:1"] {
        assert!(
            matches!(with_ports(&[bad]), Err(TransformError::InvalidExternalPort { .. })),
            "{:?}",
            bad
        );
    }
    // The first colon separates; what follows it must be a number.
    assert_eq!(
        with_ports(&["1:2:3"]),
        Err(TransformError::InvalidInternalPort { port: s("2:3"), text: s("1:2:3") })
    );
    assert_eq!(with_ports(&["00080:0000"]).unwrap().ports, vec![ServicePort { external: 80, internal: 0 }]);
    assert_eq!(with_ports(&["65535:65535"]).unwrap().ports, vec![ServicePort { external: 65535, internal: 65535 }]);
}

#[test]
fn ingress_reads_hosts_and_tls() {
    let yaml = IngressSpecYaml {
        name: s("gate"),
        hosts: vec![
            (s("main"), HostSpecYaml::Single(s("example.com"))),
            (s("more"), HostSpecYaml::Multiple(vec![s("a.com"), s("b.com")])),
            (s("none"), HostSpecYaml::Multiple(vec![])),
        ],
        tls: Some(IngressTlsSpecYaml {
            disable: None,
            secret: Some(s("cert")),
            letsencrypt: Some(LetsEncryptSpecYaml { server: None, email: s("ops@example.com") }),
        }),
        ingress_type: Some(s("nginx")),
    };
    let ingress = convert_ingress(&yaml, &DeploymentEnvTypeYaml::K8S).unwrap();
    assert_eq!(ingress.name, "gate");
    assert_eq!(
        ingress.hosts,
        vec![
            HostSpec { name: s("main"), domain_names: vec![s("example.com")] },
            HostSpec { name: s("more"), domain_names: vec![s("a.com"), s("b.com")] },
            HostSpec { name: s("none"), domain_names: vec![] },
        ]
    );
    assert_eq!(
        ingress.tls,
        Some(IngressTlsSpec {
            secret: Some(s("cert")),
            letsencrypt: Some(LetsEncryptSpec { server: None, email: s("ops@example.com") }),
        })
    );
}

#[test]
fn tls_is_required_unless_local_or_disabled() {
    let with_tls = |tls, env_type| {
        let yaml = IngressSpecYaml { name: s("gate"), hosts: vec![], tls, ingress_type: None };
        convert_ingress(&yaml, &env_type).map(|i| i.tls)
    };
    let err = with_tls(None, DeploymentEnvTypeYaml::K8S).unwrap_err();
    assert_eq!(err, TransformError::TlsRequired);
    assert_eq!(err.kind(), ErrorKind::ConstraintViolation);
    assert_eq!(with_tls(None, DeploymentEnvTypeYaml::Docker), Err(TransformError::TlsRequired));
    assert_eq!(with_tls(None, DeploymentEnvTypeYaml::Local), Ok(None));
    let block = |disable| {
        Some(IngressTlsSpecYaml { disable, secret: Some(s("cert")), letsencrypt: None })
    };
    assert_eq!(with_tls(block(Some(true)), DeploymentEnvTypeYaml::K8S), Ok(None));
    let kept = Some(IngressTlsSpec { secret: Some(s("cert")), letsencrypt: None });
    assert_eq!(with_tls(block(Some(false)), DeploymentEnvTypeYaml::K8S), Ok(kept.clone()));
    assert_eq!(with_tls(block(None), DeploymentEnvTypeYaml::Local), Ok(kept));
}

#[test]
fn deployment_variables_come_from_a_list_or_a_file() {
    let files = vec![
        EnvFileSnapshot { path: s("gone.env"), lines: None },
        EnvFileSnapshot { path: s("prod.env"), lines: texts(&["# production", "A=1", "", "B='2'"]) },
        EnvFileSnapshot { path: s("bad.env"), lines: texts(&["A=1", "B"]) },
    ];
    assert_eq!(convert_env_variables(&None, &files), Ok(vec![]));
    let list = Some(DeploymentEnvVariablesYaml::FromList(vec![s("A=1"), s(" B = two ")]));
    assert_eq!(
        convert_env_variables(&list, &files),
        Ok(vec![
            EnvVariable { name: s("A"), value: s("1") },
            EnvVariable { name: s("B"), value: s("two") },
        ])
    );
    let list = Some(DeploymentEnvVariablesYaml::FromList(vec![s("A=1"), s("B")]));
    let err = convert_env_variables(&list, &files).unwrap_err();
    assert_eq!(
        err,
        TransformError::DeploymentVariable {
            text: s("B"),
            cause: EnvParseError::MissingValue { input: s("B") },
        }
    );
    assert_eq!(err.kind(), ErrorKind::MalformedInput);

    let file = |path: &str| Some(DeploymentEnvVariablesYaml::FromEnvFile(s(path)));
    assert_eq!(
        convert_env_variables(&file("prod.env"), &files),
        Ok(vec![
            EnvVariable { name: s("A"), value: s("1") },
            EnvVariable { name: s("B"), value: s("2") },
        ])
    );
    let err = convert_env_variables(&file("gone.env"), &files).unwrap_err();
    assert_eq!(err, TransformError::EnvFileUnreadable { path: s("gone.env") });
    assert_eq!(err.kind(), ErrorKind::IoFailure);
    assert_eq!(
        convert_env_variables(&file("other.env"), &files),
        Err(TransformError::EnvFileUnreadable { path: s("other.env") })
    );
    let err = convert_env_variables(&file("bad.env"), &files).unwrap_err();
    assert_eq!(
        err,
        TransformError::EnvFile {
            path: s("bad.env"),
            failure: EnvFileError {
                line: 2,
                text: s("B"),
                cause: EnvParseError::MissingValue { input: s("B") },
            },
        }
    );
    assert_eq!(err.kind(), ErrorKind::MalformedInput);
}

#[test]
fn environment_reads_the_four_tiers() {
    let yaml = AppEnvironmentYaml {
        external: texts(&["A", "B=b", "C = \"c=c\""]),
        optional: texts(&["O"]),
        relative: texts(&["R=/api"]),
        internal: texts(&["I=${A}", "J="]),
    };
    assert_eq!(
        convert_environment(&yaml),
        Ok(AppEnvironment {
            external: vec![
                ExternalEnvVariable { name: s("A"), default: None },
                ExternalEnvVariable { name: s("B"), default: Some(s("b")) },
                ExternalEnvVariable { name: s("C"), default: Some(s("c=c")) },
            ],
            optional: vec![OptionalEnvVariable { name: s("O") }],
            relative: vec![RelativeEnvVariable { name: s("R"), relative_value: s("/api") }],
            internal: vec![
                InternalEnvVariable { name: s("I"), value: s("${A}") },
                InternalEnvVariable { name: s("J"), value: s("") },
            ],
        })
    );
    let empty = AppEnvironmentYaml { external: None, optional: None, relative: None, internal: None };
    assert_eq!(
        convert_environment(&empty),
        Ok(AppEnvironment { external: vec![], optional: vec![], relative: vec![], internal: vec![] })
    );
}

#[test]
fn environment_refuses_what_a_tier_does_not_allow() {
    let none = || AppEnvironmentYaml { external: None, optional: None, relative: None, internal: None };
    let err = convert_environment(&AppEnvironmentYaml { external: texts(&["A=b=c"]), ..none() }).unwrap_err();
    assert_eq!(
        err,
        TransformError::ExternalVariable { text: s("A=b=c"), cause: EnvParseError::UnquotedEquals }
    );
    assert_eq!(err.kind(), ErrorKind::MalformedInput);

    let err = convert_environment(&AppEnvironmentYaml { optional: texts(&["O=1"]), ..none() }).unwrap_err();
    assert_eq!(err, TransformError::OptionalWithDefault { name: s("O") });
    assert_eq!(err.kind(), ErrorKind::ConstraintViolation);
    assert_eq!(
        convert_environment(&AppEnvironmentYaml { optional: texts(&[""]), ..none() }),
        Err(TransformError::OptionalVariable { text: s(""), cause: EnvParseError::Empty })
    );

    assert_eq!(
        convert_environment(&AppEnvironmentYaml { relative: texts(&["R"]), ..none() }),
        Err(TransformError::RelativeWithoutValue { text: s("R") })
    );
    let err = convert_environment(&AppEnvironmentYaml { relative: texts(&["R=api"]), ..none() }).unwrap_err();
    assert_eq!(err, TransformError::RelativeNotAPath { name: s("R") });
    assert_eq!(err.kind(), ErrorKind::ConstraintViolation);
    assert_eq!(
        convert_environment(&AppEnvironmentYaml { relative: texts(&["R="]), ..none() }),
        Err(TransformError::RelativeNotAPath { name: s("R") })
    );
    assert_eq!(
        convert_environment(&AppEnvironmentYaml { relative: texts(&["=/x"]), ..none() }),
        Err(TransformError::RelativeVariable { text: s("=/x"), cause: EnvParseError::EmptyName })
    );

    let err = convert_environment(&AppEnvironmentYaml { internal: texts(&["I"]), ..none() }).unwrap_err();
    assert_eq!(err, TransformError::InternalWithoutValue { name: s("I") });
    assert_eq!(err.kind(), ErrorKind::MalformedInput);
    assert_eq!(
        convert_environment(&AppEnvironmentYaml { internal: texts(&["I='"]), ..none() }),
        Err(TransformError::InternalVariable { text: s("I='"), cause: EnvParseError::InvalidQuotedValue })
    );

    // A quote that opens a value and is not closed is refused in every tier.
    assert_eq!(
        convert_environment(&AppEnvironmentYaml { external: texts(&["A=\"open"]), ..none() }),
        Err(TransformError::ExternalVariable {
            text: s("A=\"open"),
            cause: EnvParseError::InvalidQuotedValue,
        })
    );
    assert_eq!(
        convert_environment(&AppEnvironmentYaml { relative: texts(&["R='/api"]), ..none() }),
        Err(TransformError::RelativeVariable {
            text: s("R='/api"),
            cause: EnvParseError::InvalidQuotedValue,
        })
    );
    let list = Some(DeploymentEnvVariablesYaml::FromList(vec![s("A=\"open")]));
    assert_eq!(
        convert_env_variables(&list, &vec![]),
        Err(TransformError::DeploymentVariable {
            text: s("A=\"open"),
            cause: EnvParseError::InvalidQuotedValue,
        })
    );

    // The tiers are read in their order.
    let yaml = AppEnvironmentYaml {
        external: texts(&["ok"]),
        optional: texts(&["O=1"]),
        relative: texts(&["R"]),
        internal: texts(&["I"]),
    };
    assert_eq!(convert_environment(&yaml), Err(TransformError::OptionalWithDefault { name: s("O") }));
}

#[test]
fn expected_secrets_are_names() {
    let names = vec![s("a"), s("b")];
    let expected = vec![AppSecretOption { secret_name: s("a") }, AppSecretOption { secret_name: s("b") }];
    assert_eq!(convert_secrets(&AppSecretsYaml::Simple(names.clone())), Ok(expected.clone()));
    assert_eq!(convert_secrets(&AppSecretsYaml::Detailed(names)), Ok(expected));
    assert_eq!(convert_secrets(&AppSecretsYaml::Simple(vec![])), Ok(vec![]));
}

#[test]
fn service_secrets_are_mounted_as_written() {
    let yaml = vec![
        ServiceSecretYaml::Simple(s("token")),
        ServiceSecretYaml::Detailed(vec![
            (s("key"), Some(SecretConfigYaml { path: Some(s("/run/key")), variable: None })),
            (s("pw"), Some(SecretConfigYaml { path: None, variable: Some(s("PW")) })),
            (s("both"), Some(SecretConfigYaml { path: Some(s("/p")), variable: Some(s("V")) })),
        ]),
        ServiceSecretYaml::Detailed(vec![]),
        ServiceSecretYaml::Simple(s("last")),
    ];
    assert_eq!(
        convert_service_secrets(&yaml),
        Ok(vec![
            ServiceSecret { name: s("token"), mount: SecretMount::FilePath(s("/secrets/token")) },
            ServiceSecret { name: s("key"), mount: SecretMount::FilePath(s("/run/key")) },
            ServiceSecret { name: s("pw"), mount: SecretMount::EnvVariable(s("PW")) },
            ServiceSecret { name: s("both"), mount: SecretMount::FilePath(s("/p")) },
            ServiceSecret { name: s("last"), mount: SecretMount::FilePath(s("/secrets/last")) },
        ])
    );
    let err = convert_service_secrets(&vec![ServiceSecretYaml::Detailed(vec![(
        s("x"),
        Some(SecretConfigYaml { path: None, variable: None }),
    )])])
    .unwrap_err();
    assert_eq!(err, TransformError::SecretWithoutMount { secret: s("x") });
    assert_eq!(err.kind(), ErrorKind::ConstraintViolation);
    let err = convert_service_secrets(&vec![ServiceSecretYaml::Detailed(vec![(s("x"), None)])]).unwrap_err();
    assert_eq!(err, TransformError::SecretWithoutConfiguration { secret: s("x") });
    assert_eq!(err.kind(), ErrorKind::ConstraintViolation);
}

#[test]
fn service_reads_variants_selectors_and_mounts() {
    let yaml = ServiceSpecYaml {
        service_type: Some(ServiceTypeYaml::Public),
        image: Some(s("web/api")),
        variants: Some(vec![
            (s("slim"), ImageVariantYaml { image: s("web/api-slim") }),
            (s("default"), ImageVariantYaml { image: s("web/api-other") }),
        ]),
        export: None,
        environment: texts(&["$all", "NAME", " KEY = ${A} = b ", "$all ", "=x", "A="]),
        configs: Some(vec![
            vec![(s("nginx"), s("/etc/nginx")), (s("app"), s("/etc/app"))],
            vec![],
            vec![(s("more"), s("/more"))],
        ]),
        secrets: Some(vec![ServiceSecretYaml::Simple(s("token"))]),
    };
    let service = convert_service(s("api"), &yaml, true).unwrap();
    assert_eq!(service.name, "api");
    assert_eq!(service.service_type, ServiceType::Public);
    assert!(service.is_app_service);
    assert_eq!(
        service.image_variants,
        vec![
            ImageVariant { variant_name: s("default"), image: s("web/api") },
            ImageVariant { variant_name: s("slim"), image: s("web/api-slim") },
            ImageVariant { variant_name: s("default"), image: s("web/api-other") },
        ]
    );
    assert_eq!(
        service.environment,
        vec![
            ServiceEnvOption::All,
            ServiceEnvOption::Simple(s("NAME")),
            ServiceEnvOption::WithValue(s("KEY"), s("${A} = b")),
            ServiceEnvOption::Simple(s("$all ")),
            ServiceEnvOption::WithValue(s(""), s("x")),
            ServiceEnvOption::WithValue(s("A"), s("")),
        ]
    );
    assert_eq!(
        service.configs,
        vec![
            ServiceConfigOption { config_name: s("nginx"), mount_path: s("/etc/nginx") },
            ServiceConfigOption { config_name: s("app"), mount_path: s("/etc/app") },
            ServiceConfigOption { config_name: s("more"), mount_path: s("/more") },
        ]
    );
    assert_eq!(
        service.secrets,
        vec![ServiceSecret { name: s("token"), mount: SecretMount::FilePath(s("/secrets/token")) }]
    );
    assert_eq!(service.ports, vec![]);

    let bare = ServiceSpecYaml { image: None, ..service_yaml() };
    let service = convert_service(s("db"), &bare, false).unwrap();
    assert_eq!(service.service_type, ServiceType::Internal);
    assert!(!service.is_app_service);
    assert_eq!(service.image_variants, vec![]);
    assert_eq!(service.environment, vec![]);
    let job = ServiceSpecYaml { service_type: Some(ServiceTypeYaml::Job), ..service_yaml() };
    assert_eq!(convert_service(s("j"), &job, true).unwrap().service_type, ServiceType::Job);
    let internal = ServiceSpecYaml { service_type: Some(ServiceTypeYaml::Internal), ..service_yaml() };
    assert_eq!(convert_service(s("i"), &internal, true).unwrap().service_type, ServiceType::Internal);
}

#[test]
fn services_keep_the_order_of_the_mapping() {
    let yaml = vec![(s("b"), service_yaml()), (s("a"), service_yaml())];
    let services = convert_services(&yaml, true).unwrap();
    assert_eq!(services.iter().map(|x| x.name.as_str()).collect::<Vec<_>>(), vec!["b", "a"]);
    let bad = ServiceSpecYaml {
        secrets: Some(vec![ServiceSecretYaml::Detailed(vec![(s("x"), None)])]),
        ..service_yaml()
    };
    let yaml = vec![(s("a"), service_yaml()), (s("b"), bad)];
    assert_eq!(
        convert_services(&yaml, false),
        Err(TransformError::SecretWithoutConfiguration { secret: s("x") })
    );
    assert_eq!(convert_services(&vec![], true), Ok(vec![]));
}

#[test]
fn local_environment_needs_exactly_one_deployment() {
    let two = env_yaml(
        DeploymentEnvTypeYaml::Local,
        vec![(s("one"), deployment_yaml()), (s("two"), deployment_yaml())],
    );
    let err = convert_env_spec(&two, &no_files()).unwrap_err();
    assert_eq!(err, TransformError::LocalDeploymentCount { count: 2 });
    assert_eq!(err.kind(), ErrorKind::ConstraintViolation);
    let none = env_yaml(DeploymentEnvTypeYaml::Local, vec![]);
    assert_eq!(
        convert_env_spec(&none, &no_files()),
        Err(TransformError::LocalDeploymentCount { count: 0 })
    );
    let one = env_yaml(DeploymentEnvTypeYaml::Local, vec![(s("one"), deployment_yaml())]);
    let env = convert_env_spec(&one, &no_files()).unwrap();
    assert_eq!(env.env_type, DeploymentEnvType::Local);
    assert_eq!(env.deployments.len(), 1);
    assert_eq!(env.deployments[0].name, "one");
    assert_eq!(env.deployments[0].primary_host, "main");
    assert_eq!(env.deployments[0].defaults, default_sizing());
    assert_eq!(env.deployments[0].services, None);
    // Elsewhere any number will do.
    let two = env_yaml(
        DeploymentEnvTypeYaml::K8S,
        vec![(s("one"), deployment_yaml()), (s("two"), deployment_yaml())],
    );
    assert_eq!(convert_env_spec(&two, &no_files()).unwrap().deployments.len(), 2);
}

#[test]
fn local_service_needs_a_port() {
    let with_services = |services: Vec<(&str, &[&str])>| {
        let mut dep = deployment_yaml();
        dep.services = Some(
            services
                .into_iter()
                .map(|(name, ports)| {
                    (s(name), DeploymentServiceSpecYaml { ports: texts(ports), ..override_yaml() })
                })
                .collect(),
        );
        convert_env_spec(&env_yaml(DeploymentEnvTypeYaml::Local, vec![(s("dev"), dep)]), &no_files())
    };
    let err = with_services(vec![("api", &["8080:80"]), ("db", &[])]).unwrap_err();
    assert_eq!(err, TransformError::LocalServiceWithoutPorts { service: s("db") });
    assert_eq!(err.kind(), ErrorKind::ConstraintViolation);

    let err = with_services(vec![("api", &["8080:80", "8081:80"]), ("db", &["5432:5432", "8080:1"])]).unwrap_err();
    assert_eq!(err, TransformError::DuplicateExternalPort { external: 8080 });
    assert_eq!(err.kind(), ErrorKind::ConstraintViolation);
    assert_eq!(
        with_services(vec![("api", &["1:1", "1:2"])]),
        Err(TransformError::DuplicateExternalPort { external: 1 })
    );
    assert!(with_services(vec![("api", &["8080:80"]), ("db", &["5432:80"])]).is_ok());

    // Elsewhere a service may do without ports.
    let mut dep = deployment_yaml();
    dep.services = Some(vec![(s("api"), override_yaml())]);
    assert!(convert_env_spec(&env_yaml(DeploymentEnvTypeYaml::K8S, vec![(s("p"), dep)]), &no_files()).is_ok());
}

#[test]
fn each_kind_of_environment_has_its_rules() {
    let convert = |change: &dyn Fn(&mut DeploymentEnvironmentSpecYaml), env_type| {
        let mut yaml = env_yaml(env_type, vec![(s("one"), deployment_yaml())]);
        change(&mut yaml);
        convert_env_spec(&yaml, &no_files()).map(|e| e.env_type)
    };
    for env_type in [DeploymentEnvTypeYaml::K8S, DeploymentEnvTypeYaml::Local] {
        let err = convert(&|y| y.swarm_mode = Some(false), env_type).unwrap_err();
        assert_eq!(err, TransformError::SwarmModeNotAllowed);
        assert_eq!(err.kind(), ErrorKind::ConstraintViolation);
        let err = convert(&|y| y.ingress.ingress_type = Some(s("nginx")), env_type).unwrap_err();
        assert_eq!(err, TransformError::IngressTypeNotAllowed);
        assert_eq!(err.kind(), ErrorKind::ConstraintViolation);
    }
    assert_eq!(convert(&|_| {}, DeploymentEnvTypeYaml::K8S), Ok(DeploymentEnvType::K8S));
    let err = convert(&|y| y.registry = Some(vec![(s("a"), s("b"))]), DeploymentEnvTypeYaml::Local).unwrap_err();
    assert_eq!(err, TransformError::RegistryNotAllowed);
    assert_eq!(err.kind(), ErrorKind::ConstraintViolation);
    assert_eq!(
        convert(&|y| y.registry = Some(vec![]), DeploymentEnvTypeYaml::Local),
        Ok(DeploymentEnvType::Local)
    );

    let docker = |ingress_type, swarm_mode| {
        DeploymentEnvType::Docker(DockerSpecificSpec { ingress_type, swarm_mode })
    };
    assert_eq!(
        convert(&|_| {}, DeploymentEnvTypeYaml::Docker),
        Ok(docker(DockerIngressType::Traefik, false))
    );
    assert_eq!(
        convert(
            &|y| {
                y.swarm_mode = Some(true);
                y.ingress.ingress_type = Some(s("nginx"));
            },
            DeploymentEnvTypeYaml::Docker
        ),
        Ok(docker(DockerIngressType::Nginx, true))
    );
    assert_eq!(
        convert(&|y| y.ingress.ingress_type = Some(s("traefik")), DeploymentEnvTypeYaml::Docker),
        Ok(docker(DockerIngressType::Traefik, false))
    );
    let err = convert(&|y| y.ingress.ingress_type = Some(s("Nginx")), DeploymentEnvTypeYaml::Docker).unwrap_err();
    assert_eq!(err, TransformError::UnknownIngressType { ingress_type: s("Nginx") });
    assert_eq!(err.kind(), ErrorKind::MalformedInput);
}

#[test]
fn environment_descriptor_is_read_whole() {
    let mut dep = deployment_yaml();
    dep.application.version = Some(s(">=1, <2"));
    dep.application.extra = texts(&["extra.yaml"]);
    dep.environment = Some(DeploymentEnvVariablesYaml::FromList(vec![s("A=1")]));
    dep.undockerized_environment = Some(DeploymentEnvVariablesYaml::FromEnvFile(s("local.env")));
    dep.configs = Some(vec![(s("nginx"), s("conf/nginx"))]);
    dep.secrets = Some(vec![
        (s("pin"), DeploymentSecretSpecExYaml::Local(s("1234"))),
        (
            s("token"),
            DeploymentSecretSpecExYaml::Detailed(DeploymentSecretSpecYaml { env: Some(s("TOKEN")), file: None }),
        ),
        (
            s("key"),
            DeploymentSecretSpecExYaml::Detailed(DeploymentSecretSpecYaml { env: None, file: Some(s("key.pem")) }),
        ),
    ]);
    dep.defaults = Some(DefaultsSpecYaml { replicas: Some(2), resources: None });
    dep.services = Some(vec![(s("api"), DeploymentServiceSpecYaml { ports: texts(&["80:8080"]), ..override_yaml() })]);
    let mut yaml = env_yaml(DeploymentEnvTypeYaml::K8S, vec![(s("prod"), dep)]);
    yaml.registry = Some(vec![(s("web"), s("registry.io")), (s("lib"), s("docker.io"))]);
    let files = DescriptorFiles {
        env_files: vec![EnvFileSnapshot { path: s("local.env"), lines: texts(&["A=local"]) }],
        config_dirs: vec![ConfigDirSnapshot {
            path: s("conf/nginx"),
            content: ConfigDirContent::Files(vec![s("/abs/conf/nginx/a.conf"), s("/abs/conf/nginx/b.conf")]),
        }],
    };
    let env = convert_env_spec(&yaml, &files).unwrap();
    assert_eq!(env.env_type, DeploymentEnvType::K8S);
    assert_eq!(env.ingress.tls, None);
    assert_eq!(
        env.registry,
        vec![
            RegistryMapping { namespace: s("web"), host: s("registry.io") },
            RegistryMapping { namespace: s("lib"), host: s("docker.io") },
        ]
    );
    let dep = &env.deployments[0];
    assert_eq!(dep.name, "prod");
    assert_eq!(dep.application.name, "web");
    assert_eq!(dep.application.version.as_ref().unwrap().as_str(), ">=1, <2");
    assert_eq!(dep.application.extra, vec![s("extra.yaml")]);
    assert_eq!(dep.environment, vec![EnvVariable { name: s("A"), value: s("1") }]);
    assert_eq!(dep.undockerized_environment, vec![EnvVariable { name: s("A"), value: s("local") }]);
    assert_eq!(
        dep.configs,
        vec![ConfigSpec {
            name: s("nginx"),
            files: vec![s("/abs/conf/nginx/a.conf"), s("/abs/conf/nginx/b.conf")],
        }]
    );
    assert_eq!(
        dep.secrets,
        vec![
            DeploymentSecretSpec { secret_name: s("pin"), source: DeploymentSecretSource::Embedded(s("1234")) },
            DeploymentSecretSpec { secret_name: s("token"), source: DeploymentSecretSource::EnvVariable(s("TOKEN")) },
            DeploymentSecretSpec { secret_name: s("key"), source: DeploymentSecretSource::FilePath(s("key.pem")) },
        ]
    );
    assert_eq!(dep.defaults.replicas, 2);
    let services = dep.services.as_ref().unwrap();
    assert_eq!(services.len(), 1);
    assert_eq!(services[0].service_name, "api");
    assert_eq!(services[0].spec.resources.replicas, 2);
    assert_eq!(services[0].spec.ports, vec![ServicePort { external: 80, internal: 8080 }]);
}

#[test]
fn deployment_parts_are_refused_with_their_reason() {
    let convert = |change: &dyn Fn(&mut DeploymentSpecYaml), files: &DescriptorFiles| {
        let mut dep = deployment_yaml();
        change(&mut dep);
        convert_env_spec(&env_yaml(DeploymentEnvTypeYaml::K8S, vec![(s("prod"), dep)]), files).map(|_| ())
    };
    let err = convert(&|d| d.application.version = Some(s("not a range")), &no_files()).unwrap_err();
    assert_eq!(err, TransformError::InvalidVersionRange { text: s("not a range") });
    assert_eq!(err.kind(), ErrorKind::MalformedInput);

    let err = convert(&|d| d.configs = Some(vec![(s("c"), s("dir"))]), &no_files()).unwrap_err();
    assert_eq!(err, TransformError::ConfigNotADirectory { config: s("c"), path: s("dir") });
    assert_eq!(err.kind(), ErrorKind::IoFailure);
    let dirs = |content| DescriptorFiles {
        env_files: vec![],
        config_dirs: vec![ConfigDirSnapshot { path: s("dir"), content }],
    };
    assert_eq!(
        convert(&|d| d.configs = Some(vec![(s("c"), s("dir"))]), &dirs(ConfigDirContent::NotADirectory)),
        Err(TransformError::ConfigNotADirectory { config: s("c"), path: s("dir") })
    );
    let err = convert(&|d| d.configs = Some(vec![(s("c"), s("dir"))]), &dirs(ConfigDirContent::Unreadable)).unwrap_err();
    assert_eq!(err, TransformError::ConfigDirectoryUnreadable { config: s("c"), path: s("dir") });
    assert_eq!(err.kind(), ErrorKind::IoFailure);
    assert_eq!(
        convert(&|d| d.configs = Some(vec![(s("c"), s("dir"))]), &dirs(ConfigDirContent::Files(vec![]))),
        Ok(())
    );

    let secret = |env: Option<&str>, file: Option<&str>| {
        let detailed = DeploymentSecretSpecYaml { env: env.map(s), file: file.map(s) };
        move |d: &mut DeploymentSpecYaml| {
            d.secrets = Some(vec![(
                s("pw"),
                DeploymentSecretSpecExYaml::Detailed(DeploymentSecretSpecYaml {
                    env: detailed.env.clone(),
                    file: detailed.file.clone(),
                }),
            )])
        }
    };
    let err = convert(&secret(Some("A"), Some("b")), &no_files()).unwrap_err();
    assert_eq!(err, TransformError::SecretSourceConflict { secret: s("pw") });
    assert_eq!(err.kind(), ErrorKind::ConstraintViolation);
    let err = convert(&secret(None, None), &no_files()).unwrap_err();
    assert_eq!(err, TransformError::SecretWithoutSource { secret: s("pw") });
    assert_eq!(err.kind(), ErrorKind::ConstraintViolation);

    let err = convert(
        &|d| d.services = Some(vec![(s("api"), DeploymentServiceSpecYaml { ports: texts(&["80"]), ..override_yaml() })]),
        &no_files(),
    )
    .unwrap_err();
    assert_eq!(err, TransformError::InvalidPort { text: s("80") });
}

#[test]
fn application_descriptor_is_read_whole() {
    let yaml = AppSpecYaml {
        name: s("web"),
        version: s("2.0.0-rc.1"),
        environment: Some(AppEnvironmentYaml {
            external: texts(&["A=1"]),
            optional: None,
            relative: None,
            internal: None,
        }),
        app_services: Some(vec![(s("api"), service_yaml()), (s("site"), service_yaml())]),
        extra_services: Some(vec![(s("db"), ServiceSpecYaml { image: Some(s("postgres:16")), ..service_yaml() })]),
        configs: Some(vec![(s("nginx"), vec![s("a.conf"), s("b.conf")]), (s("none"), vec![])]),
        secrets: Some(AppSecretsYaml::Simple(vec![s("token")])),
    };
    let app = convert_app_spec(&yaml, None, &vec![]).unwrap();
    assert_eq!(app.name, "web");
    assert_eq!(app.version.as_str(), "2.0.0-rc.1");
    assert_eq!(app.environment.external, vec![ExternalEnvVariable { name: s("A"), default: Some(s("1")) }]);
    assert_eq!(app.app_services.len(), 2);
    assert!(app.app_services.iter().all(|x| x.is_app_service));
    assert_eq!(app.app_services[1].name, "site");
    assert_eq!(app.extra_services.len(), 1);
    assert!(!app.extra_services[0].is_app_service);
    assert_eq!(
        app.extra_services[0].image_variants,
        vec![ImageVariant { variant_name: s("default"), image: s("postgres:16") }]
    );
    assert_eq!(
        app.configs,
        vec![
            ConfigSpec { name: s("nginx"), files: vec![s("a.conf"), s("b.conf")] },
            ConfigSpec { name: s("none"), files: vec![] },
        ]
    );
    assert_eq!(app.secrets, vec![AppSecretOption { secret_name: s("token") }]);
    let names: Vec<&str> = app.all_services().iter().map(|x| x.name.as_str()).collect();
    assert_eq!(names, vec!["api", "site", "db"]);

    let bare = convert_app_spec(&app_yaml(), None, &vec![]).unwrap();
    assert_eq!(bare.app_services, vec![]);
    assert_eq!(bare.extra_services, vec![]);
    assert_eq!(bare.configs, vec![]);
    assert_eq!(bare.secrets, vec![]);
}

#[test]
fn application_version_must_be_a_semantic_version() {
    let yaml = AppSpecYaml { version: s("1.2"), ..app_yaml() };
    let err = convert_app_spec(&yaml, None, &vec![]).unwrap_err();
    assert_eq!(err, TransformError::InvalidVersion { text: s("1.2") });
    assert_eq!(err.kind(), ErrorKind::MalformedInput);
}

#[test]
fn extra_services_come_from_files_and_descriptor() {
    let image = |image: &str| ServiceSpecYaml { image: Some(s(image)), ..service_yaml() };
    let mut other = deployment_yaml();
    other.application.name = s("shop");
    other.application.extra = texts(&["shop.yaml"]);
    let mut first = deployment_yaml();
    first.application.extra = texts(&["one.yaml", "two.yaml", "none.yaml"]);
    let mut second = deployment_yaml();
    second.application.extra = texts(&["never.yaml"]);
    let env = convert_env_spec(
        &env_yaml(
            DeploymentEnvTypeYaml::K8S,
            vec![(s("shop"), other), (s("prod"), first), (s("again"), second)],
        ),
        &no_files(),
    )
    .unwrap();
    let parsed = |path: &str, services: Option<Vec<(&str, &str)>>| ExtraSpecSnapshot {
        path: s(path),
        content: ExtraSpecContent::Parsed(ExtraAppSpecYaml {
            extra_services: services.map(|l| l.into_iter().map(|(n, i)| (s(n), image(i))).collect()),
        }),
    };
    let extra = vec![
        parsed("two.yaml", Some(vec![("cache", "redis:7"), ("db", "postgres:15")])),
        parsed("one.yaml", Some(vec![("db", "postgres:14"), ("queue", "rabbit")])),
        parsed("none.yaml", None),
        ExtraSpecSnapshot { path: s("never.yaml"), content: ExtraSpecContent::Unreadable },
    ];
    let yaml = AppSpecYaml {
        extra_services: Some(vec![(s("queue"), image("nats")), (s("mail"), image("mailhog"))]),
        ..app_yaml()
    };
    let app = convert_app_spec(&yaml, Some(&env), &extra).unwrap();
    let got: Vec<(&str, &str)> = app
        .extra_services
        .iter()
        .map(|x| (x.name.as_str(), x.image_variants[0].image.as_str()))
        .collect();
    assert_eq!(
        got,
        vec![("db", "postgres:15"), ("queue", "nats"), ("cache", "redis:7"), ("mail", "mailhog")]
    );

    // Without an environment only the descriptor counts.
    let app = convert_app_spec(&yaml, None, &extra).unwrap();
    assert_eq!(app.extra_services.len(), 2);

    // A file that the snapshot does not list counts as unreadable.
    let only_two: Vec<ExtraSpecSnapshot> = extra.into_iter().take(1).collect();
    let err = convert_app_spec(&yaml, Some(&env), &only_two).unwrap_err();
    assert_eq!(err, TransformError::ExtraSpecUnreadable { path: s("one.yaml") });
    assert_eq!(err.kind(), ErrorKind::IoFailure);
}

#[test]
fn extra_files_that_cannot_be_used_are_refused() {
    let mut dep = deployment_yaml();
    dep.application.extra = texts(&["a.yaml"]);
    let env = convert_env_spec(&env_yaml(DeploymentEnvTypeYaml::K8S, vec![(s("prod"), dep)]), &no_files()).unwrap();
    let with = |content| convert_app_spec(&app_yaml(), Some(&env), &vec![ExtraSpecSnapshot { path: s("a.yaml"), content }]);
    let err = with(ExtraSpecContent::Invalid).unwrap_err();
    assert_eq!(err, TransformError::ExtraSpecInvalid { path: s("a.yaml") });
    assert_eq!(err.kind(), ErrorKind::MalformedInput);
    assert_eq!(
        with(ExtraSpecContent::Unreadable).unwrap_err(),
        TransformError::ExtraSpecUnreadable { path: s("a.yaml") }
    );
    assert!(with(ExtraSpecContent::Parsed(ExtraAppSpecYaml { extra_services: None })).is_ok());
}
