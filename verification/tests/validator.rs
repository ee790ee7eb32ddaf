use simpled::error::{ErrorKind, ValidationError};
use simpled::spec::{
    AppEnvironment, AppSecretOption, AppSpec, ConfigSpec, DeploymentAppSpec, DeploymentEnvType,
    DeploymentEnvironmentSpec, DeploymentSecretSource, DeploymentSecretSpec,
    DeploymentServiceEntry, DeploymentServiceSpec, DeploymentSpec, EnvVariable,
    ExternalEnvVariable, IngressSpec, InternalEnvVariable, OptionalEnvVariable,
    RelativeEnvVariable, ResourceLimits, ResourcesSpec, ServiceEnvOption, ServiceSpec,
    ServiceType,
};
use simpled::validator::validate;
use simpled::version::{AppVersion, VersionRange};

fn s(text: &str) -> String {
    text.to_string()
}

fn sizing() -> ResourcesSpec {
    ResourcesSpec {
        replicas: 1,
        requests: ResourceLimits { memory: s("128Mi"), cpu: s("100m") },
        limits: ResourceLimits { memory: s("128Mi"), cpu: s("100m") },
    }
}

fn service(name: &str, environment: Vec<ServiceEnvOption>) -> ServiceSpec {
    ServiceSpec {
        name: s(name),
        service_type: ServiceType::Internal,
        is_app_service: true,
        image_variants: vec![],
        environment,
        configs: vec![],
        secrets: vec![],
        ports: vec![],
    }
}

fn app() -> AppSpec {
    AppSpec {
        name: s("web"),
        version: AppVersion::parse("1.4.2").unwrap(),
        environment: AppEnvironment {
            external: vec![],
            optional: vec![],
            relative: vec![],
            internal: vec![],
        },
        app_services: vec![service("api", vec![])],
        extra_services: vec![service("db", vec![])],
        configs: vec![],
        secrets: vec![],
    }
}

fn deployment() -> DeploymentSpec {
    DeploymentSpec {
        name: s("prod"),
        primary_host: s("main"),
        application: DeploymentAppSpec { name: s("web"), version: None, extra: vec![] },
        environment: vec![],
        undockerized_environment: vec![],
        configs: vec![],
        secrets: vec![],
        defaults: sizing(),
        services: None,
    }
}

fn environment(deployment: DeploymentSpec) -> DeploymentEnvironmentSpec {
    DeploymentEnvironmentSpec {
        env_type: DeploymentEnvType::K8S,
        ingress: IngressSpec { name: s("gate"), hosts: vec![], tls: None },
        registry: vec![],
        deployments: vec![deployment],
    }
}

fn overridden(name: &str) -> DeploymentServiceEntry {
    DeploymentServiceEntry {
        service_name: s(name),
        spec: DeploymentServiceSpec {
            variant: None,
            host: None,
            prefixes: vec![],
            resources: sizing(),
            ports: vec![],
        },
    }
}

#[test]
fn a_fitting_pair_is_valid() {
    assert_eq!(validate(&environment(deployment()), &app(), "prod"), Ok(()));
}

#[test]
fn the_deployment_must_exist() {
    let err = validate(&environment(deployment()), &app(), "staging").unwrap_err();
    assert_eq!(err, ValidationError::DeploymentNotFound { deployment: s("staging") });
    assert_eq!(err.kind(), ErrorKind::UndefinedReference);
}

#[test]
fn the_application_name_must_match() {
    let mut dep = deployment();
    dep.application.name = s("shop");
    let err = validate(&environment(dep), &app(), "prod").unwrap_err();
    assert_eq!(
        err,
        ValidationError::ApplicationMismatch {
            deployment: s("prod"),
            expected: s("shop"),
            actual: s("web"),
        }
    );
    assert_eq!(err.kind(), ErrorKind::ConstraintViolation);
}

#[test]
fn the_version_must_lie_in_the_range() {
    let with_range = |range: &str| {
        let mut dep = deployment();
        dep.application.version = Some(VersionRange::parse(range).unwrap());
        validate(&environment(dep), &app(), "prod")
    };
    assert_eq!(with_range(">=1.2, <2"), Ok(()));
    assert_eq!(with_range("^1.4"), Ok(()));
    assert_eq!(with_range("1.4.2"), Ok(()));
    assert_eq!(with_range("*"), Ok(()));
    let err = with_range(">=2.0.0").unwrap_err();
    assert_eq!(
        err,
        ValidationError::VersionMismatch {
            deployment: s("prod"),
            version: s("1.4.2"),
            requirement: s(">=2.0.0"),
        }
    );
    assert_eq!(err.kind(), ErrorKind::ConstraintViolation);
    assert!(with_range("~1.3").is_err());
    assert!(with_range("<1.4.2").is_err());
}

#[test]
fn external_variables_need_a_value_or_a_default() {
    let mut app = app();
    app.environment.external = vec![
        ExternalEnvVariable { name: s("A"), default: None },
        ExternalEnvVariable { name: s("B"), default: Some(s("b")) },
        ExternalEnvVariable { name: s("C"), default: None },
        ExternalEnvVariable { name: s("D"), default: None },
    ];
    let mut dep = deployment();
    dep.environment = vec![EnvVariable { name: s("C"), value: s("c") }];
    let err = validate(&environment(dep), &app, "prod").unwrap_err();
    assert_eq!(
        err,
        ValidationError::MissingVariables { names: vec![s("A"), s("D")], deployment: s("prod") }
    );
    assert_eq!(err.kind(), ErrorKind::ConstraintViolation);

    let mut dep = deployment();
    dep.environment = vec![
        EnvVariable { name: s("D"), value: s("") },
        EnvVariable { name: s("C"), value: s("c") },
        EnvVariable { name: s("A"), value: s("a") },
    ];
    assert_eq!(validate(&environment(dep), &app, "prod"), Ok(()));
}

#[test]
fn expected_secrets_must_be_supplied() {
    let mut app = app();
    app.secrets = vec![
        AppSecretOption { secret_name: s("token") },
        AppSecretOption { secret_name: s("key") },
    ];
    let mut dep = deployment();
    dep.secrets = vec![DeploymentSecretSpec {
        secret_name: s("token"),
        source: DeploymentSecretSource::Embedded(s("x")),
    }];
    let err = validate(&environment(dep), &app, "prod").unwrap_err();
    assert_eq!(err, ValidationError::MissingSecret { secret: s("key"), deployment: s("prod") });
    assert_eq!(err.kind(), ErrorKind::UndefinedReference);
}

#[test]
fn expected_configs_must_be_supplied() {
    let mut app = app();
    app.configs = vec![ConfigSpec { name: s("nginx"), files: vec![] }];
    let err = validate(&environment(deployment()), &app, "prod").unwrap_err();
    assert_eq!(err, ValidationError::MissingConfig { config: s("nginx"), deployment: s("prod") });
    assert_eq!(err.kind(), ErrorKind::UndefinedReference);
    let mut dep = deployment();
    dep.configs = vec![ConfigSpec { name: s("nginx"), files: vec![s("a")] }];
    assert_eq!(validate(&environment(dep), &app, "prod"), Ok(()));
}

#[test]
fn overridden_services_must_exist() {
    let mut dep = deployment();
    dep.services = Some(vec![overridden("api"), overridden("db"), overridden("ghost")]);
    let err = validate(&environment(dep), &app(), "prod").unwrap_err();
    assert_eq!(err, ValidationError::UnknownService { service: s("ghost"), deployment: s("prod") });
    assert_eq!(err.kind(), ErrorKind::UndefinedReference);
    let mut dep = deployment();
    dep.services = Some(vec![overridden("db"), overridden("api")]);
    assert_eq!(validate(&environment(dep), &app(), "prod"), Ok(()));
}

#[test]
fn bare_selectors_must_name_declared_variables() {
    let mut app = app();
    app.environment = AppEnvironment {
        external: vec![ExternalEnvVariable { name: s("E"), default: Some(s("e")) }],
        optional: vec![OptionalEnvVariable { name: s("O") }],
        relative: vec![RelativeEnvVariable { name: s("R"), relative_value: s("/") }],
        internal: vec![InternalEnvVariable { name: s("I"), value: s("i") }],
    };
    app.app_services = vec![service(
        "api",
        vec![
            ServiceEnvOption::All,
            ServiceEnvOption::Simple(s("E")),
            ServiceEnvOption::Simple(s("R")),
            ServiceEnvOption::Simple(s("I")),
            ServiceEnvOption::WithValue(s("X"), s("${UNKNOWN}")),
        ],
    )];
    assert_eq!(validate(&environment(deployment()), &app, "prod"), Ok(()));

    // A name of the optional tier passes: resolution decides whether the
    // variable exists.
    app.extra_services = vec![service(
        "db",
        vec![ServiceEnvOption::Simple(s("I")), ServiceEnvOption::Simple(s("O"))],
    )];
    assert_eq!(validate(&environment(deployment()), &app, "prod"), Ok(()));

    // A name that no tier declares does not pass.
    app.extra_services = vec![service(
        "db",
        vec![ServiceEnvOption::Simple(s("I")), ServiceEnvOption::Simple(s("X"))],
    )];
    let err = validate(&environment(deployment()), &app, "prod").unwrap_err();
    assert_eq!(
        err,
        ValidationError::UndefinedVariable {
            deployment: s("prod"),
            service: s("db"),
            variable: s("X"),
        }
    );
    assert_eq!(err.kind(), ErrorKind::UndefinedReference);
}

#[test]
fn the_first_failing_check_is_reported() {
    let mut app = app();
    app.environment.external = vec![ExternalEnvVariable { name: s("A"), default: None }];
    app.secrets = vec![AppSecretOption { secret_name: s("token") }];
    let mut dep = deployment();
    dep.application.version = Some(VersionRange::parse("<1").unwrap());
    let err = validate(&environment(dep), &app, "prod").unwrap_err();
    assert_eq!(
        err,
        ValidationError::VersionMismatch {
            deployment: s("prod"),
            version: s("1.4.2"),
            requirement: s("<1"),
        }
    );
    let err = validate(&environment(deployment()), &app, "prod").unwrap_err();
    assert_eq!(
        err,
        ValidationError::MissingVariables { names: vec![s("A")], deployment: s("prod") }
    );
}
