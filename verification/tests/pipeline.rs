use simpled::error::{ErrorKind, ResolveError, ValidationError};
use simpled::resolved_spec::ConfigResolvedFile;
use simpled::resolved_spec::{IngressRule, IngressToServiceRule};
use simpled::resolver::resolve;
use simpled::sources::{
    ConfigDirContent, ConfigDirSnapshot, ConfigPathContent, ConfigPathSnapshot, DescriptorFiles,
    HostSnapshot,
};
use simpled::spec::{DeploymentEnvType, EnvVariable, ServicePort};
use simpled::spec_yaml::{
    AppEnvironmentYaml, AppSecretsYaml, AppSpecYaml, DeploymentAppSpecYaml, DeploymentEnvTypeYaml,
    DeploymentEnvVariablesYaml, DeploymentEnvironmentSpecYaml, DeploymentSecretSpecExYaml,
    DeploymentServiceSpecYaml, DeploymentSpecYaml, HostSpecYaml, IngressSpecYaml,
    IngressTlsSpecYaml, ServiceSecretYaml, ServiceSpecYaml, ServiceTypeYaml,
};
use simpled::transform::{convert_app_spec, convert_env_spec};
use simpled::validator::validate;

fn s(text: &str) -> String {
    text.to_string()
}

fn texts(list: &[&str]) -> Option<Vec<String>> {
    Some(list.iter().map(|t| s(t)).collect())
}

fn var(name: &str, value: &str) -> EnvVariable {
    EnvVariable { name: s(name), value: s(value) }
}

fn app_yaml() -> AppSpecYaml {
    AppSpecYaml {
        name: s("shop"),
        version: s("3.1.4"),
        environment: Some(AppEnvironmentYaml {
            external: texts(&[
                "DB_HOST",
                "DB_PORT=5432",
                "DB_URL='postgres://${DB_HOST}:${DB_PORT}'",
                "MAJOR",
            ]),
            optional: texts(&["DEBUG"]),
            relative: texts(&["API=/api/v${MAJOR}"]),
            internal: texts(&["GREETING=hello from ${API}"]),
        }),
        app_services: Some(vec![
            (
                s("api"),
                ServiceSpecYaml {
                    service_type: Some(ServiceTypeYaml::Public),
                    image: Some(s("shop/api")),
                    variants: None,
                    export: None,
                    environment: texts(&["$all", "MODE=prod-${DB_PORT}"]),
                    configs: Some(vec![vec![(s("settings"), s("/etc/shop"))]]),
                    secrets: Some(vec![ServiceSecretYaml::Simple(s("token"))]),
                },
            ),
            (
                s("worker"),
                ServiceSpecYaml {
                    service_type: None,
                    image: Some(s("shop/worker")),
                    variants: None,
                    export: None,
                    environment: texts(&["DB_URL"]),
                    configs: None,
                    secrets: None,
                },
            ),
        ]),
        extra_services: Some(vec![(
            s("db"),
            ServiceSpecYaml {
                service_type: None,
                image: Some(s("postgres:16")),
                variants: None,
                export: None,
                environment: None,
                configs: None,
                secrets: None,
            },
        )]),
        configs: Some(vec![(s("settings"), vec![s("settings.toml")])]),
        secrets: Some(AppSecretsYaml::Simple(vec![s("token")])),
    }
}

fn env_yaml() -> DeploymentEnvironmentSpecYaml {
    DeploymentEnvironmentSpecYaml {
        env_type: DeploymentEnvTypeYaml::K8S,
        swarm_mode: None,
        ingress: IngressSpecYaml {
            name: s("gate"),
            hosts: vec![(s("main"), HostSpecYaml::Multiple(vec![s("shop.example"), s("www.shop.example")]))],
            tls: Some(IngressTlsSpecYaml { disable: None, secret: Some(s("cert")), letsencrypt: None }),
            ingress_type: None,
        },
        registry: Some(vec![(s("shop"), s("registry.example/"))]),
        deployments: vec![(
            s("prod"),
            DeploymentSpecYaml {
                application: DeploymentAppSpecYaml { name: s("shop"), version: Some(s("^3.1")), extra: None },
                primary_host: s("main"),
                environment: Some(DeploymentEnvVariablesYaml::FromList(vec![
                    s("DB_HOST=db.internal"),
                    s("MAJOR=3"),
                ])),
                undockerized_environment: Some(DeploymentEnvVariablesYaml::FromList(vec![s("DB_HOST=localhost")])),
                configs: Some(vec![(s("settings"), s("conf/settings"))]),
                secrets: Some(vec![(s("token"), DeploymentSecretSpecExYaml::Local(s("s3cret")))]),
                defaults: None,
                services: Some(vec![(
                    s("api"),
                    DeploymentServiceSpecYaml {
                        variant: None,
                        host: None,
                        prefix: Some(s("/api")),
                        strip_prefix: None,
                        prefixes: None,
                        replicas: Some(3),
                        resources: None,
                        ports: texts(&["8080:80"]),
                    },
                )]),
            },
        )],
    }
}

fn descriptor_files() -> DescriptorFiles {
    DescriptorFiles {
        env_files: vec![],
        config_dirs: vec![ConfigDirSnapshot {
            path: s("conf/settings"),
            content: ConfigDirContent::Files(vec![s("conf/settings/settings.toml")]),
        }],
    }
}

fn host() -> HostSnapshot {
    HostSnapshot {
        config_paths: vec![ConfigPathSnapshot {
            path: s("conf/settings/settings.toml"),
            content: ConfigPathContent::File(ConfigResolvedFile {
                name: s("settings.toml"),
                content: b"debug = false\n".to_vec(),
            }),
        }],
        secret_files: vec![],
        env_vars: vec![],
    }
}

#[test]
fn descriptors_resolve_from_end_to_end() {
    let env = convert_env_spec(&env_yaml(), &descriptor_files()).unwrap();
    let app = convert_app_spec(&app_yaml(), Some(&env), &vec![]).unwrap();
    assert_eq!(validate(&env, &app, "prod"), Ok(()));
    let model = resolve(&env, &app, "prod", &host()).unwrap();

    assert_eq!(model.env_type, DeploymentEnvType::K8S);
    let deployment = &model.current_deployment;
    assert_eq!(deployment.name, "prod");
    assert_eq!(deployment.configs.len(), 1);
    assert_eq!(deployment.configs[0].name, "shop-settings");
    assert_eq!(deployment.configs[0].files[0].content, b"debug = false\n".to_vec());
    assert_eq!(deployment.secrets[0].name, "shop-token");
    assert_eq!(deployment.secrets[0].value, "s3cret");

    let names: Vec<&str> = deployment.services.iter().map(|x| x.full_name.as_str()).collect();
    assert_eq!(names, vec!["shop-api", "shop-worker", "shop-db"]);
    let api = &deployment.services[0];
    assert_eq!(api.image, "registry.example/shop/api:3.1.4");
    assert_eq!(api.ports, vec![ServicePort { external: 8080, internal: 80 }]);
    assert_eq!(
        api.environment_variables,
        vec![
            var("DB_HOST", "db.internal"),
            var("DB_PORT", "5432"),
            var("DB_URL", "postgres://db.internal:5432"),
            var("MAJOR", "3"),
            var("API", "https://shop.example/api/v3"),
            var("GREETING", "hello from https://shop.example/api/v3"),
            var("MODE", "prod-5432"),
        ]
    );
    assert_eq!(api.undockerized_environment_variables[0], var("DB_HOST", "localhost"));
    assert_eq!(
        api.undockerized_environment_variables[2],
        var("DB_URL", "postgres://localhost:5432")
    );
    assert_eq!(
        deployment.services[1].environment_variables,
        vec![var("DB_URL", "postgres://db.internal:5432")]
    );
    assert_eq!(deployment.services[2].environment_variables, vec![]);
    assert_eq!(api.secrets[0].name, "shop-token");
    assert_eq!(api.configs[0].config_name, "shop-settings");
    assert_eq!(deployment.services[2].image, "postgres:16");
    assert_eq!(
        model.ingress.rules,
        vec![
            IngressRule {
                domain_name: s("shop.example"),
                services: vec![IngressToServiceRule {
                    service_name: s("shop-api"),
                    port: 8080,
                    prefix: s("/api"),
                    strip_prefix: true,
                }],
            },
            IngressRule {
                domain_name: s("www.shop.example"),
                services: vec![IngressToServiceRule {
                    service_name: s("shop-api"),
                    port: 8080,
                    prefix: s("/api"),
                    strip_prefix: true,
                }],
            },
        ]
    );
}

#[test]
fn descriptors_that_do_not_fit_are_refused_before_resolution() {
    let mut yaml = env_yaml();
    yaml.deployments[0].1.application.version = Some(s(">=4"));
    let env = convert_env_spec(&yaml, &descriptor_files()).unwrap();
    let app = convert_app_spec(&app_yaml(), Some(&env), &vec![]).unwrap();
    let err = validate(&env, &app, "prod").unwrap_err();
    assert_eq!(
        err,
        ValidationError::VersionMismatch {
            deployment: s("prod"),
            version: s("3.1.4"),
            requirement: s(">=4"),
        }
    );
    assert_eq!(err.kind(), ErrorKind::ConstraintViolation);

    // What validation lets pass, resolution may still refuse: a variable
    // of the optional tier that a service selects and nobody supplies.
    let mut app_yaml = app_yaml();
    app_yaml.app_services.as_mut().unwrap()[1].1.environment = texts(&["DEBUG"]);
    let env = convert_env_spec(&env_yaml(), &descriptor_files()).unwrap();
    let app = convert_app_spec(&app_yaml, Some(&env), &vec![]).unwrap();
    assert_eq!(validate(&env, &app, "prod"), Ok(()));
    let err = resolve(&env, &app, "prod", &host()).unwrap_err();
    assert_eq!(
        err,
        ResolveError::UndefinedServiceVariable { service: s("worker"), name: s("DEBUG") }
    );
    assert_eq!(err.kind(), ErrorKind::UndefinedReference);
}
