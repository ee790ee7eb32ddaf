use simpled::error::{ErrorKind, InterpolationError, ResolveError};
use simpled::interpolation::resolve_variable_in_string;
use simpled::spec::{
    AppEnvironment, AppSpec, EnvVariable, ExternalEnvVariable, InternalEnvVariable,
    OptionalEnvVariable, RelativeEnvVariable, ServiceEnvOption, ServiceSpec, ServiceType,
};
use simpled::variables::{add_unique_var, filter_service_env_vars, resolve_app_env_vars};
use simpled::version::AppVersion;

fn s(text: &str) -> String {
    text.to_string()
}

fn var(name: &str, value: &str) -> EnvVariable {
    EnvVariable { name: s(name), value: s(value) }
}

fn external(name: &str, default: Option<&str>) -> ExternalEnvVariable {
    ExternalEnvVariable { name: s(name), default: default.map(s) }
}

fn app_with(environment: AppEnvironment) -> AppSpec {
    AppSpec {
        name: s("web"),
        version: AppVersion::parse("1.2.3").unwrap(),
        environment,
        app_services: vec![],
        extra_services: vec![],
        configs: vec![],
        secrets: vec![],
    }
}

fn no_environment() -> AppEnvironment {
    AppEnvironment { external: vec![], optional: vec![], relative: vec![], internal: vec![] }
}

fn service_selecting(environment: Vec<ServiceEnvOption>) -> ServiceSpec {
    ServiceSpec {
        name: s("api"),
        service_type: ServiceType::Internal,
        is_app_service: true,
        image_variants: vec![],
        environment,
        configs: vec![],
        secrets: vec![],
        ports: vec![],
    }
}

#[test]
fn interpolation_replaces_a_reference() {
    let vars = vec![var("A", "v1")];
    assert_eq!(resolve_variable_in_string(&s("${A}"), &vars), Ok(s("v1")));
}

#[test]
fn interpolation_fails_on_an_undefined_name() {
    let vars = vec![var("A", "v1")];
    let err = resolve_variable_in_string(&s("${B}"), &vars).unwrap_err();
    assert_eq!(err, InterpolationError::Undefined { name: s("B") });
    assert_eq!(err.kind(), ErrorKind::UndefinedReference);
}

#[test]
fn interpolation_leaves_text_without_references_unchanged() {
    let vars = vec![var("A", "v1")];
    for text in ["", "plain", "$", "{", "}", "$ {A}", "a$b{c}", "{A}", "100$", "$$", "}${"] {
        if text.contains("${") {
            continue;
        }
        assert_eq!(resolve_variable_in_string(&s(text), &vars), Ok(s(text)));
        assert_eq!(resolve_variable_in_string(&s(text), &[]), Ok(s(text)));
    }
}

#[test]
fn interpolation_is_repeatable() {
    let vars = vec![var("A", "v1"), var("B", "v2")];
    let first = resolve_variable_in_string(&s("x${A}y${B}z"), &vars);
    let second = resolve_variable_in_string(&s("x${A}y${B}z"), &vars);
    assert_eq!(first, Ok(s("xv1yv2z")));
    assert_eq!(first, second);
}

#[test]
fn interpolation_fails_on_an_open_reference() {
    let vars = vec![var("A", "v1")];
    let err = resolve_variable_in_string(&s("a${A}b${A"), &vars).unwrap_err();
    assert_eq!(err, InterpolationError::Malformed { template: s("a${A}b${A") });
    assert_eq!(err.kind(), ErrorKind::MalformedInput);
    assert_eq!(
        resolve_variable_in_string(&s("${"), &vars),
        Err(InterpolationError::Malformed { template: s("${") })
    );
}

#[test]
fn interpolation_reports_the_first_failure() {
    let vars = vec![var("A", "v1")];
    assert_eq!(
        resolve_variable_in_string(&s("${X}${"), &vars),
        Err(InterpolationError::Undefined { name: s("X") })
    );
}

#[test]
fn interpolation_does_not_scan_values_again() {
    let vars = vec![var("A", "${B}"), var("B", "deep")];
    assert_eq!(resolve_variable_in_string(&s("<${A}>"), &vars), Ok(s("<${B}>")));
    let vars = vec![var("A", "${A}")];
    assert_eq!(resolve_variable_in_string(&s("${A}${A}"), &vars), Ok(s("${A}${A}")));
}

#[test]
fn interpolation_edge_cases() {
    let vars = vec![var("A", "1"), var("", "empty"), var("A", "second"), var("B C", "spaced")];
    // The first variable of a name counts.
    assert_eq!(resolve_variable_in_string(&s("${A}"), &vars), Ok(s("1")));
    // The empty name is a name.
    assert_eq!(resolve_variable_in_string(&s("${}"), &vars), Ok(s("empty")));
    // A reference ends at the first closing brace.
    assert_eq!(resolve_variable_in_string(&s("${A}}"), &vars), Ok(s("1}")));
    // Names are taken as written.
    assert_eq!(resolve_variable_in_string(&s("${B C}"), &vars), Ok(s("spaced")));
    assert_eq!(
        resolve_variable_in_string(&s("${ A }"), &vars),
        Err(InterpolationError::Undefined { name: s(" A ") })
    );
    // A reference may open inside what looks like another.
    assert_eq!(
        resolve_variable_in_string(&s("${${A}"), &vars),
        Err(InterpolationError::Undefined { name: s("${A") })
    );
    // Characters beyond ASCII count one by one.
    let vars = vec![var("ö", "ü")];
    assert_eq!(resolve_variable_in_string(&s("ä${ö}ß"), &vars), Ok(s("äüß")));
}

#[test]
fn add_unique_var_replaces_or_appends() {
    let mut vars = vec![var("A", "1"), var("B", "2")];
    add_unique_var(&mut vars, var("A", "3"));
    assert_eq!(vars, vec![var("A", "3"), var("B", "2")]);
    add_unique_var(&mut vars, var("C", "4"));
    assert_eq!(vars, vec![var("A", "3"), var("B", "2"), var("C", "4")]);
    let mut none: Vec<EnvVariable> = vec![];
    add_unique_var(&mut none, var("A", "1"));
    assert_eq!(none, vec![var("A", "1")]);
}

#[test]
fn internal_variable_may_refer_to_external() {
    let app = app_with(AppEnvironment {
        external: vec![external("HOST", None)],
        internal: vec![InternalEnvVariable { name: s("URL"), value: s("http://${HOST}/x") }],
        ..no_environment()
    });
    let vars = resolve_app_env_vars(&app, &[var("HOST", "db")], None).unwrap();
    assert_eq!(vars, vec![var("HOST", "db"), var("URL", "http://db/x")]);
}

#[test]
fn external_default_may_not_refer_to_internal() {
    let app = app_with(AppEnvironment {
        external: vec![external("URL", Some("http://${HOST}"))],
        internal: vec![InternalEnvVariable { name: s("HOST"), value: s("db") }],
        ..no_environment()
    });
    let err = resolve_app_env_vars(&app, &[], None).unwrap_err();
    assert_eq!(
        err,
        ResolveError::ExternalVariable {
            name: s("URL"),
            cause: InterpolationError::Undefined { name: s("HOST") },
        }
    );
    assert_eq!(err.kind(), ErrorKind::UndefinedReference);
}

#[test]
fn external_default_may_refer_to_an_earlier_external() {
    let app = app_with(AppEnvironment {
        external: vec![external("HOST", Some("db")), external("URL", Some("http://${HOST}"))],
        ..no_environment()
    });
    assert_eq!(
        resolve_app_env_vars(&app, &[], None),
        Ok(vec![var("HOST", "db"), var("URL", "http://db")])
    );
    // A later declaration is not in scope yet.
    let app = app_with(AppEnvironment {
        external: vec![external("URL", Some("http://${HOST}")), external("HOST", Some("db"))],
        ..no_environment()
    });
    assert!(resolve_app_env_vars(&app, &[], None).is_err());
}

#[test]
fn external_value_of_the_deployment_is_taken_as_it_stands() {
    let app = app_with(AppEnvironment {
        external: vec![external("A", Some("default"))],
        ..no_environment()
    });
    assert_eq!(
        resolve_app_env_vars(&app, &[var("A", "${literal}")], None),
        Ok(vec![var("A", "${literal}")])
    );
    assert_eq!(resolve_app_env_vars(&app, &[], None), Ok(vec![var("A", "default")]));
}

#[test]
fn external_without_value_or_default_is_missing() {
    let app = app_with(AppEnvironment {
        external: vec![external("A", Some("x")), external("B", None)],
        ..no_environment()
    });
    let err = resolve_app_env_vars(&app, &[var("C", "1")], None).unwrap_err();
    assert_eq!(err, ResolveError::MissingExternalVariable { name: s("B") });
    assert_eq!(err.kind(), ErrorKind::ConstraintViolation);
}

#[test]
fn optional_variable_exists_only_when_supplied() {
    let app = app_with(AppEnvironment {
        optional: vec![
            OptionalEnvVariable { name: s("DEBUG") },
            OptionalEnvVariable { name: s("TRACE") },
        ],
        internal: vec![InternalEnvVariable { name: s("MODE"), value: s("debug=${DEBUG}") }],
        ..no_environment()
    });
    assert_eq!(
        resolve_app_env_vars(&app, &[var("DEBUG", "1")], None),
        Ok(vec![var("DEBUG", "1"), var("MODE", "debug=1")])
    );
    assert_eq!(
        resolve_app_env_vars(&app, &[var("TRACE", "1")], None),
        Err(ResolveError::InternalVariable {
            name: s("MODE"),
            cause: InterpolationError::Undefined { name: s("DEBUG") },
        })
    );
}

#[test]
fn relative_variable_points_to_the_host() {
    let app = app_with(AppEnvironment {
        relative: vec![RelativeEnvVariable { name: s("ROOT"), relative_value: s("/api") }],
        ..no_environment()
    });
    let host = s("example.com");
    assert_eq!(
        resolve_app_env_vars(&app, &[], Some(&host)),
        Ok(vec![var("ROOT", "https://example.com/api")])
    );
    // Without a host the relative tier is passed over.
    assert_eq!(resolve_app_env_vars(&app, &[], None), Ok(vec![]));
}

#[test]
fn relative_variable_is_interpolated_from_earlier_tiers() {
    let app = app_with(AppEnvironment {
        external: vec![external("V", Some("v2"))],
        relative: vec![
            RelativeEnvVariable { name: s("API"), relative_value: s("/api/${V}") },
            RelativeEnvVariable { name: s("DOCS"), relative_value: s("/docs?api=${API}") },
            RelativeEnvVariable { name: s("BAD"), relative_value: s("/${LATER}") },
        ],
        internal: vec![InternalEnvVariable { name: s("LATER"), value: s("x") }],
        ..no_environment()
    });
    let host = s("${V}.example.com");
    let err = resolve_app_env_vars(&app, &[], Some(&host)).unwrap_err();
    assert_eq!(
        err,
        ResolveError::RelativeVariable {
            name: s("BAD"),
            cause: InterpolationError::Undefined { name: s("LATER") },
        }
    );
    let app = app_with(AppEnvironment {
        external: vec![external("V", Some("v2"))],
        relative: vec![
            RelativeEnvVariable { name: s("API"), relative_value: s("/api/${V}") },
            RelativeEnvVariable { name: s("DOCS"), relative_value: s("/docs?api=${API}") },
        ],
        ..no_environment()
    });
    assert_eq!(
        resolve_app_env_vars(&app, &[], Some(&host)),
        Ok(vec![
            var("V", "v2"),
            var("API", "https://v2.example.com/api/v2"),
            var("DOCS", "https://v2.example.com/docs?api=https://v2.example.com/api/v2"),
        ])
    );
}

#[test]
fn internal_variable_sees_earlier_internal_ones_only() {
    let app = app_with(AppEnvironment {
        internal: vec![
            InternalEnvVariable { name: s("A"), value: s("1") },
            InternalEnvVariable { name: s("B"), value: s("${A}2") },
        ],
        ..no_environment()
    });
    assert_eq!(resolve_app_env_vars(&app, &[], None), Ok(vec![var("A", "1"), var("B", "12")]));
    let app = app_with(AppEnvironment {
        internal: vec![
            InternalEnvVariable { name: s("B"), value: s("${A}2") },
            InternalEnvVariable { name: s("A"), value: s("1") },
        ],
        ..no_environment()
    });
    let err = resolve_app_env_vars(&app, &[], None).unwrap_err();
    assert_eq!(err.kind(), ErrorKind::UndefinedReference);
    // An open reference is malformed input, whatever the tier.
    let app = app_with(AppEnvironment {
        internal: vec![InternalEnvVariable { name: s("A"), value: s("${") }],
        ..no_environment()
    });
    assert_eq!(resolve_app_env_vars(&app, &[], None).unwrap_err().kind(), ErrorKind::MalformedInput);
}

#[test]
fn a_later_tier_overwrites_a_name_in_place() {
    let app = app_with(AppEnvironment {
        external: vec![external("A", Some("ext")), external("B", Some("b"))],
        internal: vec![InternalEnvVariable { name: s("A"), value: s("int-${A}") }],
        ..no_environment()
    });
    assert_eq!(
        resolve_app_env_vars(&app, &[], None),
        Ok(vec![var("A", "int-ext"), var("B", "b")])
    );
}

#[test]
fn selectors_pick_variables_in_order() {
    let all = vec![var("A", "1"), var("B", "2"), var("C", "3")];
    let service = service_selecting(vec![
        ServiceEnvOption::Simple(s("C")),
        ServiceEnvOption::WithValue(s("D"), s("${A}-${B}")),
        ServiceEnvOption::Simple(s("A")),
    ]);
    assert_eq!(
        filter_service_env_vars(&service, &all),
        Ok(vec![var("C", "3"), var("D", "1-2"), var("A", "1")])
    );
    assert_eq!(filter_service_env_vars(&service_selecting(vec![]), &all), Ok(vec![]));
}

#[test]
fn selector_all_copies_every_variable() {
    let all = vec![var("A", "1"), var("B", "2")];
    let service = service_selecting(vec![ServiceEnvOption::All]);
    assert_eq!(filter_service_env_vars(&service, &all), Ok(all.clone()));
}

#[test]
fn a_later_selector_overwrites_an_earlier_one() {
    let all = vec![var("A", "1"), var("B", "2")];
    let service = service_selecting(vec![
        ServiceEnvOption::WithValue(s("B"), s("mine")),
        ServiceEnvOption::All,
        ServiceEnvOption::WithValue(s("A"), s("${B}!")),
    ]);
    // B keeps its place and takes the value of the full set; A is set last,
    // from the full set, not from what was selected.
    assert_eq!(filter_service_env_vars(&service, &all), Ok(vec![var("B", "2"), var("A", "2!")]));
}

#[test]
fn selector_of_an_absent_variable_fails() {
    let all = vec![var("A", "1")];
    let service = service_selecting(vec![ServiceEnvOption::Simple(s("NOPE"))]);
    let err = filter_service_env_vars(&service, &all).unwrap_err();
    assert_eq!(
        err,
        ResolveError::UndefinedServiceVariable { service: s("api"), name: s("NOPE") }
    );
    assert_eq!(err.kind(), ErrorKind::UndefinedReference);
    let service = service_selecting(vec![ServiceEnvOption::WithValue(s("X"), s("${NOPE}"))]);
    assert_eq!(
        filter_service_env_vars(&service, &all),
        Err(ResolveError::ServiceVariable {
            service: s("api"),
            name: s("X"),
            cause: InterpolationError::Undefined { name: s("NOPE") },
        })
    );
}
