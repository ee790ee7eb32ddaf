//! Checks that an application and a deployment fit together, before the
//! deployment is resolved.

use vstd::prelude::*;
use crate::error::{ValidationError, ValidationErrorView};
use crate::interpolation::{find_var, value_of};
use crate::lookup::{
    config_spec_named, deployment_named, external_named, find_config_spec, find_deployment,
    find_external, find_internal, find_optional, find_relative, find_service, find_supplied_secret,
    internal_named, optional_named, relative_named, service_named, supplied_secret,
};
use crate::seqs::{first_from, first_where, fold, lemma_fold_step, result_view};
use crate::spec::{
    AppEnvironment, AppEnvironmentView, AppSecretOptionView, AppSpec, AppSpecView, ConfigSpecView,
    DeploymentEnvironmentSpec, DeploymentEnvironmentSpecView, DeploymentSecretSpecView,
    DeploymentServiceEntryView, DeploymentSpec, DeploymentSpecView, EnvVariable, EnvVariableView,
    ExternalEnvVariable, ExternalEnvVariableView, ServiceEnvOption, ServiceEnvOptionView,
    ServiceSpecView,
};
use crate::version::semver_range_matches;

verus! {

/// Selects the external variables that have no default and get no value
/// from `values`.
pub open spec fn lacks_value(values: Seq<EnvVariableView>) -> spec_fn(
    ExternalEnvVariableView,
) -> bool {
    |e: ExternalEnvVariableView| e.default is None && value_of(values, e.name) is None
}

/// Adds the name of an external variable to the names gathered so far, if
/// the variable lacks a value.
pub open spec fn missing_step(values: Seq<EnvVariableView>) -> spec_fn(
    Seq<Seq<char>>,
    ExternalEnvVariableView,
) -> Seq<Seq<char>> {
    |acc: Seq<Seq<char>>, e: ExternalEnvVariableView|
        if lacks_value(values)(e) {
            acc.push(e.name)
        } else {
            acc
        }
}

/// The names of the external variables that have no default and get no
/// value from `values`, in the order of their declarations.
pub open spec fn missing_variables(
    external: Seq<ExternalEnvVariableView>,
    values: Seq<EnvVariableView>,
) -> Seq<Seq<char>> {
    fold(external, Seq::empty(), missing_step(values))
}

/// Selects the secrets that are not among `supplied`.
pub open spec fn secret_not_in(supplied: Seq<DeploymentSecretSpecView>) -> spec_fn(
    AppSecretOptionView,
) -> bool {
    |s: AppSecretOptionView| first_where(supplied, supplied_secret(s.secret_name)) is None
}

/// Selects the config groups that are not among `supplied`.
pub open spec fn config_not_in(supplied: Seq<ConfigSpecView>) -> spec_fn(ConfigSpecView) -> bool {
    |c: ConfigSpecView| first_where(supplied, config_spec_named(c.name)) is None
}

/// Selects the overrides for services that are not among `services`.
pub open spec fn service_not_in(services: Seq<ServiceSpecView>) -> spec_fn(
    DeploymentServiceEntryView,
) -> bool {
    |e: DeploymentServiceEntryView| first_where(services, service_named(e.service_name)) is None
}

/// Whether the application declares a variable of the name `name` in the
/// external, the relative or the internal tier.
pub open spec fn declares(env: AppEnvironmentView, name: Seq<char>) -> bool {
    ||| first_where(env.external, external_named(name)) is Some
    ||| first_where(env.relative, relative_named(name)) is Some
    ||| first_where(env.internal, internal_named(name)) is Some
}

/// Whether the application declares an optional variable of the name `name`.
pub open spec fn declares_optional(env: AppEnvironmentView, name: Seq<char>) -> bool {
    first_where(env.optional, optional_named(name)) is Some
}

/// Selects the selectors that name, bare, a variable that `env` declares in
/// no tier. A name of the optional tier passes here: whether the variable
/// exists is known only when the deployment is resolved.
pub open spec fn undeclared_selector(env: AppEnvironmentView) -> spec_fn(
    ServiceEnvOptionView,
) -> bool {
    |o: ServiceEnvOptionView|
        match o {
            ServiceEnvOptionView::Simple(name) => !declares(env, name) && !declares_optional(
                env,
                name,
            ),
            _ => false,
        }
}

/// Selects the services with a selector that names, bare, a variable that
/// `env` does not declare.
pub open spec fn selects_undeclared(env: AppEnvironmentView) -> spec_fn(ServiceSpecView) -> bool {
    |s: ServiceSpecView| first_where(s.environment, undeclared_selector(env)) is Some
}

/// The name that a bare selector names.
pub open spec fn selected_name(o: ServiceEnvOptionView) -> Seq<char> {
    match o {
        ServiceEnvOptionView::Simple(name) => name,
        _ => Seq::empty(),
    }
}

/// The check of the selectors: every bare selector of every service names a
/// variable that the application declares.
pub open spec fn checked_selectors(app: AppSpecView, deployment: Seq<char>) -> Result<
    (),
    ValidationErrorView,
> {
    match first_where(app.all_services(), selects_undeclared(app.environment)) {
        Some(i) => {
            let service = app.all_services()[i];
            let k = first_where(service.environment, undeclared_selector(app.environment))->0;
            Err(
                ValidationErrorView::UndefinedVariable {
                    deployment,
                    service: service.name,
                    variable: selected_name(service.environment[k]),
                },
            )
        },
        None => Ok(()),
    }
}

/// The check of the overrides, then that of the selectors: every service
/// that the deployment overrides is a service of the application.
pub open spec fn checked_services(app: AppSpecView, deployment: DeploymentSpecView) -> Result<
    (),
    ValidationErrorView,
> {
    match deployment.services {
        Some(entries) => match first_where(entries, service_not_in(app.all_services())) {
            Some(i) => Err(
                ValidationErrorView::UnknownService {
                    service: entries[i].service_name,
                    deployment: deployment.name,
                },
            ),
            None => checked_selectors(app, deployment.name),
        },
        None => checked_selectors(app, deployment.name),
    }
}

/// The check of the secrets, then that of the configs, then the rest: the
/// deployment supplies every secret and every config group that the
/// application expects.
pub open spec fn checked_supplies(app: AppSpecView, deployment: DeploymentSpecView) -> Result<
    (),
    ValidationErrorView,
> {
    match first_where(app.secrets, secret_not_in(deployment.secrets)) {
        Some(i) => Err(
            ValidationErrorView::MissingSecret {
                secret: app.secrets[i].secret_name,
                deployment: deployment.name,
            },
        ),
        None => match first_where(app.configs, config_not_in(deployment.configs)) {
            Some(i) => Err(
                ValidationErrorView::MissingConfig {
                    config: app.configs[i].name,
                    deployment: deployment.name,
                },
            ),
            None => checked_services(app, deployment),
        },
    }
}

/// Whether the application fits the deployment, and if not, the first check
/// that it fails. The checks come in this order: the name of the
/// application, its version, the external variables, the secrets, the
/// configs, the overridden services, the selectors of the services.
pub open spec fn checked_deployment(app: AppSpecView, deployment: DeploymentSpecView) -> Result<
    (),
    ValidationErrorView,
> {
    if deployment.application.name != app.name {
        Err(
            ValidationErrorView::ApplicationMismatch {
                deployment: deployment.name,
                expected: deployment.application.name,
                actual: app.name,
            },
        )
    } else if deployment.application.version matches Some(range) && !semver_range_matches(
        range,
        app.version,
    ) {
        Err(
            ValidationErrorView::VersionMismatch {
                deployment: deployment.name,
                version: app.version,
                requirement: deployment.application.version->0,
            },
        )
    } else if missing_variables(app.environment.external, deployment.environment).len() > 0 {
        Err(
            ValidationErrorView::MissingVariables {
                names: missing_variables(app.environment.external, deployment.environment),
                deployment: deployment.name,
            },
        )
    } else {
        checked_supplies(app, deployment)
    }
}

/// Whether the application fits the deployment of the name
/// `deployment_name`: the first deployment of that name in `env`.
pub open spec fn validated(
    env: DeploymentEnvironmentSpecView,
    app: AppSpecView,
    deployment_name: Seq<char>,
) -> Result<(), ValidationErrorView> {
    match first_where(env.deployments, deployment_named(deployment_name)) {
        None => Err(ValidationErrorView::DeploymentNotFound { deployment: deployment_name }),
        Some(i) => checked_deployment(app, env.deployments[i]),
    }
}

fn collect_missing_variables(external: &Vec<ExternalEnvVariable>, values: &Vec<EnvVariable>) -> (r:
    Vec<String>)
    ensures
        r.deep_view() == missing_variables(external.deep_view(), values.deep_view()),
{
    let ghost step = missing_step(values.deep_view());
    let mut names: Vec<String> = Vec::new();
    let mut i: usize = 0;
    proof {
        assert(external.deep_view().skip(0) =~= external.deep_view());
        assert(names.deep_view() =~= Seq::empty());
    }
    while i < external.len()
        invariant
            i <= external.len(),
            step == missing_step(values.deep_view()),
            missing_variables(external.deep_view(), values.deep_view()) == fold(
                external.deep_view().skip(i as int),
                names.deep_view(),
                step,
            ),
        decreases external.len() - i,
    {
        proof {
            lemma_fold_step(external.deep_view(), i as int, names.deep_view(), step);
        }
        let decl = &external[i];
        if decl.default.is_none() && find_var(values.as_slice(), decl.name.as_str()).is_none() {
            let ghost before = names.deep_view();
            names.push(decl.name.clone());
            assert(names.deep_view() =~= before.push(decl.name@));
        }
        i += 1;
    }
    proof {
        lemma_fold_step(external.deep_view(), i as int, names.deep_view(), step);
    }
    names
}

fn is_declared(env: &AppEnvironment, name: &str) -> (r: bool)
    ensures
        r == (declares(env@, name@) || declares_optional(env@, name@)),
{
    find_external(&env.external, name).is_some() || find_relative(&env.relative, name).is_some()
        || find_internal(&env.internal, name).is_some() || find_optional(
        &env.optional,
        name,
    ).is_some()
}

fn check_selectors(app_spec: &AppSpec, deployment: &String) -> (r: Result<(), ValidationError>)
    ensures
        result_view(r) == checked_selectors(app_spec@, deployment@),
{
    let ghost bad = selects_undeclared(app_spec@.environment);
    let ghost undeclared = undeclared_selector(app_spec@.environment);
    let services = app_spec.all_services();
    let mut i: usize = 0;
    while i < services.len()
        invariant
            i <= services.len(),
            services.deep_view() == app_spec@.all_services(),
            bad == selects_undeclared(app_spec@.environment),
            undeclared == undeclared_selector(app_spec@.environment),
            first_where(services.deep_view(), bad) == first_from(
                services.deep_view(),
                bad,
                i as int,
            ),
        decreases services.len() - i,
    {
        let service = services[i];
        let mut k: usize = 0;
        while k < service.environment.len()
            invariant
                k <= service.environment.len(),
                i < services.len(),
                service == services[i as int],
                services.deep_view() == app_spec@.all_services(),
                bad == selects_undeclared(app_spec@.environment),
                undeclared == undeclared_selector(app_spec@.environment),
                first_where(services.deep_view(), bad) == first_from(
                    services.deep_view(),
                    bad,
                    i as int,
                ),
                first_where(service.environment.deep_view(), undeclared) == first_from(
                    service.environment.deep_view(),
                    undeclared,
                    k as int,
                ),
            decreases service.environment.len() - k,
        {
            match &service.environment[k] {
                ServiceEnvOption::Simple(name) => {
                    if !is_declared(&app_spec.environment, name.as_str()) {
                        return Err(
                            ValidationError::UndefinedVariable {
                                deployment: deployment.clone(),
                                service: service.name.clone(),
                                variable: name.clone(),
                            },
                        );
                    }
                },
                _ => {},
            }
            k += 1;
        }
        i += 1;
    }
    Ok(())
}

fn check_services(app_spec: &AppSpec, deployment: &DeploymentSpec) -> (r: Result<
    (),
    ValidationError,
>)
    ensures
        result_view(r) == checked_services(app_spec@, deployment@),
{
    match &deployment.services {
        Some(entries) => {
            let ghost unknown = service_not_in(app_spec@.all_services());
            let mut i: usize = 0;
            while i < entries.len()
                invariant
                    i <= entries.len(),
                    unknown == service_not_in(app_spec@.all_services()),
                    deployment@.services == Some(entries.deep_view()),
                    first_where(entries.deep_view(), unknown) == first_from(
                        entries.deep_view(),
                        unknown,
                        i as int,
                    ),
                decreases entries.len() - i,
            {
                let name = &entries[i].service_name;
                if !is_service(app_spec, name.as_str()) {
                    return Err(
                        ValidationError::UnknownService {
                            service: name.clone(),
                            deployment: deployment.name.clone(),
                        },
                    );
                }
                i += 1;
            }
        },
        None => {},
    }
    check_selectors(app_spec, &deployment.name)
}

/// What [`first_from`] finds in two sequences laid end to end: what it finds
/// in the first, else what it finds in the second.
proof fn lemma_first_from_concat<A>(a: Seq<A>, b: Seq<A>, p: spec_fn(A) -> bool, from: int)
    requires
        0 <= from <= a.len(),
    ensures
        first_from(a + b, p, from) == match first_from(a, p, from) {
            Some(i) => Some(i),
            None => match first_from(b, p, 0) {
                Some(j) => Some(a.len() + j),
                None => None,
            },
        },
    decreases a.len() - from,
{
    if from < a.len() {
        assert((a + b)[from] == a[from]);
        if !p(a[from]) {
            lemma_first_from_concat(a, b, p, from + 1);
        }
    } else {
        lemma_first_from_shift(a, b, p, 0);
    }
}

proof fn lemma_first_from_shift<A>(a: Seq<A>, b: Seq<A>, p: spec_fn(A) -> bool, k: int)
    requires
        0 <= k <= b.len(),
    ensures
        first_from(a + b, p, a.len() + k) == match first_from(b, p, k) {
            Some(j) => Some(a.len() + j),
            None => None,
        },
    decreases b.len() - k,
{
    if k < b.len() {
        assert((a + b)[a.len() + k] == b[k]);
        if !p(b[k]) {
            lemma_first_from_shift(a, b, p, k + 1);
        }
    }
}

fn is_service(app_spec: &AppSpec, name: &str) -> (r: bool)
    ensures
        r == (first_where(app_spec@.all_services(), service_named(name@)) is Some),
{
    proof {
        lemma_first_from_concat(
            app_spec.app_services.deep_view(),
            app_spec.extra_services.deep_view(),
            service_named(name@),
            0,
        );
    }
    find_service(&app_spec.app_services, name).is_some() || find_service(
        &app_spec.extra_services,
        name,
    ).is_some()
}

fn check_supplies(app_spec: &AppSpec, deployment: &DeploymentSpec) -> (r: Result<
    (),
    ValidationError,
>)
    ensures
        result_view(r) == checked_supplies(app_spec@, deployment@),
{
    let ghost no_secret = secret_not_in(deployment@.secrets);
    let mut i: usize = 0;
    while i < app_spec.secrets.len()
        invariant
            i <= app_spec.secrets.len(),
            no_secret == secret_not_in(deployment@.secrets),
            first_where(app_spec.secrets.deep_view(), no_secret) == first_from(
                app_spec.secrets.deep_view(),
                no_secret,
                i as int,
            ),
        decreases app_spec.secrets.len() - i,
    {
        let name = &app_spec.secrets[i].secret_name;
        if find_supplied_secret(&deployment.secrets, name.as_str()).is_none() {
            return Err(
                ValidationError::MissingSecret {
                    secret: name.clone(),
                    deployment: deployment.name.clone(),
                },
            );
        }
        i += 1;
    }
    let ghost no_config = config_not_in(deployment@.configs);
    let mut j: usize = 0;
    while j < app_spec.configs.len()
        invariant
            j <= app_spec.configs.len(),
            no_config == config_not_in(deployment@.configs),
            first_where(app_spec.secrets.deep_view(), secret_not_in(deployment@.secrets)) is None,
            first_where(app_spec.configs.deep_view(), no_config) == first_from(
                app_spec.configs.deep_view(),
                no_config,
                j as int,
            ),
        decreases app_spec.configs.len() - j,
    {
        let name = &app_spec.configs[j].name;
        if find_config_spec(&deployment.configs, name.as_str()).is_none() {
            return Err(
                ValidationError::MissingConfig {
                    config: name.clone(),
                    deployment: deployment.name.clone(),
                },
            );
        }
        j += 1;
    }
    check_services(app_spec, deployment)
}

/// Checks that `app_spec` fits the deployment of the name `env_name` in
/// `env_spec`. Nothing is changed; the first check that fails gives the error.
pub fn validate(env_spec: &DeploymentEnvironmentSpec, app_spec: &AppSpec, env_name: &str) -> (r:
    Result<(), ValidationError>)
    ensures
        result_view(r) == validated(env_spec@, app_spec@, env_name@),
{
    let deployment = match find_deployment(&env_spec.deployments, env_name) {
        Some(i) => &env_spec.deployments[i],
        None => {
            return Err(ValidationError::DeploymentNotFound { deployment: env_name.to_owned() });
        },
    };
    if !(deployment.application.name == app_spec.name) {
        return Err(
            ValidationError::ApplicationMismatch {
                deployment: deployment.name.clone(),
                expected: deployment.application.name.clone(),
                actual: app_spec.name.clone(),
            },
        );
    }
    match &deployment.application.version {
        Some(range) => {
            if !range.matches(&app_spec.version) {
                return Err(
                    ValidationError::VersionMismatch {
                        deployment: deployment.name.clone(),
                        version: app_spec.version.to_string(),
                        requirement: range.as_str().to_owned(),
                    },
                );
            }
        },
        None => {},
    }
    let missing = collect_missing_variables(&app_spec.environment.external, &deployment.environment);
    if missing.len() > 0 {
        return Err(
            ValidationError::MissingVariables {
                names: missing,
                deployment: deployment.name.clone(),
            },
        );
    }
    check_supplies(app_spec, deployment)
}

} // verus!
