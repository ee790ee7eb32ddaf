//! What holds of every resolution, beyond what each function promises of
//! its own result.

use vstd::prelude::*;
use crate::env_loader::{opens_with_quote, parsed_assignment, quoted_with, trimmed};
use crate::error::{ErrorKind, ResolveErrorView, TransformErrorView};
use crate::ingress::{
    claim_step, claimed, claimed_prefixes, domain_step, host_routes, host_step, HostPrefixClaimView,
    ingress_rules, routes_step, service_routes,
};
use crate::interpolation::{
    interpolate, lemma_interpolation_defines_references, referenced_names, value_of, var_named,
};
use crate::lookup::{
    config_named, config_spec_named, deployment_named, secret_named, service_named, supplied_secret,
};
use crate::resolved_spec::{
    ConfigResolvedSpecView, IngressRuleView, IngressToServiceRuleView, SecretResolvedSpecView,
    ServiceResolvedSpecView,
};
use crate::resolver::{
    host_of, prefixes_of, resolved_model, resolved_service, service_override, service_step,
    undockerized_values,
};
use crate::seqs::{
    first_where, fold, lemma_first_from, lemma_first_where_exists, lemma_first_where_push,
    lemma_fold_invariant, lemma_fold_step, lemma_try_fold_appends, lemma_try_fold_invariant,
    lemma_try_fold_step, try_fold,
};
use crate::sources::{DescriptorFilesView, HostSnapshotView};
use crate::spec::{
    AppEnvironmentView, AppSpecView, DeploymentEnvironmentSpecView, DeploymentEnvType,
    DeploymentServiceEntryView, DeploymentSpecView, EnvVariableView, ExternalEnvVariableView,
    HostSpecView, InternalEnvVariableView, OptionalEnvVariableView, PrefixView,
    RelativeEnvVariableView, ResourcesSpecView, ServiceConfigOptionView, ServiceEnvOptionView,
    ServicePort, ServiceSecretView, ServiceSpecView, ServiceType,
};
use crate::spec_yaml::{
    AppEnvironmentYamlView, DeploymentEnvironmentSpecYamlView, DeploymentServiceSpecYamlView,
    DeploymentSpecYamlView,
};
use crate::supplies::{
    config_ref_step, full_name, resolved_configs, resolved_secrets, secret_ref_step,
    service_configs, service_secrets,
};
use crate::transform::{
    deployment_step, env_spec_of, env_type_of, local_deployment_step, local_port_step, local_ports,
    local_service_step, same_port,
};
use crate::transform_declarations::{environment_of, relative_decl_step, texts_of};
use crate::transform_deployment::{deployment_defaults_of, override_step};
use crate::validator::{
    checked_selectors, checked_services, checked_supplies, config_not_in, lacks_value, missing_step,
    missing_variables, secret_not_in, selects_undeclared, service_not_in, undeclared_selector,
    validated,
};
use crate::variables::{
    app_env_vars, external_step, internal_step, optional_step, relative_step, relative_url,
    selector_step, service_env_vars, set_var, set_vars,
};
use crate::version::semver_range_matches;

verus! {

/// Whether no name occurs twice among `vars`.
pub open spec fn distinct_names(vars: Seq<EnvVariableView>) -> bool {
    forall|i: int, j: int| 0 <= i < j < vars.len() ==> vars[i].name != vars[j].name
}

/// Setting a variable keeps names distinct, keeps every variable that was
/// there in its place and under its name, and adds one place at most.
pub proof fn lemma_set_var_keeps_names_distinct(vars: Seq<EnvVariableView>, var: EnvVariableView)
    requires
        distinct_names(vars),
    ensures
        distinct_names(set_var(vars, var)),
        vars.len() <= set_var(vars, var).len() <= vars.len() + 1,
        forall|i: int| 0 <= i < vars.len() ==> set_var(vars, var)[i].name == vars[i].name,
        value_of(set_var(vars, var), var.name) == Some(var.value),
{
    lemma_first_from(vars, var_named(var.name), 0);
    let after = set_var(vars, var);
    lemma_first_from(after, var_named(var.name), 0);
    match first_where(vars, var_named(var.name)) {
        Some(k) => {
            assert(var_named(var.name)(vars[k]));
            assert(var_named(var.name)(after[k]));
            assert(forall|i: int| 0 <= i < vars.len() ==> after[i].name == vars[i].name);
            let found = first_where(after, var_named(var.name))->0;
            if found != k {
                assert(var_named(var.name)(after[found]));
                assert(after[found].name == after[k].name);
            }
        },
        None => {
            assert forall|i: int| 0 <= i < vars.len() implies vars[i].name != var.name by {
                assert(!var_named(var.name)(vars[i]));
            }
            assert(var_named(var.name)(after[vars.len() as int]));
            let found = first_where(after, var_named(var.name))->0;
            if found != vars.len() {
                assert(var_named(var.name)(after[found]));
                assert(after[found] == vars[found]);
            }
        },
    }
}

/// Setting several variables keeps names distinct.
pub proof fn lemma_set_vars_keeps_names_distinct(
    vars: Seq<EnvVariableView>,
    more: Seq<EnvVariableView>,
)
    requires
        distinct_names(vars),
    ensures
        distinct_names(set_vars(vars, more)),
{
    let inv = |s: Seq<EnvVariableView>| distinct_names(s);
    let step = |acc: Seq<EnvVariableView>, var: EnvVariableView| set_var(acc, var);
    assert forall|s: Seq<EnvVariableView>, i: int| 0 <= i < more.len() && inv(s) implies inv(
        #[trigger] step(s, more[i]),
    ) by {
        lemma_set_var_keeps_names_distinct(s, more[i]);
    }
    lemma_fold_invariant(more, vars, step, inv);
}

proof fn lemma_external_tier_distinct(
    decls: Seq<ExternalEnvVariableView>,
    values: Seq<EnvVariableView>,
    acc: Seq<EnvVariableView>,
)
    requires
        distinct_names(acc),
    ensures
        try_fold(decls, acc, external_step(values)) matches Ok(vars) ==> distinct_names(vars),
{
    let inv = |s: Seq<EnvVariableView>| distinct_names(s);
    let step = external_step(values);
    assert forall|s: Seq<EnvVariableView>, i: int|
        0 <= i < decls.len() && inv(s) && (#[trigger] step(s, decls[i])) is Ok implies inv(
        step(s, decls[i])->Ok_0,
    ) by {
        let d = decls[i];
        match value_of(values, d.name) {
            Some(value) => {
                lemma_set_var_keeps_names_distinct(s, EnvVariableView { name: d.name, value });
            },
            None => {
                if let Some(default) = d.default {
                    if let Ok(value) = interpolate(default, s) {
                        lemma_set_var_keeps_names_distinct(
                            s,
                            EnvVariableView { name: d.name, value },
                        );
                    }
                }
            },
        }
    }
    lemma_try_fold_invariant(decls, acc, step, inv);
}

proof fn lemma_optional_tier_distinct(
    decls: Seq<OptionalEnvVariableView>,
    values: Seq<EnvVariableView>,
    acc: Seq<EnvVariableView>,
)
    requires
        distinct_names(acc),
    ensures
        try_fold(decls, acc, optional_step(values)) matches Ok(vars) ==> distinct_names(vars),
{
    let inv = |s: Seq<EnvVariableView>| distinct_names(s);
    let step = optional_step(values);
    assert forall|s: Seq<EnvVariableView>, i: int|
        0 <= i < decls.len() && inv(s) && (#[trigger] step(s, decls[i])) is Ok implies inv(
        step(s, decls[i])->Ok_0,
    ) by {
        let d = decls[i];
        if let Some(value) = value_of(values, d.name) {
            lemma_set_var_keeps_names_distinct(s, EnvVariableView { name: d.name, value });
        }
    }
    lemma_try_fold_invariant(decls, acc, step, inv);
}

proof fn lemma_relative_tier_distinct(
    decls: Seq<RelativeEnvVariableView>,
    host: Seq<char>,
    acc: Seq<EnvVariableView>,
)
    requires
        distinct_names(acc),
    ensures
        try_fold(decls, acc, relative_step(host)) matches Ok(vars) ==> distinct_names(vars),
{
    let inv = |s: Seq<EnvVariableView>| distinct_names(s);
    let step = relative_step(host);
    assert forall|s: Seq<EnvVariableView>, i: int|
        0 <= i < decls.len() && inv(s) && (#[trigger] step(s, decls[i])) is Ok implies inv(
        step(s, decls[i])->Ok_0,
    ) by {
        let d = decls[i];
        if let Ok(value) = interpolate(relative_url(host, d.relative_value), s) {
            lemma_set_var_keeps_names_distinct(s, EnvVariableView { name: d.name, value });
        }
    }
    lemma_try_fold_invariant(decls, acc, step, inv);
}

proof fn lemma_internal_tier_distinct(
    decls: Seq<InternalEnvVariableView>,
    acc: Seq<EnvVariableView>,
)
    requires
        distinct_names(acc),
    ensures
        try_fold(decls, acc, internal_step()) matches Ok(vars) ==> distinct_names(vars),
{
    let inv = |s: Seq<EnvVariableView>| distinct_names(s);
    let step = internal_step();
    assert forall|s: Seq<EnvVariableView>, i: int|
        0 <= i < decls.len() && inv(s) && (#[trigger] step(s, decls[i])) is Ok implies inv(
        step(s, decls[i])->Ok_0,
    ) by {
        let d = decls[i];
        if let Ok(value) = interpolate(d.value, s) {
            lemma_set_var_keeps_names_distinct(s, EnvVariableView { name: d.name, value });
        }
    }
    lemma_try_fold_invariant(decls, acc, step, inv);
}

/// Among the resolved variables of an application no name occurs twice,
/// whatever the declarations, the values of the deployment and the host.
pub proof fn lemma_app_env_vars_distinct(
    env: AppEnvironmentView,
    values: Seq<EnvVariableView>,
    host: Option<Seq<char>>,
)
    ensures
        app_env_vars(env, values, host) matches Ok(vars) ==> distinct_names(vars),
{
    let start = Seq::<EnvVariableView>::empty();
    lemma_external_tier_distinct(env.external, values, start);
    if let Ok(a1) = try_fold(env.external, start, external_step(values)) {
        lemma_optional_tier_distinct(env.optional, values, a1);
        if let Ok(a2) = try_fold(env.optional, a1, optional_step(values)) {
            match host {
                Some(h) => {
                    lemma_relative_tier_distinct(env.relative, h, a2);
                    if let Ok(a3) = try_fold(env.relative, a2, relative_step(h)) {
                        lemma_internal_tier_distinct(env.internal, a3);
                    }
                },
                None => {
                    lemma_internal_tier_distinct(env.internal, a2);
                },
            }
        }
    }
}

/// Among the variables that a service receives no name occurs twice,
/// whatever its selectors and the variables they select from.
pub proof fn lemma_service_env_vars_distinct(service: ServiceSpecView, all: Seq<EnvVariableView>)
    ensures
        service_env_vars(service, all) matches Ok(vars) ==> distinct_names(vars),
{
    let inv = |s: Seq<EnvVariableView>| distinct_names(s);
    let step = selector_step(service.name, all);
    assert forall|s: Seq<EnvVariableView>, i: int|
        0 <= i < service.environment.len() && inv(s) && (#[trigger] step(
            s,
            service.environment[i],
        )) is Ok implies inv(step(s, service.environment[i])->Ok_0) by {
        match service.environment[i] {
            ServiceEnvOptionView::All => {
                lemma_set_vars_keeps_names_distinct(s, all);
            },
            ServiceEnvOptionView::Simple(name) => {
                if let Some(k) = first_where(all, var_named(name)) {
                    lemma_set_var_keeps_names_distinct(s, all[k]);
                }
            },
            ServiceEnvOptionView::WithValue(name, template) => {
                if let Ok(value) = interpolate(template, all) {
                    lemma_set_var_keeps_names_distinct(s, EnvVariableView { name, value });
                }
            },
        }
    }
    lemma_try_fold_invariant(service.environment, Seq::empty(), step, inv);
}

/// In a resolved model no service receives two variables of one name,
/// neither inside a container nor outside.
pub proof fn lemma_resolved_variables_distinct(
    env: DeploymentEnvironmentSpecView,
    app: AppSpecView,
    deployment_name: Seq<char>,
    sources: HostSnapshotView,
)
    ensures
        resolved_model(env, app, deployment_name, sources) matches Ok(model) ==> forall|i: int|
            0 <= i < model.current_deployment.services.len() ==> {
                let service = #[trigger] model.current_deployment.services[i];
                distinct_names(service.environment_variables) && distinct_names(
                    service.undockerized_environment_variables,
                )
            },
{
    if let Some(d) = first_where(env.deployments, deployment_named(deployment_name)) {
        let deployment = env.deployments[d];
        if let Ok(configs) = resolved_configs(app.name, deployment.configs, sources.config_paths) {
            if let Ok(secrets) = resolved_secrets(app.name, deployment.secrets, sources) {
                let inv = |state: (Seq<ServiceResolvedSpecView>, Seq<HostPrefixClaimView>)|
                    forall|i: int|
                        0 <= i < state.0.len() ==> distinct_names(
                            (#[trigger] state.0[i]).environment_variables,
                        ) && distinct_names(state.0[i].undockerized_environment_variables);
                let step = service_step(env, app, deployment, configs, secrets);
                let services = app.all_services();
                assert forall|
                    state: (Seq<ServiceResolvedSpecView>, Seq<HostPrefixClaimView>),
                    i: int,
                |
                    0 <= i < services.len() && inv(state) && (#[trigger] step(
                        state,
                        services[i],
                    )) is Ok implies inv(step(state, services[i])->Ok_0) by {
                    let service = services[i];
                    let done = resolved_service(
                        env,
                        app,
                        deployment,
                        configs,
                        secrets,
                        state.1,
                        service,
                    )->Ok_0;
                    let domain = done.0.service_host->0;
                    if let Ok(all) = app_env_vars(
                        app.environment,
                        deployment.environment,
                        Some(domain),
                    ) {
                        lemma_service_env_vars_distinct(service, all);
                    }
                    if let Ok(all) = app_env_vars(
                        app.environment,
                        undockerized_values(deployment),
                        Some(domain),
                    ) {
                        lemma_service_env_vars_distinct(service, all);
                    }
                    let next = step(state, service)->Ok_0;
                    assert(next.0 == state.0.push(done.0));
                    assert forall|j: int| 0 <= j < next.0.len() implies distinct_names(
                        (#[trigger] next.0[j]).environment_variables,
                    ) && distinct_names(next.0[j].undockerized_environment_variables) by {
                        if j < state.0.len() {
                            assert(next.0[j] == state.0[j]);
                        }
                    }
                }
                lemma_try_fold_invariant(services, (Seq::empty(), Seq::empty()), step, inv);
            }
        }
    }
}

/// Whether every rule of `rules` holds a route.
pub open spec fn rules_hold_routes(rules: Seq<IngressRuleView>) -> bool {
    forall|i: int| 0 <= i < rules.len() ==> (#[trigger] rules[i]).services.len() > 0
}

/// The ingress of a resolved model holds no rule without routes: a domain
/// that nothing is routed to has no rule.
pub proof fn lemma_ingress_rules_hold_routes(
    hosts: Seq<HostSpecView>,
    app: AppSpecView,
    deployment: DeploymentSpecView,
)
    ensures
        rules_hold_routes(ingress_rules(hosts, app, deployment)),
{
    let inv = |rules: Seq<IngressRuleView>| rules_hold_routes(rules);
    let step = host_step(app, deployment);
    assert forall|rules: Seq<IngressRuleView>, i: int| 0 <= i < hosts.len() && inv(rules) implies inv(
        #[trigger] step(rules, hosts[i]),
    ) by {
        let routes = host_routes(app, deployment, hosts[i].name);
        let inner = domain_step(routes);
        let domains = hosts[i].domain_names;
        assert forall|acc: Seq<IngressRuleView>, k: int|
            0 <= k < domains.len() && inv(acc) implies inv(#[trigger] inner(acc, domains[k])) by {
            let next = inner(acc, domains[k]);
            assert forall|j: int| 0 <= j < next.len() implies (#[trigger] next[j]).services.len()
                > 0 by {
                if j < acc.len() {
                    assert(next[j] == acc[j]);
                }
            }
        }
        lemma_fold_invariant(domains, rules, inner, inv);
    }
    lemma_fold_invariant(hosts, Seq::empty(), step, inv);
}

/// Whether a config group of the name `name` is among `configs`.
pub open spec fn has_config(configs: Seq<ConfigResolvedSpecView>, name: Seq<char>) -> bool {
    exists|k: int| 0 <= k < configs.len() && #[trigger] configs[k].name == name
}

/// Whether a secret of the name `name` is among `secrets`.
pub open spec fn has_secret(secrets: Seq<SecretResolvedSpecView>, name: Seq<char>) -> bool {
    exists|k: int| 0 <= k < secrets.len() && #[trigger] secrets[k].name == name
}

/// Whether every config mount of `mounts` names a group among `configs`.
pub open spec fn mounts_resolve(
    mounts: Seq<ServiceConfigOptionView>,
    configs: Seq<ConfigResolvedSpecView>,
) -> bool {
    forall|i: int| 0 <= i < mounts.len() ==> has_config(configs, #[trigger] mounts[i].config_name)
}

/// Whether every secret binding of `bindings` names a secret among `secrets`.
pub open spec fn bindings_resolve(
    bindings: Seq<ServiceSecretView>,
    secrets: Seq<SecretResolvedSpecView>,
) -> bool {
    forall|i: int| 0 <= i < bindings.len() ==> has_secret(secrets, #[trigger] bindings[i].name)
}

/// Whether every config and every secret that `service` refers to is among
/// `configs` and `secrets`.
pub open spec fn references_resolve(
    service: ServiceResolvedSpecView,
    configs: Seq<ConfigResolvedSpecView>,
    secrets: Seq<SecretResolvedSpecView>,
) -> bool {
    mounts_resolve(service.configs, configs) && bindings_resolve(service.secrets, secrets)
}

proof fn lemma_service_configs_resolve(
    app: Seq<char>,
    service: ServiceSpecView,
    configs: Seq<ConfigResolvedSpecView>,
)
    ensures
        service_configs(app, service, configs) matches Ok(mounts) ==> mounts_resolve(
            mounts,
            configs,
        ),
{
    let inv = |acc: Seq<ServiceConfigOptionView>| mounts_resolve(acc, configs);
    let step = config_ref_step(app, service.name, configs);
    assert forall|acc: Seq<ServiceConfigOptionView>, i: int|
        0 <= i < service.configs.len() && inv(acc) && (#[trigger] step(
            acc,
            service.configs[i],
        )) is Ok implies inv(step(acc, service.configs[i])->Ok_0) by {
        let name = full_name(app, service.configs[i].config_name);
        lemma_first_from(configs, config_named(name), 0);
        let k = first_where(configs, config_named(name))->0;
        assert(config_named(name)(configs[k]));
        assert(configs[k].name == name);
        let next = step(acc, service.configs[i])->Ok_0;
        assert forall|j: int| 0 <= j < next.len() implies has_config(
            configs,
            #[trigger] next[j].config_name,
        ) by {
            if j < acc.len() {
                assert(next[j] == acc[j]);
            }
        }
    }
    lemma_try_fold_invariant(service.configs, Seq::empty(), step, inv);
}

proof fn lemma_service_secrets_resolve(
    app: Seq<char>,
    service: ServiceSpecView,
    secrets: Seq<SecretResolvedSpecView>,
)
    ensures
        service_secrets(app, service, secrets) matches Ok(bindings) ==> bindings_resolve(
            bindings,
            secrets,
        ),
{
    let inv = |acc: Seq<ServiceSecretView>| bindings_resolve(acc, secrets);
    let step = secret_ref_step(app, service.name, secrets);
    assert forall|acc: Seq<ServiceSecretView>, i: int|
        0 <= i < service.secrets.len() && inv(acc) && (#[trigger] step(
            acc,
            service.secrets[i],
        )) is Ok implies inv(step(acc, service.secrets[i])->Ok_0) by {
        let name = full_name(app, service.secrets[i].name);
        lemma_first_from(secrets, secret_named(name), 0);
        let k = first_where(secrets, secret_named(name))->0;
        assert(secret_named(name)(secrets[k]));
        assert(secrets[k].name == name);
        let next = step(acc, service.secrets[i])->Ok_0;
        assert forall|j: int| 0 <= j < next.len() implies has_secret(
            secrets,
            #[trigger] next[j].name,
        ) by {
            if j < acc.len() {
                assert(next[j] == acc[j]);
            }
        }
    }
    lemma_try_fold_invariant(service.secrets, Seq::empty(), step, inv);
}

/// Referential integrity: in a resolved model, every config group that a
/// service mounts and every secret that it binds is one that the resolved
/// deployment holds, under the same name.
pub proof fn lemma_resolved_references(
    env: DeploymentEnvironmentSpecView,
    app: AppSpecView,
    deployment_name: Seq<char>,
    sources: HostSnapshotView,
)
    ensures
        resolved_model(env, app, deployment_name, sources) matches Ok(model) ==> forall|i: int|
            0 <= i < model.current_deployment.services.len() ==> references_resolve(
                #[trigger] model.current_deployment.services[i],
                model.current_deployment.configs,
                model.current_deployment.secrets,
            ),
{
    if let Some(d) = first_where(env.deployments, deployment_named(deployment_name)) {
        let deployment = env.deployments[d];
        if let Ok(configs) = resolved_configs(app.name, deployment.configs, sources.config_paths) {
            if let Ok(secrets) = resolved_secrets(app.name, deployment.secrets, sources) {
                let inv = |state: (Seq<ServiceResolvedSpecView>, Seq<HostPrefixClaimView>)|
                    forall|i: int|
                        0 <= i < state.0.len() ==> references_resolve(
                            #[trigger] state.0[i],
                            configs,
                            secrets,
                        );
                let step = service_step(env, app, deployment, configs, secrets);
                let services = app.all_services();
                assert forall|
                    state: (Seq<ServiceResolvedSpecView>, Seq<HostPrefixClaimView>),
                    i: int,
                |
                    0 <= i < services.len() && inv(state) && (#[trigger] step(
                        state,
                        services[i],
                    )) is Ok implies inv(step(state, services[i])->Ok_0) by {
                    let service = services[i];
                    lemma_service_configs_resolve(app.name, service, configs);
                    lemma_service_secrets_resolve(app.name, service, secrets);
                    let done = resolved_service(
                        env,
                        app,
                        deployment,
                        configs,
                        secrets,
                        state.1,
                        service,
                    )->Ok_0;
                    let next = step(state, service)->Ok_0;
                    assert(next.0 == state.0.push(done.0));
                    assert forall|j: int| 0 <= j < next.0.len() implies references_resolve(
                        #[trigger] next.0[j],
                        configs,
                        secrets,
                    ) by {
                        if j < state.0.len() {
                            assert(next.0[j] == state.0[j]);
                        }
                    }
                }
                lemma_try_fold_invariant(services, (Seq::empty(), Seq::empty()), step, inv);
            }
        }
    }
}

proof fn lemma_missing_fold(
    items: Seq<ExternalEnvVariableView>,
    acc: Seq<Seq<char>>,
    values: Seq<EnvVariableView>,
)
    ensures
        fold(items, acc, missing_step(values)).len() >= acc.len(),
        fold(items, acc, missing_step(values)).len() == acc.len() <==> forall|i: int|
            0 <= i < items.len() ==> !lacks_value(values)(#[trigger] items[i]),
    decreases items.len(),
{
    if items.len() > 0 {
        let rest = items.drop_first();
        let next = missing_step(values)(acc, items[0]);
        lemma_missing_fold(rest, next, values);
        if fold(items, acc, missing_step(values)).len() == acc.len() {
            assert(!lacks_value(values)(items[0]));
            assert forall|i: int| 0 <= i < items.len() implies !lacks_value(values)(
                #[trigger] items[i],
            ) by {
                if i > 0 {
                    assert(items[i] == rest[i - 1]);
                }
            }
        }
        if forall|i: int| 0 <= i < items.len() ==> !lacks_value(values)(#[trigger] items[i]) {
            assert(!lacks_value(values)(items[0]));
            assert forall|i: int| 0 <= i < rest.len() implies !lacks_value(values)(
                #[trigger] rest[i],
            ) by {
                assert(rest[i] == items[i + 1]);
            }
        }
    }
}

/// Whether `values` gives a value to the variable of the name `name`.
pub open spec fn gives_value(values: Seq<EnvVariableView>, name: Seq<char>) -> bool {
    exists|k: int| 0 <= k < values.len() && #[trigger] values[k].name == name
}

/// Whether the application `app` fits the deployment `deployment`, stated
/// rule by rule:
///
/// - the deployment is for the application, by its name;
/// - the version of the application lies in the range that the deployment
///   accepts, if it names one;
/// - every external variable has a default or gets a value;
/// - every secret and every config group that the application expects is
///   supplied;
/// - every service that the deployment overrides is a service of the
///   application;
/// - every variable that a service selects by its bare name is declared in
///   the external, the relative or the internal tier, or is an optional
///   variable, for which resolution decides.
pub open spec fn fits(app: AppSpecView, deployment: DeploymentSpecView) -> bool {
    &&& deployment.application.name == app.name
    &&& (deployment.application.version matches Some(range) ==> semver_range_matches(
        range,
        app.version,
    ))
    &&& forall|i: int|
        0 <= i < app.environment.external.len() ==> {
            let e = #[trigger] app.environment.external[i];
            e.default is Some || gives_value(deployment.environment, e.name)
        }
    &&& forall|i: int|
        0 <= i < app.secrets.len() ==> exists|k: int|
            0 <= k < deployment.secrets.len() && #[trigger] deployment.secrets[k].secret_name == (
            #[trigger] app.secrets[i]).secret_name
    &&& forall|i: int|
        0 <= i < app.configs.len() ==> exists|k: int|
            0 <= k < deployment.configs.len() && #[trigger] deployment.configs[k].name == (
            #[trigger] app.configs[i]).name
    &&& (deployment.services matches Some(entries) ==> forall|i: int|
        0 <= i < entries.len() ==> exists|k: int|
            0 <= k < app.all_services().len() && #[trigger] app.all_services()[k].name == (
            #[trigger] entries[i]).service_name)
    &&& forall|i: int, j: int|
        0 <= i < app.all_services().len() && 0 <= j < app.all_services()[i].environment.len()
            ==> !undeclared_selector(app.environment)(
            #[trigger] app.all_services()[i].environment[j],
        )
}

proof fn lemma_selectors_iff(app: AppSpecView, deployment: Seq<char>)
    ensures
        checked_selectors(app, deployment) is Ok <==> forall|i: int, j: int|
            0 <= i < app.all_services().len() && 0 <= j < app.all_services()[i].environment.len()
                ==> !undeclared_selector(app.environment)(
                #[trigger] app.all_services()[i].environment[j],
            ),
{
    let services = app.all_services();
    let bad = selects_undeclared(app.environment);
    let undeclared = undeclared_selector(app.environment);
    lemma_first_from(services, bad, 0);
    if let Some(i) = first_where(services, bad) {
        assert(bad(services[i]));
        lemma_first_from(services[i].environment, undeclared, 0);
        let j = first_where(services[i].environment, undeclared)->0;
        assert(undeclared(services[i].environment[j]));
    } else {
        assert forall|i: int, j: int|
            0 <= i < services.len() && 0 <= j < services[i].environment.len() implies !undeclared(
            #[trigger] services[i].environment[j],
        ) by {
            assert(!bad(services[i]));
            lemma_first_from(services[i].environment, undeclared, 0);
        }
    }
}

proof fn lemma_services_iff(app: AppSpecView, deployment: DeploymentSpecView)
    ensures
        checked_services(app, deployment) is Ok <==> (checked_selectors(
            app,
            deployment.name,
        ) is Ok && (
        deployment.services matches Some(entries) ==> forall|i: int|
            0 <= i < entries.len() ==> exists|k: int|
                0 <= k < app.all_services().len() && #[trigger] app.all_services()[k].name == (
                #[trigger] entries[i]).service_name)),
{
    if let Some(entries) = deployment.services {
        let services = app.all_services();
        let unknown = service_not_in(services);
        lemma_first_from(entries, unknown, 0);
        if let Some(i) = first_where(entries, unknown) {
            assert(unknown(entries[i]));
            lemma_first_from(services, service_named(entries[i].service_name), 0);
            assert forall|k: int| 0 <= k < services.len() implies #[trigger] services[k].name
                != entries[i].service_name by {
                assert(!service_named(entries[i].service_name)(services[k]));
            }
        } else {
            assert forall|i: int| 0 <= i < entries.len() implies exists|k: int|
                0 <= k < services.len() && #[trigger] services[k].name == (
                #[trigger] entries[i]).service_name by {
                assert(!unknown(entries[i]));
                lemma_first_from(services, service_named(entries[i].service_name), 0);
                let k = first_where(services, service_named(entries[i].service_name))->0;
                assert(service_named(entries[i].service_name)(services[k]));
                assert(services[k].name == entries[i].service_name);
            }
        }
    }
}

proof fn lemma_supplies_iff(app: AppSpecView, deployment: DeploymentSpecView)
    ensures
        checked_supplies(app, deployment) is Ok <==> (checked_services(app, deployment) is Ok && (
        forall|i: int|
            0 <= i < app.secrets.len() ==> exists|k: int|
                0 <= k < deployment.secrets.len() && #[trigger] deployment.secrets[k].secret_name
                    == (#[trigger] app.secrets[i]).secret_name) && (forall|i: int|
            0 <= i < app.configs.len() ==> exists|k: int|
                0 <= k < deployment.configs.len() && #[trigger] deployment.configs[k].name == (
                #[trigger] app.configs[i]).name)),
{
    let no_secret = secret_not_in(deployment.secrets);
    lemma_first_from(app.secrets, no_secret, 0);
    if let Some(i) = first_where(app.secrets, no_secret) {
        assert(no_secret(app.secrets[i]));
        let name = app.secrets[i].secret_name;
        lemma_first_from(deployment.secrets, supplied_secret(name), 0);
        assert forall|k: int| 0 <= k < deployment.secrets.len() implies #[trigger] deployment.secrets[k].secret_name
            != name by {
            assert(!supplied_secret(name)(deployment.secrets[k]));
        }
    } else {
        assert forall|i: int| 0 <= i < app.secrets.len() implies exists|k: int|
            0 <= k < deployment.secrets.len() && #[trigger] deployment.secrets[k].secret_name == (
            #[trigger] app.secrets[i]).secret_name by {
            assert(!no_secret(app.secrets[i]));
            let name = app.secrets[i].secret_name;
            lemma_first_from(deployment.secrets, supplied_secret(name), 0);
            let k = first_where(deployment.secrets, supplied_secret(name))->0;
            assert(supplied_secret(name)(deployment.secrets[k]));
            assert(deployment.secrets[k].secret_name == name);
        }
        let no_config = config_not_in(deployment.configs);
        lemma_first_from(app.configs, no_config, 0);
        if let Some(i) = first_where(app.configs, no_config) {
            assert(no_config(app.configs[i]));
            let name = app.configs[i].name;
            lemma_first_from(deployment.configs, config_spec_named(name), 0);
            assert forall|k: int| 0 <= k < deployment.configs.len() implies #[trigger] deployment.configs[k].name
                != name by {
                assert(!config_spec_named(name)(deployment.configs[k]));
            }
        } else {
            assert forall|i: int| 0 <= i < app.configs.len() implies exists|k: int|
                0 <= k < deployment.configs.len() && #[trigger] deployment.configs[k].name == (
                #[trigger] app.configs[i]).name by {
                assert(!no_config(app.configs[i]));
                let name = app.configs[i].name;
                lemma_first_from(deployment.configs, config_spec_named(name), 0);
                let k = first_where(deployment.configs, config_spec_named(name))->0;
                assert(config_spec_named(name)(deployment.configs[k]));
                assert(deployment.configs[k].name == name);
            }
        }
    }
}

proof fn lemma_variables_iff(app: AppSpecView, deployment: DeploymentSpecView)
    ensures
        missing_variables(app.environment.external, deployment.environment).len() == 0
            <==> forall|i: int|
            0 <= i < app.environment.external.len() ==> {
                let e = #[trigger] app.environment.external[i];
                e.default is Some || gives_value(deployment.environment, e.name)
            },
{
    let external = app.environment.external;
    let values = deployment.environment;
    lemma_missing_fold(external, Seq::empty(), values);
    assert forall|i: int| 0 <= i < external.len() implies (!lacks_value(values)(
        #[trigger] external[i],
    ) <==> (external[i].default is Some || gives_value(values, external[i].name))) by {
        let name = external[i].name;
        lemma_first_from(values, var_named(name), 0);
        if let Some(k) = first_where(values, var_named(name)) {
            assert(var_named(name)(values[k]));
            assert(values[k].name == name);
        } else {
            assert forall|k: int| 0 <= k < values.len() implies #[trigger] values[k].name
                != name by {
                assert(!var_named(name)(values[k]));
            }
        }
    }
}

/// Validation succeeds exactly where the environment has a deployment of
/// the name and the application fits the first such deployment, rule by
/// rule as [`fits`] states them.
pub proof fn lemma_validated_iff_fits(
    env: DeploymentEnvironmentSpecView,
    app: AppSpecView,
    deployment_name: Seq<char>,
)
    ensures
        validated(env, app, deployment_name) is Ok <==> (first_where(
            env.deployments,
            deployment_named(deployment_name),
        ) matches Some(i) && fits(app, env.deployments[i])),
{
    if let Some(i) = first_where(env.deployments, deployment_named(deployment_name)) {
        let deployment = env.deployments[i];
        lemma_variables_iff(app, deployment);
        lemma_supplies_iff(app, deployment);
        lemma_services_iff(app, deployment);
        lemma_selectors_iff(app, deployment.name);
    }
}

/// Whether the prefix `prefix` on the host `host` is claimed among `claims`.
pub open spec fn is_claimed(claims: Seq<HostPrefixClaimView>, host: Seq<char>, prefix: Seq<char>) -> bool {
    first_where(claims, claimed(host, prefix)) is Some
}

/// The name of the ingress host that a service is bound to in a deployment.
pub open spec fn bound_host(deployment: DeploymentSpecView, service: ServiceSpecView) -> Seq<char> {
    host_of(deployment, service_override(deployment, service.name))
}

/// The prefixes that a service claims in a deployment: those of its
/// override, if it is public; else none.
pub open spec fn public_prefixes(deployment: DeploymentSpecView, service: ServiceSpecView) -> Seq<
    PrefixView,
> {
    match service.service_type {
        ServiceType::Public => prefixes_of(service_override(deployment, service.name)),
        _ => Seq::empty(),
    }
}

proof fn lemma_claim_fold(
    prefixes: Seq<PrefixView>,
    claims: Seq<HostPrefixClaimView>,
    service: Seq<char>,
    host: Seq<char>,
)
    ensures
        try_fold(prefixes, claims, claim_step(service, host)) matches Ok(end) ==> {
            &&& forall|a: int|
                0 <= a < prefixes.len() ==> !is_claimed(claims, host, #[trigger] prefixes[a].prefix)
            &&& forall|a: int, b: int|
                0 <= a < b < prefixes.len() ==> #[trigger] prefixes[a].prefix
                    != #[trigger] prefixes[b].prefix
            &&& forall|h: Seq<char>, p: Seq<char>|
                #[trigger] is_claimed(end, h, p) <==> (is_claimed(claims, h, p) || (h == host
                    && exists|a: int| 0 <= a < prefixes.len() && #[trigger] prefixes[a].prefix == p))
        },
    decreases prefixes.len(),
{
    if prefixes.len() > 0 {
        let first = prefixes[0];
        let rest = prefixes.drop_first();
        if let Ok(next) = claim_step(service, host)(claims, first) {
            let claim = HostPrefixClaimView { host, prefix: first.prefix, service };
            assert(next == claims.push(claim));
            lemma_claim_fold(rest, next, service, host);
            if let Ok(end) = try_fold(rest, next, claim_step(service, host)) {
                assert forall|h: Seq<char>, p: Seq<char>| #[trigger]
                    is_claimed(next, h, p) <==> (is_claimed(claims, h, p) || (h == host && p
                        == first.prefix)) by {
                    lemma_first_where_push(claims, claim, claimed(h, p));
                }
                assert forall|a: int| 0 <= a < prefixes.len() implies !is_claimed(
                    claims,
                    host,
                    #[trigger] prefixes[a].prefix,
                ) by {
                    if a > 0 {
                        assert(prefixes[a] == rest[a - 1]);
                        assert(!is_claimed(next, host, rest[a - 1].prefix));
                    }
                }
                assert forall|a: int, b: int| 0 <= a < b < prefixes.len() implies #[trigger]
                    prefixes[a].prefix != #[trigger] prefixes[b].prefix by {
                    assert(prefixes[b] == rest[b - 1]);
                    assert(!is_claimed(next, host, rest[b - 1].prefix));
                    if a > 0 {
                        assert(prefixes[a] == rest[a - 1]);
                    }
                }
                assert forall|h: Seq<char>, p: Seq<char>| #[trigger]
                    is_claimed(end, h, p) <==> (is_claimed(claims, h, p) || (h == host
                        && exists|a: int|
                        0 <= a < prefixes.len() && #[trigger] prefixes[a].prefix == p)) by {
                    if h == host && exists|a: int|
                        0 <= a < prefixes.len() && #[trigger] prefixes[a].prefix == p {
                        let a = choose|a: int|
                            0 <= a < prefixes.len() && #[trigger] prefixes[a].prefix == p;
                        if a > 0 {
                            assert(rest[a - 1] == prefixes[a]);
                            assert(rest[a - 1].prefix == p);
                        }
                    }
                    if h == host && exists|a: int|
                        0 <= a < rest.len() && #[trigger] rest[a].prefix == p {
                        let a = choose|a: int| 0 <= a < rest.len() && #[trigger] rest[a].prefix == p;
                        assert(prefixes[a + 1] == rest[a]);
                        assert(prefixes[a + 1].prefix == p);
                    }
                    if h == host && p == first.prefix {
                        assert(prefixes[0].prefix == p);
                    }
                }
            }
        }
    }
}

proof fn lemma_service_claims(
    deployment: DeploymentSpecView,
    service: ServiceSpecView,
    claims: Seq<HostPrefixClaimView>,
)
    ensures
        claimed_prefixes(
            claims,
            service,
            bound_host(deployment, service),
            prefixes_of(service_override(deployment, service.name)),
        ) matches Ok(end) ==> {
            let host = bound_host(deployment, service);
            let prefixes = public_prefixes(deployment, service);
            &&& forall|a: int|
                0 <= a < prefixes.len() ==> !is_claimed(claims, host, #[trigger] prefixes[a].prefix)
            &&& forall|a: int, b: int|
                0 <= a < b < prefixes.len() ==> #[trigger] prefixes[a].prefix
                    != #[trigger] prefixes[b].prefix
            &&& forall|h: Seq<char>, p: Seq<char>|
                #[trigger] is_claimed(end, h, p) <==> (is_claimed(claims, h, p) || (h == host
                    && exists|a: int| 0 <= a < prefixes.len() && #[trigger] prefixes[a].prefix == p))
        },
{
    let host = bound_host(deployment, service);
    let written = prefixes_of(service_override(deployment, service.name));
    match service.service_type {
        ServiceType::Public => {
            assert(public_prefixes(deployment, service) == written);
            assert(claimed_prefixes(claims, service, host, written) == try_fold(
                written,
                claims,
                claim_step(service.name, host),
            ));
            lemma_claim_fold(written, claims, service.name, host);
        },
        _ => {
            assert(public_prefixes(deployment, service) == Seq::<PrefixView>::empty());
            assert(claimed_prefixes(claims, service, host, written) == Ok::<
                Seq<HostPrefixClaimView>,
                ResolveErrorView,
            >(claims));
        },
    }
}

/// Whether no prefix is claimed twice on one host among the prefixes that
/// the services claim: not by two services, and not by one service twice.
pub open spec fn claims_are_unique(deployment: DeploymentSpecView, services: Seq<ServiceSpecView>) -> bool {
    forall|i: int, a: int, j: int, b: int|
        0 <= i < services.len() && 0 <= a < public_prefixes(deployment, services[i]).len() && 0
            <= j < services.len() && 0 <= b < public_prefixes(deployment, services[j]).len() && (i
            != j || a != b) && bound_host(deployment, services[i]) == bound_host(
            deployment,
            services[j],
        ) ==> #[trigger] public_prefixes(deployment, services[i])[a].prefix
            != #[trigger] public_prefixes(deployment, services[j])[b].prefix
}

proof fn lemma_services_claims(
    services: Seq<ServiceSpecView>,
    state: (Seq<ServiceResolvedSpecView>, Seq<HostPrefixClaimView>),
    env: DeploymentEnvironmentSpecView,
    app: AppSpecView,
    deployment: DeploymentSpecView,
    configs: Seq<ConfigResolvedSpecView>,
    secrets: Seq<SecretResolvedSpecView>,
)
    ensures
        try_fold(services, state, service_step(env, app, deployment, configs, secrets)) is Ok ==> {
            &&& forall|i: int, a: int|
                0 <= i < services.len() && 0 <= a < public_prefixes(deployment, services[i]).len()
                    ==> !is_claimed(
                    state.1,
                    bound_host(deployment, services[i]),
                    #[trigger] public_prefixes(deployment, services[i])[a].prefix,
                )
            &&& claims_are_unique(deployment, services)
        },
    decreases services.len(),
{
    let step = service_step(env, app, deployment, configs, secrets);
    if services.len() > 0 && try_fold(services, state, step) is Ok {
        let first = services[0];
        let rest = services.drop_first();
        let next = step(state, first)->Ok_0;
        let host = bound_host(deployment, first);
        let prefixes = public_prefixes(deployment, first);
        lemma_service_claims(deployment, first, state.1);
        lemma_services_claims(rest, next, env, app, deployment, configs, secrets);
        assert forall|i: int, a: int|
            0 <= i < services.len() && 0 <= a < public_prefixes(
                deployment,
                services[i],
            ).len() implies !is_claimed(
            state.1,
            bound_host(deployment, services[i]),
            #[trigger] public_prefixes(deployment, services[i])[a].prefix,
        ) by {
            if i > 0 {
                assert(services[i] == rest[i - 1]);
                assert(!is_claimed(
                    next.1,
                    bound_host(deployment, rest[i - 1]),
                    public_prefixes(deployment, rest[i - 1])[a].prefix,
                ));
            }
        }
        assert forall|i: int, a: int, j: int, b: int|
            0 <= i < services.len() && 0 <= a < public_prefixes(deployment, services[i]).len()
                && 0 <= j < services.len() && 0 <= b < public_prefixes(
                deployment,
                services[j],
            ).len() && (i != j || a != b) && bound_host(deployment, services[i]) == bound_host(
                deployment,
                services[j],
            ) implies #[trigger] public_prefixes(deployment, services[i])[a].prefix
            != #[trigger] public_prefixes(deployment, services[j])[b].prefix by {
            if i > 0 {
                assert(services[i] == rest[i - 1]);
            }
            if j > 0 {
                assert(services[j] == rest[j - 1]);
            }
            if i == 0 && j > 0 {
                assert(!is_claimed(
                    next.1,
                    bound_host(deployment, rest[j - 1]),
                    public_prefixes(deployment, rest[j - 1])[b].prefix,
                ));
                assert(prefixes[a].prefix == public_prefixes(deployment, services[i])[a].prefix);
            } else if j == 0 && i > 0 {
                assert(!is_claimed(
                    next.1,
                    bound_host(deployment, rest[i - 1]),
                    public_prefixes(deployment, rest[i - 1])[a].prefix,
                ));
                assert(prefixes[b].prefix == public_prefixes(deployment, services[j])[b].prefix);
            } else if i == 0 && j == 0 {
                if a < b {
                    assert(prefixes[a].prefix != prefixes[b].prefix);
                } else {
                    assert(prefixes[b].prefix != prefixes[a].prefix);
                }
            }
        }
    }
}

/// Uniqueness of ingress bindings: where a deployment resolves, no prefix is
/// claimed twice on one host by its public services.
pub proof fn lemma_resolved_claims_unique(
    env: DeploymentEnvironmentSpecView,
    app: AppSpecView,
    deployment_name: Seq<char>,
    sources: HostSnapshotView,
)
    ensures
        resolved_model(env, app, deployment_name, sources) is Ok ==> claims_are_unique(
            env.deployments[first_where(env.deployments, deployment_named(deployment_name))->0],
            app.all_services(),
        ),
{
    if let Some(d) = first_where(env.deployments, deployment_named(deployment_name)) {
        let deployment = env.deployments[d];
        if let Ok(configs) = resolved_configs(app.name, deployment.configs, sources.config_paths) {
            if let Ok(secrets) = resolved_secrets(app.name, deployment.secrets, sources) {
                lemma_services_claims(
                    app.all_services(),
                    (Seq::empty(), Seq::empty()),
                    env,
                    app,
                    deployment,
                    configs,
                    secrets,
                );
            }
        }
    }
}

/// Whether the outside port `port` is among `taken`.
pub open spec fn port_taken(taken: Seq<u16>, port: u16) -> bool {
    first_where(taken, same_port(port)) is Some
}

/// Whether no outside port occurs twice among the ports of the overridden
/// services `entries`: not in two services, and not twice in one.
pub open spec fn outside_ports_are_unique(entries: Seq<DeploymentServiceEntryView>) -> bool {
    forall|i: int, a: int, j: int, b: int|
        0 <= i < entries.len() && 0 <= a < entries[i].spec.ports.len() && 0 <= j < entries.len()
            && 0 <= b < entries[j].spec.ports.len() && (i != j || a != b)
            ==> #[trigger] entries[i].spec.ports[a].external
            != #[trigger] entries[j].spec.ports[b].external
}

/// The rules of a local environment: it maps no registry, it declares
/// exactly one deployment, every service that the deployment overrides has
/// a port, and no outside port occurs twice.
pub open spec fn local_rules(env: DeploymentEnvironmentSpecView) -> bool {
    &&& env.registry.len() == 0
    &&& env.deployments.len() == 1
    &&& (env.deployments[0].services matches Some(entries) ==> (forall|i: int|
        0 <= i < entries.len() ==> (#[trigger] entries[i]).spec.ports.len() > 0)
        && outside_ports_are_unique(entries))
}

proof fn lemma_local_port_fold(ports: Seq<ServicePort>, taken: Seq<u16>)
    ensures
        try_fold(ports, taken, local_port_step()) matches Ok(end) ==> {
            &&& forall|a: int|
                0 <= a < ports.len() ==> !port_taken(taken, #[trigger] ports[a].external)
            &&& forall|a: int, b: int|
                0 <= a < b < ports.len() ==> #[trigger] ports[a].external
                    != #[trigger] ports[b].external
            &&& forall|x: u16| #[trigger]
                port_taken(end, x) <==> (port_taken(taken, x) || exists|a: int|
                    0 <= a < ports.len() && #[trigger] ports[a].external == x)
        },
    decreases ports.len(),
{
    if ports.len() > 0 {
        let first = ports[0];
        let rest = ports.drop_first();
        if let Ok(next) = local_port_step()(taken, first) {
            assert(next == taken.push(first.external));
            lemma_local_port_fold(rest, next);
            if let Ok(end) = try_fold(rest, next, local_port_step()) {
                assert forall|x: u16| #[trigger]
                    port_taken(next, x) <==> (port_taken(taken, x) || x == first.external) by {
                    lemma_first_where_push(taken, first.external, same_port(x));
                }
                assert forall|a: int| 0 <= a < ports.len() implies !port_taken(
                    taken,
                    #[trigger] ports[a].external,
                ) by {
                    if a > 0 {
                        assert(ports[a] == rest[a - 1]);
                        assert(!port_taken(next, rest[a - 1].external));
                    }
                }
                assert forall|a: int, b: int| 0 <= a < b < ports.len() implies #[trigger]
                    ports[a].external != #[trigger] ports[b].external by {
                    assert(ports[b] == rest[b - 1]);
                    assert(!port_taken(next, rest[b - 1].external));
                    if a > 0 {
                        assert(ports[a] == rest[a - 1]);
                    }
                }
                assert forall|x: u16| #[trigger]
                    port_taken(end, x) <==> (port_taken(taken, x) || exists|a: int|
                        0 <= a < ports.len() && #[trigger] ports[a].external == x) by {
                    if exists|a: int| 0 <= a < ports.len() && #[trigger] ports[a].external == x {
                        let a = choose|a: int|
                            0 <= a < ports.len() && #[trigger] ports[a].external == x;
                        if a > 0 {
                            assert(rest[a - 1] == ports[a]);
                            assert(rest[a - 1].external == x);
                        }
                    }
                    if exists|a: int| 0 <= a < rest.len() && #[trigger] rest[a].external == x {
                        let a = choose|a: int|
                            0 <= a < rest.len() && #[trigger] rest[a].external == x;
                        assert(ports[a + 1] == rest[a]);
                        assert(ports[a + 1].external == x);
                    }
                    if x == first.external {
                        assert(ports[0].external == x);
                    }
                }
            }
        }
    }
}

proof fn lemma_local_service_fold(entries: Seq<DeploymentServiceEntryView>, taken: Seq<u16>)
    ensures
        try_fold(entries, taken, local_service_step()) is Ok ==> {
            &&& forall|i: int| 0 <= i < entries.len() ==> (#[trigger] entries[i]).spec.ports.len() > 0
            &&& forall|i: int, a: int|
                0 <= i < entries.len() && 0 <= a < entries[i].spec.ports.len() ==> !port_taken(
                    taken,
                    #[trigger] entries[i].spec.ports[a].external,
                )
            &&& outside_ports_are_unique(entries)
        },
    decreases entries.len(),
{
    let step = local_service_step();
    if entries.len() > 0 && try_fold(entries, taken, step) is Ok {
        let first = entries[0];
        let rest = entries.drop_first();
        let next = step(taken, first)->Ok_0;
        let ports = first.spec.ports;
        lemma_local_port_fold(ports, taken);
        lemma_local_service_fold(rest, next);
        assert forall|i: int| 0 <= i < entries.len() implies (#[trigger] entries[i]).spec.ports.len()
            > 0 by {
            if i > 0 {
                assert(entries[i] == rest[i - 1]);
            }
        }
        assert forall|i: int, a: int|
            0 <= i < entries.len() && 0 <= a < entries[i].spec.ports.len() implies !port_taken(
            taken,
            #[trigger] entries[i].spec.ports[a].external,
        ) by {
            if i > 0 {
                assert(entries[i] == rest[i - 1]);
                assert(!port_taken(next, rest[i - 1].spec.ports[a].external));
            }
        }
        assert forall|i: int, a: int, j: int, b: int|
            0 <= i < entries.len() && 0 <= a < entries[i].spec.ports.len() && 0 <= j
                < entries.len() && 0 <= b < entries[j].spec.ports.len() && (i != j || a
                != b) implies #[trigger] entries[i].spec.ports[a].external
            != #[trigger] entries[j].spec.ports[b].external by {
            if i > 0 {
                assert(entries[i] == rest[i - 1]);
            }
            if j > 0 {
                assert(entries[j] == rest[j - 1]);
            }
            if i == 0 && j > 0 {
                assert(!port_taken(next, rest[j - 1].spec.ports[b].external));
                assert(ports[a].external == entries[i].spec.ports[a].external);
            } else if j == 0 && i > 0 {
                assert(!port_taken(next, rest[i - 1].spec.ports[a].external));
                assert(ports[b].external == entries[j].spec.ports[b].external);
            } else if i == 0 && j == 0 {
                if a < b {
                    assert(ports[a].external != ports[b].external);
                } else {
                    assert(ports[b].external != ports[a].external);
                }
            }
        }
    }
}

/// The invariant of local environments: an environment descriptor that
/// normalizes to a local environment obeys the rules of one.
pub proof fn lemma_local_environment(
    yaml: DeploymentEnvironmentSpecYamlView,
    files: DescriptorFilesView,
)
    ensures
        env_spec_of(yaml, files) matches Ok(env) ==> (env.env_type == DeploymentEnvType::Local
            ==> local_rules(env)),
{
    if let Ok(env) = env_spec_of(yaml, files) {
        if env.env_type == DeploymentEnvType::Local {
            let deployments = env.deployments;
            assert(env_type_of(yaml, deployments) == Ok::<DeploymentEnvType, TransformErrorView>(
                DeploymentEnvType::Local,
            ));
            assert(deployments.len() == 1);
            assert(local_ports(deployments) is Ok);
            let step = local_deployment_step();
            let start = Seq::<u16>::empty();
            assert(deployments.skip(0) =~= deployments);
            lemma_try_fold_step(deployments, 0, start, step);
            if let Some(entries) = deployments[0].services {
                lemma_local_service_fold(entries, start);
            }
        }
    }
}

/// Whether a variable of the name `name` is among `vars`.
pub open spec fn has_name(vars: Seq<EnvVariableView>, name: Seq<char>) -> bool {
    value_of(vars, name) is Some
}

/// After a variable is set, the names among the variables are those that
/// were there and the name of the variable.
pub proof fn lemma_set_var_names(vars: Seq<EnvVariableView>, var: EnvVariableView, name: Seq<char>)
    ensures
        has_name(set_var(vars, var), name) <==> (has_name(vars, name) || name == var.name),
{
    let p = var_named(name);
    let after = set_var(vars, var);
    lemma_first_where_exists(vars, p);
    lemma_first_where_exists(after, p);
    lemma_first_from(vars, var_named(var.name), 0);
    match first_where(vars, var_named(var.name)) {
        Some(k) => {
            assert(var_named(var.name)(vars[k]));
            assert(forall|i: int| 0 <= i < vars.len() ==> after[i].name == vars[i].name);
            if exists|i: int| 0 <= i < vars.len() && p(vars[i]) {
                let i = choose|i: int| 0 <= i < vars.len() && p(vars[i]);
                assert(p(after[i]));
            }
            if exists|i: int| 0 <= i < after.len() && p(after[i]) {
                let i = choose|i: int| 0 <= i < after.len() && p(after[i]);
                assert(p(vars[i]));
            }
            if name == var.name {
                assert(p(vars[k]));
            }
        },
        None => {
            lemma_first_where_push(vars, var, p);
        },
    }
}

/// Whether the value of the external variable `decl` is its default, filled
/// in: the deployment gives it no value, and it declares a default.
pub open spec fn uses_default(decl: ExternalEnvVariableView, values: Seq<EnvVariableView>) -> bool {
    value_of(values, decl.name) is None && decl.default is Some
}

/// Whether an external variable is declared before index `i` under the name
/// `name`.
pub open spec fn external_before(decls: Seq<ExternalEnvVariableView>, i: int, name: Seq<char>) -> bool {
    exists|j: int| 0 <= j < i && j < decls.len() && #[trigger] decls[j].name == name
}

proof fn lemma_external_scope_fold(
    decls: Seq<ExternalEnvVariableView>,
    values: Seq<EnvVariableView>,
    acc: Seq<EnvVariableView>,
)
    ensures
        try_fold(decls, acc, external_step(values)) is Ok ==> forall|i: int, k: int|
            0 <= i < decls.len() && uses_default(decls[i], values) && 0 <= k < referenced_names(
                decls[i].default->0,
                0,
            ).len() ==> {
                let name = #[trigger] referenced_names(decls[i].default->0, 0)[k];
                has_name(acc, name) || external_before(decls, i, name)
            },
    decreases decls.len(),
{
    let step = external_step(values);
    if decls.len() > 0 && try_fold(decls, acc, step) is Ok {
        let first = decls[0];
        let rest = decls.drop_first();
        let next = step(acc, first)->Ok_0;
        lemma_external_scope_fold(rest, values, next);
        assert forall|i: int, k: int|
            0 <= i < decls.len() && uses_default(decls[i], values) && 0 <= k < referenced_names(
                decls[i].default->0,
                0,
            ).len() implies {
            let name = #[trigger] referenced_names(decls[i].default->0, 0)[k];
            has_name(acc, name) || external_before(decls, i, name)
        } by {
            let name = referenced_names(decls[i].default->0, 0)[k];
            if i == 0 {
                lemma_interpolation_defines_references(first.default->0, 0, acc);
            } else {
                assert(decls[i] == rest[i - 1]);
                assert(has_name(next, name) || external_before(rest, i - 1, name));
                if external_before(rest, i - 1, name) {
                    let j = choose|j: int|
                        0 <= j < i - 1 && j < rest.len() && #[trigger] rest[j].name == name;
                    assert(decls[j + 1] == rest[j]);
                    assert(decls[j + 1].name == name);
                } else {
                    // What the first declaration set is the variable of its name.
                    let value = match value_of(values, first.name) {
                        Some(v) => v,
                        None => interpolate(first.default->0, acc)->Ok_0,
                    };
                    lemma_set_var_names(acc, EnvVariableView { name: first.name, value }, name);
                    if name == first.name {
                        assert(decls[0].name == name);
                    }
                }
            }
        }
    }
}

/// Tier order: where the variables of an application resolve, every name
/// that a default of the external tier refers to, where the default is
/// used, is the name of an external variable declared before it. A default
/// cannot refer to a variable of a later tier, nor to one declared after it.
pub proof fn lemma_external_defaults_look_back(
    env: AppEnvironmentView,
    values: Seq<EnvVariableView>,
    host: Option<Seq<char>>,
)
    ensures
        app_env_vars(env, values, host) is Ok ==> forall|i: int, k: int|
            0 <= i < env.external.len() && uses_default(env.external[i], values) && 0 <= k
                < referenced_names(env.external[i].default->0, 0).len() ==> external_before(
                env.external,
                i,
                #[trigger] referenced_names(env.external[i].default->0, 0)[k],
            ),
{
    let start = Seq::<EnvVariableView>::empty();
    lemma_external_scope_fold(env.external, values, start);
    assert forall|name: Seq<char>| !has_name(start, name) by {
        lemma_first_where_exists(start, var_named(name));
    }
}

/// Whether every value of the relative tier starts with `/`.
pub open spec fn relative_values_are_paths(relative: Seq<RelativeEnvVariableView>) -> bool {
    forall|i: int|
        0 <= i < relative.len() ==> (#[trigger] relative[i]).relative_value.len() > 0
            && relative[i].relative_value[0] == '/'
}

/// In the declarations that normalization yields, every value of the
/// relative tier starts with `/`.
pub proof fn lemma_relative_values_are_paths(yaml: AppEnvironmentYamlView)
    ensures
        environment_of(yaml) matches Ok(env) ==> relative_values_are_paths(env.relative),
{
    let inv = |acc: Seq<RelativeEnvVariableView>| relative_values_are_paths(acc);
    let step = relative_decl_step();
    let texts = texts_of(yaml.relative);
    assert forall|acc: Seq<RelativeEnvVariableView>, i: int|
        0 <= i < texts.len() && inv(acc) && (#[trigger] step(acc, texts[i])) is Ok implies inv(
        step(acc, texts[i])->Ok_0,
    ) by {
        let next = step(acc, texts[i])->Ok_0;
        assert forall|j: int| 0 <= j < next.len() implies (#[trigger] next[j]).relative_value.len()
            > 0 && next[j].relative_value[0] == '/' by {
            if j < acc.len() {
                assert(next[j] == acc[j]);
            }
        }
    }
    lemma_try_fold_invariant(texts, Seq::empty(), step, inv);
}

/// Whether no prefix occurs twice among `routes`.
pub open spec fn distinct_prefixes(routes: Seq<IngressToServiceRuleView>) -> bool {
    forall|r: int, q: int|
        0 <= r < q < routes.len() ==> (#[trigger] routes[r]).prefix != (#[trigger] routes[q]).prefix
}

/// Whether the route `route` on the host `host` stems from the prefix of
/// index `a` of the service of index `i`, one of the first `k` services.
spec fn stems_from(
    deployment: DeploymentSpecView,
    services: Seq<ServiceSpecView>,
    host: Seq<char>,
    k: int,
    route: IngressToServiceRuleView,
    i: int,
    a: int,
) -> bool {
    &&& 0 <= i < k
    &&& i < services.len()
    &&& 0 <= a < public_prefixes(deployment, services[i]).len()
    &&& bound_host(deployment, services[i]) == host
    &&& public_prefixes(deployment, services[i])[a].prefix == route.prefix
}

/// Whether the route `route` on the host `host` stems from a prefix that one
/// of the first `k` services claims on that host.
spec fn stems(
    deployment: DeploymentSpecView,
    services: Seq<ServiceSpecView>,
    host: Seq<char>,
    k: int,
    route: IngressToServiceRuleView,
) -> bool {
    exists|i: int, a: int| #[trigger] stems_from(deployment, services, host, k, route, i, a)
}

proof fn lemma_service_routes(
    app: Seq<char>,
    deployment: DeploymentSpecView,
    host: Seq<char>,
    service: ServiceSpecView,
)
    ensures
        ({
            let routes = service_routes(app, deployment, host, service);
            let prefixes = public_prefixes(deployment, service);
            if routes.len() > 0 {
                &&& bound_host(deployment, service) == host
                &&& routes.len() == prefixes.len()
                &&& forall|a: int|
                    0 <= a < routes.len() ==> (#[trigger] routes[a]).prefix == prefixes[a].prefix
            } else {
                true
            }
        }),
{
}

proof fn lemma_routes_distinct_from(
    app: AppSpecView,
    deployment: DeploymentSpecView,
    host: Seq<char>,
    k: int,
    acc: Seq<IngressToServiceRuleView>,
)
    requires
        0 <= k <= app.all_services().len(),
        claims_are_unique(deployment, app.all_services()),
        distinct_prefixes(acc),
        forall|r: int|
            0 <= r < acc.len() ==> #[trigger] stems(
                deployment,
                app.all_services(),
                host,
                k,
                acc[r],
            ),
    ensures
        distinct_prefixes(
            fold(app.all_services().skip(k), acc, routes_step(app.name, deployment, host)),
        ),
    decreases app.all_services().len() - k,
{
    let services = app.all_services();
    let step = routes_step(app.name, deployment, host);
    lemma_fold_step(services, k, acc, step);
    if k < services.len() {
        let service = services[k];
        let routes = service_routes(app.name, deployment, host, service);
        let prefixes = public_prefixes(deployment, service);
        let next = acc + routes;
        lemma_service_routes(app.name, deployment, host, service);
        assert forall|r: int| 0 <= r < next.len() implies #[trigger] stems(
            deployment,
            services,
            host,
            k + 1,
            next[r],
        ) by {
            if r < acc.len() {
                assert(next[r] == acc[r]);
                assert(stems(deployment, services, host, k, acc[r]));
                let (i, a) = choose|i: int, a: int| #[trigger]
                    stems_from(deployment, services, host, k, acc[r], i, a);
                assert(stems_from(deployment, services, host, k + 1, next[r], i, a));
            } else {
                let a = r - acc.len();
                assert(next[r] == routes[a]);
                assert(stems_from(deployment, services, host, k + 1, next[r], k, a));
            }
        }
        assert forall|r: int, q: int| 0 <= r < q < next.len() implies (#[trigger] next[r]).prefix != (
        #[trigger] next[q]).prefix by {
            if q < acc.len() {
                assert(next[r] == acc[r] && next[q] == acc[q]);
            } else {
                let b = q - acc.len();
                assert(next[q] == routes[b]);
                assert(routes[b].prefix == prefixes[b].prefix);
                if r < acc.len() {
                    assert(next[r] == acc[r]);
                    assert(stems(deployment, services, host, k, acc[r]));
                    let (i, a) = choose|i: int, a: int| #[trigger]
                        stems_from(deployment, services, host, k, acc[r], i, a);
                    assert(public_prefixes(deployment, services[i])[a].prefix
                        != public_prefixes(deployment, services[k])[b].prefix);
                } else {
                    let a = r - acc.len();
                    assert(next[r] == routes[a]);
                    assert(routes[a].prefix == prefixes[a].prefix);
                    assert(public_prefixes(deployment, services[k])[a].prefix
                        != public_prefixes(deployment, services[k])[b].prefix);
                }
            }
        }
        lemma_routes_distinct_from(app, deployment, host, k + 1, next);
    }
}

/// Whether no rule of `rules` routes one prefix twice.
pub open spec fn rules_route_once(rules: Seq<IngressRuleView>) -> bool {
    forall|i: int| 0 <= i < rules.len() ==> distinct_prefixes((#[trigger] rules[i]).services)
}

proof fn lemma_rules_route_once(
    hosts: Seq<HostSpecView>,
    app: AppSpecView,
    deployment: DeploymentSpecView,
)
    requires
        claims_are_unique(deployment, app.all_services()),
    ensures
        rules_route_once(ingress_rules(hosts, app, deployment)),
{
    let inv = |rules: Seq<IngressRuleView>| rules_route_once(rules);
    let step = host_step(app, deployment);
    assert forall|rules: Seq<IngressRuleView>, i: int| 0 <= i < hosts.len() && inv(rules) implies inv(
        #[trigger] step(rules, hosts[i]),
    ) by {
        let routes = host_routes(app, deployment, hosts[i].name);
        assert(app.all_services().skip(0) =~= app.all_services());
        lemma_routes_distinct_from(app, deployment, hosts[i].name, 0, Seq::empty());
        let inner = domain_step(routes);
        let domains = hosts[i].domain_names;
        assert forall|acc: Seq<IngressRuleView>, k: int|
            0 <= k < domains.len() && inv(acc) implies inv(#[trigger] inner(acc, domains[k])) by {
            let next = inner(acc, domains[k]);
            assert forall|j: int| 0 <= j < next.len() implies distinct_prefixes(
                (#[trigger] next[j]).services,
            ) by {
                if j < acc.len() {
                    assert(next[j] == acc[j]);
                }
            }
        }
        lemma_fold_invariant(domains, rules, inner, inv);
    }
    lemma_fold_invariant(hosts, Seq::empty(), step, inv);
}

/// In a resolved model every rule of the ingress holds a route, and none
/// routes one prefix of its domain twice.
pub proof fn lemma_resolved_ingress(
    env: DeploymentEnvironmentSpecView,
    app: AppSpecView,
    deployment_name: Seq<char>,
    sources: HostSnapshotView,
)
    ensures
        resolved_model(env, app, deployment_name, sources) matches Ok(model) ==> rules_hold_routes(
            model.ingress.rules,
        ) && rules_route_once(model.ingress.rules),
{
    if let Ok(model) = resolved_model(env, app, deployment_name, sources) {
        let d = first_where(env.deployments, deployment_named(deployment_name))->0;
        let deployment = env.deployments[d];
        lemma_resolved_claims_unique(env, app, deployment_name, sources);
        lemma_ingress_rules_hold_routes(env.ingress.hosts, app, deployment);
        lemma_rules_route_once(env.ingress.hosts, app, deployment);
    }
}

/// Whether no key occurs twice among the entries of a written mapping.
pub open spec fn keys_are_unique<T>(entries: Seq<(Seq<char>, T)>) -> bool {
    forall|i: int, j: int|
        0 <= i < j < entries.len() ==> (#[trigger] entries[i]).0 != (#[trigger] entries[j]).0
}

/// Whether no key occurs twice among the entries of a written mapping that
/// may be absent.
pub open spec fn written_keys_are_unique<T>(entries: Option<Seq<(Seq<char>, T)>>) -> bool {
    match entries {
        Some(e) => keys_are_unique(e),
        None => true,
    }
}

/// Whether the mappings of a written environment are mappings: its
/// registry, its hosts, its deployments, and the overrides of each
/// deployment.
pub open spec fn written_mappings(yaml: DeploymentEnvironmentSpecYamlView) -> bool {
    &&& written_keys_are_unique(yaml.registry)
    &&& keys_are_unique(yaml.ingress.hosts)
    &&& keys_are_unique(yaml.deployments)
    &&& forall|d: int|
        0 <= d < yaml.deployments.len() ==> written_keys_are_unique(
            (#[trigger] yaml.deployments[d]).1.services,
        )
}

proof fn lemma_overrides_keep_keys(
    entries: Seq<(Seq<char>, DeploymentServiceSpecYamlView)>,
    defaults: ResourcesSpecView,
)
    ensures
        try_fold(entries, Seq::empty(), override_step(defaults)) matches Ok(overrides) ==> {
            &&& overrides.len() == entries.len()
            &&& forall|k: int|
                0 <= k < entries.len() ==> overrides[k].service_name == (#[trigger] entries[k]).0
        },
{
    let rel = |e: (Seq<char>, DeploymentServiceSpecYamlView), o: DeploymentServiceEntryView|
        o.service_name == e.0;
    let step = override_step(defaults);
    assert forall|acc: Seq<DeploymentServiceEntryView>, i: int|
        0 <= i < entries.len() && (#[trigger] step(acc, entries[i])) is Ok implies {
        let next = step(acc, entries[i])->Ok_0;
        next.len() == acc.len() + 1 && next.drop_last() == acc && rel(entries[i], next.last())
    } by {
        let next = step(acc, entries[i])->Ok_0;
        assert(next.drop_last() =~= acc);
    }
    lemma_try_fold_appends(entries, Seq::empty(), step, rel);
}

/// Normalization keeps mappings: the environment that a written environment
/// normalizes to names no registry namespace, no ingress host, no deployment
/// and no overridden service twice, where the written one does not.
pub proof fn lemma_normalization_keeps_mappings(
    yaml: DeploymentEnvironmentSpecYamlView,
    files: DescriptorFilesView,
)
    requires
        written_mappings(yaml),
    ensures
        env_spec_of(yaml, files) matches Ok(env) ==> env.holds_mappings(),
{
    if let Ok(env) = env_spec_of(yaml, files) {
        let rel = |e: (Seq<char>, DeploymentSpecYamlView), d: DeploymentSpecView|
            d.name == e.0 && match e.1.services {
                Some(w) => d.services is Some && d.services->0.len() == w.len() && forall|k: int|
                    0 <= k < w.len() ==> d.services->0[k].service_name == (#[trigger] w[k]).0,
                None => d.services is None,
            };
        let step = deployment_step(files);
        assert forall|acc: Seq<DeploymentSpecView>, i: int|
            0 <= i < yaml.deployments.len() && (#[trigger] step(acc, yaml.deployments[i])) is Ok implies {
            let next = step(acc, yaml.deployments[i])->Ok_0;
            next.len() == acc.len() + 1 && next.drop_last() == acc && rel(
                yaml.deployments[i],
                next.last(),
            )
        } by {
            let e = yaml.deployments[i];
            let next = step(acc, e)->Ok_0;
            assert(next.drop_last() =~= acc);
            if let Some(w) = e.1.services {
                lemma_overrides_keep_keys(w, deployment_defaults_of(e.1.defaults));
            }
        }
        lemma_try_fold_appends(yaml.deployments, Seq::empty(), step, rel);
        assert forall|d: int| 0 <= d < env.deployments.len() implies (
        #[trigger] env.deployments[d]).overrides_are_unique() by {
            assert(rel(yaml.deployments[d], env.deployments[d]));
            assert(written_keys_are_unique(yaml.deployments[d].1.services));
            if let Some(w) = yaml.deployments[d].1.services {
                let entries = env.deployments[d].services->0;
                assert forall|i: int, j: int| 0 <= i < j < entries.len() implies (
                #[trigger] entries[i]).service_name != (#[trigger] entries[j]).service_name by {
                    assert(entries[i].service_name == w[i].0);
                    assert(entries[j].service_name == w[j].0);
                }
            }
        }
        assert(env.deployments_are_unique()) by {
            assert forall|i: int, j: int| 0 <= i < j < env.deployments.len() implies (
            #[trigger] env.deployments[i]).name != (#[trigger] env.deployments[j]).name by {
                assert(rel(yaml.deployments[i], env.deployments[i]));
                assert(rel(yaml.deployments[j], env.deployments[j]));
            }
        }
        assert(env.registry_is_a_mapping());
        assert(env.hosts_are_unique());
    }
}

/// An unterminated quote is malformed: no descriptor is accepted whose
/// written value opens with a quote and does not close with the same quote.
/// The value of an accepted descriptor is the written value as it stands, or
/// what stands between the pair of quotes that wraps it.
pub proof fn lemma_accepted_values_close_their_quotes(line: Seq<char>, eq: int)
    ensures
        ({
            let written = trimmed(line.subrange(eq + 1, line.len() as int));
            match parsed_assignment(line, eq) {
                Ok(d) => if opens_with_quote(written) {
                    quoted_with(written, written[0]) && d.default == Some(
                        written.subrange(1, written.len() - 1),
                    )
                } else {
                    d.default == Some(written)
                },
                Err(e) => e.kind() == ErrorKind::MalformedInput,
            }
        }),
{
}

} // verus!
