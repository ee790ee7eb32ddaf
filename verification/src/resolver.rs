//! Resolution of a deployment: configs, then secrets, then every service,
//! then the ingress. It succeeds as a whole or fails at the first broken rule.

use vstd::prelude::*;
use crate::error::{ResolveError, ResolveErrorView};
use crate::images::{resolve_service_image, service_image};
use crate::ingress::{
    all_domains, claim_prefixes, claimed_prefixes, collect_domains, HostPrefixClaim,
    HostPrefixClaimView, ingress_rules, resolve_ingress_rules, resolve_tls, resolved_tls,
};
use crate::lookup::{
    deployment_named, find_deployment, find_host, find_override, host_named, override_for,
};
use crate::resolved_spec::{
    ConfigResolvedSpec, ConfigResolvedSpecView, DeploymentResolvedSpec, DeploymentResolvedSpecView,
    EnvironmentResolvedSpec, EnvironmentResolvedSpecView, IngressResolvedSpec,
    IngressResolvedSpecView, SecretResolvedSpec, SecretResolvedSpecView, ServiceResolvedSpec,
    ServiceResolvedSpecView,
};
use crate::seqs::{first_where, lemma_try_fold_step, result_view, try_fold};
use crate::sources::{HostSnapshot, HostSnapshotView};
use crate::spec::{
    AppEnvironmentView, AppSpec, AppSpecView, DeploymentEnvironmentSpec,
    DeploymentEnvironmentSpecView, DeploymentServiceSpec, DeploymentServiceSpecView, DeploymentSpec,
    DeploymentSpecView, EnvVariable, EnvVariableView, HostSpecView, Prefix, PrefixView, ServicePort,
    ServiceSpec, ServiceSpecView,
};
use crate::supplies::{
    full_name, qualified, resolve_configs, resolve_secrets, resolve_service_configs,
    resolve_service_secrets, resolved_configs, resolved_secrets, service_configs, service_secrets,
};
use crate::variables::{
    add_unique_vars, app_env_vars, filter_service_env_vars, resolve_app_env_vars, service_env_vars,
    set_vars,
};

pub use crate::interpolation::resolve_variable_in_string;

verus! {

/// What the deployment overrides for the service of the name `service`, if
/// it overrides anything.
pub open spec fn service_override(deployment: DeploymentSpecView, service: Seq<char>) -> Option<
    DeploymentServiceSpecView,
> {
    match deployment.services {
        Some(entries) => match first_where(entries, override_for(service)) {
            Some(i) => Some(entries[i].spec),
            None => None,
        },
        None => None,
    }
}

/// The image variant that a service runs: the one its override names, else
/// `default`.
pub open spec fn variant_of(overridden: Option<DeploymentServiceSpecView>) -> Seq<char> {
    match overridden {
        Some(o) => match o.variant {
            Some(v) => v,
            None => "default"@,
        },
        None => "default"@,
    }
}

/// The prefixes that a service declares: those of its override, else none.
pub open spec fn prefixes_of(overridden: Option<DeploymentServiceSpecView>) -> Seq<PrefixView> {
    match overridden {
        Some(o) => o.prefixes,
        None => Seq::empty(),
    }
}

/// The name of the ingress host that a service is bound to: the one its
/// override names, else the primary host of the deployment.
pub open spec fn host_of(
    deployment: DeploymentSpecView,
    overridden: Option<DeploymentServiceSpecView>,
) -> Seq<char> {
    match overridden {
        Some(o) => match o.host {
            Some(h) => h,
            None => deployment.primary_host,
        },
        None => deployment.primary_host,
    }
}

/// The first domain of the ingress host of the name `host`, if there is such
/// a host and it has a domain.
pub open spec fn host_domain(hosts: Seq<HostSpecView>, host: Seq<char>) -> Option<Seq<char>> {
    match first_where(hosts, host_named(host)) {
        Some(i) => if hosts[i].domain_names.len() > 0 {
            Some(hosts[i].domain_names[0])
        } else {
            None
        },
        None => None,
    }
}

/// The ports of a service: those of its override where it has one, else
/// those that the application declares.
pub open spec fn ports_of(
    service: ServiceSpecView,
    overridden: Option<DeploymentServiceSpecView>,
) -> Seq<ServicePort> {
    match overridden {
        Some(o) => o.ports,
        None => service.ports,
    }
}

/// The values that a deployment gives to variables when the services run
/// outside containers: its values, with those for that case set over them.
pub open spec fn undockerized_values(deployment: DeploymentSpecView) -> Seq<EnvVariableView> {
    set_vars(deployment.environment, deployment.undockerized_environment)
}

/// The variables of a service on the domain `domain`, from the values
/// `values` of the deployment: all variables resolved, then those selected
/// that the service asks for.
pub open spec fn service_vars(
    env: AppEnvironmentView,
    values: Seq<EnvVariableView>,
    domain: Seq<char>,
    service: ServiceSpecView,
) -> Result<Seq<EnvVariableView>, ResolveErrorView> {
    match app_env_vars(env, values, Some(domain)) {
        Ok(all) => service_env_vars(service, all),
        Err(e) => Err(e),
    }
}

/// One service resolved, and the claims on host prefixes after it.
///
/// The checks come in this order, and the first that fails gives the error:
/// the host, the image, the prefixes, the variables, the variables outside
/// containers, the configs, the secrets.
pub open spec fn resolved_service(
    env: DeploymentEnvironmentSpecView,
    app: AppSpecView,
    deployment: DeploymentSpecView,
    configs: Seq<ConfigResolvedSpecView>,
    secrets: Seq<SecretResolvedSpecView>,
    claims: Seq<HostPrefixClaimView>,
    service: ServiceSpecView,
) -> Result<(ServiceResolvedSpecView, Seq<HostPrefixClaimView>), ResolveErrorView> {
    let overridden = service_override(deployment, service.name);
    let host = host_of(deployment, overridden);
    match host_domain(env.ingress.hosts, host) {
        None => Err(ResolveErrorView::HostNotFound { service: service.name, host }),
        Some(domain) => match service_image(env, app.version, service, variant_of(overridden)) {
            Err(e) => Err(e),
            Ok(image) => match claimed_prefixes(claims, service, host, prefixes_of(overridden)) {
                Err(e) => Err(e),
                Ok(claimed) => match service_vars(
                    app.environment,
                    deployment.environment,
                    domain,
                    service,
                ) {
                    Err(e) => Err(e),
                    Ok(vars) => match service_vars(
                        app.environment,
                        undockerized_values(deployment),
                        domain,
                        service,
                    ) {
                        Err(e) => Err(e),
                        Ok(undockerized) => match service_configs(app.name, service, configs) {
                            Err(e) => Err(e),
                            Ok(mounted) => match service_secrets(app.name, service, secrets) {
                                Err(e) => Err(e),
                                Ok(bound) => Ok(
                                    (
                                        ServiceResolvedSpecView {
                                            service_type: service.service_type,
                                            full_name: full_name(app.name, service.name),
                                            image,
                                            service_host: Some(domain),
                                            environment_variables: vars,
                                            undockerized_environment_variables: undockerized,
                                            configs: mounted,
                                            secrets: bound,
                                            ports: ports_of(service, overridden),
                                        },
                                        claimed,
                                    ),
                                ),
                            },
                        },
                    },
                },
            },
        },
    }
}

/// Finds what the deployment overrides for the service of the name `service`.
pub fn find_service_override<'a>(deployment: &'a DeploymentSpec, service: &str) -> (r: Option<
    &'a DeploymentServiceSpec,
>)
    ensures
        r.deep_view() == service_override(deployment@, service@),
{
    match &deployment.services {
        Some(entries) => match find_override(entries, service) {
            Some(i) => Some(&entries[i].spec),
            None => None,
        },
        None => None,
    }
}

fn find_host_domain<'a>(env_spec: &'a DeploymentEnvironmentSpec, host: &str) -> (r: Option<
    &'a String,
>)
    ensures
        r.deep_view() == host_domain(env_spec@.ingress.hosts, host@),
{
    match find_host(&env_spec.ingress.hosts, host) {
        Some(i) => {
            let domains = &env_spec.ingress.hosts[i].domain_names;
            if domains.len() > 0 {
                Some(&domains[0])
            } else {
                None
            }
        },
        None => None,
    }
}

fn resolve_service_vars(
    app_spec: &AppSpec,
    values: &[EnvVariable],
    domain: &String,
    service: &ServiceSpec,
) -> (r: Result<Vec<EnvVariable>, ResolveError>)
    ensures
        result_view(r) == service_vars(
            app_spec@.environment,
            values.deep_view(),
            domain@,
            service@,
        ),
{
    match resolve_app_env_vars(app_spec, values, Some(domain)) {
        Ok(all) => filter_service_env_vars(service, all.as_slice()),
        Err(e) => Err(e),
    }
}

fn resolve_service(
    env_spec: &DeploymentEnvironmentSpec,
    app_spec: &AppSpec,
    deployment: &DeploymentSpec,
    configs: &Vec<ConfigResolvedSpec>,
    secrets: &Vec<SecretResolvedSpec>,
    claims: Vec<HostPrefixClaim>,
    service: &ServiceSpec,
) -> (r: Result<(ServiceResolvedSpec, Vec<HostPrefixClaim>), ResolveError>)
    ensures
        result_view(r) == resolved_service(
            env_spec@,
            app_spec@,
            deployment@,
            configs.deep_view(),
            secrets.deep_view(),
            claims.deep_view(),
            service@,
        ),
{
    let overridden = find_service_override(deployment, service.name.as_str());
    let host_name = match overridden {
        Some(o) => match &o.host {
            Some(h) => h.clone(),
            None => deployment.primary_host.clone(),
        },
        None => deployment.primary_host.clone(),
    };
    let domain = match find_host_domain(env_spec, host_name.as_str()) {
        Some(d) => d,
        None => {
            return Err(
                ResolveError::HostNotFound { service: service.name.clone(), host: host_name },
            );
        },
    };
    let variant: &str = match overridden {
        Some(o) => match &o.variant {
            Some(v) => v.as_str(),
            None => "default",
        },
        None => "default",
    };
    let image = match resolve_service_image(env_spec, app_spec, service, variant) {
        Ok(image) => image,
        Err(e) => {
            return Err(e);
        },
    };
    let no_prefixes: Vec<Prefix> = Vec::new();
    assert(no_prefixes.deep_view() =~= Seq::empty());
    let prefixes = match overridden {
        Some(o) => &o.prefixes,
        None => &no_prefixes,
    };
    let claimed = match claim_prefixes(claims, service, &host_name, prefixes) {
        Ok(claimed) => claimed,
        Err(e) => {
            return Err(e);
        },
    };
    let vars = match resolve_service_vars(
        app_spec,
        deployment.environment.as_slice(),
        domain,
        service,
    ) {
        Ok(vars) => vars,
        Err(e) => {
            return Err(e);
        },
    };
    let mut values = deployment.environment.clone();
    assert(values.deep_view() =~= deployment.environment.deep_view());
    add_unique_vars(&mut values, deployment.undockerized_environment.as_slice());
    let undockerized = match resolve_service_vars(app_spec, values.as_slice(), domain, service) {
        Ok(vars) => vars,
        Err(e) => {
            return Err(e);
        },
    };
    let mounted = match resolve_service_configs(&app_spec.name, service, configs) {
        Ok(mounted) => mounted,
        Err(e) => {
            return Err(e);
        },
    };
    let bound = match resolve_service_secrets(&app_spec.name, service, secrets) {
        Ok(bound) => bound,
        Err(e) => {
            return Err(e);
        },
    };
    let ports = match overridden {
        Some(o) => {
            let ports = o.ports.clone();
            assert(ports.deep_view() =~= o.ports.deep_view());
            ports
        },
        None => {
            let ports = service.ports.clone();
            assert(ports.deep_view() =~= service.ports.deep_view());
            ports
        },
    };
    Ok(
        (
            ServiceResolvedSpec {
                service_type: service.service_type,
                full_name: qualified(app_spec.name.as_str(), service.name.as_str()),
                image,
                service_host: Some(domain.clone()),
                environment_variables: vars,
                undockerized_environment_variables: undockerized,
                configs: mounted,
                secrets: bound,
                ports,
            },
            claimed,
        ),
    )
}

/// Adds one service, resolved, to the services resolved so far. The state
/// holds those services and the claims on host prefixes.
pub open spec fn service_step(
    env: DeploymentEnvironmentSpecView,
    app: AppSpecView,
    deployment: DeploymentSpecView,
    configs: Seq<ConfigResolvedSpecView>,
    secrets: Seq<SecretResolvedSpecView>,
) -> spec_fn(
    (Seq<ServiceResolvedSpecView>, Seq<HostPrefixClaimView>),
    ServiceSpecView,
) -> Result<(Seq<ServiceResolvedSpecView>, Seq<HostPrefixClaimView>), ResolveErrorView> {
    |state: (Seq<ServiceResolvedSpecView>, Seq<HostPrefixClaimView>), service: ServiceSpecView|
        match resolved_service(env, app, deployment, configs, secrets, state.1, service) {
            Ok(done) => Ok((state.0.push(done.0), done.1)),
            Err(e) => Err(e),
        }
}

/// The services of the application, resolved in order: those it builds, then
/// the extra ones.
pub open spec fn resolved_services(
    env: DeploymentEnvironmentSpecView,
    app: AppSpecView,
    deployment: DeploymentSpecView,
    configs: Seq<ConfigResolvedSpecView>,
    secrets: Seq<SecretResolvedSpecView>,
) -> Result<(Seq<ServiceResolvedSpecView>, Seq<HostPrefixClaimView>), ResolveErrorView> {
    try_fold(
        app.all_services(),
        (Seq::empty(), Seq::empty()),
        service_step(env, app, deployment, configs, secrets),
    )
}

/// The deployment `deployment` of `app` into `env`, resolved: configs, then
/// secrets, then the services, then the ingress.
pub open spec fn resolved_deployment(
    env: DeploymentEnvironmentSpecView,
    app: AppSpecView,
    deployment: DeploymentSpecView,
    sources: HostSnapshotView,
) -> Result<EnvironmentResolvedSpecView, ResolveErrorView> {
    match resolved_configs(app.name, deployment.configs, sources.config_paths) {
        Err(e) => Err(e),
        Ok(configs) => match resolved_secrets(app.name, deployment.secrets, sources) {
            Err(e) => Err(e),
            Ok(secrets) => match resolved_services(env, app, deployment, configs, secrets) {
                Err(e) => Err(e),
                Ok(state) => Ok(
                    EnvironmentResolvedSpecView {
                        ingress: IngressResolvedSpecView {
                            name: env.ingress.name,
                            tls: resolved_tls(env.ingress.tls),
                            domains: all_domains(env.ingress.hosts),
                            rules: ingress_rules(env.ingress.hosts, app, deployment),
                        },
                        current_deployment: DeploymentResolvedSpecView {
                            name: deployment.name,
                            application_name: deployment.application.name,
                            configs,
                            secrets,
                            defaults: deployment.defaults,
                            services: state.0,
                        },
                        env_type: env.env_type,
                    },
                ),
            },
        },
    }
}

/// The resolved model of the deployment of the name `deployment_name`: of
/// the first deployment of that name in `env`.
///
/// Resolution is a function of the two descriptors, the name and the
/// snapshot: the same arguments give the same model, or the same error.
pub open spec fn resolved_model(
    env: DeploymentEnvironmentSpecView,
    app: AppSpecView,
    deployment_name: Seq<char>,
    sources: HostSnapshotView,
) -> Result<EnvironmentResolvedSpecView, ResolveErrorView> {
    match first_where(env.deployments, deployment_named(deployment_name)) {
        None => Err(ResolveErrorView::DeploymentNotFound { deployment: deployment_name }),
        Some(i) => resolved_deployment(env, app, env.deployments[i], sources),
    }
}

fn resolve_services(
    env_spec: &DeploymentEnvironmentSpec,
    app_spec: &AppSpec,
    deployment: &DeploymentSpec,
    configs: &Vec<ConfigResolvedSpec>,
    secrets: &Vec<SecretResolvedSpec>,
) -> (r: Result<(Vec<ServiceResolvedSpec>, Vec<HostPrefixClaim>), ResolveError>)
    ensures
        result_view(r) == resolved_services(
            env_spec@,
            app_spec@,
            deployment@,
            configs.deep_view(),
            secrets.deep_view(),
        ),
{
    let ghost step = service_step(
        env_spec@,
        app_spec@,
        deployment@,
        configs.deep_view(),
        secrets.deep_view(),
    );
    let services = app_spec.all_services();
    let mut resolved: Vec<ServiceResolvedSpec> = Vec::new();
    let mut claims: Vec<HostPrefixClaim> = Vec::new();
    let mut i: usize = 0;
    proof {
        assert(services.deep_view().skip(0) =~= services.deep_view());
        assert(resolved.deep_view() =~= Seq::empty());
        assert(claims.deep_view() =~= Seq::empty());
    }
    while i < services.len()
        invariant
            i <= services.len(),
            services.deep_view() == app_spec@.all_services(),
            step == service_step(
                env_spec@,
                app_spec@,
                deployment@,
                configs.deep_view(),
                secrets.deep_view(),
            ),
            resolved_services(
                env_spec@,
                app_spec@,
                deployment@,
                configs.deep_view(),
                secrets.deep_view(),
            ) == try_fold(
                services.deep_view().skip(i as int),
                (resolved.deep_view(), claims.deep_view()),
                step,
            ),
        decreases services.len() - i,
    {
        proof {
            lemma_try_fold_step(
                services.deep_view(),
                i as int,
                (resolved.deep_view(), claims.deep_view()),
                step,
            );
        }
        let ghost before = resolved.deep_view();
        match resolve_service(env_spec, app_spec, deployment, configs, secrets, claims, services[i]) {
            Ok((service, claimed)) => {
                resolved.push(service);
                assert(resolved.deep_view() =~= before.push(service@));
                claims = claimed;
            },
            Err(e) => {
                return Err(e);
            },
        }
        i += 1;
    }
    proof {
        lemma_try_fold_step(
            services.deep_view(),
            i as int,
            (resolved.deep_view(), claims.deep_view()),
            step,
        );
    }
    Ok((resolved, claims))
}

/// Resolution is a function of the two descriptors, the name of the
/// deployment and the snapshot of files and process environment: two runs of
/// [`resolve`] on the same arguments end alike, with the same model, value
/// for value, or with the same error.
pub proof fn lemma_resolve_deterministic(
    env: DeploymentEnvironmentSpecView,
    app: AppSpecView,
    deployment_name: Seq<char>,
    sources: HostSnapshotView,
    first: Result<EnvironmentResolvedSpec, ResolveError>,
    second: Result<EnvironmentResolvedSpec, ResolveError>,
)
    requires
        result_view(first) == resolved_model(env, app, deployment_name, sources),
        result_view(second) == resolved_model(env, app, deployment_name, sources),
    ensures
        result_view(first) == result_view(second),
{
}

/// Resolves the deployment of the name `deployment_name` of `app_spec` into
/// `env_spec`. `sources` holds what the deployment reads from the machine:
/// the files of its configs and secrets, and the process environment.
///
/// The result is the model that [`resolved_model`] describes, or the error of
/// the first rule that is broken; nothing is resolved in part.
pub fn resolve(
    env_spec: &DeploymentEnvironmentSpec,
    app_spec: &AppSpec,
    deployment_name: &str,
    sources: &HostSnapshot,
) -> (r: Result<EnvironmentResolvedSpec, ResolveError>)
    ensures
        result_view(r) == resolved_model(env_spec@, app_spec@, deployment_name@, sources@),
{
    let deployment = match find_deployment(&env_spec.deployments, deployment_name) {
        Some(i) => &env_spec.deployments[i],
        None => {
            return Err(
                ResolveError::DeploymentNotFound { deployment: deployment_name.to_owned() },
            );
        },
    };
    let configs = match resolve_configs(
        app_spec.name.as_str(),
        &deployment.configs,
        &sources.config_paths,
    ) {
        Ok(configs) => configs,
        Err(e) => {
            return Err(e);
        },
    };
    let secrets = match resolve_secrets(app_spec.name.as_str(), &deployment.secrets, sources) {
        Ok(secrets) => secrets,
        Err(e) => {
            return Err(e);
        },
    };
    let services = match resolve_services(env_spec, app_spec, deployment, &configs, &secrets) {
        Ok((services, _)) => services,
        Err(e) => {
            return Err(e);
        },
    };
    let ingress = IngressResolvedSpec {
        name: env_spec.ingress.name.clone(),
        tls: resolve_tls(&env_spec.ingress.tls),
        domains: collect_domains(&env_spec.ingress.hosts),
        rules: resolve_ingress_rules(env_spec, app_spec, deployment),
    };
    let current_deployment = DeploymentResolvedSpec {
        name: deployment.name.clone(),
        application_name: deployment.application.name.clone(),
        configs,
        secrets,
        defaults: deployment.defaults.clone(),
        services,
    };
    Ok(EnvironmentResolvedSpec { ingress, current_deployment, env_type: env_spec.env_type })
}

} // verus!
