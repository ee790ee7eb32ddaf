//! The ingress of a deployment: which prefixes the public services claim on
//! which hosts, the routes that follow from that, and TLS.

use vstd::prelude::*;
use crate::error::{ResolveError, ResolveErrorView};
use crate::resolved_spec::{
    IngressRule, IngressRuleView, IngressTlsResolvedSpec, IngressTlsResolvedSpecView,
    IngressToServiceRule, IngressToServiceRuleView, LetsEncryptResolvedSpec,
    LetsEncryptResolvedSpecView,
};
use crate::resolver::{find_service_override, host_of, service_override};
use crate::seqs::{
    first_from, first_where, fold, index_view, lemma_fold_step, lemma_try_fold_step, result_view,
    try_fold,
};
use crate::spec::{
    AppSpec, AppSpecView, DeploymentEnvironmentSpec, DeploymentSpec, DeploymentSpecView, HostSpec,
    HostSpecView, IngressTlsSpec, IngressTlsSpecView, Prefix, PrefixView, ServicePort, ServiceSpec,
    ServiceSpecView, ServiceType,
};
use crate::supplies::{full_name, qualified};
use crate::text::same_text;

verus! {

/// A path prefix on an ingress host, with the public service that claimed it.
#[derive(Debug)]
pub struct HostPrefixClaim {
    /// The name of the ingress host.
    pub host: String,
    /// The path prefix.
    pub prefix: String,
    /// The name of the service.
    pub service: String,
}

/// The mathematical value of a [`HostPrefixClaim`].
pub struct HostPrefixClaimView {
    pub host: Seq<char>,
    pub prefix: Seq<char>,
    pub service: Seq<char>,
}

impl View for HostPrefixClaim {
    type V = HostPrefixClaimView;

    open spec fn view(&self) -> HostPrefixClaimView {
        HostPrefixClaimView {
            host: self.host@,
            prefix: self.prefix@,
            service: self.service@,
        }
    }
}

impl DeepView for HostPrefixClaim {
    type V = HostPrefixClaimView;

    open spec fn deep_view(&self) -> HostPrefixClaimView {
        self@
    }
}

/// Selects the claims of the prefix `prefix` on the host `host`.
pub open spec fn claimed(host: Seq<char>, prefix: Seq<char>) -> spec_fn(HostPrefixClaimView) -> bool {
    |c: HostPrefixClaimView| c.host == host && c.prefix == prefix
}

/// Claims one prefix on `host` for `service`, unless it is claimed already.
pub open spec fn claim_step(service: Seq<char>, host: Seq<char>) -> spec_fn(
    Seq<HostPrefixClaimView>,
    PrefixView,
) -> Result<Seq<HostPrefixClaimView>, ResolveErrorView> {
    |claims: Seq<HostPrefixClaimView>, p: PrefixView|
        match first_where(claims, claimed(host, p.prefix)) {
            Some(i) => Err(
                ResolveErrorView::DuplicateHostPrefix {
                    service,
                    other_service: claims[i].service,
                    host,
                    prefix: p.prefix,
                },
            ),
            None => Ok(claims.push(HostPrefixClaimView { host, prefix: p.prefix, service })),
        }
}

/// The claims after a service has claimed its prefixes on `host`. Only a
/// public service claims any.
pub open spec fn claimed_prefixes(
    claims: Seq<HostPrefixClaimView>,
    service: ServiceSpecView,
    host: Seq<char>,
    prefixes: Seq<PrefixView>,
) -> Result<Seq<HostPrefixClaimView>, ResolveErrorView> {
    match service.service_type {
        ServiceType::Public => try_fold(prefixes, claims, claim_step(service.name, host)),
        _ => Ok(claims),
    }
}

fn find_claim(claims: &Vec<HostPrefixClaim>, host: &str, prefix: &str) -> (r: Option<usize>)
    ensures
        index_view(r) == first_where(claims.deep_view(), claimed(host@, prefix@)),
        r matches Some(i) ==> i < claims.len(),
{
    let mut i: usize = 0;
    while i < claims.len()
        invariant
            first_where(claims.deep_view(), claimed(host@, prefix@)) == first_from(
                claims.deep_view(),
                claimed(host@, prefix@),
                i as int,
            ),
        decreases claims.len() - i,
    {
        if same_text(claims[i].host.as_str(), host) && same_text(
            claims[i].prefix.as_str(),
            prefix,
        ) {
            return Some(i);
        }
        i += 1;
    }
    None
}

/// Claims the prefixes of a service on `host`, starting from the claims
/// `start` of the services before it.
pub fn claim_prefixes(
    start: Vec<HostPrefixClaim>,
    service: &ServiceSpec,
    host: &String,
    prefixes: &Vec<Prefix>,
) -> (r: Result<Vec<HostPrefixClaim>, ResolveError>)
    ensures
        result_view(r) == claimed_prefixes(
            start.deep_view(),
            service@,
            host@,
            prefixes.deep_view(),
        ),
{
    match service.service_type {
        ServiceType::Public => {},
        _ => {
            return Ok(start);
        },
    }
    let ghost step = claim_step(service.name@, host@);
    let mut claims = start;
    let mut i: usize = 0;
    proof {
        assert(prefixes.deep_view().skip(0) =~= prefixes.deep_view());
    }
    while i < prefixes.len()
        invariant
            i <= prefixes.len(),
            step == claim_step(service.name@, host@),
            service.service_type == ServiceType::Public,
            try_fold(prefixes.deep_view(), start.deep_view(), step) == try_fold(
                prefixes.deep_view().skip(i as int),
                claims.deep_view(),
                step,
            ),
        decreases prefixes.len() - i,
    {
        proof {
            lemma_try_fold_step(prefixes.deep_view(), i as int, claims.deep_view(), step);
        }
        let prefix = &prefixes[i].prefix;
        let ghost before = claims.deep_view();
        match find_claim(&claims, host.as_str(), prefix.as_str()) {
            Some(k) => {
                return Err(
                    ResolveError::DuplicateHostPrefix {
                        service: service.name.clone(),
                        other_service: claims[k].service.clone(),
                        host: host.clone(),
                        prefix: prefix.clone(),
                    },
                );
            },
            None => {
                let claim = HostPrefixClaim {
                    host: host.clone(),
                    prefix: prefix.clone(),
                    service: service.name.clone(),
                };
                claims.push(claim);
                assert(claims.deep_view() =~= before.push(claim@));
            },
        }
        i += 1;
    }
    proof {
        lemma_try_fold_step(prefixes.deep_view(), i as int, claims.deep_view(), step);
    }
    Ok(claims)
}

/// Selects the ports that are `port` on the outside.
pub open spec fn port_external(port: u16) -> spec_fn(ServicePort) -> bool {
    |p: ServicePort| p.external == port
}

/// The port that the ingress sends requests to: 80 where a port of the
/// service is 80 on the outside, else the outside of its first port, else 80.
pub open spec fn routing_port(ports: Seq<ServicePort>) -> u16 {
    match first_where(ports, port_external(80)) {
        Some(_) => 80,
        None => if ports.len() > 0 {
            ports[0].external
        } else {
            80
        },
    }
}

/// The route of one prefix to the service `service_name` on `port`.
pub open spec fn route_of(service_name: Seq<char>, port: u16) -> spec_fn(
    PrefixView,
) -> IngressToServiceRuleView {
    |p: PrefixView|
        IngressToServiceRuleView { service_name, port, prefix: p.prefix, strip_prefix: p.strip }
}

/// The routes of one service on the ingress host `host`: one for each prefix
/// of its override, if it is public and bound to that host; else none.
pub open spec fn service_routes(
    app: Seq<char>,
    deployment: DeploymentSpecView,
    host: Seq<char>,
    service: ServiceSpecView,
) -> Seq<IngressToServiceRuleView> {
    match service_override(deployment, service.name) {
        Some(o) => if service.service_type == ServiceType::Public && host_of(
            deployment,
            Some(o),
        ) == host {
            o.prefixes.map_values(route_of(full_name(app, service.name), routing_port(o.ports)))
        } else {
            Seq::empty()
        },
        None => Seq::empty(),
    }
}

/// Adds the routes of one service on `host` to those gathered so far.
pub open spec fn routes_step(app: Seq<char>, deployment: DeploymentSpecView, host: Seq<char>) -> spec_fn(
    Seq<IngressToServiceRuleView>,
    ServiceSpecView,
) -> Seq<IngressToServiceRuleView> {
    |acc: Seq<IngressToServiceRuleView>, service: ServiceSpecView|
        acc + service_routes(app, deployment, host, service)
}

/// The routes of the ingress host `host`: those of every service, in the
/// order of the services.
pub open spec fn host_routes(app: AppSpecView, deployment: DeploymentSpecView, host: Seq<char>) -> Seq<
    IngressToServiceRuleView,
> {
    fold(app.all_services(), Seq::empty(), routes_step(app.name, deployment, host))
}

/// Adds the rule of one domain to those gathered so far, if `routes` holds
/// any route.
pub open spec fn domain_step(routes: Seq<IngressToServiceRuleView>) -> spec_fn(
    Seq<IngressRuleView>,
    Seq<char>,
) -> Seq<IngressRuleView> {
    |acc: Seq<IngressRuleView>, domain: Seq<char>|
        if routes.len() > 0 {
            acc.push(IngressRuleView { domain_name: domain, services: routes })
        } else {
            acc
        }
}

/// Adds the rules of the domains of one host to those gathered so far.
pub open spec fn host_step(app: AppSpecView, deployment: DeploymentSpecView) -> spec_fn(
    Seq<IngressRuleView>,
    HostSpecView,
) -> Seq<IngressRuleView> {
    |acc: Seq<IngressRuleView>, host: HostSpecView|
        fold(host.domain_names, acc, domain_step(host_routes(app, deployment, host.name)))
}

/// The rules of the ingress: for every host and every domain of it, the
/// routes of the host, where it has any.
pub open spec fn ingress_rules(
    hosts: Seq<HostSpecView>,
    app: AppSpecView,
    deployment: DeploymentSpecView,
) -> Seq<IngressRuleView> {
    fold(hosts, Seq::empty(), host_step(app, deployment))
}

/// Adds the domains of one host to those gathered so far.
pub open spec fn domains_step() -> spec_fn(Seq<Seq<char>>, HostSpecView) -> Seq<Seq<char>> {
    |acc: Seq<Seq<char>>, host: HostSpecView| acc + host.domain_names
}

/// Every domain of every host, in order.
pub open spec fn all_domains(hosts: Seq<HostSpecView>) -> Seq<Seq<char>> {
    fold(hosts, Seq::empty(), domains_step())
}

/// The directory of the ACME server that is used where none is named.
pub open spec fn default_acme_server() -> Seq<char> {
    "https://acme-v02.api.letsencrypt.org/directory"@
}

/// How the resolved ingress gets its certificate: from the secret that the
/// environment names; else from the ACME account that it declares, with the
/// default server where it names none.
pub open spec fn resolved_tls(tls: Option<IngressTlsSpecView>) -> Option<IngressTlsResolvedSpecView> {
    match tls {
        None => None,
        Some(t) => Some(
            IngressTlsResolvedSpecView {
                secret: t.secret,
                letsencrypt: match t.secret {
                    Some(_) => None,
                    None => match t.letsencrypt {
                        Some(le) => Some(
                            LetsEncryptResolvedSpecView {
                                server: match le.server {
                                    Some(server) => server,
                                    None => default_acme_server(),
                                },
                                email: le.email,
                            },
                        ),
                        None => None,
                    },
                },
            },
        ),
    }
}

fn choose_routing_port(ports: &Vec<ServicePort>) -> (r: u16)
    ensures
        r == routing_port(ports.deep_view()),
{
    let mut i: usize = 0;
    while i < ports.len()
        invariant
            first_where(ports.deep_view(), port_external(80)) == first_from(
                ports.deep_view(),
                port_external(80),
                i as int,
            ),
        decreases ports.len() - i,
    {
        if ports[i].external == 80 {
            return 80;
        }
        i += 1;
    }
    if ports.len() > 0 {
        ports[0].external
    } else {
        80
    }
}

fn append_service_routes(
    routes: &mut Vec<IngressToServiceRule>,
    app_spec: &AppSpec,
    deployment: &DeploymentSpec,
    host: &String,
    service: &ServiceSpec,
)
    ensures
        final(routes).deep_view() == old(routes).deep_view() + service_routes(
            app_spec@.name,
            deployment@,
            host@,
            service@,
        ),
{
    let ghost start = routes.deep_view();
    assert(start + Seq::empty() =~= start);
    let o = match find_service_override(deployment, service.name.as_str()) {
        Some(o) => o,
        None => {
            return ;
        },
    };
    match service.service_type {
        ServiceType::Public => {},
        _ => {
            return ;
        },
    }
    let bound_to = match &o.host {
        Some(h) => h,
        None => &deployment.primary_host,
    };
    if !same_text(bound_to.as_str(), host.as_str()) {
        return ;
    }
    let full = qualified(app_spec.name.as_str(), service.name.as_str());
    let port = choose_routing_port(&o.ports);
    let ghost route = route_of(full@, port);
    let mut i: usize = 0;
    assert(o.prefixes.deep_view().map_values(route).take(0) =~= Seq::empty());
    while i < o.prefixes.len()
        invariant
            i <= o.prefixes.len(),
            route == route_of(full@, port),
            routes.deep_view() == start + o.prefixes.deep_view().map_values(route).take(i as int),
        decreases o.prefixes.len() - i,
    {
        let ghost before = routes.deep_view();
        let rule = IngressToServiceRule {
            service_name: full.clone(),
            port,
            prefix: o.prefixes[i].prefix.clone(),
            strip_prefix: o.prefixes[i].strip,
        };
        routes.push(rule);
        assert(routes.deep_view() =~= before.push(rule@));
        assert(start + o.prefixes.deep_view().map_values(route).take(i + 1) =~= before.push(
            rule@,
        ));
        i += 1;
    }
    assert(o.prefixes.deep_view().map_values(route).take(i as int)
        =~= o.prefixes.deep_view().map_values(route));
}

fn resolve_host_routes(app_spec: &AppSpec, deployment: &DeploymentSpec, host: &String) -> (r: Vec<
    IngressToServiceRule,
>)
    ensures
        r.deep_view() == host_routes(app_spec@, deployment@, host@),
{
    let ghost step = routes_step(app_spec@.name, deployment@, host@);
    let services = app_spec.all_services();
    let mut routes: Vec<IngressToServiceRule> = Vec::new();
    let mut i: usize = 0;
    proof {
        assert(services.deep_view().skip(0) =~= services.deep_view());
        assert(routes.deep_view() =~= Seq::empty());
    }
    while i < services.len()
        invariant
            i <= services.len(),
            step == routes_step(app_spec@.name, deployment@, host@),
            services.deep_view() == app_spec@.all_services(),
            host_routes(app_spec@, deployment@, host@) == fold(
                services.deep_view().skip(i as int),
                routes.deep_view(),
                step,
            ),
        decreases services.len() - i,
    {
        proof {
            lemma_fold_step(services.deep_view(), i as int, routes.deep_view(), step);
        }
        append_service_routes(&mut routes, app_spec, deployment, host, services[i]);
        i += 1;
    }
    proof {
        lemma_fold_step(services.deep_view(), i as int, routes.deep_view(), step);
    }
    routes
}

/// Derives the rules of the ingress: for every domain of every host, the
/// routes to the public services that are bound to the host.
pub fn resolve_ingress_rules(
    env_spec: &DeploymentEnvironmentSpec,
    app_spec: &AppSpec,
    deployment: &DeploymentSpec,
) -> (r: Vec<IngressRule>)
    ensures
        r.deep_view() == ingress_rules(env_spec@.ingress.hosts, app_spec@, deployment@),
{
    let ghost step = host_step(app_spec@, deployment@);
    let hosts = &env_spec.ingress.hosts;
    let mut rules: Vec<IngressRule> = Vec::new();
    let mut i: usize = 0;
    proof {
        assert(hosts.deep_view().skip(0) =~= hosts.deep_view());
        assert(rules.deep_view() =~= Seq::empty());
    }
    while i < hosts.len()
        invariant
            i <= hosts.len(),
            hosts == &env_spec.ingress.hosts,
            step == host_step(app_spec@, deployment@),
            ingress_rules(env_spec@.ingress.hosts, app_spec@, deployment@) == fold(
                hosts.deep_view().skip(i as int),
                rules.deep_view(),
                step,
            ),
        decreases hosts.len() - i,
    {
        proof {
            lemma_fold_step(hosts.deep_view(), i as int, rules.deep_view(), step);
        }
        let host = &hosts[i];
        let routes = resolve_host_routes(app_spec, deployment, &host.name);
        let ghost inner = domain_step(routes.deep_view());
        let ghost start = rules.deep_view();
        let mut j: usize = 0;
        proof {
            assert(host.domain_names.deep_view().skip(0) =~= host.domain_names.deep_view());
        }
        while j < host.domain_names.len()
            invariant
                j <= host.domain_names.len(),
                inner == domain_step(routes.deep_view()),
                fold(host.domain_names.deep_view(), start, inner) == fold(
                    host.domain_names.deep_view().skip(j as int),
                    rules.deep_view(),
                    inner,
                ),
            decreases host.domain_names.len() - j,
        {
            proof {
                lemma_fold_step(host.domain_names.deep_view(), j as int, rules.deep_view(), inner);
            }
            if routes.len() > 0 {
                let ghost before = rules.deep_view();
                let services = routes.clone();
                assert(services.deep_view() =~= routes.deep_view());
                let rule = IngressRule { domain_name: host.domain_names[j].clone(), services };
                rules.push(rule);
                assert(rules.deep_view() =~= before.push(rule@));
            }
            j += 1;
        }
        proof {
            lemma_fold_step(host.domain_names.deep_view(), j as int, rules.deep_view(), inner);
        }
        i += 1;
    }
    proof {
        lemma_fold_step(hosts.deep_view(), i as int, rules.deep_view(), step);
    }
    rules
}

/// Gathers every domain of every host, in order.
pub fn collect_domains(hosts: &Vec<HostSpec>) -> (r: Vec<String>)
    ensures
        r.deep_view() == all_domains(hosts.deep_view()),
{
    let ghost step = domains_step();
    let mut domains: Vec<String> = Vec::new();
    let mut i: usize = 0;
    proof {
        assert(hosts.deep_view().skip(0) =~= hosts.deep_view());
        assert(domains.deep_view() =~= Seq::empty());
    }
    while i < hosts.len()
        invariant
            i <= hosts.len(),
            step == domains_step(),
            all_domains(hosts.deep_view()) == fold(
                hosts.deep_view().skip(i as int),
                domains.deep_view(),
                step,
            ),
        decreases hosts.len() - i,
    {
        proof {
            lemma_fold_step(hosts.deep_view(), i as int, domains.deep_view(), step);
        }
        let names = &hosts[i].domain_names;
        let ghost start = domains.deep_view();
        let mut j: usize = 0;
        assert(start + names.deep_view().take(0) =~= start);
        while j < names.len()
            invariant
                j <= names.len(),
                domains.deep_view() == start + names.deep_view().take(j as int),
            decreases names.len() - j,
        {
            let ghost before = domains.deep_view();
            domains.push(names[j].clone());
            assert(domains.deep_view() =~= before.push(names[j as int]@));
            assert(start + names.deep_view().take(j + 1) =~= before.push(names[j as int]@));
            j += 1;
        }
        assert(names.deep_view().take(j as int) =~= names.deep_view());
        i += 1;
    }
    proof {
        lemma_fold_step(hosts.deep_view(), i as int, domains.deep_view(), step);
    }
    domains
}

/// Resolves how the ingress gets its certificate.
pub fn resolve_tls(tls: &Option<IngressTlsSpec>) -> (r: Option<IngressTlsResolvedSpec>)
    ensures
        r.deep_view() == resolved_tls(tls.deep_view()),
{
    match tls {
        None => None,
        Some(t) => {
            let letsencrypt = match &t.secret {
                Some(_) => None,
                None => match &t.letsencrypt {
                    Some(le) => Some(
                        LetsEncryptResolvedSpec {
                            server: match &le.server {
                                Some(server) => server.clone(),
                                None => "https://acme-v02.api.letsencrypt.org/directory".to_owned(),
                            },
                            email: le.email.clone(),
                        },
                    ),
                    None => None,
                },
            };
            Some(IngressTlsResolvedSpec { secret: t.secret.clone(), letsencrypt })
        },
    }
}

} // verus!
