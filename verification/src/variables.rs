//! The variables of an application, resolved tier by tier, and the variables
//! that each service selects from them.

use vstd::prelude::*;
use crate::error::{ResolveError, ResolveErrorView};
use crate::interpolation::{find_var, interpolate, resolve_variable_in_string, value_of, var_named};
use crate::seqs::{first_where, fold, lemma_fold_step, lemma_try_fold_step, result_view, try_fold};
use crate::spec::{
    AppEnvironmentView, AppSpec, EnvVariable, EnvVariableView, ExternalEnvVariable,
    ExternalEnvVariableView, InternalEnvVariable, InternalEnvVariableView, OptionalEnvVariable,
    OptionalEnvVariableView, RelativeEnvVariable, RelativeEnvVariableView, ServiceEnvOption,
    ServiceEnvOptionView, ServiceSpec, ServiceSpecView,
};
use crate::text::concat3;

verus! {

/// `vars` with `var` set: in the place of the first variable of its name, or
/// at the end where there is none.
pub open spec fn set_var(vars: Seq<EnvVariableView>, var: EnvVariableView) -> Seq<EnvVariableView> {
    match first_where(vars, var_named(var.name)) {
        Some(i) => vars.update(i, var),
        None => vars.push(var),
    }
}

/// Sets `var` in `vars`: gives its value to the first variable of its name,
/// or appends it where there is none.
pub fn add_unique_var(vars: &mut Vec<EnvVariable>, var: EnvVariable)
    ensures
        final(vars).deep_view() == set_var(old(vars).deep_view(), var@),
{
    let ghost before = vars.deep_view();
    match find_var(vars.as_slice(), var.name.as_str()) {
        Some(i) => {
            vars.set(i, var);
            assert(vars.deep_view() =~= before.update(i as int, var@));
        },
        None => {
            vars.push(var);
            assert(vars.deep_view() =~= before.push(var@));
        },
    }
}

/// `vars` with each variable of `more` set, in order.
pub open spec fn set_vars(vars: Seq<EnvVariableView>, more: Seq<EnvVariableView>) -> Seq<
    EnvVariableView,
> {
    fold(more, vars, |acc: Seq<EnvVariableView>, var: EnvVariableView| set_var(acc, var))
}

/// Sets each variable of `more` in `vars`, in order.
pub fn add_unique_vars(vars: &mut Vec<EnvVariable>, more: &[EnvVariable])
    ensures
        final(vars).deep_view() == set_vars(old(vars).deep_view(), more.deep_view()),
{
    let ghost step = |acc: Seq<EnvVariableView>, var: EnvVariableView| set_var(acc, var);
    let mut i: usize = 0;
    proof {
        assert(more.deep_view().skip(0) =~= more.deep_view());
    }
    while i < more.len()
        invariant
            i <= more.len(),
            step == |acc: Seq<EnvVariableView>, var: EnvVariableView| set_var(acc, var),
            fold(more.deep_view(), old(vars).deep_view(), step) == fold(
                more.deep_view().skip(i as int),
                vars.deep_view(),
                step,
            ),
        decreases more.len() - i,
    {
        proof {
            lemma_fold_step(more.deep_view(), i as int, vars.deep_view(), step);
        }
        add_unique_var(vars, more[i].clone());
        i += 1;
    }
    proof {
        lemma_fold_step(more.deep_view(), i as int, vars.deep_view(), step);
    }
}

/// Resolves one external variable into the variables resolved so far. Its
/// value is what the deployment gives, as it stands; else its default, in
/// which references to the variables resolved so far are replaced.
pub open spec fn external_step(values: Seq<EnvVariableView>) -> spec_fn(
    Seq<EnvVariableView>,
    ExternalEnvVariableView,
) -> Result<Seq<EnvVariableView>, ResolveErrorView> {
    |acc: Seq<EnvVariableView>, decl: ExternalEnvVariableView|
        match value_of(values, decl.name) {
            Some(value) => Ok(set_var(acc, EnvVariableView { name: decl.name, value })),
            None => match decl.default {
                Some(default) => match interpolate(default, acc) {
                    Ok(value) => Ok(set_var(acc, EnvVariableView { name: decl.name, value })),
                    Err(cause) => Err(
                        ResolveErrorView::ExternalVariable { name: decl.name, cause },
                    ),
                },
                None => Err(ResolveErrorView::MissingExternalVariable { name: decl.name }),
            },
        }
}

/// Resolves one optional variable into the variables resolved so far: it is
/// left out when the deployment gives it no value.
pub open spec fn optional_step(values: Seq<EnvVariableView>) -> spec_fn(
    Seq<EnvVariableView>,
    OptionalEnvVariableView,
) -> Result<Seq<EnvVariableView>, ResolveErrorView> {
    |acc: Seq<EnvVariableView>, decl: OptionalEnvVariableView|
        match value_of(values, decl.name) {
            Some(value) => Ok(set_var(acc, EnvVariableView { name: decl.name, value })),
            None => Ok(acc),
        }
}

/// The URL of a relative variable on the domain `host`, before references
/// in it are replaced.
pub open spec fn relative_url(host: Seq<char>, relative_value: Seq<char>) -> Seq<char> {
    "https://"@ + host + relative_value
}

/// Resolves one relative variable into the variables resolved so far.
pub open spec fn relative_step(host: Seq<char>) -> spec_fn(
    Seq<EnvVariableView>,
    RelativeEnvVariableView,
) -> Result<Seq<EnvVariableView>, ResolveErrorView> {
    |acc: Seq<EnvVariableView>, decl: RelativeEnvVariableView|
        match interpolate(relative_url(host, decl.relative_value), acc) {
            Ok(value) => Ok(set_var(acc, EnvVariableView { name: decl.name, value })),
            Err(cause) => Err(ResolveErrorView::RelativeVariable { name: decl.name, cause }),
        }
}

/// Resolves one internal variable into the variables resolved so far.
pub open spec fn internal_step() -> spec_fn(Seq<EnvVariableView>, InternalEnvVariableView) -> Result<
    Seq<EnvVariableView>,
    ResolveErrorView,
> {
    |acc: Seq<EnvVariableView>, decl: InternalEnvVariableView|
        match interpolate(decl.value, acc) {
            Ok(value) => Ok(set_var(acc, EnvVariableView { name: decl.name, value })),
            Err(cause) => Err(ResolveErrorView::InternalVariable { name: decl.name, cause }),
        }
}

/// The variables after the internal tier, from those resolved before it.
pub open spec fn internal_tier(env: AppEnvironmentView, acc: Seq<EnvVariableView>) -> Result<
    Seq<EnvVariableView>,
    ResolveErrorView,
> {
    try_fold(env.internal, acc, internal_step())
}

/// The variables after the relative and internal tiers, from those resolved
/// before them. Without a host the relative tier is passed over.
pub open spec fn relative_tier(
    env: AppEnvironmentView,
    host: Option<Seq<char>>,
    acc: Seq<EnvVariableView>,
) -> Result<Seq<EnvVariableView>, ResolveErrorView> {
    match host {
        Some(h) => match try_fold(env.relative, acc, relative_step(h)) {
            Ok(next) => internal_tier(env, next),
            Err(e) => Err(e),
        },
        None => internal_tier(env, acc),
    }
}

/// The variables after the optional, relative and internal tiers, from those
/// resolved before them.
pub open spec fn optional_tier(
    env: AppEnvironmentView,
    values: Seq<EnvVariableView>,
    host: Option<Seq<char>>,
    acc: Seq<EnvVariableView>,
) -> Result<Seq<EnvVariableView>, ResolveErrorView> {
    match try_fold(env.optional, acc, optional_step(values)) {
        Ok(next) => relative_tier(env, host, next),
        Err(e) => Err(e),
    }
}

/// The variables of an application, resolved tier by tier: external,
/// optional, relative, internal. `values` is what the deployment supplies,
/// `host` the domain that relative variables point to.
///
/// A tier sees the variables of the tiers before it and those of its own
/// tier that stand before the declaration at hand, and no others.
pub open spec fn app_env_vars(
    env: AppEnvironmentView,
    values: Seq<EnvVariableView>,
    host: Option<Seq<char>>,
) -> Result<Seq<EnvVariableView>, ResolveErrorView> {
    match try_fold(env.external, Seq::empty(), external_step(values)) {
        Ok(next) => optional_tier(env, values, host, next),
        Err(e) => Err(e),
    }
}

fn resolve_external_tier(
    decls: &Vec<ExternalEnvVariable>,
    values: &[EnvVariable],
    start: Vec<EnvVariable>,
) -> (r: Result<Vec<EnvVariable>, ResolveError>)
    ensures
        result_view(r) == try_fold(
            decls.deep_view(),
            start.deep_view(),
            external_step(values.deep_view()),
        ),
{
    let ghost step = external_step(values.deep_view());
    let mut acc = start;
    let mut i: usize = 0;
    proof {
        assert(decls.deep_view().skip(0) =~= decls.deep_view());
    }
    while i < decls.len()
        invariant
            i <= decls.len(),
            step == external_step(values.deep_view()),
            try_fold(decls.deep_view(), start.deep_view(), step) == try_fold(
                decls.deep_view().skip(i as int),
                acc.deep_view(),
                step,
            ),
        decreases decls.len() - i,
    {
        proof {
            lemma_try_fold_step(decls.deep_view(), i as int, acc.deep_view(), step);
        }
        let decl = &decls[i];
        let value = match find_var(values, decl.name.as_str()) {
            Some(k) => values[k].value.clone(),
            None => match &decl.default {
                Some(default) => match resolve_variable_in_string(default, acc.as_slice()) {
                    Ok(value) => value,
                    Err(cause) => {
                        return Err(
                            ResolveError::ExternalVariable { name: decl.name.clone(), cause },
                        );
                    },
                },
                None => {
                    return Err(
                        ResolveError::MissingExternalVariable { name: decl.name.clone() },
                    );
                },
            },
        };
        add_unique_var(&mut acc, EnvVariable { name: decl.name.clone(), value });
        i += 1;
    }
    proof {
        lemma_try_fold_step(decls.deep_view(), i as int, acc.deep_view(), step);
    }
    Ok(acc)
}

fn resolve_optional_tier(
    decls: &Vec<OptionalEnvVariable>,
    values: &[EnvVariable],
    start: Vec<EnvVariable>,
) -> (r: Result<Vec<EnvVariable>, ResolveError>)
    ensures
        result_view(r) == try_fold(
            decls.deep_view(),
            start.deep_view(),
            optional_step(values.deep_view()),
        ),
{
    let ghost step = optional_step(values.deep_view());
    let mut acc = start;
    let mut i: usize = 0;
    proof {
        assert(decls.deep_view().skip(0) =~= decls.deep_view());
    }
    while i < decls.len()
        invariant
            i <= decls.len(),
            step == optional_step(values.deep_view()),
            try_fold(decls.deep_view(), start.deep_view(), step) == try_fold(
                decls.deep_view().skip(i as int),
                acc.deep_view(),
                step,
            ),
        decreases decls.len() - i,
    {
        proof {
            lemma_try_fold_step(decls.deep_view(), i as int, acc.deep_view(), step);
        }
        let decl = &decls[i];
        match find_var(values, decl.name.as_str()) {
            Some(k) => add_unique_var(
                &mut acc,
                EnvVariable { name: decl.name.clone(), value: values[k].value.clone() },
            ),
            None => {},
        }
        i += 1;
    }
    proof {
        lemma_try_fold_step(decls.deep_view(), i as int, acc.deep_view(), step);
    }
    Ok(acc)
}

fn resolve_relative_tier(decls: &Vec<RelativeEnvVariable>, host: &String, start: Vec<EnvVariable>) -> (r:
    Result<Vec<EnvVariable>, ResolveError>)
    ensures
        result_view(r) == try_fold(decls.deep_view(), start.deep_view(), relative_step(host@)),
{
    let ghost step = relative_step(host@);
    let mut acc = start;
    let mut i: usize = 0;
    proof {
        assert(decls.deep_view().skip(0) =~= decls.deep_view());
    }
    while i < decls.len()
        invariant
            i <= decls.len(),
            step == relative_step(host@),
            try_fold(decls.deep_view(), start.deep_view(), step) == try_fold(
                decls.deep_view().skip(i as int),
                acc.deep_view(),
                step,
            ),
        decreases decls.len() - i,
    {
        proof {
            lemma_try_fold_step(decls.deep_view(), i as int, acc.deep_view(), step);
        }
        let decl = &decls[i];
        let url = concat3("https://", host.as_str(), decl.relative_value.as_str());
        match resolve_variable_in_string(&url, acc.as_slice()) {
            Ok(value) => add_unique_var(&mut acc, EnvVariable { name: decl.name.clone(), value }),
            Err(cause) => {
                return Err(ResolveError::RelativeVariable { name: decl.name.clone(), cause });
            },
        }
        i += 1;
    }
    proof {
        lemma_try_fold_step(decls.deep_view(), i as int, acc.deep_view(), step);
    }
    Ok(acc)
}

fn resolve_internal_tier(decls: &Vec<InternalEnvVariable>, start: Vec<EnvVariable>) -> (r: Result<
    Vec<EnvVariable>,
    ResolveError,
>)
    ensures
        result_view(r) == try_fold(decls.deep_view(), start.deep_view(), internal_step()),
{
    let ghost step = internal_step();
    let mut acc = start;
    let mut i: usize = 0;
    proof {
        assert(decls.deep_view().skip(0) =~= decls.deep_view());
    }
    while i < decls.len()
        invariant
            i <= decls.len(),
            step == internal_step(),
            try_fold(decls.deep_view(), start.deep_view(), step) == try_fold(
                decls.deep_view().skip(i as int),
                acc.deep_view(),
                step,
            ),
        decreases decls.len() - i,
    {
        proof {
            lemma_try_fold_step(decls.deep_view(), i as int, acc.deep_view(), step);
        }
        let decl = &decls[i];
        match resolve_variable_in_string(&decl.value, acc.as_slice()) {
            Ok(value) => add_unique_var(&mut acc, EnvVariable { name: decl.name.clone(), value }),
            Err(cause) => {
                return Err(ResolveError::InternalVariable { name: decl.name.clone(), cause });
            },
        }
        i += 1;
    }
    proof {
        lemma_try_fold_step(decls.deep_view(), i as int, acc.deep_view(), step);
    }
    Ok(acc)
}

/// Resolves the variables of an application, tier by tier: external,
/// optional, relative, internal.
///
/// `deployment_values` is what the deployment supplies. `host_domain_name`
/// is the domain that relative variables point to; without it they are
/// passed over.
pub fn resolve_app_env_vars(
    app_spec: &AppSpec,
    deployment_values: &[EnvVariable],
    host_domain_name: Option<&String>,
) -> (r: Result<Vec<EnvVariable>, ResolveError>)
    ensures
        result_view(r) == app_env_vars(
            app_spec@.environment,
            deployment_values.deep_view(),
            host_domain_name.deep_view(),
        ),
{
    let start: Vec<EnvVariable> = Vec::new();
    assert(start.deep_view() =~= Seq::empty());
    let after_external = match resolve_external_tier(
        &app_spec.environment.external,
        deployment_values,
        start,
    ) {
        Ok(vars) => vars,
        Err(e) => {
            return Err(e);
        },
    };
    let after_optional = match resolve_optional_tier(
        &app_spec.environment.optional,
        deployment_values,
        after_external,
    ) {
        Ok(vars) => vars,
        Err(e) => {
            return Err(e);
        },
    };
    let after_relative = match host_domain_name {
        Some(host) => match resolve_relative_tier(
            &app_spec.environment.relative,
            host,
            after_optional,
        ) {
            Ok(vars) => vars,
            Err(e) => {
                return Err(e);
            },
        },
        None => after_optional,
    };
    resolve_internal_tier(&app_spec.environment.internal, after_relative)
}

/// Applies one selector of a service to the variables selected so far.
/// `all` is the full set of resolved variables.
pub open spec fn selector_step(service: Seq<char>, all: Seq<EnvVariableView>) -> spec_fn(
    Seq<EnvVariableView>,
    ServiceEnvOptionView,
) -> Result<Seq<EnvVariableView>, ResolveErrorView> {
    |acc: Seq<EnvVariableView>, option: ServiceEnvOptionView|
        match option {
            ServiceEnvOptionView::All => Ok(set_vars(acc, all)),
            ServiceEnvOptionView::Simple(name) => match first_where(all, var_named(name)) {
                Some(i) => Ok(set_var(acc, all[i])),
                None => Err(ResolveErrorView::UndefinedServiceVariable { service, name }),
            },
            ServiceEnvOptionView::WithValue(name, template) => match interpolate(template, all) {
                Ok(value) => Ok(set_var(acc, EnvVariableView { name, value })),
                Err(cause) => Err(ResolveErrorView::ServiceVariable { service, name, cause }),
            },
        }
}

/// The variables that a service receives out of `all`: its selectors applied
/// in order, a later one overwriting what an earlier one gave to the same name.
pub open spec fn service_env_vars(service: ServiceSpecView, all: Seq<EnvVariableView>) -> Result<
    Seq<EnvVariableView>,
    ResolveErrorView,
> {
    try_fold(service.environment, Seq::empty(), selector_step(service.name, all))
}

/// Selects the variables that a service receives out of `all_env_vars`.
pub fn filter_service_env_vars(app_service: &ServiceSpec, all_env_vars: &[EnvVariable]) -> (r:
    Result<Vec<EnvVariable>, ResolveError>)
    ensures
        result_view(r) == service_env_vars(app_service@, all_env_vars.deep_view()),
{
    let ghost step = selector_step(app_service.name@, all_env_vars.deep_view());
    let options = &app_service.environment;
    let mut acc: Vec<EnvVariable> = Vec::new();
    let mut i: usize = 0;
    proof {
        assert(options.deep_view().skip(0) =~= options.deep_view());
        assert(acc.deep_view() =~= Seq::empty());
    }
    while i < options.len()
        invariant
            i <= options.len(),
            options == &app_service.environment,
            step == selector_step(app_service.name@, all_env_vars.deep_view()),
            service_env_vars(app_service@, all_env_vars.deep_view()) == try_fold(
                options.deep_view().skip(i as int),
                acc.deep_view(),
                step,
            ),
        decreases options.len() - i,
    {
        proof {
            lemma_try_fold_step(options.deep_view(), i as int, acc.deep_view(), step);
        }
        match &options[i] {
            ServiceEnvOption::All => {
                add_unique_vars(&mut acc, all_env_vars);
            },
            ServiceEnvOption::Simple(name) => {
                match find_var(all_env_vars, name.as_str()) {
                    Some(k) => add_unique_var(&mut acc, all_env_vars[k].clone()),
                    None => {
                        return Err(
                            ResolveError::UndefinedServiceVariable {
                                service: app_service.name.clone(),
                                name: name.clone(),
                            },
                        );
                    },
                }
            },
            ServiceEnvOption::WithValue(name, template) => {
                match resolve_variable_in_string(template, all_env_vars) {
                    Ok(value) => add_unique_var(&mut acc, EnvVariable { name: name.clone(), value }),
                    Err(cause) => {
                        return Err(
                            ResolveError::ServiceVariable {
                                service: app_service.name.clone(),
                                name: name.clone(),
                                cause,
                            },
                        );
                    },
                }
            },
        }
        i += 1;
    }
    proof {
        lemma_try_fold_step(options.deep_view(), i as int, acc.deep_view(), step);
    }
    Ok(acc)
}

} // verus!
