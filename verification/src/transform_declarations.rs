//! Normalization of what an application declares: its variables, tier by
//! tier, and the secrets it expects.

use vstd::prelude::*;
use crate::env_loader::{parse_env_string, parsed_descriptor};
use crate::error::{TransformError, TransformErrorView};
use crate::seqs::{lemma_try_fold_step, result_view, try_fold};
use crate::spec::{
    AppEnvironment, AppEnvironmentView, AppSecretOption, AppSecretOptionView, ExternalEnvVariable,
    ExternalEnvVariableView, InternalEnvVariable, InternalEnvVariableView, OptionalEnvVariable,
    OptionalEnvVariableView, RelativeEnvVariable, RelativeEnvVariableView,
};
use crate::spec_yaml::{
    AppEnvironmentYaml, AppEnvironmentYamlView, AppSecretsYaml, AppSecretsYamlView,
};
use crate::text::chars_of;

verus! {

/// The texts of a list that may be absent.
pub open spec fn texts_of(list: Option<Seq<Seq<char>>>) -> Seq<Seq<char>> {
    match list {
        Some(texts) => texts,
        None => Seq::empty(),
    }
}

/// Adds one written declaration of the external tier to those read so far.
pub open spec fn external_decl_step() -> spec_fn(Seq<ExternalEnvVariableView>, Seq<char>) -> Result<
    Seq<ExternalEnvVariableView>,
    TransformErrorView,
> {
    |acc: Seq<ExternalEnvVariableView>, text: Seq<char>|
        match parsed_descriptor(text) {
            Ok(d) => Ok(acc.push(ExternalEnvVariableView { name: d.name, default: d.default })),
            Err(cause) => Err(TransformErrorView::ExternalVariable { text, cause }),
        }
}

/// Adds one written declaration of the optional tier to those read so far.
/// An optional variable declares no value.
pub open spec fn optional_decl_step() -> spec_fn(Seq<OptionalEnvVariableView>, Seq<char>) -> Result<
    Seq<OptionalEnvVariableView>,
    TransformErrorView,
> {
    |acc: Seq<OptionalEnvVariableView>, text: Seq<char>|
        match parsed_descriptor(text) {
            Ok(d) => if d.default is Some {
                Err(TransformErrorView::OptionalWithDefault { name: d.name })
            } else {
                Ok(acc.push(OptionalEnvVariableView { name: d.name }))
            },
            Err(cause) => Err(TransformErrorView::OptionalVariable { text, cause }),
        }
}

/// Adds one written declaration of the relative tier to those read so far.
/// A relative variable declares a value that starts with `/`.
pub open spec fn relative_decl_step() -> spec_fn(Seq<RelativeEnvVariableView>, Seq<char>) -> Result<
    Seq<RelativeEnvVariableView>,
    TransformErrorView,
> {
    |acc: Seq<RelativeEnvVariableView>, text: Seq<char>|
        match parsed_descriptor(text) {
            Ok(d) => match d.default {
                None => Err(TransformErrorView::RelativeWithoutValue { text }),
                Some(value) => if value.len() > 0 && value[0] == '/' {
                    Ok(acc.push(RelativeEnvVariableView { name: d.name, relative_value: value }))
                } else {
                    Err(TransformErrorView::RelativeNotAPath { name: d.name })
                },
            },
            Err(cause) => Err(TransformErrorView::RelativeVariable { text, cause }),
        }
}

/// Adds one written declaration of the internal tier to those read so far.
/// An internal variable declares a value.
pub open spec fn internal_decl_step() -> spec_fn(Seq<InternalEnvVariableView>, Seq<char>) -> Result<
    Seq<InternalEnvVariableView>,
    TransformErrorView,
> {
    |acc: Seq<InternalEnvVariableView>, text: Seq<char>|
        match parsed_descriptor(text) {
            Ok(d) => match d.default {
                None => Err(TransformErrorView::InternalWithoutValue { name: d.name }),
                Some(value) => Ok(acc.push(InternalEnvVariableView { name: d.name, value })),
            },
            Err(cause) => Err(TransformErrorView::InternalVariable { text, cause }),
        }
}

/// The variable declarations of an application, from what is written. The
/// tiers are read in their order, and the first declaration that is refused
/// gives the error.
pub open spec fn environment_of(yaml: AppEnvironmentYamlView) -> Result<
    AppEnvironmentView,
    TransformErrorView,
> {
    match try_fold(texts_of(yaml.external), Seq::empty(), external_decl_step()) {
        Err(e) => Err(e),
        Ok(external) => match try_fold(
            texts_of(yaml.optional),
            Seq::empty(),
            optional_decl_step(),
        ) {
            Err(e) => Err(e),
            Ok(optional) => match try_fold(
                texts_of(yaml.relative),
                Seq::empty(),
                relative_decl_step(),
            ) {
                Err(e) => Err(e),
                Ok(relative) => match try_fold(
                    texts_of(yaml.internal),
                    Seq::empty(),
                    internal_decl_step(),
                ) {
                    Err(e) => Err(e),
                    Ok(internal) => Ok(
                        AppEnvironmentView { external, optional, relative, internal },
                    ),
                },
            },
        },
    }
}

fn written_texts<'a>(list: &'a Option<Vec<String>>, none: &'a Vec<String>) -> (r: &'a Vec<String>)
    requires
        none.len() == 0,
    ensures
        r.deep_view() == texts_of(list.deep_view()),
{
    match list {
        Some(texts) => texts,
        None => {
            assert(none.deep_view() =~= Seq::empty());
            none
        },
    }
}

fn convert_external(texts: &Vec<String>) -> (r: Result<Vec<ExternalEnvVariable>, TransformError>)
    ensures
        result_view(r) == try_fold(texts.deep_view(), Seq::empty(), external_decl_step()),
{
    let ghost step = external_decl_step();
    let mut acc: Vec<ExternalEnvVariable> = Vec::new();
    let mut i: usize = 0;
    proof {
        assert(texts.deep_view().skip(0) =~= texts.deep_view());
        assert(acc.deep_view() =~= Seq::empty());
    }
    while i < texts.len()
        invariant
            i <= texts.len(),
            step == external_decl_step(),
            try_fold(texts.deep_view(), Seq::empty(), step) == try_fold(
                texts.deep_view().skip(i as int),
                acc.deep_view(),
                step,
            ),
        decreases texts.len() - i,
    {
        proof {
            lemma_try_fold_step(texts.deep_view(), i as int, acc.deep_view(), step);
        }
        let ghost before = acc.deep_view();
        match parse_env_string(texts[i].as_str()) {
            Ok(d) => {
                let decl = ExternalEnvVariable { name: d.name, default: d.default };
                acc.push(decl);
                assert(acc.deep_view() =~= before.push(decl@));
            },
            Err(cause) => {
                return Err(TransformError::ExternalVariable { text: texts[i].clone(), cause });
            },
        }
        i += 1;
    }
    proof {
        lemma_try_fold_step(texts.deep_view(), i as int, acc.deep_view(), step);
    }
    Ok(acc)
}

fn convert_optional(texts: &Vec<String>) -> (r: Result<Vec<OptionalEnvVariable>, TransformError>)
    ensures
        result_view(r) == try_fold(texts.deep_view(), Seq::empty(), optional_decl_step()),
{
    let ghost step = optional_decl_step();
    let mut acc: Vec<OptionalEnvVariable> = Vec::new();
    let mut i: usize = 0;
    proof {
        assert(texts.deep_view().skip(0) =~= texts.deep_view());
        assert(acc.deep_view() =~= Seq::empty());
    }
    while i < texts.len()
        invariant
            i <= texts.len(),
            step == optional_decl_step(),
            try_fold(texts.deep_view(), Seq::empty(), step) == try_fold(
                texts.deep_view().skip(i as int),
                acc.deep_view(),
                step,
            ),
        decreases texts.len() - i,
    {
        proof {
            lemma_try_fold_step(texts.deep_view(), i as int, acc.deep_view(), step);
        }
        let ghost before = acc.deep_view();
        match parse_env_string(texts[i].as_str()) {
            Ok(d) => {
                if d.default.is_some() {
                    return Err(TransformError::OptionalWithDefault { name: d.name });
                }
                let decl = OptionalEnvVariable { name: d.name };
                acc.push(decl);
                assert(acc.deep_view() =~= before.push(decl@));
            },
            Err(cause) => {
                return Err(TransformError::OptionalVariable { text: texts[i].clone(), cause });
            },
        }
        i += 1;
    }
    proof {
        lemma_try_fold_step(texts.deep_view(), i as int, acc.deep_view(), step);
    }
    Ok(acc)
}

fn starts_with_slash(value: &String) -> (r: bool)
    ensures
        r == (value@.len() > 0 && value@[0] == '/'),
{
    let chars = chars_of(value.as_str());
    chars.len() > 0 && chars[0] == '/'
}

fn convert_relative(texts: &Vec<String>) -> (r: Result<Vec<RelativeEnvVariable>, TransformError>)
    ensures
        result_view(r) == try_fold(texts.deep_view(), Seq::empty(), relative_decl_step()),
{
    let ghost step = relative_decl_step();
    let mut acc: Vec<RelativeEnvVariable> = Vec::new();
    let mut i: usize = 0;
    proof {
        assert(texts.deep_view().skip(0) =~= texts.deep_view());
        assert(acc.deep_view() =~= Seq::empty());
    }
    while i < texts.len()
        invariant
            i <= texts.len(),
            step == relative_decl_step(),
            try_fold(texts.deep_view(), Seq::empty(), step) == try_fold(
                texts.deep_view().skip(i as int),
                acc.deep_view(),
                step,
            ),
        decreases texts.len() - i,
    {
        proof {
            lemma_try_fold_step(texts.deep_view(), i as int, acc.deep_view(), step);
        }
        let ghost before = acc.deep_view();
        match parse_env_string(texts[i].as_str()) {
            Ok(d) => match d.default {
                None => {
                    return Err(TransformError::RelativeWithoutValue { text: texts[i].clone() });
                },
                Some(value) => {
                    if !starts_with_slash(&value) {
                        return Err(TransformError::RelativeNotAPath { name: d.name });
                    }
                    let decl = RelativeEnvVariable { name: d.name, relative_value: value };
                    acc.push(decl);
                    assert(acc.deep_view() =~= before.push(decl@));
                },
            },
            Err(cause) => {
                return Err(TransformError::RelativeVariable { text: texts[i].clone(), cause });
            },
        }
        i += 1;
    }
    proof {
        lemma_try_fold_step(texts.deep_view(), i as int, acc.deep_view(), step);
    }
    Ok(acc)
}

fn convert_internal(texts: &Vec<String>) -> (r: Result<Vec<InternalEnvVariable>, TransformError>)
    ensures
        result_view(r) == try_fold(texts.deep_view(), Seq::empty(), internal_decl_step()),
{
    let ghost step = internal_decl_step();
    let mut acc: Vec<InternalEnvVariable> = Vec::new();
    let mut i: usize = 0;
    proof {
        assert(texts.deep_view().skip(0) =~= texts.deep_view());
        assert(acc.deep_view() =~= Seq::empty());
    }
    while i < texts.len()
        invariant
            i <= texts.len(),
            step == internal_decl_step(),
            try_fold(texts.deep_view(), Seq::empty(), step) == try_fold(
                texts.deep_view().skip(i as int),
                acc.deep_view(),
                step,
            ),
        decreases texts.len() - i,
    {
        proof {
            lemma_try_fold_step(texts.deep_view(), i as int, acc.deep_view(), step);
        }
        let ghost before = acc.deep_view();
        match parse_env_string(texts[i].as_str()) {
            Ok(d) => match d.default {
                None => {
                    return Err(TransformError::InternalWithoutValue { name: d.name });
                },
                Some(value) => {
                    let decl = InternalEnvVariable { name: d.name, value };
                    acc.push(decl);
                    assert(acc.deep_view() =~= before.push(decl@));
                },
            },
            Err(cause) => {
                return Err(TransformError::InternalVariable { text: texts[i].clone(), cause });
            },
        }
        i += 1;
    }
    proof {
        lemma_try_fold_step(texts.deep_view(), i as int, acc.deep_view(), step);
    }
    Ok(acc)
}

/// Normalizes the variable declarations of an application.
pub fn convert_environment(yaml: &AppEnvironmentYaml) -> (r: Result<AppEnvironment, TransformError>)
    ensures
        result_view(r) == environment_of(yaml@),
{
    let none: Vec<String> = Vec::new();
    let external = match convert_external(written_texts(&yaml.external, &none)) {
        Ok(decls) => decls,
        Err(e) => {
            return Err(e);
        },
    };
    let optional = match convert_optional(written_texts(&yaml.optional, &none)) {
        Ok(decls) => decls,
        Err(e) => {
            return Err(e);
        },
    };
    let relative = match convert_relative(written_texts(&yaml.relative, &none)) {
        Ok(decls) => decls,
        Err(e) => {
            return Err(e);
        },
    };
    let internal = match convert_internal(written_texts(&yaml.internal, &none)) {
        Ok(decls) => decls,
        Err(e) => {
            return Err(e);
        },
    };
    Ok(AppEnvironment { external, optional, relative, internal })
}

/// A name as an expected secret.
pub open spec fn expected_secret() -> spec_fn(Seq<char>) -> AppSecretOptionView {
    |name: Seq<char>| AppSecretOptionView { secret_name: name }
}

/// The secrets that an application expects, from what is written.
pub open spec fn secrets_of(yaml: AppSecretsYamlView) -> Seq<AppSecretOptionView> {
    match yaml {
        AppSecretsYamlView::Simple(names) => names.map_values(expected_secret()),
        AppSecretsYamlView::Detailed(names) => names.map_values(expected_secret()),
    }
}

/// Normalizes the secrets that an application expects. It never fails.
pub fn convert_secrets(yaml: &AppSecretsYaml) -> (r: Result<Vec<AppSecretOption>, TransformError>)
    ensures
        result_view(r) == Ok::<Seq<AppSecretOptionView>, TransformErrorView>(secrets_of(yaml@)),
{
    let names = match yaml {
        AppSecretsYaml::Simple(names) => names,
        AppSecretsYaml::Detailed(names) => names,
    };
    let ghost f = expected_secret();
    let mut secrets: Vec<AppSecretOption> = Vec::new();
    let mut i: usize = 0;
    assert(secrets.deep_view() =~= names.deep_view().map_values(f).take(0));
    while i < names.len()
        invariant
            i <= names.len(),
            f == expected_secret(),
            secrets.deep_view() == names.deep_view().map_values(f).take(i as int),
        decreases names.len() - i,
    {
        let ghost before = secrets.deep_view();
        let secret = AppSecretOption { secret_name: names[i].clone() };
        secrets.push(secret);
        assert(secrets.deep_view() =~= before.push(secret@));
        assert(names.deep_view().map_values(f).take(i + 1) =~= before.push(secret@));
        i += 1;
    }
    assert(names.deep_view().map_values(f).take(i as int) =~= names.deep_view().map_values(f));
    Ok(secrets)
}

} // verus!
