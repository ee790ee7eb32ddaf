//! Normalization of the services of an application descriptor.

use vstd::prelude::*;
use crate::env_loader::{trim_bounds, trimmed};
use crate::error::{TransformError, TransformErrorView};
use crate::seqs::{fold, lemma_fold_step, lemma_try_fold_step, result_view, try_fold};
use crate::spec::{
    EnvVariable, ImageVariant, ImageVariantView, SecretMount, SecretMountView, ServiceConfigOption,
    ServiceConfigOptionView, ServiceEnvOption, ServiceEnvOptionView, ServicePort, ServiceSecret,
    ServiceSecretView, ServiceSpec, ServiceSpecView, ServiceType,
};
use crate::spec_yaml::{
    ImageVariantYamlView, SecretConfigYaml, SecretConfigYamlView, ServiceSecretYaml,
    ServiceSecretYamlView, ServiceSpecYaml, ServiceSpecYamlView, ServiceTypeYaml,
};
use crate::text::{chars_of, concat2, find_char, lemma_next_char, next_char, same_text, slice_text};
use crate::transform_declarations::texts_of;

verus! {

/// How the secret of the name `name` reaches a service, from what is
/// written under its name: a path, else a variable.
pub open spec fn secret_mount_of(name: Seq<char>, config: Option<SecretConfigYamlView>) -> Result<
    ServiceSecretView,
    TransformErrorView,
> {
    match config {
        None => Err(TransformErrorView::SecretWithoutConfiguration { secret: name }),
        Some(c) => match c.path {
            Some(path) => Ok(ServiceSecretView { name, mount: SecretMountView::FilePath(path) }),
            None => match c.variable {
                Some(variable) => Ok(
                    ServiceSecretView { name, mount: SecretMountView::EnvVariable(variable) },
                ),
                None => Err(TransformErrorView::SecretWithoutMount { secret: name }),
            },
        },
    }
}

/// Adds one secret of a mapping of secrets to the secrets read so far.
pub open spec fn detailed_secret_step() -> spec_fn(
    Seq<ServiceSecretView>,
    (Seq<char>, Option<SecretConfigYamlView>),
) -> Result<Seq<ServiceSecretView>, TransformErrorView> {
    |acc: Seq<ServiceSecretView>, e: (Seq<char>, Option<SecretConfigYamlView>)|
        match secret_mount_of(e.0, e.1) {
            Ok(secret) => Ok(acc.push(secret)),
            Err(err) => Err(err),
        }
}

/// Adds what one entry of the secrets of a service writes to the secrets
/// read so far. A secret that is written by its name alone is mounted as the
/// file of that name under `/secrets/`.
pub open spec fn service_secret_step() -> spec_fn(
    Seq<ServiceSecretView>,
    ServiceSecretYamlView,
) -> Result<Seq<ServiceSecretView>, TransformErrorView> {
    |acc: Seq<ServiceSecretView>, yaml: ServiceSecretYamlView|
        match yaml {
            ServiceSecretYamlView::Simple(name) => Ok(
                acc.push(
                    ServiceSecretView {
                        name,
                        mount: SecretMountView::FilePath("/secrets/"@ + name),
                    },
                ),
            ),
            ServiceSecretYamlView::Detailed(entries) => try_fold(
                entries,
                acc,
                detailed_secret_step(),
            ),
        }
}

/// The secrets of a service, from what is written.
pub open spec fn service_secrets_of(yaml: Seq<ServiceSecretYamlView>) -> Result<
    Seq<ServiceSecretView>,
    TransformErrorView,
> {
    try_fold(yaml, Seq::empty(), service_secret_step())
}

fn convert_detailed_secrets(
    start: Vec<ServiceSecret>,
    entries: &Vec<(String, Option<SecretConfigYaml>)>,
) -> (r: Result<Vec<ServiceSecret>, TransformError>)
    ensures
        result_view(r) == try_fold(
            entries.deep_view(),
            start.deep_view(),
            detailed_secret_step(),
        ),
{
    let ghost step = detailed_secret_step();
    let mut acc = start;
    let mut i: usize = 0;
    proof {
        assert(entries.deep_view().skip(0) =~= entries.deep_view());
    }
    while i < entries.len()
        invariant
            i <= entries.len(),
            step == detailed_secret_step(),
            try_fold(entries.deep_view(), start.deep_view(), step) == try_fold(
                entries.deep_view().skip(i as int),
                acc.deep_view(),
                step,
            ),
        decreases entries.len() - i,
    {
        proof {
            lemma_try_fold_step(entries.deep_view(), i as int, acc.deep_view(), step);
        }
        let ghost before = acc.deep_view();
        let name = &entries[i].0;
        let mount = match &entries[i].1 {
            None => {
                return Err(TransformError::SecretWithoutConfiguration { secret: name.clone() });
            },
            Some(c) => match &c.path {
                Some(path) => SecretMount::FilePath(path.clone()),
                None => match &c.variable {
                    Some(variable) => SecretMount::EnvVariable(variable.clone()),
                    None => {
                        return Err(TransformError::SecretWithoutMount { secret: name.clone() });
                    },
                },
            },
        };
        let secret = ServiceSecret { name: name.clone(), mount };
        acc.push(secret);
        assert(acc.deep_view() =~= before.push(secret@));
        i += 1;
    }
    proof {
        lemma_try_fold_step(entries.deep_view(), i as int, acc.deep_view(), step);
    }
    Ok(acc)
}

/// Normalizes the secrets of a service.
pub fn convert_service_secrets(yaml: &Vec<ServiceSecretYaml>) -> (r: Result<
    Vec<ServiceSecret>,
    TransformError,
>)
    ensures
        result_view(r) == service_secrets_of(yaml.deep_view()),
{
    let ghost step = service_secret_step();
    let mut acc: Vec<ServiceSecret> = Vec::new();
    let mut i: usize = 0;
    proof {
        assert(yaml.deep_view().skip(0) =~= yaml.deep_view());
        assert(acc.deep_view() =~= Seq::empty());
    }
    while i < yaml.len()
        invariant
            i <= yaml.len(),
            step == service_secret_step(),
            service_secrets_of(yaml.deep_view()) == try_fold(
                yaml.deep_view().skip(i as int),
                acc.deep_view(),
                step,
            ),
        decreases yaml.len() - i,
    {
        proof {
            lemma_try_fold_step(yaml.deep_view(), i as int, acc.deep_view(), step);
        }
        let ghost before = acc.deep_view();
        match &yaml[i] {
            ServiceSecretYaml::Simple(name) => {
                let secret = ServiceSecret {
                    name: name.clone(),
                    mount: SecretMount::FilePath(concat2("/secrets/", name.as_str())),
                };
                acc.push(secret);
                assert(acc.deep_view() =~= before.push(secret@));
            },
            ServiceSecretYaml::Detailed(entries) => {
                match convert_detailed_secrets(acc, entries) {
                    Ok(next) => {
                        acc = next;
                    },
                    Err(e) => {
                        return Err(e);
                    },
                }
            },
        }
        i += 1;
    }
    proof {
        lemma_try_fold_step(yaml.deep_view(), i as int, acc.deep_view(), step);
    }
    Ok(acc)
}

/// How a service is exposed, from what is written; internal where nothing is.
pub open spec fn service_type_of(yaml: Option<ServiceTypeYaml>) -> ServiceType {
    match yaml {
        Some(ServiceTypeYaml::Public) => ServiceType::Public,
        Some(ServiceTypeYaml::Internal) => ServiceType::Internal,
        Some(ServiceTypeYaml::Job) => ServiceType::Job,
        None => ServiceType::Internal,
    }
}

/// One written image variant as a variant.
pub open spec fn named_variant() -> spec_fn((Seq<char>, ImageVariantYamlView)) -> ImageVariantView {
    |e: (Seq<char>, ImageVariantYamlView)|
        ImageVariantView { variant_name: e.0, image: e.1.image }
}

/// The image variants of a service, from what is written: the image of the
/// service as the variant `default`, then the named variants.
pub open spec fn image_variants_of(yaml: ServiceSpecYamlView) -> Seq<ImageVariantView> {
    let first = match yaml.image {
        Some(image) => seq![ImageVariantView { variant_name: "default"@, image }],
        None => Seq::empty(),
    };
    match yaml.variants {
        Some(entries) => first + entries.map_values(named_variant()),
        None => first,
    }
}

/// The selector that a text writes: `$all` selects every variable,
/// `NAME=value` gives a variable a value, and any other text is the name of
/// a variable. The `=` that separates name and value is the first of the
/// text; white space around the two does not count.
pub open spec fn selector_of() -> spec_fn(Seq<char>) -> ServiceEnvOptionView {
    |text: Seq<char>|
        if text == "$all"@ {
            ServiceEnvOptionView::All
        } else {
            match next_char(text, '=', 0) {
                Some(eq) => ServiceEnvOptionView::WithValue(
                    trimmed(text.subrange(0, eq)),
                    trimmed(text.subrange(eq + 1, text.len() as int)),
                ),
                None => ServiceEnvOptionView::Simple(text),
            }
        }
}

/// One written config mount as a mount.
pub open spec fn config_mount() -> spec_fn((Seq<char>, Seq<char>)) -> ServiceConfigOptionView {
    |e: (Seq<char>, Seq<char>)| ServiceConfigOptionView { config_name: e.0, mount_path: e.1 }
}

/// Adds the config mounts of one written mapping to those read so far.
pub open spec fn config_group_step() -> spec_fn(
    Seq<ServiceConfigOptionView>,
    Seq<(Seq<char>, Seq<char>)>,
) -> Seq<ServiceConfigOptionView> {
    |acc: Seq<ServiceConfigOptionView>, group: Seq<(Seq<char>, Seq<char>)>|
        acc + group.map_values(config_mount())
}

/// The config mounts of a service, from what is written.
pub open spec fn config_mounts_of(groups: Option<Seq<Seq<(Seq<char>, Seq<char>)>>>) -> Seq<
    ServiceConfigOptionView,
> {
    match groups {
        Some(g) => fold(g, Seq::empty(), config_group_step()),
        None => Seq::empty(),
    }
}

/// The service of the name `name`, from what is written. It declares no
/// ports of its own: those come from the deployment.
pub open spec fn service_of(name: Seq<char>, yaml: ServiceSpecYamlView, is_app_service: bool) -> Result<
    ServiceSpecView,
    TransformErrorView,
> {
    match (match yaml.secrets {
        Some(secrets) => service_secrets_of(secrets),
        None => Ok(Seq::empty()),
    }) {
        Err(e) => Err(e),
        Ok(secrets) => Ok(
            ServiceSpecView {
                name,
                service_type: service_type_of(yaml.service_type),
                is_app_service,
                image_variants: image_variants_of(yaml),
                environment: texts_of(yaml.environment).map_values(selector_of()),
                configs: config_mounts_of(yaml.configs),
                secrets,
                ports: Seq::empty(),
            },
        ),
    }
}

fn convert_image_variants(yaml: &ServiceSpecYaml) -> (r: Vec<ImageVariant>)
    ensures
        r.deep_view() == image_variants_of(yaml@),
{
    let mut variants: Vec<ImageVariant> = Vec::new();
    assert(variants.deep_view() =~= Seq::empty());
    match &yaml.image {
        Some(image) => {
            let variant = ImageVariant { variant_name: "default".to_owned(), image: image.clone() };
            variants.push(variant);
            assert(variants.deep_view() =~= seq![variant@]);
        },
        None => {},
    }
    match &yaml.variants {
        Some(entries) => {
            let ghost f = named_variant();
            let ghost first = variants.deep_view();
            let mut i: usize = 0;
            assert(first + entries.deep_view().map_values(f).take(0) =~= first);
            while i < entries.len()
                invariant
                    i <= entries.len(),
                    f == named_variant(),
                    variants.deep_view() == first + entries.deep_view().map_values(f).take(
                        i as int,
                    ),
                decreases entries.len() - i,
            {
                let ghost before = variants.deep_view();
                let variant = ImageVariant {
                    variant_name: entries[i].0.clone(),
                    image: entries[i].1.image.clone(),
                };
                variants.push(variant);
                assert(variants.deep_view() =~= before.push(variant@));
                assert(first + entries.deep_view().map_values(f).take(i + 1) =~= before.push(
                    variant@,
                ));
                i += 1;
            }
            assert(entries.deep_view().map_values(f).take(i as int) =~= entries.deep_view().map_values(
                f,
            ));
        },
        None => {},
    }
    variants
}

fn convert_selector(text: &String) -> (r: ServiceEnvOption)
    ensures
        r@ == selector_of()(text@),
{
    if same_text(text.as_str(), "$all") {
        return ServiceEnvOption::All;
    }
    let chars = chars_of(text.as_str());
    proof {
        lemma_next_char(text@, '=', 0);
    }
    match find_char(&chars, '=', 0) {
        Some(eq) => {
            let (name_from, name_to) = trim_bounds(&chars, 0, eq);
            let (from, to) = trim_bounds(&chars, eq + 1, chars.len());
            ServiceEnvOption::WithValue(
                slice_text(text.as_str(), name_from, name_to),
                slice_text(text.as_str(), from, to),
            )
        },
        None => ServiceEnvOption::Simple(text.clone()),
    }
}

fn convert_selectors(written: &Option<Vec<String>>) -> (r: Vec<ServiceEnvOption>)
    ensures
        r.deep_view() == texts_of(written.deep_view()).map_values(selector_of()),
{
    let mut selectors: Vec<ServiceEnvOption> = Vec::new();
    assert(selectors.deep_view() =~= Seq::<Seq<char>>::empty().map_values(selector_of()));
    match written {
        Some(texts) => {
            let ghost f = selector_of();
            let mut i: usize = 0;
            assert(selectors.deep_view() =~= texts.deep_view().map_values(f).take(0));
            while i < texts.len()
                invariant
                    i <= texts.len(),
                    f == selector_of(),
                    selectors.deep_view() == texts.deep_view().map_values(f).take(i as int),
                decreases texts.len() - i,
            {
                let ghost before = selectors.deep_view();
                let selector = convert_selector(&texts[i]);
                selectors.push(selector);
                assert(selectors.deep_view() =~= before.push(selector@));
                assert(texts.deep_view().map_values(f).take(i + 1) =~= before.push(selector@));
                i += 1;
            }
            assert(texts.deep_view().map_values(f).take(i as int) =~= texts.deep_view().map_values(
                f,
            ));
        },
        None => {},
    }
    selectors
}

fn convert_config_mounts(written: &Option<Vec<Vec<(String, String)>>>) -> (r: Vec<
    ServiceConfigOption,
>)
    ensures
        r.deep_view() == config_mounts_of(written.deep_view()),
{
    let mut mounts: Vec<ServiceConfigOption> = Vec::new();
    assert(mounts.deep_view() =~= Seq::empty());
    match written {
        Some(groups) => {
            let ghost step = config_group_step();
            let mut i: usize = 0;
            proof {
                assert(groups.deep_view().skip(0) =~= groups.deep_view());
            }
            while i < groups.len()
                invariant
                    i <= groups.len(),
                    step == config_group_step(),
                    fold(groups.deep_view(), Seq::empty(), step) == fold(
                        groups.deep_view().skip(i as int),
                        mounts.deep_view(),
                        step,
                    ),
                decreases groups.len() - i,
            {
                proof {
                    lemma_fold_step(groups.deep_view(), i as int, mounts.deep_view(), step);
                }
                let group = &groups[i];
                let ghost f = config_mount();
                let ghost start = mounts.deep_view();
                let mut k: usize = 0;
                assert(start + group.deep_view().map_values(f).take(0) =~= start);
                while k < group.len()
                    invariant
                        k <= group.len(),
                        f == config_mount(),
                        mounts.deep_view() == start + group.deep_view().map_values(f).take(
                            k as int,
                        ),
                    decreases group.len() - k,
                {
                    let ghost before = mounts.deep_view();
                    let mount = ServiceConfigOption {
                        config_name: group[k].0.clone(),
                        mount_path: group[k].1.clone(),
                    };
                    mounts.push(mount);
                    assert(mounts.deep_view() =~= before.push(mount@));
                    assert(start + group.deep_view().map_values(f).take(k + 1) =~= before.push(
                        mount@,
                    ));
                    k += 1;
                }
                assert(group.deep_view().map_values(f).take(k as int)
                    =~= group.deep_view().map_values(f));
                i += 1;
            }
            proof {
                lemma_fold_step(groups.deep_view(), i as int, mounts.deep_view(), step);
            }
        },
        None => {},
    }
    mounts
}

/// Normalizes the service of the name `name`. `is_app_service` says whether
/// the application builds the service itself.
pub fn convert_service(name: String, yaml: &ServiceSpecYaml, is_app_service: bool) -> (r: Result<
    ServiceSpec,
    TransformError,
>)
    ensures
        result_view(r) == service_of(name@, yaml@, is_app_service),
{
    let service_type = match yaml.service_type {
        Some(ServiceTypeYaml::Public) => ServiceType::Public,
        Some(ServiceTypeYaml::Internal) => ServiceType::Internal,
        Some(ServiceTypeYaml::Job) => ServiceType::Job,
        None => ServiceType::Internal,
    };
    let image_variants = convert_image_variants(yaml);
    let environment = convert_selectors(&yaml.environment);
    let configs = convert_config_mounts(&yaml.configs);
    let secrets = match &yaml.secrets {
        Some(secrets) => match convert_service_secrets(secrets) {
            Ok(secrets) => secrets,
            Err(e) => {
                return Err(e);
            },
        },
        None => {
            let secrets: Vec<ServiceSecret> = Vec::new();
            assert(secrets.deep_view() =~= Seq::empty());
            secrets
        },
    };
    let ports: Vec<ServicePort> = Vec::new();
    assert(ports.deep_view() =~= Seq::empty());
    Ok(
        ServiceSpec {
            name,
            service_type,
            is_app_service,
            image_variants,
            environment,
            configs,
            secrets,
            ports,
        },
    )
}

/// Adds one written service to the services read so far.
pub open spec fn service_entry_step(is_app_service: bool) -> spec_fn(
    Seq<ServiceSpecView>,
    (Seq<char>, ServiceSpecYamlView),
) -> Result<Seq<ServiceSpecView>, TransformErrorView> {
    |acc: Seq<ServiceSpecView>, e: (Seq<char>, ServiceSpecYamlView)|
        match service_of(e.0, e.1, is_app_service) {
            Ok(service) => Ok(acc.push(service)),
            Err(err) => Err(err),
        }
}

/// The services that a mapping of services writes, in its order.
pub open spec fn services_of(entries: Seq<(Seq<char>, ServiceSpecYamlView)>, is_app_service: bool) -> Result<
    Seq<ServiceSpecView>,
    TransformErrorView,
> {
    try_fold(entries, Seq::empty(), service_entry_step(is_app_service))
}

/// Normalizes the services of a list of written services, in its order.
pub fn convert_service_entries(entries: &Vec<(&String, &ServiceSpecYaml)>, is_app_service: bool) -> (r:
    Result<Vec<ServiceSpec>, TransformError>)
    ensures
        result_view(r) == services_of(entries.deep_view(), is_app_service),
{
    let ghost step = service_entry_step(is_app_service);
    let mut services: Vec<ServiceSpec> = Vec::new();
    let mut i: usize = 0;
    proof {
        assert(entries.deep_view().skip(0) =~= entries.deep_view());
        assert(services.deep_view() =~= Seq::empty());
    }
    while i < entries.len()
        invariant
            i <= entries.len(),
            step == service_entry_step(is_app_service),
            services_of(entries.deep_view(), is_app_service) == try_fold(
                entries.deep_view().skip(i as int),
                services.deep_view(),
                step,
            ),
        decreases entries.len() - i,
    {
        proof {
            lemma_try_fold_step(entries.deep_view(), i as int, services.deep_view(), step);
        }
        let ghost before = services.deep_view();
        match convert_service(entries[i].0.clone(), entries[i].1, is_app_service) {
            Ok(service) => {
                services.push(service);
                assert(services.deep_view() =~= before.push(service@));
            },
            Err(e) => {
                return Err(e);
            },
        }
        i += 1;
    }
    proof {
        lemma_try_fold_step(entries.deep_view(), i as int, services.deep_view(), step);
    }
    Ok(services)
}

fn entries_of<'a>(yaml: &'a Vec<(String, ServiceSpecYaml)>) -> (r: Vec<
    (&'a String, &'a ServiceSpecYaml),
>)
    ensures
        r.deep_view() == yaml.deep_view(),
{
    let mut entries: Vec<(&String, &ServiceSpecYaml)> = Vec::new();
    let mut i: usize = 0;
    assert(entries.deep_view() =~= yaml.deep_view().take(0));
    while i < yaml.len()
        invariant
            i <= yaml.len(),
            entries.deep_view() == yaml.deep_view().take(i as int),
        decreases yaml.len() - i,
    {
        let ghost before = entries.deep_view();
        entries.push((&yaml[i].0, &yaml[i].1));
        assert(entries.deep_view() =~= before.push(yaml.deep_view()[i as int]));
        assert(yaml.deep_view().take(i + 1) =~= before.push(yaml.deep_view()[i as int]));
        i += 1;
    }
    assert(yaml.deep_view().take(i as int) =~= yaml.deep_view());
    entries
}

/// Normalizes the services of a mapping of services, in its order.
/// `is_app_service` says whether the application builds them itself.
pub fn convert_services(yaml: &Vec<(String, ServiceSpecYaml)>, is_app_service: bool) -> (r: Result<
    Vec<ServiceSpec>,
    TransformError,
>)
    ensures
        result_view(r) == services_of(yaml.deep_view(), is_app_service),
{
    let entries = entries_of(yaml);
    convert_service_entries(&entries, is_app_service)
}

} // verus!
