//! The image that a service runs: the chosen variant, with its tag and the
//! host of its registry.

use vstd::prelude::*;
use crate::error::{ResolveError, ResolveErrorView};
use crate::lookup::{find_mapping, find_variant, mapping_of, variant_named};
use crate::seqs::{first_where, result_view};
use crate::spec::{
    AppSpec, DeploymentEnvironmentSpec, DeploymentEnvironmentSpecView, DeploymentEnvType,
    ImageVariantView, RegistryMappingView, ServiceSpec, ServiceSpecView,
};
use crate::text::{chars_of, concat2, concat3, find_char, lemma_next_char, next_char, slice_text};

verus! {

/// The image of the variant `variant`, if the service has that variant.
pub open spec fn variant_image(variants: Seq<ImageVariantView>, variant: Seq<char>) -> Option<
    Seq<char>,
> {
    match first_where(variants, variant_named(variant)) {
        Some(i) => Some(variants[i].image),
        None => None,
    }
}

/// An image of the application with its tag: `latest` in a local
/// environment, elsewhere the version of the application.
pub open spec fn tagged_image(image: Seq<char>, env_type: DeploymentEnvType, version: Seq<char>) -> Seq<
    char,
> {
    match env_type {
        DeploymentEnvType::Local => image + ":latest"@,
        _ => image + ":"@ + version,
    }
}

/// A registry host without the one `/` that may end it.
pub open spec fn without_trailing_slash(host: Seq<char>) -> Seq<char> {
    if host.len() > 0 && host.last() == '/' {
        host.drop_last()
    } else {
        host
    }
}

/// An image of the application with the host of its registry in front.
///
/// The namespace of an image is what stands before its first `/`. In a local
/// environment, and for an image without a `/`, the image stays as it is.
/// Elsewhere the registry must map the namespace, exactly as written, to a host.
pub open spec fn app_service_image(
    env_type: DeploymentEnvType,
    registry: Seq<RegistryMappingView>,
    service: Seq<char>,
    image: Seq<char>,
) -> Result<Seq<char>, ResolveErrorView> {
    match env_type {
        DeploymentEnvType::Local => Ok(image),
        _ => match next_char(image, '/', 0) {
            None => Ok(image),
            Some(slash) => {
                let namespace = image.subrange(0, slash);
                match first_where(registry, mapping_of(namespace)) {
                    Some(k) => Ok(without_trailing_slash(registry[k].host) + "/"@ + image),
                    None => Err(ResolveErrorView::RegistryNotFound { service, namespace }),
                }
            },
        },
    }
}

/// The image that a service runs: that of the variant `variant`; for a
/// service of the application itself, with its tag and its registry host.
pub open spec fn service_image(
    env: DeploymentEnvironmentSpecView,
    version: Seq<char>,
    service: ServiceSpecView,
    variant: Seq<char>,
) -> Result<Seq<char>, ResolveErrorView> {
    match variant_image(service.image_variants, variant) {
        None => Err(ResolveErrorView::ImageVariantNotFound { service: service.name, variant }),
        Some(raw) => if service.is_app_service {
            app_service_image(
                env.env_type,
                env.registry,
                service.name,
                tagged_image(raw, env.env_type, version),
            )
        } else {
            Ok(raw)
        },
    }
}

fn strip_trailing_slash(host: &String) -> (r: String)
    ensures
        r@ == without_trailing_slash(host@),
{
    let chars = chars_of(host.as_str());
    let n = chars.len();
    if n > 0 && chars[n - 1] == '/' {
        let r = slice_text(host.as_str(), 0, n - 1);
        assert(host@.subrange(0, n - 1) =~= host@.drop_last());
        r
    } else {
        host.clone()
    }
}

fn resolve_app_service_image(
    env_spec: &DeploymentEnvironmentSpec,
    service_name: &String,
    image: String,
) -> (r: Result<String, ResolveError>)
    ensures
        result_view(r) == app_service_image(
            env_spec@.env_type,
            env_spec@.registry,
            service_name@,
            image@,
        ),
{
    match env_spec.env_type {
        DeploymentEnvType::Local => Ok(image),
        _ => {
            let chars = chars_of(image.as_str());
            proof {
                lemma_next_char(image@, '/', 0);
            }
            match find_char(&chars, '/', 0) {
                None => Ok(image),
                Some(slash) => {
                    let namespace = slice_text(image.as_str(), 0, slash);
                    match find_mapping(&env_spec.registry, namespace.as_str()) {
                        Some(k) => {
                            let host = strip_trailing_slash(&env_spec.registry[k].host);
                            Ok(concat3(host.as_str(), "/", image.as_str()))
                        },
                        None => Err(
                            ResolveError::RegistryNotFound {
                                service: service_name.clone(),
                                namespace,
                            },
                        ),
                    }
                },
            }
        },
    }
}

/// Resolves the image that a service runs, for the variant `variant`.
pub fn resolve_service_image(
    env_spec: &DeploymentEnvironmentSpec,
    app_spec: &AppSpec,
    service: &ServiceSpec,
    variant: &str,
) -> (r: Result<String, ResolveError>)
    ensures
        result_view(r) == service_image(env_spec@, app_spec@.version, service@, variant@),
{
    match find_variant(&service.image_variants, variant) {
        None => Err(
            ResolveError::ImageVariantNotFound {
                service: service.name.clone(),
                variant: variant.to_owned(),
            },
        ),
        Some(k) => {
            let raw = &service.image_variants[k].image;
            if service.is_app_service {
                let tagged = match env_spec.env_type {
                    DeploymentEnvType::Local => concat2(raw.as_str(), ":latest"),
                    _ => concat3(raw.as_str(), ":", app_spec.version.as_str()),
                };
                resolve_app_service_image(env_spec, &service.name, tagged)
            } else {
                Ok(raw.clone())
            }
        },
    }
}

} // verus!
