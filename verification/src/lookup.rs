//! Searches by name in the lists of the descriptors and of the resolved model.
//! Where a name occurs more than once, the first occurrence is the one found.

use vstd::prelude::*;
use crate::resolved_spec::{
    ConfigResolvedSpec, ConfigResolvedSpecView, SecretResolvedSpec, SecretResolvedSpecView,
};
use crate::seqs::{first_from, first_where, index_view};
use crate::sources::{
    ConfigPathSnapshot, ConfigPathSnapshotView, SecretFileSnapshot, SecretFileSnapshotView,
};
use crate::spec::{
    ConfigSpec, ConfigSpecView, DeploymentSecretSpec, DeploymentSecretSpecView,
    DeploymentServiceEntry, DeploymentServiceEntryView, DeploymentSpec, DeploymentSpecView,
    ExternalEnvVariable, ExternalEnvVariableView, HostSpec, HostSpecView, ImageVariant,
    ImageVariantView, InternalEnvVariable, InternalEnvVariableView, OptionalEnvVariable,
    OptionalEnvVariableView, RegistryMapping, RegistryMappingView, RelativeEnvVariable,
    RelativeEnvVariableView, ServiceSpec, ServiceSpecView,
};
use crate::text::same_text;

verus! {

/// Selects the deployments of the name `name`.
pub open spec fn deployment_named(name: Seq<char>) -> spec_fn(DeploymentSpecView) -> bool {
    |x: DeploymentSpecView| x.name == name
}

/// Finds the first of the deployments of the name `name`.
pub fn find_deployment(items: &Vec<DeploymentSpec>, name: &str) -> (r: Option<usize>)
    ensures
        index_view(r) == first_where(items.deep_view(), deployment_named(name@)),
        r matches Some(i) ==> i < items.len(),
{
    let mut i: usize = 0;
    while i < items.len()
        invariant
            first_where(items.deep_view(), deployment_named(name@)) == first_from(
                items.deep_view(),
                deployment_named(name@),
                i as int,
            ),
        decreases items.len() - i,
    {
        if same_text(items[i].name.as_str(), name) {
            return Some(i);
        }
        i += 1;
    }
    None
}

/// Selects the overrides for the service of the name `name`.
pub open spec fn override_for(name: Seq<char>) -> spec_fn(DeploymentServiceEntryView) -> bool {
    |x: DeploymentServiceEntryView| x.service_name == name
}

/// Finds the first of the overrides for the service of the name `name`.
pub fn find_override(items: &Vec<DeploymentServiceEntry>, name: &str) -> (r: Option<usize>)
    ensures
        index_view(r) == first_where(items.deep_view(), override_for(name@)),
        r matches Some(i) ==> i < items.len(),
{
    let mut i: usize = 0;
    while i < items.len()
        invariant
            first_where(items.deep_view(), override_for(name@)) == first_from(
                items.deep_view(),
                override_for(name@),
                i as int,
            ),
        decreases items.len() - i,
    {
        if same_text(items[i].service_name.as_str(), name) {
            return Some(i);
        }
        i += 1;
    }
    None
}

/// Selects the ingress hosts of the name `name`.
pub open spec fn host_named(name: Seq<char>) -> spec_fn(HostSpecView) -> bool {
    |x: HostSpecView| x.name == name
}

/// Finds the first of the ingress hosts of the name `name`.
pub fn find_host(items: &Vec<HostSpec>, name: &str) -> (r: Option<usize>)
    ensures
        index_view(r) == first_where(items.deep_view(), host_named(name@)),
        r matches Some(i) ==> i < items.len(),
{
    let mut i: usize = 0;
    while i < items.len()
        invariant
            first_where(items.deep_view(), host_named(name@)) == first_from(
                items.deep_view(),
                host_named(name@),
                i as int,
            ),
        decreases items.len() - i,
    {
        if same_text(items[i].name.as_str(), name) {
            return Some(i);
        }
        i += 1;
    }
    None
}

/// Selects the image variants of the name `name`.
pub open spec fn variant_named(name: Seq<char>) -> spec_fn(ImageVariantView) -> bool {
    |x: ImageVariantView| x.variant_name == name
}

/// Finds the first of the image variants of the name `name`.
pub fn find_variant(items: &Vec<ImageVariant>, name: &str) -> (r: Option<usize>)
    ensures
        index_view(r) == first_where(items.deep_view(), variant_named(name@)),
        r matches Some(i) ==> i < items.len(),
{
    let mut i: usize = 0;
    while i < items.len()
        invariant
            first_where(items.deep_view(), variant_named(name@)) == first_from(
                items.deep_view(),
                variant_named(name@),
                i as int,
            ),
        decreases items.len() - i,
    {
        if same_text(items[i].variant_name.as_str(), name) {
            return Some(i);
        }
        i += 1;
    }
    None
}

/// Selects the registry mappings of the namespace `name`.
pub open spec fn mapping_of(name: Seq<char>) -> spec_fn(RegistryMappingView) -> bool {
    |x: RegistryMappingView| x.namespace == name
}

/// Finds the first of the registry mappings of the namespace `name`.
pub fn find_mapping(items: &Vec<RegistryMapping>, name: &str) -> (r: Option<usize>)
    ensures
        index_view(r) == first_where(items.deep_view(), mapping_of(name@)),
        r matches Some(i) ==> i < items.len(),
{
    let mut i: usize = 0;
    while i < items.len()
        invariant
            first_where(items.deep_view(), mapping_of(name@)) == first_from(
                items.deep_view(),
                mapping_of(name@),
                i as int,
            ),
        decreases items.len() - i,
    {
        if same_text(items[i].namespace.as_str(), name) {
            return Some(i);
        }
        i += 1;
    }
    None
}

/// Selects the config sources at the path `name`.
pub open spec fn config_source_at(name: Seq<char>) -> spec_fn(ConfigPathSnapshotView) -> bool {
    |x: ConfigPathSnapshotView| x.path == name
}

/// Finds the first of the config sources at the path `name`.
pub fn find_config_source(items: &Vec<ConfigPathSnapshot>, name: &str) -> (r: Option<usize>)
    ensures
        index_view(r) == first_where(items.deep_view(), config_source_at(name@)),
        r matches Some(i) ==> i < items.len(),
{
    let mut i: usize = 0;
    while i < items.len()
        invariant
            first_where(items.deep_view(), config_source_at(name@)) == first_from(
                items.deep_view(),
                config_source_at(name@),
                i as int,
            ),
        decreases items.len() - i,
    {
        if same_text(items[i].path.as_str(), name) {
            return Some(i);
        }
        i += 1;
    }
    None
}

/// Selects the secret files at the path `name`.
pub open spec fn secret_file_at(name: Seq<char>) -> spec_fn(SecretFileSnapshotView) -> bool {
    |x: SecretFileSnapshotView| x.path == name
}

/// Finds the first of the secret files at the path `name`.
pub fn find_secret_file(items: &Vec<SecretFileSnapshot>, name: &str) -> (r: Option<usize>)
    ensures
        index_view(r) == first_where(items.deep_view(), secret_file_at(name@)),
        r matches Some(i) ==> i < items.len(),
{
    let mut i: usize = 0;
    while i < items.len()
        invariant
            first_where(items.deep_view(), secret_file_at(name@)) == first_from(
                items.deep_view(),
                secret_file_at(name@),
                i as int,
            ),
        decreases items.len() - i,
    {
        if same_text(items[i].path.as_str(), name) {
            return Some(i);
        }
        i += 1;
    }
    None
}

/// Selects the resolved config groups of the full name `name`.
pub open spec fn config_named(name: Seq<char>) -> spec_fn(ConfigResolvedSpecView) -> bool {
    |x: ConfigResolvedSpecView| x.name == name
}

/// Finds the first of the resolved config groups of the full name `name`.
pub fn find_config(items: &Vec<ConfigResolvedSpec>, name: &str) -> (r: Option<usize>)
    ensures
        index_view(r) == first_where(items.deep_view(), config_named(name@)),
        r matches Some(i) ==> i < items.len(),
{
    let mut i: usize = 0;
    while i < items.len()
        invariant
            first_where(items.deep_view(), config_named(name@)) == first_from(
                items.deep_view(),
                config_named(name@),
                i as int,
            ),
        decreases items.len() - i,
    {
        if same_text(items[i].name.as_str(), name) {
            return Some(i);
        }
        i += 1;
    }
    None
}

/// Selects the resolved secrets of the full name `name`.
pub open spec fn secret_named(name: Seq<char>) -> spec_fn(SecretResolvedSpecView) -> bool {
    |x: SecretResolvedSpecView| x.name == name
}

/// Finds the first of the resolved secrets of the full name `name`.
pub fn find_secret(items: &Vec<SecretResolvedSpec>, name: &str) -> (r: Option<usize>)
    ensures
        index_view(r) == first_where(items.deep_view(), secret_named(name@)),
        r matches Some(i) ==> i < items.len(),
{
    let mut i: usize = 0;
    while i < items.len()
        invariant
            first_where(items.deep_view(), secret_named(name@)) == first_from(
                items.deep_view(),
                secret_named(name@),
                i as int,
            ),
        decreases items.len() - i,
    {
        if same_text(items[i].name.as_str(), name) {
            return Some(i);
        }
        i += 1;
    }
    None
}

/// Selects the supplied secrets of the name `name`.
pub open spec fn supplied_secret(name: Seq<char>) -> spec_fn(DeploymentSecretSpecView) -> bool {
    |x: DeploymentSecretSpecView| x.secret_name == name
}

/// Finds the first of the supplied secrets of the name `name`.
pub fn find_supplied_secret(items: &Vec<DeploymentSecretSpec>, name: &str) -> (r: Option<usize>)
    ensures
        index_view(r) == first_where(items.deep_view(), supplied_secret(name@)),
        r matches Some(i) ==> i < items.len(),
{
    let mut i: usize = 0;
    while i < items.len()
        invariant
            first_where(items.deep_view(), supplied_secret(name@)) == first_from(
                items.deep_view(),
                supplied_secret(name@),
                i as int,
            ),
        decreases items.len() - i,
    {
        if same_text(items[i].secret_name.as_str(), name) {
            return Some(i);
        }
        i += 1;
    }
    None
}

/// Selects the config groups of the name `name`.
pub open spec fn config_spec_named(name: Seq<char>) -> spec_fn(ConfigSpecView) -> bool {
    |x: ConfigSpecView| x.name == name
}

/// Finds the first of the config groups of the name `name`.
pub fn find_config_spec(items: &Vec<ConfigSpec>, name: &str) -> (r: Option<usize>)
    ensures
        index_view(r) == first_where(items.deep_view(), config_spec_named(name@)),
        r matches Some(i) ==> i < items.len(),
{
    let mut i: usize = 0;
    while i < items.len()
        invariant
            first_where(items.deep_view(), config_spec_named(name@)) == first_from(
                items.deep_view(),
                config_spec_named(name@),
                i as int,
            ),
        decreases items.len() - i,
    {
        if same_text(items[i].name.as_str(), name) {
            return Some(i);
        }
        i += 1;
    }
    None
}

/// Selects the services of the name `name`.
pub open spec fn service_named(name: Seq<char>) -> spec_fn(ServiceSpecView) -> bool {
    |x: ServiceSpecView| x.name == name
}

/// Finds the first of the services of the name `name`.
pub fn find_service(items: &Vec<ServiceSpec>, name: &str) -> (r: Option<usize>)
    ensures
        index_view(r) == first_where(items.deep_view(), service_named(name@)),
        r matches Some(i) ==> i < items.len(),
{
    let mut i: usize = 0;
    while i < items.len()
        invariant
            first_where(items.deep_view(), service_named(name@)) == first_from(
                items.deep_view(),
                service_named(name@),
                i as int,
            ),
        decreases items.len() - i,
    {
        if same_text(items[i].name.as_str(), name) {
            return Some(i);
        }
        i += 1;
    }
    None
}

/// Selects the external variables of the name `name`.
pub open spec fn external_named(name: Seq<char>) -> spec_fn(ExternalEnvVariableView) -> bool {
    |x: ExternalEnvVariableView| x.name == name
}

/// Finds the first of the external variables of the name `name`.
pub fn find_external(items: &Vec<ExternalEnvVariable>, name: &str) -> (r: Option<usize>)
    ensures
        index_view(r) == first_where(items.deep_view(), external_named(name@)),
        r matches Some(i) ==> i < items.len(),
{
    let mut i: usize = 0;
    while i < items.len()
        invariant
            first_where(items.deep_view(), external_named(name@)) == first_from(
                items.deep_view(),
                external_named(name@),
                i as int,
            ),
        decreases items.len() - i,
    {
        if same_text(items[i].name.as_str(), name) {
            return Some(i);
        }
        i += 1;
    }
    None
}

/// Selects the optional variables of the name `name`.
pub open spec fn optional_named(name: Seq<char>) -> spec_fn(OptionalEnvVariableView) -> bool {
    |x: OptionalEnvVariableView| x.name == name
}

/// Finds the first of the optional variables of the name `name`.
pub fn find_optional(items: &Vec<OptionalEnvVariable>, name: &str) -> (r: Option<usize>)
    ensures
        index_view(r) == first_where(items.deep_view(), optional_named(name@)),
        r matches Some(i) ==> i < items.len(),
{
    let mut i: usize = 0;
    while i < items.len()
        invariant
            first_where(items.deep_view(), optional_named(name@)) == first_from(
                items.deep_view(),
                optional_named(name@),
                i as int,
            ),
        decreases items.len() - i,
    {
        if same_text(items[i].name.as_str(), name) {
            return Some(i);
        }
        i += 1;
    }
    None
}

/// Selects the relative variables of the name `name`.
pub open spec fn relative_named(name: Seq<char>) -> spec_fn(RelativeEnvVariableView) -> bool {
    |x: RelativeEnvVariableView| x.name == name
}

/// Finds the first of the relative variables of the name `name`.
pub fn find_relative(items: &Vec<RelativeEnvVariable>, name: &str) -> (r: Option<usize>)
    ensures
        index_view(r) == first_where(items.deep_view(), relative_named(name@)),
        r matches Some(i) ==> i < items.len(),
{
    let mut i: usize = 0;
    while i < items.len()
        invariant
            first_where(items.deep_view(), relative_named(name@)) == first_from(
                items.deep_view(),
                relative_named(name@),
                i as int,
            ),
        decreases items.len() - i,
    {
        if same_text(items[i].name.as_str(), name) {
            return Some(i);
        }
        i += 1;
    }
    None
}

/// Selects the internal variables of the name `name`.
pub open spec fn internal_named(name: Seq<char>) -> spec_fn(InternalEnvVariableView) -> bool {
    |x: InternalEnvVariableView| x.name == name
}

/// Finds the first of the internal variables of the name `name`.
pub fn find_internal(items: &Vec<InternalEnvVariable>, name: &str) -> (r: Option<usize>)
    ensures
        index_view(r) == first_where(items.deep_view(), internal_named(name@)),
        r matches Some(i) ==> i < items.len(),
{
    let mut i: usize = 0;
    while i < items.len()
        invariant
            first_where(items.deep_view(), internal_named(name@)) == first_from(
                items.deep_view(),
                internal_named(name@),
                i as int,
            ),
        decreases items.len() - i,
    {
        if same_text(items[i].name.as_str(), name) {
            return Some(i);
        }
        i += 1;
    }
    None
}

} // verus!
