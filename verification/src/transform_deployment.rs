//! Normalization of one deployment of an environment descriptor.

use vstd::prelude::*;
use crate::env_loader::{load_env_file, parse_env_variable, parsed_env_file, parsed_variable};
use crate::error::{TransformError, TransformErrorView};
use crate::ports::{convert_ports, written_ports};
use crate::seqs::{first_from, first_where, index_view, lemma_try_fold_step, result_view, try_fold};
use crate::sources::{
    ConfigDirContent, ConfigDirContentView, ConfigDirSnapshot, ConfigDirSnapshotView,
    DescriptorFiles, DescriptorFilesView, EnvFileSnapshot, EnvFileSnapshotView,
};
use crate::spec::{
    ConfigSpec, ConfigSpecView, DeploymentAppSpec, DeploymentAppSpecView, DeploymentSecretSource,
    DeploymentSecretSourceView, DeploymentSecretSpec, DeploymentSecretSpecView,
    DeploymentServiceEntry, DeploymentServiceEntryView, DeploymentServiceSpec,
    DeploymentServiceSpecView, DeploymentSpec, DeploymentSpecView, EnvVariable, EnvVariableView,
    Prefix, PrefixView, ResourceLimits, ResourceLimitsView, ResourcesSpec, ResourcesSpecView,
};
use crate::spec_yaml::{
    DefaultsSpecYaml, DefaultsSpecYamlView, DeploymentAppSpecYaml, DeploymentAppSpecYamlView,
    DeploymentEnvVariablesYaml, DeploymentEnvVariablesYamlView, DeploymentSecretSpecExYaml,
    DeploymentSecretSpecExYamlView, DeploymentServiceSpecYaml, DeploymentServiceSpecYamlView,
    DeploymentSpecYaml, DeploymentSpecYamlView, PrefixOptionsYamlView, ResourceLimitsYaml,
    ResourceLimitsYamlView,
};
use crate::text::same_text;
use crate::version::{semver_range_parses, VersionRange};

verus! {

/// The amounts of a service for which nothing is written: `128Mi` of memory
/// and `100m` of CPU.
pub open spec fn default_limits() -> ResourceLimitsView {
    ResourceLimitsView { memory: "128Mi"@, cpu: "100m"@ }
}

/// The amounts that are written, with the defaults where nothing is.
pub open spec fn limits_of(yaml: Option<ResourceLimitsYamlView>) -> ResourceLimitsView {
    match yaml {
        Some(l) => ResourceLimitsView {
            memory: match l.memory {
                Some(m) => m,
                None => "128Mi"@,
            },
            cpu: match l.cpu {
                Some(c) => c,
                None => "100m"@,
            },
        },
        None => default_limits(),
    }
}

/// Fills in the amounts of a service.
pub fn convert_limits(yaml: Option<&ResourceLimitsYaml>) -> (r: ResourceLimits)
    ensures
        r@ == limits_of(yaml.deep_view()),
{
    match yaml {
        Some(l) => ResourceLimits {
            memory: match &l.memory {
                Some(m) => m.clone(),
                None => "128Mi".to_owned(),
            },
            cpu: match &l.cpu {
                Some(c) => c.clone(),
                None => "100m".to_owned(),
            },
        },
        None => ResourceLimits { memory: "128Mi".to_owned(), cpu: "100m".to_owned() },
    }
}

/// The default sizing of a deployment: one instance where no number is
/// written, and the default amounts where none are.
pub open spec fn defaults_of(yaml: DefaultsSpecYamlView) -> ResourcesSpecView {
    ResourcesSpecView {
        replicas: match yaml.replicas {
            Some(n) => n,
            None => 1,
        },
        requests: match yaml.resources {
            Some(res) => limits_of(res.requests),
            None => default_limits(),
        },
        limits: match yaml.resources {
            Some(res) => limits_of(res.limits),
            None => default_limits(),
        },
    }
}

/// The sizing of a deployment that writes no defaults.
pub open spec fn unwritten_defaults() -> ResourcesSpecView {
    ResourcesSpecView { replicas: 1, requests: default_limits(), limits: default_limits() }
}

/// Fills in the default sizing of a deployment. It never fails.
pub fn convert_defaults(yaml: &DefaultsSpecYaml) -> (r: Result<ResourcesSpec, TransformError>)
    ensures
        result_view(r) == Ok::<ResourcesSpecView, TransformErrorView>(defaults_of(yaml@)),
{
    let replicas = match yaml.replicas {
        Some(n) => n,
        None => 1,
    };
    let (requests, limits) = match &yaml.resources {
        Some(res) => (convert_limits(res.requests.as_ref()), convert_limits(res.limits.as_ref())),
        None => (convert_limits(None), convert_limits(None)),
    };
    Ok(ResourcesSpec { replicas, requests, limits })
}

/// One entry of the written prefixes as a prefix: it is kept in front of
/// requests unless the entry says otherwise.
pub open spec fn listed_prefix() -> spec_fn((Seq<char>, PrefixOptionsYamlView)) -> PrefixView {
    |e: (Seq<char>, PrefixOptionsYamlView)|
        PrefixView {
            prefix: e.0,
            strip: match e.1.strip {
                Some(strip) => strip,
                None => false,
            },
        }
}

/// The prefixes that a service override writes: the listed ones in order,
/// then the single one, which is removed from requests unless the override
/// says otherwise.
pub open spec fn written_prefixes(yaml: DeploymentServiceSpecYamlView) -> Seq<PrefixView> {
    let listed = match yaml.prefixes {
        Some(entries) => entries.map_values(listed_prefix()),
        None => Seq::empty(),
    };
    match yaml.prefix {
        Some(prefix) => listed.push(
            PrefixView {
                prefix,
                strip: match yaml.strip_prefix {
                    Some(strip) => strip,
                    None => true,
                },
            },
        ),
        None => listed,
    }
}

/// The sizing of an overridden service: what the override writes, and the
/// defaults of the deployment for the rest.
pub open spec fn resources_of(
    yaml: DeploymentServiceSpecYamlView,
    defaults: ResourcesSpecView,
) -> ResourcesSpecView {
    ResourcesSpecView {
        replicas: match yaml.replicas {
            Some(n) => n,
            None => defaults.replicas,
        },
        requests: match yaml.resources {
            Some(res) => limits_of(res.requests),
            None => defaults.requests,
        },
        limits: match yaml.resources {
            Some(res) => limits_of(res.limits),
            None => defaults.limits,
        },
    }
}

/// What a deployment overrides for a service, from what it writes.
pub open spec fn deployment_service_of(
    yaml: DeploymentServiceSpecYamlView,
    defaults: ResourcesSpecView,
) -> Result<DeploymentServiceSpecView, TransformErrorView> {
    match written_ports(yaml.ports) {
        Ok(ports) => Ok(
            DeploymentServiceSpecView {
                variant: yaml.variant,
                host: yaml.host,
                prefixes: written_prefixes(yaml),
                resources: resources_of(yaml, defaults),
                ports,
            },
        ),
        Err(e) => Err(e),
    }
}

fn convert_prefixes(yaml: &DeploymentServiceSpecYaml) -> (r: Vec<Prefix>)
    ensures
        r.deep_view() == written_prefixes(yaml@),
{
    let mut prefixes: Vec<Prefix> = Vec::new();
    assert(prefixes.deep_view() =~= Seq::empty());
    match &yaml.prefixes {
        Some(entries) => {
            let ghost f = listed_prefix();
            let mut i: usize = 0;
            assert(entries.deep_view().map_values(f).take(0) =~= Seq::empty());
            while i < entries.len()
                invariant
                    i <= entries.len(),
                    f == listed_prefix(),
                    prefixes.deep_view() == entries.deep_view().map_values(f).take(i as int),
                decreases entries.len() - i,
            {
                let ghost before = prefixes.deep_view();
                let prefix = Prefix {
                    prefix: entries[i].0.clone(),
                    strip: match entries[i].1.strip {
                        Some(strip) => strip,
                        None => false,
                    },
                };
                prefixes.push(prefix);
                assert(prefixes.deep_view() =~= before.push(prefix@));
                assert(entries.deep_view().map_values(f).take(i + 1) =~= before.push(prefix@));
                i += 1;
            }
            assert(entries.deep_view().map_values(f).take(i as int) =~= entries.deep_view().map_values(
                f,
            ));
        },
        None => {},
    }
    match &yaml.prefix {
        Some(p) => {
            let ghost before = prefixes.deep_view();
            let prefix = Prefix {
                prefix: p.clone(),
                strip: match yaml.strip_prefix {
                    Some(strip) => strip,
                    None => true,
                },
            };
            prefixes.push(prefix);
            assert(prefixes.deep_view() =~= before.push(prefix@));
        },
        None => {},
    }
    prefixes
}

/// Normalizes what a deployment overrides for one service. `defaults` is the
/// default sizing of the deployment.
pub fn convert_deployment_service(yaml: &DeploymentServiceSpecYaml, defaults: &ResourcesSpec) -> (r:
    Result<DeploymentServiceSpec, TransformError>)
    ensures
        result_view(r) == deployment_service_of(yaml@, defaults@),
{
    let prefixes = convert_prefixes(yaml);
    let replicas = match yaml.replicas {
        Some(n) => n,
        None => defaults.replicas,
    };
    let resources = match &yaml.resources {
        Some(res) => ResourcesSpec {
            replicas,
            requests: convert_limits(res.requests.as_ref()),
            limits: convert_limits(res.limits.as_ref()),
        },
        None => ResourcesSpec {
            replicas,
            requests: defaults.requests.clone(),
            limits: defaults.limits.clone(),
        },
    };
    let ports = match convert_ports(&yaml.ports) {
        Ok(ports) => ports,
        Err(e) => {
            return Err(e);
        },
    };
    Ok(
        DeploymentServiceSpec {
            variant: yaml.variant.clone(),
            host: yaml.host.clone(),
            prefixes,
            resources,
            ports,
        },
    )
}

/// Adds one written variable of a deployment to the variables read so far.
pub open spec fn listed_variable_step() -> spec_fn(Seq<EnvVariableView>, Seq<char>) -> Result<
    Seq<EnvVariableView>,
    TransformErrorView,
> {
    |acc: Seq<EnvVariableView>, text: Seq<char>|
        match parsed_variable(text) {
            Ok(var) => Ok(acc.push(var)),
            Err(cause) => Err(TransformErrorView::DeploymentVariable { text, cause }),
        }
}

/// Selects the env files at the path `path`.
pub open spec fn env_file_at(path: Seq<char>) -> spec_fn(EnvFileSnapshotView) -> bool {
    |f: EnvFileSnapshotView| f.path == path
}

/// The values that a deployment gives to variables: those of its list, or
/// those of its env file; none where it writes nothing.
pub open spec fn env_variables_of(
    yaml: Option<DeploymentEnvVariablesYamlView>,
    env_files: Seq<EnvFileSnapshotView>,
) -> Result<Seq<EnvVariableView>, TransformErrorView> {
    match yaml {
        None => Ok(Seq::empty()),
        Some(DeploymentEnvVariablesYamlView::FromList(texts)) => try_fold(
            texts,
            Seq::empty(),
            listed_variable_step(),
        ),
        Some(DeploymentEnvVariablesYamlView::FromEnvFile(path)) => match first_where(
            env_files,
            env_file_at(path),
        ) {
            None => Err(TransformErrorView::EnvFileUnreadable { path }),
            Some(i) => match env_files[i].lines {
                None => Err(TransformErrorView::EnvFileUnreadable { path }),
                Some(lines) => match parsed_env_file(lines) {
                    Ok(vars) => Ok(vars),
                    Err(failure) => Err(TransformErrorView::EnvFile { path, failure }),
                },
            },
        },
    }
}

fn find_env_file(files: &Vec<EnvFileSnapshot>, path: &str) -> (r: Option<usize>)
    ensures
        index_view(r) == first_where(files.deep_view(), env_file_at(path@)),
        r matches Some(i) ==> i < files.len(),
{
    let mut i: usize = 0;
    while i < files.len()
        invariant
            first_where(files.deep_view(), env_file_at(path@)) == first_from(
                files.deep_view(),
                env_file_at(path@),
                i as int,
            ),
        decreases files.len() - i,
    {
        if same_text(files[i].path.as_str(), path) {
            return Some(i);
        }
        i += 1;
    }
    None
}

/// Normalizes the values that a deployment gives to variables. `env_files`
/// holds the env files that deployments refer to.
pub fn convert_env_variables(
    yaml: &Option<DeploymentEnvVariablesYaml>,
    env_files: &Vec<EnvFileSnapshot>,
) -> (r: Result<Vec<EnvVariable>, TransformError>)
    ensures
        result_view(r) == env_variables_of(yaml.deep_view(), env_files.deep_view()),
{
    match yaml {
        None => {
            let vars: Vec<EnvVariable> = Vec::new();
            assert(vars.deep_view() =~= Seq::empty());
            Ok(vars)
        },
        Some(DeploymentEnvVariablesYaml::FromEnvFile(path)) => {
            match find_env_file(env_files, path.as_str()) {
                None => Err(TransformError::EnvFileUnreadable { path: path.clone() }),
                Some(k) => match &env_files[k].lines {
                    None => Err(TransformError::EnvFileUnreadable { path: path.clone() }),
                    Some(lines) => match load_env_file(lines.as_slice()) {
                        Ok(vars) => Ok(vars),
                        Err(failure) => Err(
                            TransformError::EnvFile { path: path.clone(), failure },
                        ),
                    },
                },
            }
        },
        Some(DeploymentEnvVariablesYaml::FromList(texts)) => {
            let ghost step = listed_variable_step();
            let mut vars: Vec<EnvVariable> = Vec::new();
            let mut i: usize = 0;
            proof {
                assert(texts.deep_view().skip(0) =~= texts.deep_view());
                assert(vars.deep_view() =~= Seq::empty());
            }
            while i < texts.len()
                invariant
                    i <= texts.len(),
                    step == listed_variable_step(),
                    yaml.deep_view() == Some(
                        DeploymentEnvVariablesYamlView::FromList(texts.deep_view()),
                    ),
                    try_fold(texts.deep_view(), Seq::empty(), step) == try_fold(
                        texts.deep_view().skip(i as int),
                        vars.deep_view(),
                        step,
                    ),
                decreases texts.len() - i,
            {
                proof {
                    lemma_try_fold_step(texts.deep_view(), i as int, vars.deep_view(), step);
                }
                let ghost before = vars.deep_view();
                match parse_env_variable(texts[i].as_str()) {
                    Ok(var) => {
                        vars.push(var);
                        assert(vars.deep_view() =~= before.push(var@));
                    },
                    Err(cause) => {
                        return Err(
                            TransformError::DeploymentVariable { text: texts[i].clone(), cause },
                        );
                    },
                }
                i += 1;
            }
            proof {
                lemma_try_fold_step(texts.deep_view(), i as int, vars.deep_view(), step);
            }
            Ok(vars)
        },
    }
}

/// The application of a deployment, from what is written.
pub open spec fn deployment_app_of(yaml: DeploymentAppSpecYamlView) -> Result<
    DeploymentAppSpecView,
    TransformErrorView,
> {
    if yaml.version matches Some(text) && !semver_range_parses(text) {
        Err(TransformErrorView::InvalidVersionRange { text: yaml.version->0 })
    } else {
        Ok(
            DeploymentAppSpecView {
                name: yaml.name,
                version: yaml.version,
                extra: match yaml.extra {
                    Some(paths) => paths,
                    None => Seq::empty(),
                },
            },
        )
    }
}

fn convert_deployment_app(yaml: &DeploymentAppSpecYaml) -> (r: Result<
    DeploymentAppSpec,
    TransformError,
>)
    ensures
        result_view(r) == deployment_app_of(yaml@),
{
    let version = match &yaml.version {
        Some(text) => match VersionRange::parse(text.as_str()) {
            Some(range) => Some(range),
            None => {
                return Err(TransformError::InvalidVersionRange { text: text.clone() });
            },
        },
        None => None,
    };
    let extra = match &yaml.extra {
        Some(paths) => {
            let extra = paths.clone();
            assert(extra.deep_view() =~= paths.deep_view());
            extra
        },
        None => {
            let extra: Vec<String> = Vec::new();
            assert(extra.deep_view() =~= Seq::empty());
            extra
        },
    };
    Ok(DeploymentAppSpec { name: yaml.name.clone(), version, extra })
}

/// Selects the config directories at the path `path`.
pub open spec fn config_dir_at(path: Seq<char>) -> spec_fn(ConfigDirSnapshotView) -> bool {
    |d: ConfigDirSnapshotView| d.path == path
}

/// Adds one config group of a deployment, with the files of its directory,
/// to the groups read so far.
pub open spec fn config_dir_step(dirs: Seq<ConfigDirSnapshotView>) -> spec_fn(
    Seq<ConfigSpecView>,
    (Seq<char>, Seq<char>),
) -> Result<Seq<ConfigSpecView>, TransformErrorView> {
    |acc: Seq<ConfigSpecView>, e: (Seq<char>, Seq<char>)|
        match first_where(dirs, config_dir_at(e.1)) {
            None => Err(TransformErrorView::ConfigNotADirectory { config: e.0, path: e.1 }),
            Some(i) => match dirs[i].content {
                ConfigDirContentView::NotADirectory => Err(
                    TransformErrorView::ConfigNotADirectory { config: e.0, path: e.1 },
                ),
                ConfigDirContentView::Unreadable => Err(
                    TransformErrorView::ConfigDirectoryUnreadable { config: e.0, path: e.1 },
                ),
                ConfigDirContentView::Files(files) => Ok(
                    acc.push(ConfigSpecView { name: e.0, files }),
                ),
            },
        }
}

/// The config groups that a deployment supplies, each with the files of its
/// directory.
pub open spec fn deployment_configs_of(
    entries: Option<Seq<(Seq<char>, Seq<char>)>>,
    dirs: Seq<ConfigDirSnapshotView>,
) -> Result<Seq<ConfigSpecView>, TransformErrorView> {
    match entries {
        Some(e) => try_fold(e, Seq::empty(), config_dir_step(dirs)),
        None => Ok(Seq::empty()),
    }
}

fn find_config_dir(dirs: &Vec<ConfigDirSnapshot>, path: &str) -> (r: Option<usize>)
    ensures
        index_view(r) == first_where(dirs.deep_view(), config_dir_at(path@)),
        r matches Some(i) ==> i < dirs.len(),
{
    let mut i: usize = 0;
    while i < dirs.len()
        invariant
            first_where(dirs.deep_view(), config_dir_at(path@)) == first_from(
                dirs.deep_view(),
                config_dir_at(path@),
                i as int,
            ),
        decreases dirs.len() - i,
    {
        if same_text(dirs[i].path.as_str(), path) {
            return Some(i);
        }
        i += 1;
    }
    None
}

fn convert_deployment_configs(
    written: &Option<Vec<(String, String)>>,
    dirs: &Vec<ConfigDirSnapshot>,
) -> (r: Result<Vec<ConfigSpec>, TransformError>)
    ensures
        result_view(r) == deployment_configs_of(written.deep_view(), dirs.deep_view()),
{
    let mut configs: Vec<ConfigSpec> = Vec::new();
    assert(configs.deep_view() =~= Seq::empty());
    let entries = match written {
        Some(e) => e,
        None => {
            return Ok(configs);
        },
    };
    let ghost step = config_dir_step(dirs.deep_view());
    let mut i: usize = 0;
    proof {
        assert(entries.deep_view().skip(0) =~= entries.deep_view());
    }
    while i < entries.len()
        invariant
            i <= entries.len(),
            step == config_dir_step(dirs.deep_view()),
            written.deep_view() == Some(entries.deep_view()),
            try_fold(entries.deep_view(), Seq::empty(), step) == try_fold(
                entries.deep_view().skip(i as int),
                configs.deep_view(),
                step,
            ),
        decreases entries.len() - i,
    {
        proof {
            lemma_try_fold_step(entries.deep_view(), i as int, configs.deep_view(), step);
        }
        let name = &entries[i].0;
        let path = &entries[i].1;
        let ghost before = configs.deep_view();
        match find_config_dir(dirs, path.as_str()) {
            None => {
                return Err(
                    TransformError::ConfigNotADirectory { config: name.clone(), path: path.clone() },
                );
            },
            Some(k) => match &dirs[k].content {
                ConfigDirContent::NotADirectory => {
                    return Err(
                        TransformError::ConfigNotADirectory {
                            config: name.clone(),
                            path: path.clone(),
                        },
                    );
                },
                ConfigDirContent::Unreadable => {
                    return Err(
                        TransformError::ConfigDirectoryUnreadable {
                            config: name.clone(),
                            path: path.clone(),
                        },
                    );
                },
                ConfigDirContent::Files(found) => {
                    let files = found.clone();
                    assert(files.deep_view() =~= found.deep_view());
                    let config = ConfigSpec { name: name.clone(), files };
                    configs.push(config);
                    assert(configs.deep_view() =~= before.push(config@));
                },
            },
        }
        i += 1;
    }
    proof {
        lemma_try_fold_step(entries.deep_view(), i as int, configs.deep_view(), step);
    }
    Ok(configs)
}

/// The secret of the name `name` of a deployment, from what is written: the
/// value itself, or exactly one of a variable and a file as its source.
pub open spec fn deployment_secret_of(name: Seq<char>, yaml: DeploymentSecretSpecExYamlView) -> Result<
    DeploymentSecretSpecView,
    TransformErrorView,
> {
    match yaml {
        DeploymentSecretSpecExYamlView::Local(value) => Ok(
            DeploymentSecretSpecView {
                secret_name: name,
                source: DeploymentSecretSourceView::Embedded(value),
            },
        ),
        DeploymentSecretSpecExYamlView::Detailed(d) => match (d.env, d.file) {
            (Some(_), Some(_)) => Err(TransformErrorView::SecretSourceConflict { secret: name }),
            (Some(variable), None) => Ok(
                DeploymentSecretSpecView {
                    secret_name: name,
                    source: DeploymentSecretSourceView::EnvVariable(variable),
                },
            ),
            (None, Some(path)) => Ok(
                DeploymentSecretSpecView {
                    secret_name: name,
                    source: DeploymentSecretSourceView::FilePath(path),
                },
            ),
            (None, None) => Err(TransformErrorView::SecretWithoutSource { secret: name }),
        },
    }
}

/// Adds one written secret of a deployment to the secrets read so far.
pub open spec fn deployment_secret_step() -> spec_fn(
    Seq<DeploymentSecretSpecView>,
    (Seq<char>, DeploymentSecretSpecExYamlView),
) -> Result<Seq<DeploymentSecretSpecView>, TransformErrorView> {
    |acc: Seq<DeploymentSecretSpecView>, e: (Seq<char>, DeploymentSecretSpecExYamlView)|
        match deployment_secret_of(e.0, e.1) {
            Ok(secret) => Ok(acc.push(secret)),
            Err(err) => Err(err),
        }
}

/// The secrets that a deployment supplies.
pub open spec fn deployment_secrets_of(
    entries: Option<Seq<(Seq<char>, DeploymentSecretSpecExYamlView)>>,
) -> Result<Seq<DeploymentSecretSpecView>, TransformErrorView> {
    match entries {
        Some(e) => try_fold(e, Seq::empty(), deployment_secret_step()),
        None => Ok(Seq::empty()),
    }
}

fn convert_deployment_secret(name: &String, yaml: &DeploymentSecretSpecExYaml) -> (r: Result<
    DeploymentSecretSpec,
    TransformError,
>)
    ensures
        result_view(r) == deployment_secret_of(name@, yaml@),
{
    match yaml {
        DeploymentSecretSpecExYaml::Local(value) => Ok(
            DeploymentSecretSpec {
                secret_name: name.clone(),
                source: DeploymentSecretSource::Embedded(value.clone()),
            },
        ),
        DeploymentSecretSpecExYaml::Detailed(d) => match (&d.env, &d.file) {
            (Some(_), Some(_)) => Err(
                TransformError::SecretSourceConflict { secret: name.clone() },
            ),
            (Some(variable), None) => Ok(
                DeploymentSecretSpec {
                    secret_name: name.clone(),
                    source: DeploymentSecretSource::EnvVariable(variable.clone()),
                },
            ),
            (None, Some(path)) => Ok(
                DeploymentSecretSpec {
                    secret_name: name.clone(),
                    source: DeploymentSecretSource::FilePath(path.clone()),
                },
            ),
            (None, None) => Err(TransformError::SecretWithoutSource { secret: name.clone() }),
        },
    }
}

fn convert_deployment_secrets(written: &Option<Vec<(String, DeploymentSecretSpecExYaml)>>) -> (r:
    Result<Vec<DeploymentSecretSpec>, TransformError>)
    ensures
        result_view(r) == deployment_secrets_of(written.deep_view()),
{
    let mut secrets: Vec<DeploymentSecretSpec> = Vec::new();
    assert(secrets.deep_view() =~= Seq::empty());
    let entries = match written {
        Some(e) => e,
        None => {
            return Ok(secrets);
        },
    };
    let ghost step = deployment_secret_step();
    let mut i: usize = 0;
    proof {
        assert(entries.deep_view().skip(0) =~= entries.deep_view());
    }
    while i < entries.len()
        invariant
            i <= entries.len(),
            step == deployment_secret_step(),
            written.deep_view() == Some(entries.deep_view()),
            try_fold(entries.deep_view(), Seq::empty(), step) == try_fold(
                entries.deep_view().skip(i as int),
                secrets.deep_view(),
                step,
            ),
        decreases entries.len() - i,
    {
        proof {
            lemma_try_fold_step(entries.deep_view(), i as int, secrets.deep_view(), step);
        }
        let ghost before = secrets.deep_view();
        match convert_deployment_secret(&entries[i].0, &entries[i].1) {
            Ok(secret) => {
                secrets.push(secret);
                assert(secrets.deep_view() =~= before.push(secret@));
            },
            Err(e) => {
                return Err(e);
            },
        }
        i += 1;
    }
    proof {
        lemma_try_fold_step(entries.deep_view(), i as int, secrets.deep_view(), step);
    }
    Ok(secrets)
}

/// Adds the overrides for one service to those read so far.
pub open spec fn override_step(defaults: ResourcesSpecView) -> spec_fn(
    Seq<DeploymentServiceEntryView>,
    (Seq<char>, DeploymentServiceSpecYamlView),
) -> Result<Seq<DeploymentServiceEntryView>, TransformErrorView> {
    |acc: Seq<DeploymentServiceEntryView>, e: (Seq<char>, DeploymentServiceSpecYamlView)|
        match deployment_service_of(e.1, defaults) {
            Ok(spec) => Ok(acc.push(DeploymentServiceEntryView { service_name: e.0, spec })),
            Err(err) => Err(err),
        }
}

/// The overrides of a deployment, service by service; `None` where the
/// deployment writes none.
pub open spec fn overrides_of(
    entries: Option<Seq<(Seq<char>, DeploymentServiceSpecYamlView)>>,
    defaults: ResourcesSpecView,
) -> Result<Option<Seq<DeploymentServiceEntryView>>, TransformErrorView> {
    match entries {
        Some(e) => match try_fold(e, Seq::empty(), override_step(defaults)) {
            Ok(overrides) => Ok(Some(overrides)),
            Err(err) => Err(err),
        },
        None => Ok(None),
    }
}

fn convert_overrides(
    written: &Option<Vec<(String, DeploymentServiceSpecYaml)>>,
    defaults: &ResourcesSpec,
) -> (r: Result<Option<Vec<DeploymentServiceEntry>>, TransformError>)
    ensures
        result_view(r) == overrides_of(written.deep_view(), defaults@),
{
    let entries = match written {
        Some(e) => e,
        None => {
            return Ok(None);
        },
    };
    let mut overrides: Vec<DeploymentServiceEntry> = Vec::new();
    let ghost step = override_step(defaults@);
    let mut i: usize = 0;
    proof {
        assert(entries.deep_view().skip(0) =~= entries.deep_view());
        assert(overrides.deep_view() =~= Seq::empty());
    }
    while i < entries.len()
        invariant
            i <= entries.len(),
            step == override_step(defaults@),
            written.deep_view() == Some(entries.deep_view()),
            try_fold(entries.deep_view(), Seq::empty(), step) == try_fold(
                entries.deep_view().skip(i as int),
                overrides.deep_view(),
                step,
            ),
        decreases entries.len() - i,
    {
        proof {
            lemma_try_fold_step(entries.deep_view(), i as int, overrides.deep_view(), step);
        }
        let ghost before = overrides.deep_view();
        match convert_deployment_service(&entries[i].1, defaults) {
            Ok(spec) => {
                let entry = DeploymentServiceEntry { service_name: entries[i].0.clone(), spec };
                overrides.push(entry);
                assert(overrides.deep_view() =~= before.push(entry@));
            },
            Err(e) => {
                return Err(e);
            },
        }
        i += 1;
    }
    proof {
        lemma_try_fold_step(entries.deep_view(), i as int, overrides.deep_view(), step);
    }
    Ok(Some(overrides))
}

/// The default sizing of a deployment, from what is written.
pub open spec fn deployment_defaults_of(yaml: Option<DefaultsSpecYamlView>) -> ResourcesSpecView {
    match yaml {
        Some(d) => defaults_of(d),
        None => unwritten_defaults(),
    }
}

/// The deployment of the name `name`, from what is written. Its parts are
/// read in this order, and the first that is refused gives the error: the
/// application, the variables, the variables outside containers, the
/// configs, the secrets, the overrides.
pub open spec fn deployment_of(name: Seq<char>, yaml: DeploymentSpecYamlView, files: DescriptorFilesView) -> Result<
    DeploymentSpecView,
    TransformErrorView,
> {
    match deployment_app_of(yaml.application) {
        Err(e) => Err(e),
        Ok(application) => match env_variables_of(yaml.environment, files.env_files) {
            Err(e) => Err(e),
            Ok(environment) => match env_variables_of(
                yaml.undockerized_environment,
                files.env_files,
            ) {
                Err(e) => Err(e),
                Ok(undockerized_environment) => match deployment_configs_of(
                    yaml.configs,
                    files.config_dirs,
                ) {
                    Err(e) => Err(e),
                    Ok(configs) => match deployment_secrets_of(yaml.secrets) {
                        Err(e) => Err(e),
                        Ok(secrets) => match overrides_of(
                            yaml.services,
                            deployment_defaults_of(yaml.defaults),
                        ) {
                            Err(e) => Err(e),
                            Ok(services) => Ok(
                                DeploymentSpecView {
                                    name,
                                    primary_host: yaml.primary_host,
                                    application,
                                    environment,
                                    undockerized_environment,
                                    configs,
                                    secrets,
                                    defaults: deployment_defaults_of(yaml.defaults),
                                    services,
                                },
                            ),
                        },
                    },
                },
            },
        },
    }
}

/// Normalizes the deployment of the name `name`. `files` holds the env files
/// and the config directories that deployments refer to.
pub fn convert_deployment(name: &String, yaml: &DeploymentSpecYaml, files: &DescriptorFiles) -> (r:
    Result<DeploymentSpec, TransformError>)
    ensures
        result_view(r) == deployment_of(name@, yaml@, files@),
{
    let application = match convert_deployment_app(&yaml.application) {
        Ok(a) => a,
        Err(e) => {
            return Err(e);
        },
    };
    let environment = match convert_env_variables(&yaml.environment, &files.env_files) {
        Ok(v) => v,
        Err(e) => {
            return Err(e);
        },
    };
    let undockerized_environment = match convert_env_variables(
        &yaml.undockerized_environment,
        &files.env_files,
    ) {
        Ok(v) => v,
        Err(e) => {
            return Err(e);
        },
    };
    let configs = match convert_deployment_configs(&yaml.configs, &files.config_dirs) {
        Ok(c) => c,
        Err(e) => {
            return Err(e);
        },
    };
    let secrets = match convert_deployment_secrets(&yaml.secrets) {
        Ok(s) => s,
        Err(e) => {
            return Err(e);
        },
    };
    let defaults = match &yaml.defaults {
        Some(d) => match convert_defaults(d) {
            Ok(defaults) => defaults,
            Err(e) => {
                return Err(e);
            },
        },
        None => ResourcesSpec {
            replicas: 1,
            requests: convert_limits(None),
            limits: convert_limits(None),
        },
    };
    let services = match convert_overrides(&yaml.services, &defaults) {
        Ok(s) => s,
        Err(e) => {
            return Err(e);
        },
    };
    Ok(
        DeploymentSpec {
            name: name.clone(),
            primary_host: yaml.primary_host.clone(),
            application,
            environment,
            undockerized_environment,
            configs,
            secrets,
            defaults,
            services,
        },
    )
}

} // verus!
