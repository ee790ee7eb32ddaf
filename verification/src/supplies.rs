//! The configs and secrets that a deployment supplies, read from the
//! snapshot of the machine, and the references of services to them.

use vstd::prelude::*;
use crate::error::{ResolveError, ResolveErrorView};
use crate::interpolation::{find_var, value_of};
use crate::lookup::{
    config_named, config_source_at, find_config, find_config_source, find_secret, find_secret_file,
    secret_file_at, secret_named,
};
use crate::resolved_spec::{
    ConfigResolvedFile, ConfigResolvedFileView, ConfigResolvedSpec, ConfigResolvedSpecView,
    SecretResolvedSpec, SecretResolvedSpecView,
};
use crate::seqs::{first_where, lemma_try_fold_step, result_view, try_fold};
use crate::sources::{
    ConfigPathContent, ConfigPathContentView, ConfigPathSnapshot, ConfigPathSnapshotView,
    HostSnapshot, HostSnapshotView, SecretFileContent, SecretFileContentView,
};
use crate::spec::{
    ConfigSpec, ConfigSpecView, DeploymentSecretSource, DeploymentSecretSourceView,
    DeploymentSecretSpec, DeploymentSecretSpecView, EnvVariable, ServiceConfigOption,
    ServiceConfigOptionView, ServiceSecret, ServiceSecretView, ServiceSpec, ServiceSpecView,
};
use crate::text::concat3;

verus! {

/// The name of something that belongs to an application: the name of the
/// application, a hyphen, and the thing's own name.
pub open spec fn full_name(app: Seq<char>, item: Seq<char>) -> Seq<char> {
    app + "-"@ + item
}

/// The full name of something that belongs to the application `app`.
pub fn qualified(app: &str, item: &str) -> (r: String)
    ensures
        r@ == full_name(app@, item@),
{
    concat3(app, "-", item)
}

/// Adds the files found at one path of a config group to the files gathered
/// so far: the file itself, or the files directly inside a directory.
pub open spec fn config_file_step(sources: Seq<ConfigPathSnapshotView>) -> spec_fn(
    Seq<ConfigResolvedFileView>,
    Seq<char>,
) -> Result<Seq<ConfigResolvedFileView>, ResolveErrorView> {
    |files: Seq<ConfigResolvedFileView>, path: Seq<char>|
        match first_where(sources, config_source_at(path)) {
            None => Err(ResolveErrorView::ConfigSourceMissing { path }),
            Some(i) => match sources[i].content {
                ConfigPathContentView::Missing => Err(
                    ResolveErrorView::ConfigSourceMissing { path },
                ),
                ConfigPathContentView::Unreadable => Err(
                    ResolveErrorView::ConfigSourceUnreadable { path },
                ),
                ConfigPathContentView::File(file) => Ok(files.push(file)),
                ConfigPathContentView::Directory(found) => Ok(files + found),
            },
        }
}

/// Adds one config group, with the content of its files, to the groups
/// resolved so far.
pub open spec fn config_step(app: Seq<char>, sources: Seq<ConfigPathSnapshotView>) -> spec_fn(
    Seq<ConfigResolvedSpecView>,
    ConfigSpecView,
) -> Result<Seq<ConfigResolvedSpecView>, ResolveErrorView> {
    |acc: Seq<ConfigResolvedSpecView>, config: ConfigSpecView|
        match try_fold(config.files, Seq::empty(), config_file_step(sources)) {
            Ok(files) => Ok(
                acc.push(ConfigResolvedSpecView { name: full_name(app, config.name), files }),
            ),
            Err(e) => Err(e),
        }
}

/// The config groups of a deployment with the content of their files, each
/// under its full name.
pub open spec fn resolved_configs(
    app: Seq<char>,
    configs: Seq<ConfigSpecView>,
    sources: Seq<ConfigPathSnapshotView>,
) -> Result<Seq<ConfigResolvedSpecView>, ResolveErrorView> {
    try_fold(configs, Seq::empty(), config_step(app, sources))
}

fn append_files(files: &mut Vec<ConfigResolvedFile>, more: &Vec<ConfigResolvedFile>)
    ensures
        final(files).deep_view() == old(files).deep_view() + more.deep_view(),
{
    let mut i: usize = 0;
    assert(more.deep_view().take(0) =~= Seq::empty());
    assert(files.deep_view() + Seq::empty() =~= files.deep_view());
    while i < more.len()
        invariant
            i <= more.len(),
            files.deep_view() == old(files).deep_view() + more.deep_view().take(i as int),
        decreases more.len() - i,
    {
        let ghost before = files.deep_view();
        files.push(more[i].clone());
        assert(files.deep_view() =~= before.push(more[i as int]@));
        assert(old(files).deep_view() + more.deep_view().take(i + 1) =~= before.push(
            more[i as int]@,
        ));
        i += 1;
    }
    assert(more.deep_view().take(i as int) =~= more.deep_view());
}

fn resolve_config_files(paths: &Vec<String>, sources: &Vec<ConfigPathSnapshot>) -> (r: Result<
    Vec<ConfigResolvedFile>,
    ResolveError,
>)
    ensures
        result_view(r) == try_fold(
            paths.deep_view(),
            Seq::empty(),
            config_file_step(sources.deep_view()),
        ),
{
    let ghost step = config_file_step(sources.deep_view());
    let mut files: Vec<ConfigResolvedFile> = Vec::new();
    let mut i: usize = 0;
    proof {
        assert(paths.deep_view().skip(0) =~= paths.deep_view());
        assert(files.deep_view() =~= Seq::empty());
    }
    while i < paths.len()
        invariant
            i <= paths.len(),
            step == config_file_step(sources.deep_view()),
            try_fold(paths.deep_view(), Seq::empty(), step) == try_fold(
                paths.deep_view().skip(i as int),
                files.deep_view(),
                step,
            ),
        decreases paths.len() - i,
    {
        proof {
            lemma_try_fold_step(paths.deep_view(), i as int, files.deep_view(), step);
        }
        let path = &paths[i];
        let ghost before = files.deep_view();
        match find_config_source(sources, path.as_str()) {
            None => {
                return Err(ResolveError::ConfigSourceMissing { path: path.clone() });
            },
            Some(k) => match &sources[k].content {
                ConfigPathContent::Missing => {
                    return Err(ResolveError::ConfigSourceMissing { path: path.clone() });
                },
                ConfigPathContent::Unreadable => {
                    return Err(ResolveError::ConfigSourceUnreadable { path: path.clone() });
                },
                ConfigPathContent::File(file) => {
                    files.push(file.clone());
                    assert(files.deep_view() =~= before.push(file@));
                },
                ConfigPathContent::Directory(found) => {
                    append_files(&mut files, found);
                },
            },
        }
        i += 1;
    }
    proof {
        lemma_try_fold_step(paths.deep_view(), i as int, files.deep_view(), step);
    }
    Ok(files)
}

/// Resolves the config groups of a deployment from the snapshot `sources`.
pub fn resolve_configs(app_name: &str, configs: &Vec<ConfigSpec>, sources: &Vec<ConfigPathSnapshot>) -> (r:
    Result<Vec<ConfigResolvedSpec>, ResolveError>)
    ensures
        result_view(r) == resolved_configs(app_name@, configs.deep_view(), sources.deep_view()),
{
    let ghost step = config_step(app_name@, sources.deep_view());
    let mut acc: Vec<ConfigResolvedSpec> = Vec::new();
    let mut i: usize = 0;
    proof {
        assert(configs.deep_view().skip(0) =~= configs.deep_view());
        assert(acc.deep_view() =~= Seq::empty());
    }
    while i < configs.len()
        invariant
            i <= configs.len(),
            step == config_step(app_name@, sources.deep_view()),
            try_fold(configs.deep_view(), Seq::empty(), step) == try_fold(
                configs.deep_view().skip(i as int),
                acc.deep_view(),
                step,
            ),
        decreases configs.len() - i,
    {
        proof {
            lemma_try_fold_step(configs.deep_view(), i as int, acc.deep_view(), step);
        }
        let config = &configs[i];
        let ghost before = acc.deep_view();
        match resolve_config_files(&config.files, sources) {
            Ok(files) => {
                let resolved = ConfigResolvedSpec {
                    name: qualified(app_name, config.name.as_str()),
                    files,
                };
                acc.push(resolved);
                assert(acc.deep_view() =~= before.push(resolved@));
            },
            Err(e) => {
                return Err(e);
            },
        }
        i += 1;
    }
    proof {
        lemma_try_fold_step(configs.deep_view(), i as int, acc.deep_view(), step);
    }
    Ok(acc)
}

/// The value of a secret, read from its source. The text of a file is taken
/// whole: nothing is trimmed.
pub open spec fn secret_value(secret: DeploymentSecretSpecView, sources: HostSnapshotView) -> Result<
    Seq<char>,
    ResolveErrorView,
> {
    match secret.source {
        DeploymentSecretSourceView::EnvVariable(variable) => match value_of(
            sources.env_vars,
            variable,
        ) {
            Some(value) => Ok(value),
            None => Err(
                ResolveErrorView::SecretVariableNotSet { secret: secret.secret_name, variable },
            ),
        },
        DeploymentSecretSourceView::FilePath(path) => match first_where(
            sources.secret_files,
            secret_file_at(path),
        ) {
            None => Err(ResolveErrorView::SecretFileMissing { secret: secret.secret_name, path }),
            Some(i) => match sources.secret_files[i].content {
                SecretFileContentView::Missing => Err(
                    ResolveErrorView::SecretFileMissing { secret: secret.secret_name, path },
                ),
                SecretFileContentView::Unreadable => Err(
                    ResolveErrorView::SecretFileUnreadable { secret: secret.secret_name, path },
                ),
                SecretFileContentView::Text(text) => Ok(text),
            },
        },
        DeploymentSecretSourceView::Embedded(value) => Ok(value),
    }
}

/// Adds one secret, with its value, to the secrets resolved so far.
pub open spec fn secret_step(app: Seq<char>, sources: HostSnapshotView) -> spec_fn(
    Seq<SecretResolvedSpecView>,
    DeploymentSecretSpecView,
) -> Result<Seq<SecretResolvedSpecView>, ResolveErrorView> {
    |acc: Seq<SecretResolvedSpecView>, secret: DeploymentSecretSpecView|
        match secret_value(secret, sources) {
            Ok(value) => Ok(
                acc.push(
                    SecretResolvedSpecView { name: full_name(app, secret.secret_name), value },
                ),
            ),
            Err(e) => Err(e),
        }
}

/// The secrets of a deployment with their values, each under its full name.
pub open spec fn resolved_secrets(
    app: Seq<char>,
    secrets: Seq<DeploymentSecretSpecView>,
    sources: HostSnapshotView,
) -> Result<Seq<SecretResolvedSpecView>, ResolveErrorView> {
    try_fold(secrets, Seq::empty(), secret_step(app, sources))
}

fn read_secret(secret: &DeploymentSecretSpec, sources: &HostSnapshot) -> (r: Result<
    String,
    ResolveError,
>)
    ensures
        result_view(r) == secret_value(secret@, sources@),
{
    match &secret.source {
        DeploymentSecretSource::EnvVariable(variable) => {
            match find_var(sources.env_vars.as_slice(), variable.as_str()) {
                Some(k) => Ok(sources.env_vars[k].value.clone()),
                None => Err(
                    ResolveError::SecretVariableNotSet {
                        secret: secret.secret_name.clone(),
                        variable: variable.clone(),
                    },
                ),
            }
        },
        DeploymentSecretSource::FilePath(path) => {
            match find_secret_file(&sources.secret_files, path.as_str()) {
                None => Err(
                    ResolveError::SecretFileMissing {
                        secret: secret.secret_name.clone(),
                        path: path.clone(),
                    },
                ),
                Some(k) => match &sources.secret_files[k].content {
                    SecretFileContent::Missing => Err(
                        ResolveError::SecretFileMissing {
                            secret: secret.secret_name.clone(),
                            path: path.clone(),
                        },
                    ),
                    SecretFileContent::Unreadable => Err(
                        ResolveError::SecretFileUnreadable {
                            secret: secret.secret_name.clone(),
                            path: path.clone(),
                        },
                    ),
                    SecretFileContent::Text(text) => Ok(text.clone()),
                },
            }
        },
        DeploymentSecretSource::Embedded(value) => Ok(value.clone()),
    }
}

/// Resolves the secrets of a deployment from the snapshot `sources`.
pub fn resolve_secrets(app_name: &str, secrets: &Vec<DeploymentSecretSpec>, sources: &HostSnapshot) -> (r:
    Result<Vec<SecretResolvedSpec>, ResolveError>)
    ensures
        result_view(r) == resolved_secrets(app_name@, secrets.deep_view(), sources@),
{
    let ghost step = secret_step(app_name@, sources@);
    let mut acc: Vec<SecretResolvedSpec> = Vec::new();
    let mut i: usize = 0;
    proof {
        assert(secrets.deep_view().skip(0) =~= secrets.deep_view());
        assert(acc.deep_view() =~= Seq::empty());
    }
    while i < secrets.len()
        invariant
            i <= secrets.len(),
            step == secret_step(app_name@, sources@),
            try_fold(secrets.deep_view(), Seq::empty(), step) == try_fold(
                secrets.deep_view().skip(i as int),
                acc.deep_view(),
                step,
            ),
        decreases secrets.len() - i,
    {
        proof {
            lemma_try_fold_step(secrets.deep_view(), i as int, acc.deep_view(), step);
        }
        let secret = &secrets[i];
        let ghost before = acc.deep_view();
        match read_secret(secret, sources) {
            Ok(value) => {
                let resolved = SecretResolvedSpec {
                    name: qualified(app_name, secret.secret_name.as_str()),
                    value,
                };
                acc.push(resolved);
                assert(acc.deep_view() =~= before.push(resolved@));
            },
            Err(e) => {
                return Err(e);
            },
        }
        i += 1;
    }
    proof {
        lemma_try_fold_step(secrets.deep_view(), i as int, acc.deep_view(), step);
    }
    Ok(acc)
}

/// Checks one config mount of a service against the groups that the
/// deployment supplies, and puts it under the full name of its group.
pub open spec fn config_ref_step(
    app: Seq<char>,
    service: Seq<char>,
    configs: Seq<ConfigResolvedSpecView>,
) -> spec_fn(Seq<ServiceConfigOptionView>, ServiceConfigOptionView) -> Result<
    Seq<ServiceConfigOptionView>,
    ResolveErrorView,
> {
    |acc: Seq<ServiceConfigOptionView>, option: ServiceConfigOptionView|
        {
            let config = full_name(app, option.config_name);
            match first_where(configs, config_named(config)) {
                Some(_) => Ok(
                    acc.push(
                        ServiceConfigOptionView {
                            config_name: config,
                            mount_path: option.mount_path,
                        },
                    ),
                ),
                None => Err(ResolveErrorView::UndefinedConfig { service, config }),
            }
        }
}

/// The config mounts of a service, each under the full name of its group.
pub open spec fn service_configs(
    app: Seq<char>,
    service: ServiceSpecView,
    configs: Seq<ConfigResolvedSpecView>,
) -> Result<Seq<ServiceConfigOptionView>, ResolveErrorView> {
    try_fold(service.configs, Seq::empty(), config_ref_step(app, service.name, configs))
}

/// Checks one secret binding of a service against the secrets that the
/// deployment supplies, and puts it under the full name of its secret.
pub open spec fn secret_ref_step(
    app: Seq<char>,
    service: Seq<char>,
    secrets: Seq<SecretResolvedSpecView>,
) -> spec_fn(Seq<ServiceSecretView>, ServiceSecretView) -> Result<
    Seq<ServiceSecretView>,
    ResolveErrorView,
> {
    |acc: Seq<ServiceSecretView>, binding: ServiceSecretView|
        {
            let secret = full_name(app, binding.name);
            match first_where(secrets, secret_named(secret)) {
                Some(_) => Ok(acc.push(ServiceSecretView { name: secret, mount: binding.mount })),
                None => Err(ResolveErrorView::UndefinedSecret { service, secret }),
            }
        }
}

/// The secret bindings of a service, each under the full name of its secret.
pub open spec fn service_secrets(
    app: Seq<char>,
    service: ServiceSpecView,
    secrets: Seq<SecretResolvedSpecView>,
) -> Result<Seq<ServiceSecretView>, ResolveErrorView> {
    try_fold(service.secrets, Seq::empty(), secret_ref_step(app, service.name, secrets))
}

/// Checks the config mounts of a service against the resolved groups and
/// puts them under their full names.
pub fn resolve_service_configs(
    app_name: &String,
    service: &ServiceSpec,
    configs: &Vec<ConfigResolvedSpec>,
) -> (r: Result<Vec<ServiceConfigOption>, ResolveError>)
    ensures
        result_view(r) == service_configs(app_name@, service@, configs.deep_view()),
{
    let ghost step = config_ref_step(app_name@, service.name@, configs.deep_view());
    let options = &service.configs;
    let mut acc: Vec<ServiceConfigOption> = Vec::new();
    let mut i: usize = 0;
    proof {
        assert(options.deep_view().skip(0) =~= options.deep_view());
        assert(acc.deep_view() =~= Seq::empty());
    }
    while i < options.len()
        invariant
            i <= options.len(),
            options == &service.configs,
            step == config_ref_step(app_name@, service.name@, configs.deep_view()),
            service_configs(app_name@, service@, configs.deep_view()) == try_fold(
                options.deep_view().skip(i as int),
                acc.deep_view(),
                step,
            ),
        decreases options.len() - i,
    {
        proof {
            lemma_try_fold_step(options.deep_view(), i as int, acc.deep_view(), step);
        }
        let option = &options[i];
        let ghost before = acc.deep_view();
        let config_name = qualified(app_name.as_str(), option.config_name.as_str());
        match find_config(configs, config_name.as_str()) {
            Some(_) => {
                let mounted = ServiceConfigOption {
                    config_name,
                    mount_path: option.mount_path.clone(),
                };
                acc.push(mounted);
                assert(acc.deep_view() =~= before.push(mounted@));
            },
            None => {
                return Err(
                    ResolveError::UndefinedConfig {
                        service: service.name.clone(),
                        config: config_name,
                    },
                );
            },
        }
        i += 1;
    }
    proof {
        lemma_try_fold_step(options.deep_view(), i as int, acc.deep_view(), step);
    }
    Ok(acc)
}

/// Checks the secret bindings of a service against the resolved secrets and
/// puts them under their full names.
pub fn resolve_service_secrets(
    app_name: &String,
    service: &ServiceSpec,
    secrets: &Vec<SecretResolvedSpec>,
) -> (r: Result<Vec<ServiceSecret>, ResolveError>)
    ensures
        result_view(r) == service_secrets(app_name@, service@, secrets.deep_view()),
{
    let ghost step = secret_ref_step(app_name@, service.name@, secrets.deep_view());
    let bindings = &service.secrets;
    let mut acc: Vec<ServiceSecret> = Vec::new();
    let mut i: usize = 0;
    proof {
        assert(bindings.deep_view().skip(0) =~= bindings.deep_view());
        assert(acc.deep_view() =~= Seq::empty());
    }
    while i < bindings.len()
        invariant
            i <= bindings.len(),
            bindings == &service.secrets,
            step == secret_ref_step(app_name@, service.name@, secrets.deep_view()),
            service_secrets(app_name@, service@, secrets.deep_view()) == try_fold(
                bindings.deep_view().skip(i as int),
                acc.deep_view(),
                step,
            ),
        decreases bindings.len() - i,
    {
        proof {
            lemma_try_fold_step(bindings.deep_view(), i as int, acc.deep_view(), step);
        }
        let binding = &bindings[i];
        let ghost before = acc.deep_view();
        let name = qualified(app_name.as_str(), binding.name.as_str());
        match find_secret(secrets, name.as_str()) {
            Some(_) => {
                let bound = ServiceSecret { name, mount: binding.mount.clone() };
                acc.push(bound);
                assert(acc.deep_view() =~= before.push(bound@));
            },
            None => {
                return Err(
                    ResolveError::UndefinedSecret { service: service.name.clone(), secret: name },
                );
            },
        }
        i += 1;
    }
    proof {
        lemma_try_fold_step(bindings.deep_view(), i as int, acc.deep_view(), step);
    }
    Ok(acc)
}

} // verus!
