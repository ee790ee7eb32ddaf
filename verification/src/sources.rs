//! The outside world as resolution sees it: files and process environment,
//! read beforehand and handed over as plain values.

use vstd::prelude::*;
use crate::resolved_spec::{ConfigResolvedFile, ConfigResolvedFileView};
use crate::spec::{EnvVariable, EnvVariableView};
use crate::spec_yaml::{ExtraAppSpecYaml, ExtraAppSpecYamlView};

verus! {

/// What was found at the path of a config source.
#[derive(Debug, PartialEq, Eq)]
pub enum ConfigPathContent {
    /// Nothing is there.
    Missing,
    /// Something is there, but it could not be read.
    Unreadable,
    /// A file, with its file name and content.
    File(ConfigResolvedFile),
    /// A directory, with the regular files directly inside it.
    Directory(Vec<ConfigResolvedFile>),
}

/// The mathematical value of a [`ConfigPathContent`].
pub enum ConfigPathContentView {
    Missing,
    Unreadable,
    File(ConfigResolvedFileView),
    Directory(Seq<ConfigResolvedFileView>),
}

impl View for ConfigPathContent {
    type V = ConfigPathContentView;

    open spec fn view(&self) -> ConfigPathContentView {
        match *self {
            ConfigPathContent::Missing => ConfigPathContentView::Missing,
            ConfigPathContent::Unreadable => ConfigPathContentView::Unreadable,
            ConfigPathContent::File(a0) => ConfigPathContentView::File(a0@),
            ConfigPathContent::Directory(a0) => ConfigPathContentView::Directory(a0.deep_view()),
        }
    }
}

impl DeepView for ConfigPathContent {
    type V = ConfigPathContentView;

    open spec fn deep_view(&self) -> ConfigPathContentView {
        self@
    }
}

impl Clone for ConfigPathContent {
    fn clone(&self) -> (r: Self)
        ensures
            r@ == self@,
    {
        match self {
            ConfigPathContent::Missing => ConfigPathContent::Missing,
            ConfigPathContent::Unreadable => ConfigPathContent::Unreadable,
            ConfigPathContent::File(a0) => ConfigPathContent::File(a0.clone()),
            ConfigPathContent::Directory(a0) => {
                let ca0 = a0.clone();
                assert(ca0.deep_view() =~= a0.deep_view());
                ConfigPathContent::Directory(ca0)
            },
        }
    }
}

/// A path of a config source and what was found there.
#[derive(Debug, PartialEq, Eq)]
pub struct ConfigPathSnapshot {
    /// The path, as the deployment writes it.
    pub path: String,
    /// What was found there.
    pub content: ConfigPathContent,
}

/// The mathematical value of a [`ConfigPathSnapshot`].
pub struct ConfigPathSnapshotView {
    pub path: Seq<char>,
    pub content: ConfigPathContentView,
}

impl View for ConfigPathSnapshot {
    type V = ConfigPathSnapshotView;

    open spec fn view(&self) -> ConfigPathSnapshotView {
        ConfigPathSnapshotView {
            path: self.path@,
            content: self.content@,
        }
    }
}

impl DeepView for ConfigPathSnapshot {
    type V = ConfigPathSnapshotView;

    open spec fn deep_view(&self) -> ConfigPathSnapshotView {
        self@
    }
}

impl Clone for ConfigPathSnapshot {
    fn clone(&self) -> (r: Self)
        ensures
            r@ == self@,
    {
        ConfigPathSnapshot { path: self.path.clone(), content: self.content.clone() }
    }
}

/// What was found at the path of a secret file.
#[derive(Debug, PartialEq, Eq)]
pub enum SecretFileContent {
    /// Nothing is there.
    Missing,
    /// Something is there, but it could not be read as text.
    Unreadable,
    /// A file, with its whole content, nothing trimmed.
    Text(String),
}

/// The mathematical value of a [`SecretFileContent`].
pub enum SecretFileContentView {
    Missing,
    Unreadable,
    Text(Seq<char>),
}

impl View for SecretFileContent {
    type V = SecretFileContentView;

    open spec fn view(&self) -> SecretFileContentView {
        match *self {
            SecretFileContent::Missing => SecretFileContentView::Missing,
            SecretFileContent::Unreadable => SecretFileContentView::Unreadable,
            SecretFileContent::Text(a0) => SecretFileContentView::Text(a0@),
        }
    }
}

impl DeepView for SecretFileContent {
    type V = SecretFileContentView;

    open spec fn deep_view(&self) -> SecretFileContentView {
        self@
    }
}

impl Clone for SecretFileContent {
    fn clone(&self) -> (r: Self)
        ensures
            r@ == self@,
    {
        match self {
            SecretFileContent::Missing => SecretFileContent::Missing,
            SecretFileContent::Unreadable => SecretFileContent::Unreadable,
            SecretFileContent::Text(a0) => SecretFileContent::Text(a0.clone()),
        }
    }
}

/// A path of a secret file and what was found there.
#[derive(Debug, PartialEq, Eq)]
pub struct SecretFileSnapshot {
    /// The path, as the deployment writes it.
    pub path: String,
    /// What was found there.
    pub content: SecretFileContent,
}

/// The mathematical value of a [`SecretFileSnapshot`].
pub struct SecretFileSnapshotView {
    pub path: Seq<char>,
    pub content: SecretFileContentView,
}

impl View for SecretFileSnapshot {
    type V = SecretFileSnapshotView;

    open spec fn view(&self) -> SecretFileSnapshotView {
        SecretFileSnapshotView {
            path: self.path@,
            content: self.content@,
        }
    }
}

impl DeepView for SecretFileSnapshot {
    type V = SecretFileSnapshotView;

    open spec fn deep_view(&self) -> SecretFileSnapshotView {
        self@
    }
}

impl Clone for SecretFileSnapshot {
    fn clone(&self) -> (r: Self)
        ensures
            r@ == self@,
    {
        SecretFileSnapshot { path: self.path.clone(), content: self.content.clone() }
    }
}

/// What resolution reads from the machine it runs on, taken beforehand.
///
/// A path or a variable that the snapshot does not list counts as missing. Where
/// one is listed twice, the first entry counts.
#[derive(Debug, PartialEq, Eq)]
pub struct HostSnapshot {
    /// The paths of config sources.
    pub config_paths: Vec<ConfigPathSnapshot>,
    /// The paths of secret files.
    pub secret_files: Vec<SecretFileSnapshot>,
    /// The variables of the process environment.
    pub env_vars: Vec<EnvVariable>,
}

/// The mathematical value of a [`HostSnapshot`].
pub struct HostSnapshotView {
    pub config_paths: Seq<ConfigPathSnapshotView>,
    pub secret_files: Seq<SecretFileSnapshotView>,
    pub env_vars: Seq<EnvVariableView>,
}

impl View for HostSnapshot {
    type V = HostSnapshotView;

    open spec fn view(&self) -> HostSnapshotView {
        HostSnapshotView {
            config_paths: self.config_paths.deep_view(),
            secret_files: self.secret_files.deep_view(),
            env_vars: self.env_vars.deep_view(),
        }
    }
}

impl DeepView for HostSnapshot {
    type V = HostSnapshotView;

    open spec fn deep_view(&self) -> HostSnapshotView {
        self@
    }
}

impl Clone for HostSnapshot {
    fn clone(&self) -> (r: Self)
        ensures
            r@ == self@,
    {
        let config_paths = self.config_paths.clone();
        assert(config_paths.deep_view() =~= self.config_paths.deep_view());
        let secret_files = self.secret_files.clone();
        assert(secret_files.deep_view() =~= self.secret_files.deep_view());
        let env_vars = self.env_vars.clone();
        assert(env_vars.deep_view() =~= self.env_vars.deep_view());
        HostSnapshot { config_paths, secret_files, env_vars }
    }
}

/// The path of an env file and what was found there.
#[derive(Debug)]
pub struct EnvFileSnapshot {
    /// The path, as the deployment writes it.
    pub path: String,
    /// The lines of the file, without their line ends; `None` where it could not be read.
    pub lines: Option<Vec<String>>,
}

/// The mathematical value of a [`EnvFileSnapshot`].
pub struct EnvFileSnapshotView {
    pub path: Seq<char>,
    pub lines: Option<Seq<Seq<char>>>,
}

impl View for EnvFileSnapshot {
    type V = EnvFileSnapshotView;

    open spec fn view(&self) -> EnvFileSnapshotView {
        EnvFileSnapshotView {
            path: self.path@,
            lines: self.lines.deep_view(),
        }
    }
}

impl DeepView for EnvFileSnapshot {
    type V = EnvFileSnapshotView;

    open spec fn deep_view(&self) -> EnvFileSnapshotView {
        self@
    }
}

/// What was found at the path of the directory of a config group.
#[derive(Debug)]
pub enum ConfigDirContent {
    /// There is no directory.
    NotADirectory,
    /// The directory could not be listed.
    Unreadable,
    /// The paths of the regular files directly inside the directory.
    Files(Vec<String>),
}

/// The mathematical value of a [`ConfigDirContent`].
pub enum ConfigDirContentView {
    NotADirectory,
    Unreadable,
    Files(Seq<Seq<char>>),
}

impl View for ConfigDirContent {
    type V = ConfigDirContentView;

    open spec fn view(&self) -> ConfigDirContentView {
        match *self {
            ConfigDirContent::NotADirectory => ConfigDirContentView::NotADirectory,
            ConfigDirContent::Unreadable => ConfigDirContentView::Unreadable,
            ConfigDirContent::Files(a0) => ConfigDirContentView::Files(a0.deep_view()),
        }
    }
}

impl DeepView for ConfigDirContent {
    type V = ConfigDirContentView;

    open spec fn deep_view(&self) -> ConfigDirContentView {
        self@
    }
}

/// The path of the directory of a config group and what was found there.
#[derive(Debug)]
pub struct ConfigDirSnapshot {
    /// The path, as the deployment writes it.
    pub path: String,
    /// What was found there.
    pub content: ConfigDirContent,
}

/// The mathematical value of a [`ConfigDirSnapshot`].
pub struct ConfigDirSnapshotView {
    pub path: Seq<char>,
    pub content: ConfigDirContentView,
}

impl View for ConfigDirSnapshot {
    type V = ConfigDirSnapshotView;

    open spec fn view(&self) -> ConfigDirSnapshotView {
        ConfigDirSnapshotView {
            path: self.path@,
            content: self.content@,
        }
    }
}

impl DeepView for ConfigDirSnapshot {
    type V = ConfigDirSnapshotView;

    open spec fn deep_view(&self) -> ConfigDirSnapshotView {
        self@
    }
}

/// The files that an environment descriptor refers to, read beforehand.
///
/// A path that is not listed counts as unreadable, or as no directory.
#[derive(Debug)]
pub struct DescriptorFiles {
    /// The env files of the deployments.
    pub env_files: Vec<EnvFileSnapshot>,
    /// The directories of the config groups.
    pub config_dirs: Vec<ConfigDirSnapshot>,
}

/// The mathematical value of a [`DescriptorFiles`].
pub struct DescriptorFilesView {
    pub env_files: Seq<EnvFileSnapshotView>,
    pub config_dirs: Seq<ConfigDirSnapshotView>,
}

impl View for DescriptorFiles {
    type V = DescriptorFilesView;

    open spec fn view(&self) -> DescriptorFilesView {
        DescriptorFilesView {
            env_files: self.env_files.deep_view(),
            config_dirs: self.config_dirs.deep_view(),
        }
    }
}

impl DeepView for DescriptorFiles {
    type V = DescriptorFilesView;

    open spec fn deep_view(&self) -> DescriptorFilesView {
        self@
    }
}

/// What was found at the path of a descriptor file with extra services.
#[derive(Debug)]
pub enum ExtraSpecContent {
    /// The file could not be read.
    Unreadable,
    /// The file does not hold a descriptor.
    Invalid,
    /// The descriptor that the file holds.
    Parsed(ExtraAppSpecYaml),
}

/// The mathematical value of a [`ExtraSpecContent`].
pub enum ExtraSpecContentView {
    Unreadable,
    Invalid,
    Parsed(ExtraAppSpecYamlView),
}

impl View for ExtraSpecContent {
    type V = ExtraSpecContentView;

    open spec fn view(&self) -> ExtraSpecContentView {
        match *self {
            ExtraSpecContent::Unreadable => ExtraSpecContentView::Unreadable,
            ExtraSpecContent::Invalid => ExtraSpecContentView::Invalid,
            ExtraSpecContent::Parsed(a0) => ExtraSpecContentView::Parsed(a0@),
        }
    }
}

impl DeepView for ExtraSpecContent {
    type V = ExtraSpecContentView;

    open spec fn deep_view(&self) -> ExtraSpecContentView {
        self@
    }
}

/// The path of a descriptor file with extra services and what was found there.
#[derive(Debug)]
pub struct ExtraSpecSnapshot {
    /// The path, as the deployment writes it.
    pub path: String,
    /// What was found there.
    pub content: ExtraSpecContent,
}

/// The mathematical value of a [`ExtraSpecSnapshot`].
pub struct ExtraSpecSnapshotView {
    pub path: Seq<char>,
    pub content: ExtraSpecContentView,
}

impl View for ExtraSpecSnapshot {
    type V = ExtraSpecSnapshotView;

    open spec fn view(&self) -> ExtraSpecSnapshotView {
        ExtraSpecSnapshotView {
            path: self.path@,
            content: self.content@,
        }
    }
}

impl DeepView for ExtraSpecSnapshot {
    type V = ExtraSpecSnapshotView;

    open spec fn deep_view(&self) -> ExtraSpecSnapshotView {
        self@
    }
}

} // verus!
