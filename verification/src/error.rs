//! The errors of the library, and the kinds they fall into.

use vstd::prelude::*;

verus! {

/// What went wrong, in broad terms. Every error of the library is of one kind.
#[derive(Clone, Copy, Debug, PartialEq, Eq, Structural)]
pub enum ErrorKind {
    /// A text does not follow its grammar.
    MalformedInput,
    /// A name refers to something that does not exist where it is looked up.
    UndefinedReference,
    /// The descriptors are well formed but break a rule.
    ConstraintViolation,
    /// A file, a directory or a process environment variable could not be read.
    IoFailure,
}

impl View for ErrorKind {
    type V = ErrorKind;

    open spec fn view(&self) -> ErrorKind {
        *self
    }
}

impl DeepView for ErrorKind {
    type V = ErrorKind;

    open spec fn deep_view(&self) -> ErrorKind {
        *self
    }
}

/// Why a text with `${name}` references could not be filled in.
#[derive(Debug, PartialEq, Eq)]
pub enum InterpolationError {
    /// A `${` of the text has no `}` after it. `template` is the whole text.
    Malformed { template: String },
    /// The text refers to `name`, and no variable of that name is in scope.
    Undefined { name: String },
}

/// The mathematical value of a [`InterpolationError`].
pub enum InterpolationErrorView {
    Malformed { template: Seq<char> },
    Undefined { name: Seq<char> },
}

impl View for InterpolationError {
    type V = InterpolationErrorView;

    open spec fn view(&self) -> InterpolationErrorView {
        match *self {
            InterpolationError::Malformed { template } => InterpolationErrorView::Malformed { template: template@ },
            InterpolationError::Undefined { name } => InterpolationErrorView::Undefined { name: name@ },
        }
    }
}

impl DeepView for InterpolationError {
    type V = InterpolationErrorView;

    open spec fn deep_view(&self) -> InterpolationErrorView {
        self@
    }
}

impl Clone for InterpolationError {
    fn clone(&self) -> (r: Self)
        ensures
            r@ == self@,
    {
        match self {
            InterpolationError::Malformed { template } => InterpolationError::Malformed { template: template.clone() },
            InterpolationError::Undefined { name } => InterpolationError::Undefined { name: name.clone() },
        }
    }
}

impl InterpolationErrorView {
    /// The kind of the error.
    pub open spec fn kind(self) -> ErrorKind {
        match self {
            InterpolationErrorView::Malformed { .. } => ErrorKind::MalformedInput,
            InterpolationErrorView::Undefined { .. } => ErrorKind::UndefinedReference,
        }
    }
}

impl InterpolationError {
    /// The kind of the error.
    pub fn kind(&self) -> (k: ErrorKind)
        ensures
            k == self@.kind(),
    {
        match self {
            InterpolationError::Malformed { .. } => ErrorKind::MalformedInput,
            InterpolationError::Undefined { .. } => ErrorKind::UndefinedReference,
        }
    }
}

/// Why a deployment could not be resolved.
#[derive(Debug, PartialEq, Eq)]
pub enum ResolveError {
    /// The environment has no deployment of this name.
    DeploymentNotFound { deployment: String },
    /// Nothing was found at the path of a config source.
    ConfigSourceMissing { path: String },
    /// The file or directory at the path of a config source could not be read.
    ConfigSourceUnreadable { path: String },
    /// The process environment variable that holds a secret is not set.
    SecretVariableNotSet { secret: String, variable: String },
    /// Nothing was found at the path of a secret file.
    SecretFileMissing { secret: String, path: String },
    /// The file of a secret could not be read as text.
    SecretFileUnreadable { secret: String, path: String },
    /// The ingress has no host of this name, or the host has no domain.
    HostNotFound { service: String, host: String },
    /// The service has no image variant of this name.
    ImageVariantNotFound { service: String, variant: String },
    /// No registry host is mapped to the namespace of the service's image.
    RegistryNotFound { service: String, namespace: String },
    /// Two public services, or one service twice, claim the same prefix on the same host.
    /// `other_service` claimed it first.
    DuplicateHostPrefix { service: String, other_service: String, host: String, prefix: String },
    /// An external variable got no value from the deployment and declares no default.
    MissingExternalVariable { name: String },
    /// The default of an external variable could not be filled in.
    ExternalVariable { name: String, cause: InterpolationError },
    /// The URL of a relative variable could not be filled in.
    RelativeVariable { name: String, cause: InterpolationError },
    /// The value of an internal variable could not be filled in.
    InternalVariable { name: String, cause: InterpolationError },
    /// The value that a service gives to a variable could not be filled in.
    ServiceVariable { service: String, name: String, cause: InterpolationError },
    /// A service selects a variable that was not resolved.
    UndefinedServiceVariable { service: String, name: String },
    /// A service mounts a config group that the deployment does not supply.
    /// `config` is the full name of the group.
    UndefinedConfig { service: String, config: String },
    /// A service binds a secret that the deployment does not supply.
    /// `secret` is the full name of the secret.
    UndefinedSecret { service: String, secret: String },
}

/// The mathematical value of a [`ResolveError`].
pub enum ResolveErrorView {
    DeploymentNotFound { deployment: Seq<char> },
    ConfigSourceMissing { path: Seq<char> },
    ConfigSourceUnreadable { path: Seq<char> },
    SecretVariableNotSet { secret: Seq<char>, variable: Seq<char> },
    SecretFileMissing { secret: Seq<char>, path: Seq<char> },
    SecretFileUnreadable { secret: Seq<char>, path: Seq<char> },
    HostNotFound { service: Seq<char>, host: Seq<char> },
    ImageVariantNotFound { service: Seq<char>, variant: Seq<char> },
    RegistryNotFound { service: Seq<char>, namespace: Seq<char> },
    DuplicateHostPrefix { service: Seq<char>, other_service: Seq<char>, host: Seq<char>, prefix: Seq<char> },
    MissingExternalVariable { name: Seq<char> },
    ExternalVariable { name: Seq<char>, cause: InterpolationErrorView },
    RelativeVariable { name: Seq<char>, cause: InterpolationErrorView },
    InternalVariable { name: Seq<char>, cause: InterpolationErrorView },
    ServiceVariable { service: Seq<char>, name: Seq<char>, cause: InterpolationErrorView },
    UndefinedServiceVariable { service: Seq<char>, name: Seq<char> },
    UndefinedConfig { service: Seq<char>, config: Seq<char> },
    UndefinedSecret { service: Seq<char>, secret: Seq<char> },
}

impl View for ResolveError {
    type V = ResolveErrorView;

    open spec fn view(&self) -> ResolveErrorView {
        match *self {
            ResolveError::DeploymentNotFound { deployment } => ResolveErrorView::DeploymentNotFound { deployment: deployment@ },
            ResolveError::ConfigSourceMissing { path } => ResolveErrorView::ConfigSourceMissing { path: path@ },
            ResolveError::ConfigSourceUnreadable { path } => ResolveErrorView::ConfigSourceUnreadable { path: path@ },
            ResolveError::SecretVariableNotSet { secret, variable } => ResolveErrorView::SecretVariableNotSet { secret: secret@, variable: variable@ },
            ResolveError::SecretFileMissing { secret, path } => ResolveErrorView::SecretFileMissing { secret: secret@, path: path@ },
            ResolveError::SecretFileUnreadable { secret, path } => ResolveErrorView::SecretFileUnreadable { secret: secret@, path: path@ },
            ResolveError::HostNotFound { service, host } => ResolveErrorView::HostNotFound { service: service@, host: host@ },
            ResolveError::ImageVariantNotFound { service, variant } => ResolveErrorView::ImageVariantNotFound { service: service@, variant: variant@ },
            ResolveError::RegistryNotFound { service, namespace } => ResolveErrorView::RegistryNotFound { service: service@, namespace: namespace@ },
            ResolveError::DuplicateHostPrefix { service, other_service, host, prefix } => ResolveErrorView::DuplicateHostPrefix { service: service@, other_service: other_service@, host: host@, prefix: prefix@ },
            ResolveError::MissingExternalVariable { name } => ResolveErrorView::MissingExternalVariable { name: name@ },
            ResolveError::ExternalVariable { name, cause } => ResolveErrorView::ExternalVariable { name: name@, cause: cause@ },
            ResolveError::RelativeVariable { name, cause } => ResolveErrorView::RelativeVariable { name: name@, cause: cause@ },
            ResolveError::InternalVariable { name, cause } => ResolveErrorView::InternalVariable { name: name@, cause: cause@ },
            ResolveError::ServiceVariable { service, name, cause } => ResolveErrorView::ServiceVariable { service: service@, name: name@, cause: cause@ },
            ResolveError::UndefinedServiceVariable { service, name } => ResolveErrorView::UndefinedServiceVariable { service: service@, name: name@ },
            ResolveError::UndefinedConfig { service, config } => ResolveErrorView::UndefinedConfig { service: service@, config: config@ },
            ResolveError::UndefinedSecret { service, secret } => ResolveErrorView::UndefinedSecret { service: service@, secret: secret@ },
        }
    }
}

impl DeepView for ResolveError {
    type V = ResolveErrorView;

    open spec fn deep_view(&self) -> ResolveErrorView {
        self@
    }
}

impl Clone for ResolveError {
    fn clone(&self) -> (r: Self)
        ensures
            r@ == self@,
    {
        match self {
            ResolveError::DeploymentNotFound { deployment } => ResolveError::DeploymentNotFound { deployment: deployment.clone() },
            ResolveError::ConfigSourceMissing { path } => ResolveError::ConfigSourceMissing { path: path.clone() },
            ResolveError::ConfigSourceUnreadable { path } => ResolveError::ConfigSourceUnreadable { path: path.clone() },
            ResolveError::SecretVariableNotSet { secret, variable } => ResolveError::SecretVariableNotSet { secret: secret.clone(), variable: variable.clone() },
            ResolveError::SecretFileMissing { secret, path } => ResolveError::SecretFileMissing { secret: secret.clone(), path: path.clone() },
            ResolveError::SecretFileUnreadable { secret, path } => ResolveError::SecretFileUnreadable { secret: secret.clone(), path: path.clone() },
            ResolveError::HostNotFound { service, host } => ResolveError::HostNotFound { service: service.clone(), host: host.clone() },
            ResolveError::ImageVariantNotFound { service, variant } => ResolveError::ImageVariantNotFound { service: service.clone(), variant: variant.clone() },
            ResolveError::RegistryNotFound { service, namespace } => ResolveError::RegistryNotFound { service: service.clone(), namespace: namespace.clone() },
            ResolveError::DuplicateHostPrefix { service, other_service, host, prefix } => ResolveError::DuplicateHostPrefix { service: service.clone(), other_service: other_service.clone(), host: host.clone(), prefix: prefix.clone() },
            ResolveError::MissingExternalVariable { name } => ResolveError::MissingExternalVariable { name: name.clone() },
            ResolveError::ExternalVariable { name, cause } => ResolveError::ExternalVariable { name: name.clone(), cause: cause.clone() },
            ResolveError::RelativeVariable { name, cause } => ResolveError::RelativeVariable { name: name.clone(), cause: cause.clone() },
            ResolveError::InternalVariable { name, cause } => ResolveError::InternalVariable { name: name.clone(), cause: cause.clone() },
            ResolveError::ServiceVariable { service, name, cause } => ResolveError::ServiceVariable { service: service.clone(), name: name.clone(), cause: cause.clone() },
            ResolveError::UndefinedServiceVariable { service, name } => ResolveError::UndefinedServiceVariable { service: service.clone(), name: name.clone() },
            ResolveError::UndefinedConfig { service, config } => ResolveError::UndefinedConfig { service: service.clone(), config: config.clone() },
            ResolveError::UndefinedSecret { service, secret } => ResolveError::UndefinedSecret { service: service.clone(), secret: secret.clone() },
        }
    }
}

impl ResolveErrorView {
    /// The kind of the error.
    pub open spec fn kind(self) -> ErrorKind {
        match self {
            ResolveErrorView::DeploymentNotFound { .. } => ErrorKind::UndefinedReference,
            ResolveErrorView::ConfigSourceMissing { .. } => ErrorKind::IoFailure,
            ResolveErrorView::ConfigSourceUnreadable { .. } => ErrorKind::IoFailure,
            ResolveErrorView::SecretVariableNotSet { .. } => ErrorKind::IoFailure,
            ResolveErrorView::SecretFileMissing { .. } => ErrorKind::IoFailure,
            ResolveErrorView::SecretFileUnreadable { .. } => ErrorKind::IoFailure,
            ResolveErrorView::HostNotFound { .. } => ErrorKind::UndefinedReference,
            ResolveErrorView::ImageVariantNotFound { .. } => ErrorKind::UndefinedReference,
            ResolveErrorView::RegistryNotFound { .. } => ErrorKind::UndefinedReference,
            ResolveErrorView::DuplicateHostPrefix { .. } => ErrorKind::ConstraintViolation,
            ResolveErrorView::MissingExternalVariable { .. } => ErrorKind::ConstraintViolation,
            ResolveErrorView::ExternalVariable { cause, .. } => cause.kind(),
            ResolveErrorView::RelativeVariable { cause, .. } => cause.kind(),
            ResolveErrorView::InternalVariable { cause, .. } => cause.kind(),
            ResolveErrorView::ServiceVariable { cause, .. } => cause.kind(),
            ResolveErrorView::UndefinedServiceVariable { .. } => ErrorKind::UndefinedReference,
            ResolveErrorView::UndefinedConfig { .. } => ErrorKind::UndefinedReference,
            ResolveErrorView::UndefinedSecret { .. } => ErrorKind::UndefinedReference,
        }
    }
}

impl ResolveError {
    /// The kind of the error.
    pub fn kind(&self) -> (k: ErrorKind)
        ensures
            k == self@.kind(),
    {
        match self {
            ResolveError::DeploymentNotFound { .. } => ErrorKind::UndefinedReference,
            ResolveError::ConfigSourceMissing { .. } => ErrorKind::IoFailure,
            ResolveError::ConfigSourceUnreadable { .. } => ErrorKind::IoFailure,
            ResolveError::SecretVariableNotSet { .. } => ErrorKind::IoFailure,
            ResolveError::SecretFileMissing { .. } => ErrorKind::IoFailure,
            ResolveError::SecretFileUnreadable { .. } => ErrorKind::IoFailure,
            ResolveError::HostNotFound { .. } => ErrorKind::UndefinedReference,
            ResolveError::ImageVariantNotFound { .. } => ErrorKind::UndefinedReference,
            ResolveError::RegistryNotFound { .. } => ErrorKind::UndefinedReference,
            ResolveError::DuplicateHostPrefix { .. } => ErrorKind::ConstraintViolation,
            ResolveError::MissingExternalVariable { .. } => ErrorKind::ConstraintViolation,
            ResolveError::ExternalVariable { cause, .. } => cause.kind(),
            ResolveError::RelativeVariable { cause, .. } => cause.kind(),
            ResolveError::InternalVariable { cause, .. } => cause.kind(),
            ResolveError::ServiceVariable { cause, .. } => cause.kind(),
            ResolveError::UndefinedServiceVariable { .. } => ErrorKind::UndefinedReference,
            ResolveError::UndefinedConfig { .. } => ErrorKind::UndefinedReference,
            ResolveError::UndefinedSecret { .. } => ErrorKind::UndefinedReference,
        }
    }
}

/// Why a text is not a variable descriptor, `NAME` or `NAME=value`.
#[derive(Debug, PartialEq, Eq)]
pub enum EnvParseError {
    /// The text holds nothing but blanks.
    Empty,
    /// Nothing but blanks stands before the `=`.
    EmptyName,
    /// The value opens with a quote and does not close with the same quote.
    InvalidQuotedValue,
    /// The value holds a `=` and is not wrapped in quotes.
    UnquotedEquals,
    /// The text names a variable and gives it no value, where one is needed.
    MissingValue { input: String },
}

/// The mathematical value of a [`EnvParseError`].
pub enum EnvParseErrorView {
    Empty,
    EmptyName,
    InvalidQuotedValue,
    UnquotedEquals,
    MissingValue { input: Seq<char> },
}

impl View for EnvParseError {
    type V = EnvParseErrorView;

    open spec fn view(&self) -> EnvParseErrorView {
        match *self {
            EnvParseError::Empty => EnvParseErrorView::Empty,
            EnvParseError::EmptyName => EnvParseErrorView::EmptyName,
            EnvParseError::InvalidQuotedValue => EnvParseErrorView::InvalidQuotedValue,
            EnvParseError::UnquotedEquals => EnvParseErrorView::UnquotedEquals,
            EnvParseError::MissingValue { input } => EnvParseErrorView::MissingValue { input: input@ },
        }
    }
}

impl DeepView for EnvParseError {
    type V = EnvParseErrorView;

    open spec fn deep_view(&self) -> EnvParseErrorView {
        self@
    }
}

impl Clone for EnvParseError {
    fn clone(&self) -> (r: Self)
        ensures
            r@ == self@,
    {
        match self {
            EnvParseError::Empty => EnvParseError::Empty,
            EnvParseError::EmptyName => EnvParseError::EmptyName,
            EnvParseError::InvalidQuotedValue => EnvParseError::InvalidQuotedValue,
            EnvParseError::UnquotedEquals => EnvParseError::UnquotedEquals,
            EnvParseError::MissingValue { input } => EnvParseError::MissingValue { input: input.clone() },
        }
    }
}

impl EnvParseErrorView {
    /// The kind of the error.
    pub open spec fn kind(self) -> ErrorKind {
        match self {
            EnvParseErrorView::Empty => ErrorKind::MalformedInput,
            EnvParseErrorView::EmptyName => ErrorKind::MalformedInput,
            EnvParseErrorView::InvalidQuotedValue => ErrorKind::MalformedInput,
            EnvParseErrorView::UnquotedEquals => ErrorKind::MalformedInput,
            EnvParseErrorView::MissingValue { .. } => ErrorKind::MalformedInput,
        }
    }
}

impl EnvParseError {
    /// The kind of the error.
    pub fn kind(&self) -> (k: ErrorKind)
        ensures
            k == self@.kind(),
    {
        match self {
            EnvParseError::Empty => ErrorKind::MalformedInput,
            EnvParseError::EmptyName => ErrorKind::MalformedInput,
            EnvParseError::InvalidQuotedValue => ErrorKind::MalformedInput,
            EnvParseError::UnquotedEquals => ErrorKind::MalformedInput,
            EnvParseError::MissingValue { .. } => ErrorKind::MalformedInput,
        }
    }
}

/// A line of an env file that is not a variable with its value.
#[derive(Debug, PartialEq, Eq)]
pub struct EnvFileError {
    /// The number of the line, counted from 1.
    pub line: usize,
    /// The line, without the blanks around it.
    pub text: String,
    /// Why the line was refused.
    pub cause: EnvParseError,
}

/// The mathematical value of a [`EnvFileError`].
pub struct EnvFileErrorView {
    pub line: usize,
    pub text: Seq<char>,
    pub cause: EnvParseErrorView,
}

impl View for EnvFileError {
    type V = EnvFileErrorView;

    open spec fn view(&self) -> EnvFileErrorView {
        EnvFileErrorView {
            line: self.line,
            text: self.text@,
            cause: self.cause@,
        }
    }
}

impl DeepView for EnvFileError {
    type V = EnvFileErrorView;

    open spec fn deep_view(&self) -> EnvFileErrorView {
        self@
    }
}

impl Clone for EnvFileError {
    fn clone(&self) -> (r: Self)
        ensures
            r@ == self@,
    {
        EnvFileError { line: self.line, text: self.text.clone(), cause: self.cause.clone() }
    }
}

impl EnvFileErrorView {
    /// The kind of the error.
    pub open spec fn kind(self) -> ErrorKind {
        self.cause.kind()
    }
}

impl EnvFileError {
    /// The kind of the error.
    pub fn kind(&self) -> (k: ErrorKind)
        ensures
            k == self@.kind(),
    {
        self.cause.kind()
    }
}

/// Why an application and a deployment do not fit together.
#[derive(Debug, PartialEq, Eq)]
pub enum ValidationError {
    /// The environment has no deployment of this name.
    DeploymentNotFound { deployment: String },
    /// The deployment is for the application `expected`, and the descriptor at hand is that of `actual`.
    ApplicationMismatch { deployment: String, expected: String, actual: String },
    /// The version of the application lies outside the range that the deployment accepts.
    VersionMismatch { deployment: String, version: String, requirement: String },
    /// External variables without a default get no value from the deployment. `names` holds
    /// each of them, in the order of their declarations.
    MissingVariables { names: Vec<String>, deployment: String },
    /// The application expects a secret that the deployment does not supply.
    MissingSecret { secret: String, deployment: String },
    /// The application expects a config group that the deployment does not supply.
    MissingConfig { config: String, deployment: String },
    /// The deployment overrides a service that the application does not have.
    UnknownService { service: String, deployment: String },
    /// A service selects, by its bare name, a variable that the application declares in
    /// no tier.
    UndefinedVariable { deployment: String, service: String, variable: String },
}

/// The mathematical value of a [`ValidationError`].
pub enum ValidationErrorView {
    DeploymentNotFound { deployment: Seq<char> },
    ApplicationMismatch { deployment: Seq<char>, expected: Seq<char>, actual: Seq<char> },
    VersionMismatch { deployment: Seq<char>, version: Seq<char>, requirement: Seq<char> },
    MissingVariables { names: Seq<Seq<char>>, deployment: Seq<char> },
    MissingSecret { secret: Seq<char>, deployment: Seq<char> },
    MissingConfig { config: Seq<char>, deployment: Seq<char> },
    UnknownService { service: Seq<char>, deployment: Seq<char> },
    UndefinedVariable { deployment: Seq<char>, service: Seq<char>, variable: Seq<char> },
}

impl View for ValidationError {
    type V = ValidationErrorView;

    open spec fn view(&self) -> ValidationErrorView {
        match *self {
            ValidationError::DeploymentNotFound { deployment } => ValidationErrorView::DeploymentNotFound { deployment: deployment@ },
            ValidationError::ApplicationMismatch { deployment, expected, actual } => ValidationErrorView::ApplicationMismatch { deployment: deployment@, expected: expected@, actual: actual@ },
            ValidationError::VersionMismatch { deployment, version, requirement } => ValidationErrorView::VersionMismatch { deployment: deployment@, version: version@, requirement: requirement@ },
            ValidationError::MissingVariables { names, deployment } => ValidationErrorView::MissingVariables { names: names.deep_view(), deployment: deployment@ },
            ValidationError::MissingSecret { secret, deployment } => ValidationErrorView::MissingSecret { secret: secret@, deployment: deployment@ },
            ValidationError::MissingConfig { config, deployment } => ValidationErrorView::MissingConfig { config: config@, deployment: deployment@ },
            ValidationError::UnknownService { service, deployment } => ValidationErrorView::UnknownService { service: service@, deployment: deployment@ },
            ValidationError::UndefinedVariable { deployment, service, variable } => ValidationErrorView::UndefinedVariable { deployment: deployment@, service: service@, variable: variable@ },
        }
    }
}

impl DeepView for ValidationError {
    type V = ValidationErrorView;

    open spec fn deep_view(&self) -> ValidationErrorView {
        self@
    }
}

impl Clone for ValidationError {
    fn clone(&self) -> (r: Self)
        ensures
            r@ == self@,
    {
        match self {
            ValidationError::DeploymentNotFound { deployment } => ValidationError::DeploymentNotFound { deployment: deployment.clone() },
            ValidationError::ApplicationMismatch { deployment, expected, actual } => ValidationError::ApplicationMismatch { deployment: deployment.clone(), expected: expected.clone(), actual: actual.clone() },
            ValidationError::VersionMismatch { deployment, version, requirement } => ValidationError::VersionMismatch { deployment: deployment.clone(), version: version.clone(), requirement: requirement.clone() },
            ValidationError::MissingVariables { names, deployment } => {
                let c_names = names.clone();
                assert(c_names.deep_view() =~= names.deep_view());
                ValidationError::MissingVariables { names: c_names, deployment: deployment.clone() }
            },
            ValidationError::MissingSecret { secret, deployment } => ValidationError::MissingSecret { secret: secret.clone(), deployment: deployment.clone() },
            ValidationError::MissingConfig { config, deployment } => ValidationError::MissingConfig { config: config.clone(), deployment: deployment.clone() },
            ValidationError::UnknownService { service, deployment } => ValidationError::UnknownService { service: service.clone(), deployment: deployment.clone() },
            ValidationError::UndefinedVariable { deployment, service, variable } => ValidationError::UndefinedVariable { deployment: deployment.clone(), service: service.clone(), variable: variable.clone() },
        }
    }
}

impl ValidationErrorView {
    /// The kind of the error.
    pub open spec fn kind(self) -> ErrorKind {
        match self {
            ValidationErrorView::DeploymentNotFound { .. } => ErrorKind::UndefinedReference,
            ValidationErrorView::ApplicationMismatch { .. } => ErrorKind::ConstraintViolation,
            ValidationErrorView::VersionMismatch { .. } => ErrorKind::ConstraintViolation,
            ValidationErrorView::MissingVariables { .. } => ErrorKind::ConstraintViolation,
            ValidationErrorView::MissingSecret { .. } => ErrorKind::UndefinedReference,
            ValidationErrorView::MissingConfig { .. } => ErrorKind::UndefinedReference,
            ValidationErrorView::UnknownService { .. } => ErrorKind::UndefinedReference,
            ValidationErrorView::UndefinedVariable { .. } => ErrorKind::UndefinedReference,
        }
    }
}

impl ValidationError {
    /// The kind of the error.
    pub fn kind(&self) -> (k: ErrorKind)
        ensures
            k == self@.kind(),
    {
        match self {
            ValidationError::DeploymentNotFound { .. } => ErrorKind::UndefinedReference,
            ValidationError::ApplicationMismatch { .. } => ErrorKind::ConstraintViolation,
            ValidationError::VersionMismatch { .. } => ErrorKind::ConstraintViolation,
            ValidationError::MissingVariables { .. } => ErrorKind::ConstraintViolation,
            ValidationError::MissingSecret { .. } => ErrorKind::UndefinedReference,
            ValidationError::MissingConfig { .. } => ErrorKind::UndefinedReference,
            ValidationError::UnknownService { .. } => ErrorKind::UndefinedReference,
            ValidationError::UndefinedVariable { .. } => ErrorKind::UndefinedReference,
        }
    }
}

/// Why a descriptor as written could not be normalized.
#[derive(Debug, PartialEq, Eq)]
pub enum TransformError {
    /// The version of the application is not a semantic version.
    InvalidVersion { text: String },
    /// The versions that a deployment accepts are not a range of semantic versions.
    InvalidVersionRange { text: String },
    /// A declaration of the external tier is not a descriptor.
    ExternalVariable { text: String, cause: EnvParseError },
    /// A declaration of the optional tier is not a descriptor.
    OptionalVariable { text: String, cause: EnvParseError },
    /// An optional variable declares a value.
    OptionalWithDefault { name: String },
    /// A declaration of the relative tier is not a descriptor.
    RelativeVariable { text: String, cause: EnvParseError },
    /// A relative variable declares no value.
    RelativeWithoutValue { text: String },
    /// The value of a relative variable does not start with `/`.
    RelativeNotAPath { name: String },
    /// A declaration of the internal tier is not a descriptor.
    InternalVariable { text: String, cause: EnvParseError },
    /// An internal variable declares no value.
    InternalWithoutValue { name: String },
    /// A secret of a service names neither a path nor a variable.
    SecretWithoutMount { secret: String },
    /// A secret of a service stands in a mapping without anything under its name.
    SecretWithoutConfiguration { secret: String },
    /// A descriptor file with extra services could not be read.
    ExtraSpecUnreadable { path: String },
    /// A descriptor file with extra services does not hold a descriptor.
    ExtraSpecInvalid { path: String },
    /// An environment that is not local has no TLS block. To do without TLS, the block
    /// says so.
    TlsRequired,
    /// An environment that is not Docker sets the swarm mode.
    SwarmModeNotAllowed,
    /// An environment that is not Docker sets the kind of its ingress.
    IngressTypeNotAllowed,
    /// The kind of the ingress is neither `nginx` nor `traefik`.
    UnknownIngressType { ingress_type: String },
    /// A local environment maps registries.
    RegistryNotAllowed,
    /// A local environment declares `count` deployments, not exactly one.
    LocalDeploymentCount { count: usize },
    /// A service that a local deployment overrides has no port.
    LocalServiceWithoutPorts { service: String },
    /// Two ports of a local deployment are the same on the outside.
    DuplicateExternalPort { external: u16 },
    /// The env file of a deployment could not be read.
    EnvFileUnreadable { path: String },
    /// A line of the env file of a deployment was refused.
    EnvFile { path: String, failure: EnvFileError },
    /// An entry in the list of variables of a deployment is not `NAME=value`.
    DeploymentVariable { text: String, cause: EnvParseError },
    /// The source of a config group is not a directory.
    ConfigNotADirectory { config: String, path: String },
    /// The directory of a config group could not be listed.
    ConfigDirectoryUnreadable { config: String, path: String },
    /// A secret of a deployment names both a variable and a file as its source.
    SecretSourceConflict { secret: String },
    /// A secret of a deployment names no source.
    SecretWithoutSource { secret: String },
    /// A port is not written as `external:internal`.
    InvalidPort { text: String },
    /// The outside of a port is not a number from 0 to 65535.
    InvalidExternalPort { port: String, text: String },
    /// The inside of a port is not a number from 0 to 65535.
    InvalidInternalPort { port: String, text: String },
}

/// The mathematical value of a [`TransformError`].
pub enum TransformErrorView {
    InvalidVersion { text: Seq<char> },
    InvalidVersionRange { text: Seq<char> },
    ExternalVariable { text: Seq<char>, cause: EnvParseErrorView },
    OptionalVariable { text: Seq<char>, cause: EnvParseErrorView },
    OptionalWithDefault { name: Seq<char> },
    RelativeVariable { text: Seq<char>, cause: EnvParseErrorView },
    RelativeWithoutValue { text: Seq<char> },
    RelativeNotAPath { name: Seq<char> },
    InternalVariable { text: Seq<char>, cause: EnvParseErrorView },
    InternalWithoutValue { name: Seq<char> },
    SecretWithoutMount { secret: Seq<char> },
    SecretWithoutConfiguration { secret: Seq<char> },
    ExtraSpecUnreadable { path: Seq<char> },
    ExtraSpecInvalid { path: Seq<char> },
    TlsRequired,
    SwarmModeNotAllowed,
    IngressTypeNotAllowed,
    UnknownIngressType { ingress_type: Seq<char> },
    RegistryNotAllowed,
    LocalDeploymentCount { count: usize },
    LocalServiceWithoutPorts { service: Seq<char> },
    DuplicateExternalPort { external: u16 },
    EnvFileUnreadable { path: Seq<char> },
    EnvFile { path: Seq<char>, failure: EnvFileErrorView },
    DeploymentVariable { text: Seq<char>, cause: EnvParseErrorView },
    ConfigNotADirectory { config: Seq<char>, path: Seq<char> },
    ConfigDirectoryUnreadable { config: Seq<char>, path: Seq<char> },
    SecretSourceConflict { secret: Seq<char> },
    SecretWithoutSource { secret: Seq<char> },
    InvalidPort { text: Seq<char> },
    InvalidExternalPort { port: Seq<char>, text: Seq<char> },
    InvalidInternalPort { port: Seq<char>, text: Seq<char> },
}

impl View for TransformError {
    type V = TransformErrorView;

    open spec fn view(&self) -> TransformErrorView {
        match *self {
            TransformError::InvalidVersion { text } => TransformErrorView::InvalidVersion { text: text@ },
            TransformError::InvalidVersionRange { text } => TransformErrorView::InvalidVersionRange { text: text@ },
            TransformError::ExternalVariable { text, cause } => TransformErrorView::ExternalVariable { text: text@, cause: cause@ },
            TransformError::OptionalVariable { text, cause } => TransformErrorView::OptionalVariable { text: text@, cause: cause@ },
            TransformError::OptionalWithDefault { name } => TransformErrorView::OptionalWithDefault { name: name@ },
            TransformError::RelativeVariable { text, cause } => TransformErrorView::RelativeVariable { text: text@, cause: cause@ },
            TransformError::RelativeWithoutValue { text } => TransformErrorView::RelativeWithoutValue { text: text@ },
            TransformError::RelativeNotAPath { name } => TransformErrorView::RelativeNotAPath { name: name@ },
            TransformError::InternalVariable { text, cause } => TransformErrorView::InternalVariable { text: text@, cause: cause@ },
            TransformError::InternalWithoutValue { name } => TransformErrorView::InternalWithoutValue { name: name@ },
            TransformError::SecretWithoutMount { secret } => TransformErrorView::SecretWithoutMount { secret: secret@ },
            TransformError::SecretWithoutConfiguration { secret } => TransformErrorView::SecretWithoutConfiguration { secret: secret@ },
            TransformError::ExtraSpecUnreadable { path } => TransformErrorView::ExtraSpecUnreadable { path: path@ },
            TransformError::ExtraSpecInvalid { path } => TransformErrorView::ExtraSpecInvalid { path: path@ },
            TransformError::TlsRequired => TransformErrorView::TlsRequired,
            TransformError::SwarmModeNotAllowed => TransformErrorView::SwarmModeNotAllowed,
            TransformError::IngressTypeNotAllowed => TransformErrorView::IngressTypeNotAllowed,
            TransformError::UnknownIngressType { ingress_type } => TransformErrorView::UnknownIngressType { ingress_type: ingress_type@ },
            TransformError::RegistryNotAllowed => TransformErrorView::RegistryNotAllowed,
            TransformError::LocalDeploymentCount { count } => TransformErrorView::LocalDeploymentCount { count: count },
            TransformError::LocalServiceWithoutPorts { service } => TransformErrorView::LocalServiceWithoutPorts { service: service@ },
            TransformError::DuplicateExternalPort { external } => TransformErrorView::DuplicateExternalPort { external: external },
            TransformError::EnvFileUnreadable { path } => TransformErrorView::EnvFileUnreadable { path: path@ },
            TransformError::EnvFile { path, failure } => TransformErrorView::EnvFile { path: path@, failure: failure@ },
            TransformError::DeploymentVariable { text, cause } => TransformErrorView::DeploymentVariable { text: text@, cause: cause@ },
            TransformError::ConfigNotADirectory { config, path } => TransformErrorView::ConfigNotADirectory { config: config@, path: path@ },
            TransformError::ConfigDirectoryUnreadable { config, path } => TransformErrorView::ConfigDirectoryUnreadable { config: config@, path: path@ },
            TransformError::SecretSourceConflict { secret } => TransformErrorView::SecretSourceConflict { secret: secret@ },
            TransformError::SecretWithoutSource { secret } => TransformErrorView::SecretWithoutSource { secret: secret@ },
            TransformError::InvalidPort { text } => TransformErrorView::InvalidPort { text: text@ },
            TransformError::InvalidExternalPort { port, text } => TransformErrorView::InvalidExternalPort { port: port@, text: text@ },
            TransformError::InvalidInternalPort { port, text } => TransformErrorView::InvalidInternalPort { port: port@, text: text@ },
        }
    }
}

impl DeepView for TransformError {
    type V = TransformErrorView;

    open spec fn deep_view(&self) -> TransformErrorView {
        self@
    }
}

impl Clone for TransformError {
    fn clone(&self) -> (r: Self)
        ensures
            r@ == self@,
    {
        match self {
            TransformError::InvalidVersion { text } => TransformError::InvalidVersion { text: text.clone() },
            TransformError::InvalidVersionRange { text } => TransformError::InvalidVersionRange { text: text.clone() },
            TransformError::ExternalVariable { text, cause } => TransformError::ExternalVariable { text: text.clone(), cause: cause.clone() },
            TransformError::OptionalVariable { text, cause } => TransformError::OptionalVariable { text: text.clone(), cause: cause.clone() },
            TransformError::OptionalWithDefault { name } => TransformError::OptionalWithDefault { name: name.clone() },
            TransformError::RelativeVariable { text, cause } => TransformError::RelativeVariable { text: text.clone(), cause: cause.clone() },
            TransformError::RelativeWithoutValue { text } => TransformError::RelativeWithoutValue { text: text.clone() },
            TransformError::RelativeNotAPath { name } => TransformError::RelativeNotAPath { name: name.clone() },
            TransformError::InternalVariable { text, cause } => TransformError::InternalVariable { text: text.clone(), cause: cause.clone() },
            TransformError::InternalWithoutValue { name } => TransformError::InternalWithoutValue { name: name.clone() },
            TransformError::SecretWithoutMount { secret } => TransformError::SecretWithoutMount { secret: secret.clone() },
            TransformError::SecretWithoutConfiguration { secret } => TransformError::SecretWithoutConfiguration { secret: secret.clone() },
            TransformError::ExtraSpecUnreadable { path } => TransformError::ExtraSpecUnreadable { path: path.clone() },
            TransformError::ExtraSpecInvalid { path } => TransformError::ExtraSpecInvalid { path: path.clone() },
            TransformError::TlsRequired => TransformError::TlsRequired,
            TransformError::SwarmModeNotAllowed => TransformError::SwarmModeNotAllowed,
            TransformError::IngressTypeNotAllowed => TransformError::IngressTypeNotAllowed,
            TransformError::UnknownIngressType { ingress_type } => TransformError::UnknownIngressType { ingress_type: ingress_type.clone() },
            TransformError::RegistryNotAllowed => TransformError::RegistryNotAllowed,
            TransformError::LocalDeploymentCount { count } => TransformError::LocalDeploymentCount { count: *count },
            TransformError::LocalServiceWithoutPorts { service } => TransformError::LocalServiceWithoutPorts { service: service.clone() },
            TransformError::DuplicateExternalPort { external } => TransformError::DuplicateExternalPort { external: *external },
            TransformError::EnvFileUnreadable { path } => TransformError::EnvFileUnreadable { path: path.clone() },
            TransformError::EnvFile { path, failure } => TransformError::EnvFile { path: path.clone(), failure: failure.clone() },
            TransformError::DeploymentVariable { text, cause } => TransformError::DeploymentVariable { text: text.clone(), cause: cause.clone() },
            TransformError::ConfigNotADirectory { config, path } => TransformError::ConfigNotADirectory { config: config.clone(), path: path.clone() },
            TransformError::ConfigDirectoryUnreadable { config, path } => TransformError::ConfigDirectoryUnreadable { config: config.clone(), path: path.clone() },
            TransformError::SecretSourceConflict { secret } => TransformError::SecretSourceConflict { secret: secret.clone() },
            TransformError::SecretWithoutSource { secret } => TransformError::SecretWithoutSource { secret: secret.clone() },
            TransformError::InvalidPort { text } => TransformError::InvalidPort { text: text.clone() },
            TransformError::InvalidExternalPort { port, text } => TransformError::InvalidExternalPort { port: port.clone(), text: text.clone() },
            TransformError::InvalidInternalPort { port, text } => TransformError::InvalidInternalPort { port: port.clone(), text: text.clone() },
        }
    }
}

impl TransformErrorView {
    /// The kind of the error.
    pub open spec fn kind(self) -> ErrorKind {
        match self {
            TransformErrorView::InvalidVersion { .. } => ErrorKind::MalformedInput,
            TransformErrorView::InvalidVersionRange { .. } => ErrorKind::MalformedInput,
            TransformErrorView::ExternalVariable { cause, .. } => cause.kind(),
            TransformErrorView::OptionalVariable { cause, .. } => cause.kind(),
            TransformErrorView::OptionalWithDefault { .. } => ErrorKind::ConstraintViolation,
            TransformErrorView::RelativeVariable { cause, .. } => cause.kind(),
            TransformErrorView::RelativeWithoutValue { .. } => ErrorKind::MalformedInput,
            TransformErrorView::RelativeNotAPath { .. } => ErrorKind::ConstraintViolation,
            TransformErrorView::InternalVariable { cause, .. } => cause.kind(),
            TransformErrorView::InternalWithoutValue { .. } => ErrorKind::MalformedInput,
            TransformErrorView::SecretWithoutMount { .. } => ErrorKind::ConstraintViolation,
            TransformErrorView::SecretWithoutConfiguration { .. } => ErrorKind::ConstraintViolation,
            TransformErrorView::ExtraSpecUnreadable { .. } => ErrorKind::IoFailure,
            TransformErrorView::ExtraSpecInvalid { .. } => ErrorKind::MalformedInput,
            TransformErrorView::TlsRequired => ErrorKind::ConstraintViolation,
            TransformErrorView::SwarmModeNotAllowed => ErrorKind::ConstraintViolation,
            TransformErrorView::IngressTypeNotAllowed => ErrorKind::ConstraintViolation,
            TransformErrorView::UnknownIngressType { .. } => ErrorKind::MalformedInput,
            TransformErrorView::RegistryNotAllowed => ErrorKind::ConstraintViolation,
            TransformErrorView::LocalDeploymentCount { .. } => ErrorKind::ConstraintViolation,
            TransformErrorView::LocalServiceWithoutPorts { .. } => ErrorKind::ConstraintViolation,
            TransformErrorView::DuplicateExternalPort { .. } => ErrorKind::ConstraintViolation,
            TransformErrorView::EnvFileUnreadable { .. } => ErrorKind::IoFailure,
            TransformErrorView::EnvFile { failure, .. } => failure.kind(),
            TransformErrorView::DeploymentVariable { cause, .. } => cause.kind(),
            TransformErrorView::ConfigNotADirectory { .. } => ErrorKind::IoFailure,
            TransformErrorView::ConfigDirectoryUnreadable { .. } => ErrorKind::IoFailure,
            TransformErrorView::SecretSourceConflict { .. } => ErrorKind::ConstraintViolation,
            TransformErrorView::SecretWithoutSource { .. } => ErrorKind::ConstraintViolation,
            TransformErrorView::InvalidPort { .. } => ErrorKind::MalformedInput,
            TransformErrorView::InvalidExternalPort { .. } => ErrorKind::MalformedInput,
            TransformErrorView::InvalidInternalPort { .. } => ErrorKind::MalformedInput,
        }
    }
}

impl TransformError {
    /// The kind of the error.
    pub fn kind(&self) -> (k: ErrorKind)
        ensures
            k == self@.kind(),
    {
        match self {
            TransformError::InvalidVersion { .. } => ErrorKind::MalformedInput,
            TransformError::InvalidVersionRange { .. } => ErrorKind::MalformedInput,
            TransformError::ExternalVariable { cause, .. } => cause.kind(),
            TransformError::OptionalVariable { cause, .. } => cause.kind(),
            TransformError::OptionalWithDefault { .. } => ErrorKind::ConstraintViolation,
            TransformError::RelativeVariable { cause, .. } => cause.kind(),
            TransformError::RelativeWithoutValue { .. } => ErrorKind::MalformedInput,
            TransformError::RelativeNotAPath { .. } => ErrorKind::ConstraintViolation,
            TransformError::InternalVariable { cause, .. } => cause.kind(),
            TransformError::InternalWithoutValue { .. } => ErrorKind::MalformedInput,
            TransformError::SecretWithoutMount { .. } => ErrorKind::ConstraintViolation,
            TransformError::SecretWithoutConfiguration { .. } => ErrorKind::ConstraintViolation,
            TransformError::ExtraSpecUnreadable { .. } => ErrorKind::IoFailure,
            TransformError::ExtraSpecInvalid { .. } => ErrorKind::MalformedInput,
            TransformError::TlsRequired => ErrorKind::ConstraintViolation,
            TransformError::SwarmModeNotAllowed => ErrorKind::ConstraintViolation,
            TransformError::IngressTypeNotAllowed => ErrorKind::ConstraintViolation,
            TransformError::UnknownIngressType { .. } => ErrorKind::MalformedInput,
            TransformError::RegistryNotAllowed => ErrorKind::ConstraintViolation,
            TransformError::LocalDeploymentCount { .. } => ErrorKind::ConstraintViolation,
            TransformError::LocalServiceWithoutPorts { .. } => ErrorKind::ConstraintViolation,
            TransformError::DuplicateExternalPort { .. } => ErrorKind::ConstraintViolation,
            TransformError::EnvFileUnreadable { .. } => ErrorKind::IoFailure,
            TransformError::EnvFile { failure, .. } => failure.kind(),
            TransformError::DeploymentVariable { cause, .. } => cause.kind(),
            TransformError::ConfigNotADirectory { .. } => ErrorKind::IoFailure,
            TransformError::ConfigDirectoryUnreadable { .. } => ErrorKind::IoFailure,
            TransformError::SecretSourceConflict { .. } => ErrorKind::ConstraintViolation,
            TransformError::SecretWithoutSource { .. } => ErrorKind::ConstraintViolation,
            TransformError::InvalidPort { .. } => ErrorKind::MalformedInput,
            TransformError::InvalidExternalPort { .. } => ErrorKind::MalformedInput,
            TransformError::InvalidInternalPort { .. } => ErrorKind::MalformedInput,
        }
    }
}

} // verus!
