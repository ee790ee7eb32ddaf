//! Resolution of an application descriptor and an environment descriptor
//! into one consistent deployment model.
//!
//! An application descriptor says what an application is made of: its
//! services and their images, the variables it declares, the configs and
//! secrets it expects. An environment descriptor says where applications
//! run: the kind of target, the registries, the ingress with its hosts, and
//! the deployments with what each of them supplies and overrides. Resolution
//! brings the two together for one deployment: every variable gets its
//! value, every image its registry host and tag, every public service its
//! routes, and every reference to a config or a secret is checked. It
//! succeeds as a whole, or it fails at the first rule that is broken.
//!
//! The work is done in three steps, each a function of plain values:
//!
//! - [`transform`] normalizes the descriptors as they are written
//!   ([`spec_yaml`]) into the descriptors that the rest works on ([`spec`]);
//! - [`validator`] checks that an application and a deployment fit together;
//! - [`resolver`] resolves the deployment into the model of [`resolved_spec`],
//!   with [`interpolation`], [`variables`], [`images`], [`supplies`] and
//!   [`ingress`] for its parts.
//!
//! The library reads no file and no process environment. What a step needs
//! from the machine is handed to it as a snapshot ([`sources`]), so that the
//! same arguments always give the same result.
//!
//! Every function states what it returns over the mathematical value of its
//! arguments, their view. [`laws`] holds what follows for every resolution:
//! names of variables are unique, references to configs and secrets resolve,
//! no prefix is routed twice on one host, and the like. Errors ([`error`])
//! are values that name what was wrong; each is of one [`error::ErrorKind`].
//!
//! Versions and version ranges ([`version`]) are those of the `semver`
//! crate, which alone decides what a version is and when it lies in a range.

pub mod env_loader;
pub mod error;
pub mod images;
pub mod ingress;
pub mod interpolation;
pub mod laws;
pub mod lookup;
pub mod ports;
pub mod resolved_spec;
pub mod resolver;
pub mod seqs;
pub mod sources;
pub mod spec;
pub mod spec_yaml;
pub mod supplies;
pub mod text;
pub mod transform;
pub mod transform_declarations;
pub mod transform_deployment;
pub mod transform_service;
pub mod validator;
pub mod variables;
pub mod version;
