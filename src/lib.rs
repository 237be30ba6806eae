//! Resolution of the build, packaging and identity parameters of a Tizen
//! application from the environment, the application manifest, Cargo's
//! configuration files, the command line and bundled defaults.

pub mod error;
pub mod laws;
pub mod manifest;
pub mod path;
pub mod provider;
pub mod registry;
pub mod text;
pub mod tizen_env;
pub mod toml_value;
