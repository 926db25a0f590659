//! Desired-state synthesis for a Noria cluster: from one declarative cluster
//! description to the ordered list of child manifests that realise it.

pub mod builder;
pub mod canon;
pub mod digest;
pub mod error;
pub mod json;
pub mod laws;
pub mod manifest;
pub mod model;
pub mod mysql;
pub mod server;
pub mod sync;
pub mod text;
pub mod ui;
pub mod zookeeper;
