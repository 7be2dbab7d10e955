//! Verified core of a Kubernetes CSI node plugin that mounts XetHub repositories.

pub mod driver;
pub mod args;
pub mod error;
pub mod identity;
pub mod mount;
pub mod node;
pub mod status;
pub mod volume;
pub mod laws;
pub mod request_laws;
