//! Remote deployment-trigger daemon: request decoding, configuration-driven
//! target resolution, secret authentication, and the connection protocol that
//! streams a provisioning subprocess's output back to the caller.

pub mod config;
pub mod jsondoc;
pub mod message;
pub mod protocol;
pub mod render;
pub mod resolve;
