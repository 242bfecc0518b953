//! Verified core of a Minecraft server provisioning tool.
//!
//! The library holds the decision logic: version validation, download-URL
//! resolution, workspace layout, plugin-copy planning and the launch argument
//! vector. The surrounding binary performs the network and filesystem work
//! and feeds the results back in as plain values.

pub mod download;
pub mod plugins;
pub mod resolver;
pub mod server;
pub mod version;
pub mod workspace;
