//! Core logic of the ShardXL Minecraft launcher: offline accounts, the on-disk
//! layout of installed versions, reading Mojang's version manifest, Java
//! detection and the installation sequence. Everything that touches the
//! network, the file system, the environment or child processes lives with the
//! caller; the functions here take and return plain values.

pub mod models;
pub mod text;
pub mod uuid;
pub mod auth;
pub mod paths;
pub mod json;
pub mod manifest;
pub mod versions;
pub mod java;
pub mod install;
