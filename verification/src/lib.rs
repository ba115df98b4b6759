//! Installation core of a game-plugin package manager.
//!
//! The crate holds the decisions of the installer: where things live on disk,
//! how text crosses into the secondary runtime and back, and the order in which
//! a plugin archive is fetched, checked, completed and put in place. Network,
//! file system and foreign calls are carried out by the embedding program, which
//! hands their outcomes to the state machines defined here.

pub mod archive;
pub mod bridge;
pub mod disk;
pub mod install;
pub mod marshal;
pub mod path_check;
pub mod paths;
pub mod processes;
pub mod working_id;
