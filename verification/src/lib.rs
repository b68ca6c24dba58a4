//! A mod acquisition engine for launcher instances: it picks the release of a
//! mod that fits an instance, walks the release's required dependencies and
//! keeps the instance's lockfile. Network, disk and terminal stay outside; the
//! decisions are made here, step by step, from what the caller reports back.

pub mod config;
pub mod data_structs;
pub mod download;
pub mod error;
pub mod hash;
pub mod installer;
pub mod json;
pub mod latest;
pub mod lookup;
pub mod modrinth;
pub mod polymc;
pub mod prompt;
pub mod resolver;
pub mod text;
pub mod walk;

pub use crate::config::parse_cfg_file;
pub use crate::hash::hash_file;
pub use crate::json::format_to_vec_of_strings;
pub use crate::polymc::{PolyInstance, PolyMC};
