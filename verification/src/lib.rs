//! Planning and start-up rules of a development-container command line tool.

pub mod canonical;
pub mod compose;
pub mod config;
pub mod docker;
pub mod error;
pub mod finalize;
pub mod hash_input;
pub mod json;
pub mod laws;
pub mod messages;
pub mod mounts;
pub mod numbers;
pub mod paths;
pub mod plan;
pub mod run;
pub mod services;
pub mod shell;
pub mod start;
pub mod startup_command;
pub mod text;
pub mod text_map;
pub mod types;
pub mod uid_gid;
pub mod yaml;
