//! The start of a container: what is there already, what is used again, and
//! what is made.

pub mod again;
pub mod compose;
pub mod compose_run;
pub mod container;
pub mod creation;
pub mod credentials;
pub mod existing;
pub mod fast_path;
pub mod feature_entrypoint;
pub mod image;
pub mod inspect;
pub mod isolation;
pub mod laws;
pub mod listing;
pub mod preflight;
pub mod reuse;
pub mod state_sync;
