//! What the library as a whole comes to, told of inputs and results alone.

pub mod completion;
pub mod containers;
pub mod credentials;
pub mod decisions;
pub mod documents;
pub mod entrypoints;
pub mod hashes;
pub mod isolation;
pub mod messages;
pub mod mounts;
pub mod plans;
pub mod ports;
pub mod runtime;
pub mod session;
pub mod starts;
pub mod state;
pub mod text;
pub mod users;
