//! The plan of a start, once the image is known.

pub mod agreement;
pub mod feature;
pub mod github_cli;
pub mod image;
pub mod lookup;
pub mod machine;
pub mod resources;
