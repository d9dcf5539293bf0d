//! The plan of a start, from the layers of the configuration to the image,
//! the mounts and the hash.

pub mod agreement;
pub mod assemble;
pub mod compose;
pub mod expand;
pub mod hash;
pub mod source;
