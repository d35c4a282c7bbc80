//! Device discovery, developer-disk-image retrieval and setup planning for
//! enabling JIT on iOS devices.

pub mod backend;
pub mod device;
pub mod dmg;
pub mod install;
pub mod prompt;
pub mod text;
