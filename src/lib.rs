//! Turns the build requirements of a native library (search paths, libraries,
//! frameworks, linker passthrough arguments and preprocessor definitions) into
//! the flag syntax of native toolchains, and hands those flags to bindgen and cc.

pub mod flags;
pub mod iter;
pub mod descriptor;
pub mod merge;
pub mod laws;

pub use descriptor::{vec_iter, CcArgs, Library};
pub use merge::MergeCcArgs;
