//! Descriptor resolution for a build tool: raw, dynamically shaped
//! configuration values are validated and normalized into a strictly typed
//! description of what to compile — target language, language standard and
//! compiler toolchain — or rejected with a precise validation error.

pub mod descriptor;
pub mod value;
pub mod resolve;
pub mod laws;
pub mod fsops;
