//! Materialize the verified multi-file source of a deployed smart contract
//! as a local source tree: resolve a chain token to its numeric id, build
//! the explorer query URL, decode the doubly-encoded source bundle, and plan
//! the reconstruction of the original nested file layout.

pub mod braces;
pub mod bundle;
pub mod chains;
pub mod chars;
pub mod cleaner;
pub mod decode;
pub mod errors;
pub mod materialize;
pub mod pipeline;
pub mod url;
