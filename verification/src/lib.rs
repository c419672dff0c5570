//! Data-access layer for remote game-asset metadata: typed decoding of the
//! remote JSON payloads, path normalization, a local JSON cache codec, and a
//! catalog holding the in-memory dataset with lookup, staleness and refresh
//! logic.

pub mod text;
pub mod paths;
pub mod json;
pub mod domain;
pub mod dates;
pub mod codec;
pub mod catalog;
