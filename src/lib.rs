//! Time-ordered 64-bit identifiers minted per namespace key by a bounded
//! registry of Snowflake-style generators, with a fixed-width base62 text form.

pub mod base62;
pub mod error;
pub mod generator;
pub mod node;
pub mod registry;

pub use base62::{decode_base62, encode_base62, BASE62_WIDTH};
pub use error::SnowIdError;
pub use generator::{accept_minted, GenState, Generator, MAX_NODE, NODE_SHIFT, TIMESTAMP_SHIFT};
pub use node::{NodeIdentity, DEFAULT_NODE};
pub use registry::{Registry, DEFAULT_KEY, MAX_KEYS};
