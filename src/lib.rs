//! A typed mapping layer over a small relational schema of entities, keys,
//! devices, signatures and certifiers: enumerated scalar codecs, row decoding,
//! reference resolution and the per-request query modifier hook.
mod text;
pub mod codec;
pub mod error;
pub mod schema;
pub mod relation;
pub mod hook;
