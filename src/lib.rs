//! A cryptographic identity engine: generation of signature identities, their
//! canonical byte encoding, and export/import under authenticated encryption.

pub mod suite;
pub mod primitives;
pub mod identity;
pub mod codec;
pub mod blob;
pub mod service;
