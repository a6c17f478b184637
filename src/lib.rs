//! A registry that mints uniquely numbered kitties, fingerprints each one
//! with a BLAKE2b-128 digest of its id and owner, and indexes it by
//! (owner, id).

pub mod allocator;
pub mod fingerprint;
pub mod laws;
pub mod registry;

pub use allocator::{Allocator, Overflow};
pub use fingerprint::{AccountId, encode_dna_input, kitty_dna};
pub use registry::{Error, Event, Kitty, Pallet};
