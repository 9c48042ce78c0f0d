//! A proof-of-existence claim registry.
//!
//! Principals register ownership of opaque byte-string claims, revoke them,
//! or hand them over to another principal. Every transition is checked
//! against an abstract model over `Map<Seq<u8>, OwnershipRecord>`.

pub mod store;
pub mod pallet;
pub mod laws;
