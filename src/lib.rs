//! Identity-and-key vaults: signing keys bound to identities, with
//! redacted (public-only) views that never carry secret material.

pub mod encoding;
pub mod identity;
pub mod scheme;
pub mod signing_key;
pub mod vault;
