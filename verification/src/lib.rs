//! Cross-chain message gateway core: canonical envelope hashing, tiered
//! signer registries, signature authorization, and two-phase replay
//! protection (claim / consume) with a per-source-chain watermark.

use vstd::prelude::*;

pub mod errors;
pub mod events;
pub mod gateway;
pub mod hash;
pub mod replay;
pub mod registry;
pub mod signature;

verus! {

/// Largest accepted `sender` field, in bytes.
pub const MAX_SENDER_SIZE: usize = 64;

/// Largest accepted `recipient` field, in bytes.
pub const MAX_RECIPIENT_SIZE: usize = 64;

/// Largest accepted `on_chain_data` field, in bytes.
pub const MAX_ON_CHAIN_DATA_SIZE: usize = 1024;

/// Largest accepted `off_chain_data` field, in bytes.
pub const MAX_OFF_CHAIN_DATA_SIZE: usize = 1024;

/// Most signatures a single submission may carry.
pub const MAX_SIGNATURES_PER_MESSAGE: usize = 8;

/// Fewest signatures a full authorization requires.
pub const MIN_SIGNATURES_REQUIRED: usize = 2;

/// Most signer identities one registry may hold.
pub const MAX_SIGNERS_PER_REGISTRY: usize = 10;

} // verus!
