//! Notification values the gateway reports to its surroundings.
//!
//! Each successful operation produces one of these; emitting them to a
//! log or transport is the caller's concern.

use vstd::prelude::*;

verus! {

/// A message was submitted for relay to another chain.
#[derive(Debug)]
pub struct SendRequested {
    /// The transaction identifier the caller chose.
    pub tx_id: u128,
    /// The submitting identity.
    pub sender: [u8; 32],
    /// The destination recipient, as raw bytes.
    pub recipient: Vec<u8>,
    /// The destination chain.
    pub dest_chain_id: u64,
    /// The payload destined for the destination chain.
    pub chain_data: Vec<u8>,
    /// How many confirmations the caller asks for.
    pub confirmations: u16,
}

/// A claim was recorded for a cross-chain transaction.
#[derive(Clone, Copy, Debug, PartialEq, Eq, Structural)]
pub struct TxPdaCreated {
    /// The claimed transaction identifier.
    pub tx_id: u128,
    /// The chain the transaction originates from.
    pub source_chain_id: u64,
}

/// A claimed message passed full authorization and was consumed.
#[derive(Clone, Copy, Debug)]
pub struct MessageProcessed {
    /// The consumed transaction identifier.
    pub tx_id: u128,
    /// The chain the transaction originates from.
    pub source_chain_id: u64,
    /// The identity that submitted the consumption.
    pub relayer: [u8; 32],
}

/// The gateway's enable flag changed.
#[derive(Clone, Copy, Debug, PartialEq, Eq, Structural)]
pub struct SystemStatusChanged {
    /// The new value of the flag.
    pub enabled: bool,
}

} // verus!
