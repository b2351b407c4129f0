//! Gateway configuration and the send entry point.
//!
//! One gateway value exists per installation: it carries the chain
//! identity the installation answers for and an emergency enable flag
//! that gates sending and consumption (claims stay unaffected by
//! design).

use vstd::prelude::*;

use crate::errors::GatewayError;
use crate::events::SendRequested;
use crate::events::SystemStatusChanged;
use crate::registry::bytes32_eq;
use crate::MAX_ON_CHAIN_DATA_SIZE;
use crate::MAX_RECIPIENT_SIZE;

verus! {

/// Per-installation configuration: the owning authority, the chain
/// this gateway answers for, and the emergency enable flag.
#[derive(Clone, Copy, Debug)]
pub struct MessageGateway {
    /// The identity allowed to change gateway settings.
    pub authority: [u8; 32],
    /// The chain identity of this installation.
    pub chain_id: u64,
    /// Whether the gateway currently accepts sends and consumptions.
    pub system_enabled: bool,
}

/// Creates a gateway for one chain, enabled from the start.
pub fn initialize_gateway(authority: [u8; 32], chain_id: u64) -> (g: MessageGateway)
    ensures
        g.authority == authority,
        g.chain_id == chain_id,
        g.system_enabled == true,
{
    MessageGateway { authority, chain_id, system_enabled: true }
}

impl MessageGateway {
    /// Flips the emergency enable flag; only the owning authority may.
    pub fn set_system_enabled(&mut self, authority: &[u8; 32], enabled: bool) -> (r: Result<
        SystemStatusChanged,
        GatewayError,
    >)
        ensures
            old(self).authority@ != authority@ ==> r == Err::<SystemStatusChanged, GatewayError>(
                GatewayError::UnauthorizedAuthority,
            ) && *final(self) == *old(self),
            old(self).authority@ == authority@ ==> r == Ok::<SystemStatusChanged, GatewayError>(
                SystemStatusChanged { enabled },
            ) && *final(self) == (MessageGateway { system_enabled: enabled, ..*old(self) }),
    {
        if !bytes32_eq(&self.authority, authority) {
            return Err(GatewayError::UnauthorizedAuthority);
        }
        self.system_enabled = enabled;
        Ok(SystemStatusChanged { enabled })
    }
}

/// The error, if any, a send request is rejected with.
pub open spec fn spec_send_error(
    gateway: MessageGateway,
    recipient: Seq<u8>,
    chain_data: Seq<u8>,
) -> Option<GatewayError> {
    if !gateway.system_enabled {
        Some(GatewayError::SystemDisabled)
    } else if recipient.len() == 0 {
        Some(GatewayError::EmptyRecipient)
    } else if chain_data.len() == 0 {
        Some(GatewayError::EmptyChainData)
    } else if recipient.len() > MAX_RECIPIENT_SIZE {
        Some(GatewayError::OversizedField)
    } else if chain_data.len() > MAX_ON_CHAIN_DATA_SIZE {
        Some(GatewayError::OversizedField)
    } else {
        None
    }
}

/// Validates an outbound message and reports the send notification the
/// surroundings should emit for off-chain relays to pick up.
pub fn send_message(
    gateway: &MessageGateway,
    tx_id: u128,
    sender: [u8; 32],
    recipient: Vec<u8>,
    dest_chain_id: u64,
    chain_data: Vec<u8>,
    confirmations: u16,
) -> (r: Result<SendRequested, GatewayError>)
    ensures
        match spec_send_error(*gateway, recipient@, chain_data@) {
            Some(e) => r == Err::<SendRequested, GatewayError>(e),
            None => r matches Ok(ev) && ev.tx_id == tx_id && ev.sender == sender && ev.recipient@
                == recipient@ && ev.dest_chain_id == dest_chain_id && ev.chain_data@ == chain_data@
                && ev.confirmations == confirmations,
        },
{
    if !gateway.system_enabled {
        return Err(GatewayError::SystemDisabled);
    }
    if recipient.len() == 0 {
        return Err(GatewayError::EmptyRecipient);
    }
    if chain_data.len() == 0 {
        return Err(GatewayError::EmptyChainData);
    }
    if recipient.len() > MAX_RECIPIENT_SIZE {
        return Err(GatewayError::OversizedField);
    }
    if chain_data.len() > MAX_ON_CHAIN_DATA_SIZE {
        return Err(GatewayError::OversizedField);
    }
    Ok(SendRequested { tx_id, sender, recipient, dest_chain_id, chain_data, confirmations })
}

} // verus!
