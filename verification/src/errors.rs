//! Error taxonomy of the gateway core.
//!
//! Every failure aborts its whole operation and leaves persistent state
//! unchanged; no error is retried internally.

use vstd::prelude::*;

verus! {

/// Every way a gateway operation can fail.
#[derive(Clone, Copy, Debug, PartialEq, Eq, Structural)]
pub enum GatewayError {
    /// The destination gateway is switched off.
    SystemDisabled,
    /// A `send` carried an empty recipient.
    EmptyRecipient,
    /// A `send` carried empty chain data.
    EmptyChainData,
    /// The destination chain id does not match the gateway's own.
    ChainMismatch,
    /// The caller is not the owning authority.
    UnauthorizedAuthority,
    /// A variable-length envelope field exceeds its size bound.
    OversizedField,
    /// A signature failed cryptographic verification.
    InvalidSignature,
    /// A signer belongs to none of the supplied registries.
    UnauthorizedSigner,
    /// The digest is the reserved all-zero sentinel.
    InvalidDigest,
    /// The platform tier gathered fewer signatures than its threshold.
    InsufficientPlatformSignatures,
    /// The chain tier gathered fewer signatures than its threshold.
    InsufficientChainSignatures,
    /// The project tier gathered fewer signatures than its threshold.
    InsufficientProjectSignatures,
    /// The same signer identity appeared twice in one submission.
    DuplicateSigner,
    /// More signatures were submitted than allowed.
    TooManySignatures,
    /// Fewer signatures were submitted than required.
    TooFewSignatures,
    /// A registry was initialized with no signers.
    EmptySignerSet,
    /// A registry would hold more signers than allowed.
    TooManySigners,
    /// The signer to remove is not in the registry.
    SignerNotFound,
    /// A registry required for validation is disabled.
    RegistryDisabled,
    /// A threshold of zero, or above the signer count, was supplied.
    InvalidThreshold,
    /// A new threshold exceeds the current signer count.
    ThresholdTooHigh,
    /// Removing the signer would leave fewer signers than the threshold.
    ThresholdUnsatisfiable,
    /// A claim was already recorded for this key.
    AlreadyClaimed,
    /// No claim is recorded for this key.
    NoSuchClaim,
    /// A watermark counter uses a reserved chain id.
    InvalidChainId,
    /// A watermark counter for this chain already exists.
    CounterAlreadyExists,
}

} // verus!
