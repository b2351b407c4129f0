//! Tiered signer registries.
//!
//! One registry exists per (tier, chain) pair; the three tiers share one
//! structure. A registry holds a bounded set of signer identities and a
//! signature threshold, and must keep `1 <= required_signatures <=
//! signers.len()` across every mutation.

use vstd::prelude::*;

use crate::errors::GatewayError;
use crate::MAX_SIGNERS_PER_REGISTRY;

verus! {

/// Compares two 32-byte identities.
pub fn bytes32_eq(a: &[u8; 32], b: &[u8; 32]) -> (r: bool)
    ensures
        r == (a@ == b@),
{
    let mut i: usize = 0;
    while i < 32
        invariant
            i <= 32,
            forall|j: int| 0 <= j < i ==> a@[j] == b@[j],
        decreases 32 - i,
    {
        if a[i] != b[i] {
            proof {
                assert(a@[i as int] != b@[i as int]);
            }
            return false;
        }
        i += 1;
    }
    proof {
        assert(a@ =~= b@);
    }
    true
}

/// Whether `id` occurs among `signers`.
pub open spec fn is_signer_in(signers: Seq<[u8; 32]>, id: [u8; 32]) -> bool {
    exists|i: int| 0 <= i < signers.len() && signers[i]@ == id@
}

/// Finds the first occurrence of `id` in `signers`, if any.
fn find_signer_index(signers: &Vec<[u8; 32]>, id: &[u8; 32]) -> (r: Option<usize>)
    ensures
        match r {
            Some(i) => i < signers@.len() && signers@[i as int]@ == id@ && (forall|j: int|
                0 <= j < i ==> signers@[j]@ != id@),
            None => !is_signer_in(signers@, *id),
        },
{
    let mut i: usize = 0;
    while i < signers.len()
        invariant
            i <= signers@.len(),
            forall|j: int| 0 <= j < i ==> signers@[j]@ != id@,
        decreases signers@.len() - i,
    {
        if bytes32_eq(&signers[i], id) {
            proof {
                assert(signers@[i as int]@ == id@);
            }
            return Some(i);
        }
        i += 1;
    }
    None
}

/// Whether two registries agree on everything except the signer list
/// and the threshold.
pub open spec fn same_registry_config(a: SignerRegistry, b: SignerRegistry) -> bool {
    &&& a.registry_type == b.registry_type
    &&& a.authority == b.authority
    &&& a.chain_id == b.chain_id
    &&& a.enabled == b.enabled
}

/// The tier a registry belongs to.
#[derive(Clone, Copy, Debug, PartialEq, Eq, Structural)]
pub enum SignerRegistryType {
    /// Platform-level signers: the highest authority tier.
    Platform,
    /// Chain-specific validators.
    Chain,
    /// Application-specific signers.
    Project,
}

impl SignerRegistryType {
    /// The stable one-byte tag of this tier, used to key its storage.
    pub fn discriminant(&self) -> (r: u8)
        ensures
            self is Platform ==> r == 0,
            self is Chain ==> r == 1,
            self is Project ==> r == 2,
    {
        match self {
            SignerRegistryType::Platform => 0,
            SignerRegistryType::Chain => 1,
            SignerRegistryType::Project => 2,
        }
    }

    /// The tier a one-byte tag stands for, if any.
    pub fn from_discriminant(value: u8) -> (r: Option<SignerRegistryType>)
        ensures
            value == 0 ==> r == Some(SignerRegistryType::Platform),
            value == 1 ==> r == Some(SignerRegistryType::Chain),
            value == 2 ==> r == Some(SignerRegistryType::Project),
            value > 2 ==> r is None,
    {
        match value {
            0 => Some(SignerRegistryType::Platform),
            1 => Some(SignerRegistryType::Chain),
            2 => Some(SignerRegistryType::Project),
            _ => None,
        }
    }
}

/// The trust tier a signature is attributed to.
#[derive(Clone, Copy, Debug, PartialEq, Eq, Structural)]
pub enum SignerLayer {
    /// Platform tier.
    Platform,
    /// Chain tier.
    Chain,
    /// Project tier.
    Project,
}

impl SignerLayer {
    /// The registry tier that vouches for this layer.
    pub fn to_registry_type(&self) -> (r: SignerRegistryType)
        ensures
            self is Platform ==> r == SignerRegistryType::Platform,
            self is Chain ==> r == SignerRegistryType::Chain,
            self is Project ==> r == SignerRegistryType::Project,
    {
        match self {
            SignerLayer::Platform => SignerRegistryType::Platform,
            SignerLayer::Chain => SignerRegistryType::Chain,
            SignerLayer::Project => SignerRegistryType::Project,
        }
    }
}

/// A submitted signature: the raw 64-byte signature value and the
/// identity that claims to have produced it.
#[derive(Clone, Copy, Debug)]
pub struct MessageSignature {
    /// The 64-byte signature value.
    pub signature: [u8; 64],
    /// The claimed signer identity; its tier follows from registry
    /// membership alone.
    pub signer: [u8; 32],
}

/// Builds a [`MessageSignature`] from its parts.
pub fn create_message_signature(signature_bytes: [u8; 64], signer_pubkey: [u8; 32]) -> (r:
    MessageSignature)
    ensures
        r.signature == signature_bytes,
        r.signer == signer_pubkey,
{
    MessageSignature { signature: signature_bytes, signer: signer_pubkey }
}

/// A per-(tier, chain) set of authorized signer identities with its
/// signature threshold.
#[derive(Clone, Debug)]
pub struct SignerRegistry {
    /// The tier this registry vouches for.
    pub registry_type: SignerRegistryType,
    /// The identity allowed to mutate this registry.
    pub authority: [u8; 32],
    /// The authorized signer identities, in insertion order.
    pub signers: Vec<[u8; 32]>,
    /// How many of this registry's signers a valid submission needs.
    pub required_signatures: u8,
    /// The chain this registry is scoped to.
    pub chain_id: u64,
    /// Whether this registry currently vouches for anyone.
    pub enabled: bool,
}

/// Creates a registry after validating its signer set and threshold.
pub fn initialize_signer_registry(
    registry_type: SignerRegistryType,
    authority: [u8; 32],
    chain_id: u64,
    initial_signers: Vec<[u8; 32]>,
    required_signatures: u8,
) -> (r: Result<SignerRegistry, GatewayError>)
    ensures
        initial_signers@.len() == 0 ==> r == Err::<SignerRegistry, GatewayError>(
            GatewayError::EmptySignerSet,
        ),
        initial_signers@.len() > MAX_SIGNERS_PER_REGISTRY ==> r == Err::<
            SignerRegistry,
            GatewayError,
        >(GatewayError::TooManySigners),
        0 < initial_signers@.len() <= MAX_SIGNERS_PER_REGISTRY && (required_signatures == 0
            || required_signatures > initial_signers@.len()) ==> r == Err::<
            SignerRegistry,
            GatewayError,
        >(GatewayError::InvalidThreshold),
        0 < initial_signers@.len() <= MAX_SIGNERS_PER_REGISTRY && 0 < required_signatures
            <= initial_signers@.len() ==> (r matches Ok(reg) && reg.registry_type == registry_type
            && reg.authority == authority && reg.signers@ == initial_signers@
            && reg.required_signatures == required_signatures && reg.chain_id == chain_id
            && reg.enabled == true),
{
    if initial_signers.len() == 0 {
        return Err(GatewayError::EmptySignerSet);
    }
    if initial_signers.len() > MAX_SIGNERS_PER_REGISTRY {
        return Err(GatewayError::TooManySigners);
    }
    if required_signatures == 0 || required_signatures as usize > initial_signers.len() {
        return Err(GatewayError::InvalidThreshold);
    }
    Ok(
        SignerRegistry {
            registry_type,
            authority,
            signers: initial_signers,
            required_signatures,
            chain_id,
            enabled: true,
        },
    )
}

impl SignerRegistry {
    /// Bytes of storage a registry with room for `max_signers` needs:
    /// a tag, the authority, the signer list with its length, the
    /// threshold, the chain id, the enabled flag, and bookkeeping.
    pub fn space(max_signers: usize) -> (r: usize)
        requires
            max_signers <= MAX_SIGNERS_PER_REGISTRY,
        ensures
            r == 56 + 32 * max_signers,
    {
        8 + 1 + 32 + 4 + (32 * max_signers) + 1 + 8 + 1 + 1
    }

    /// Whether `signer` is currently vouched for: the registry must be
    /// enabled and list the identity.
    pub fn is_signer(&self, signer: &[u8; 32]) -> (r: bool)
        ensures
            r == (self.enabled && is_signer_in(self.signers@, *signer)),
    {
        if !self.enabled {
            return false;
        }
        match find_signer_index(&self.signers, signer) {
            Some(_) => true,
            None => false,
        }
    }

    /// Checks the standing threshold invariant `1 <=
    /// required_signatures <= signers.len()`.
    pub fn validate_threshold(&self) -> (r: Result<(), GatewayError>)
        ensures
            self.required_signatures == 0 ==> r == Err::<(), GatewayError>(
                GatewayError::InvalidThreshold,
            ),
            self.required_signatures > self.signers@.len() ==> r == Err::<(), GatewayError>(
                GatewayError::ThresholdTooHigh,
            ),
            0 < self.required_signatures <= self.signers@.len() ==> r matches Ok(_),
    {
        if self.required_signatures == 0 {
            return Err(GatewayError::InvalidThreshold);
        }
        if self.required_signatures as usize > self.signers.len() {
            return Err(GatewayError::ThresholdTooHigh);
        }
        Ok(())
    }

    /// Replaces the whole signer set and threshold, re-validating the
    /// registry invariant against the new values.
    pub fn update_signers(
        &mut self,
        authority: &[u8; 32],
        new_signers: Vec<[u8; 32]>,
        new_required_signatures: u8,
    ) -> (r: Result<(), GatewayError>)
        ensures
            old(self).authority@ != authority@ ==> r == Err::<(), GatewayError>(
                GatewayError::UnauthorizedAuthority,
            ),
            old(self).authority@ == authority@ && new_signers@.len() == 0 ==> r == Err::<
                (),
                GatewayError,
            >(GatewayError::EmptySignerSet),
            old(self).authority@ == authority@ && new_signers@.len() > MAX_SIGNERS_PER_REGISTRY
                ==> r == Err::<(), GatewayError>(GatewayError::TooManySigners),
            old(self).authority@ == authority@ && 0 < new_signers@.len()
                <= MAX_SIGNERS_PER_REGISTRY && (new_required_signatures == 0
                || new_required_signatures > new_signers@.len()) ==> r == Err::<(), GatewayError>(
                GatewayError::InvalidThreshold,
            ),
            r is Err ==> *final(self) == *old(self),
            old(self).authority@ == authority@ && 0 < new_signers@.len()
                <= MAX_SIGNERS_PER_REGISTRY && 0 < new_required_signatures <= new_signers@.len()
                ==> (r matches Ok(_) && final(self).signers@ == new_signers@
                && final(self).required_signatures == new_required_signatures
                && same_registry_config(*final(self), *old(self))),
    {
        if !bytes32_eq(&self.authority, authority) {
            return Err(GatewayError::UnauthorizedAuthority);
        }
        if new_signers.len() == 0 {
            return Err(GatewayError::EmptySignerSet);
        }
        if new_signers.len() > MAX_SIGNERS_PER_REGISTRY {
            return Err(GatewayError::TooManySigners);
        }
        if new_required_signatures == 0 || new_required_signatures as usize > new_signers.len() {
            return Err(GatewayError::InvalidThreshold);
        }
        self.signers = new_signers;
        self.required_signatures = new_required_signatures;
        Ok(())
    }

    /// Adds one signer, refusing duplicates and the size cap.
    pub fn add_signer(&mut self, authority: &[u8; 32], new_signer: [u8; 32]) -> (r: Result<
        (),
        GatewayError,
    >)
        ensures
            old(self).authority@ != authority@ ==> r == Err::<(), GatewayError>(
                GatewayError::UnauthorizedAuthority,
            ),
            old(self).authority@ == authority@ && is_signer_in(old(self).signers@, new_signer)
                ==> r == Err::<(), GatewayError>(GatewayError::DuplicateSigner),
            old(self).authority@ == authority@ && !is_signer_in(old(self).signers@, new_signer)
                && old(self).signers@.len() >= MAX_SIGNERS_PER_REGISTRY ==> r == Err::<
                (),
                GatewayError,
            >(GatewayError::TooManySigners),
            r is Err ==> *final(self) == *old(self),
            old(self).authority@ == authority@ && !is_signer_in(old(self).signers@, new_signer)
                && old(self).signers@.len() < MAX_SIGNERS_PER_REGISTRY ==> (r matches Ok(_)
                && final(self).signers@ == old(self).signers@.push(new_signer)
                && final(self).required_signatures == old(self).required_signatures
                && same_registry_config(*final(self), *old(self))),
    {
        if !bytes32_eq(&self.authority, authority) {
            return Err(GatewayError::UnauthorizedAuthority);
        }
        if find_signer_index(&self.signers, &new_signer).is_some() {
            return Err(GatewayError::DuplicateSigner);
        }
        if self.signers.len() >= MAX_SIGNERS_PER_REGISTRY {
            return Err(GatewayError::TooManySigners);
        }
        self.signers.push(new_signer);
        Ok(())
    }

    /// Removes the first occurrence of one signer, refusing the removal
    /// outright if it would leave fewer signers than the threshold.
    pub fn remove_signer(&mut self, authority: &[u8; 32], signer_to_remove: [u8; 32]) -> (r: Result<
        (),
        GatewayError,
    >)
        ensures
            old(self).authority@ != authority@ ==> r == Err::<(), GatewayError>(
                GatewayError::UnauthorizedAuthority,
            ),
            old(self).authority@ == authority@ && !is_signer_in(
                old(self).signers@,
                signer_to_remove,
            ) ==> r == Err::<(), GatewayError>(GatewayError::SignerNotFound),
            old(self).authority@ == authority@ && is_signer_in(old(self).signers@, signer_to_remove)
                && old(self).required_signatures > old(self).signers@.len() - 1 ==> r == Err::<
                (),
                GatewayError,
            >(GatewayError::ThresholdUnsatisfiable),
            r is Err ==> *final(self) == *old(self),
            old(self).authority@ == authority@ && is_signer_in(old(self).signers@, signer_to_remove)
                && old(self).required_signatures <= old(self).signers@.len() - 1 ==> (r matches Ok(
                _,
            ) && (exists|i: int|
                0 <= i < old(self).signers@.len() && old(self).signers@[i]@ == signer_to_remove@
                    && (forall|j: int| 0 <= j < i ==> old(self).signers@[j]@ != signer_to_remove@)
                    && final(self).signers@ == old(self).signers@.remove(i))
                && final(self).required_signatures == old(self).required_signatures
                && same_registry_config(*final(self), *old(self))),
    {
        if !bytes32_eq(&self.authority, authority) {
            return Err(GatewayError::UnauthorizedAuthority);
        }
        let idx = match find_signer_index(&self.signers, &signer_to_remove) {
            Some(idx) => idx,
            None => {
                return Err(GatewayError::SignerNotFound);
            },
        };
        if self.required_signatures as usize > self.signers.len() - 1 {
            return Err(GatewayError::ThresholdUnsatisfiable);
        }
        self.signers.remove(idx);
        proof {
            assert(0 <= idx < old(self).signers@.len() && old(self).signers@[idx as int]@
                == signer_to_remove@ && (forall|j: int|
                0 <= j < idx ==> old(self).signers@[j]@ != signer_to_remove@) && self.signers@
                == old(self).signers@.remove(idx as int));
        }
        Ok(())
    }

    /// Sets a new threshold, which must stay within the signer count.
    pub fn update_threshold(&mut self, authority: &[u8; 32], new_threshold: u8) -> (r: Result<
        (),
        GatewayError,
    >)
        ensures
            old(self).authority@ != authority@ ==> r == Err::<(), GatewayError>(
                GatewayError::UnauthorizedAuthority,
            ),
            old(self).authority@ == authority@ && new_threshold == 0 ==> r == Err::<
                (),
                GatewayError,
            >(GatewayError::InvalidThreshold),
            old(self).authority@ == authority@ && new_threshold > old(self).signers@.len() ==> r
                == Err::<(), GatewayError>(GatewayError::ThresholdTooHigh),
            r is Err ==> *final(self) == *old(self),
            old(self).authority@ == authority@ && 0 < new_threshold <= old(self).signers@.len()
                ==> (r matches Ok(_) && *final(self) == SignerRegistry {
                required_signatures: new_threshold,
                ..*old(self)
            }),
    {
        if !bytes32_eq(&self.authority, authority) {
            return Err(GatewayError::UnauthorizedAuthority);
        }
        if new_threshold == 0 {
            return Err(GatewayError::InvalidThreshold);
        }
        if new_threshold as usize > self.signers.len() {
            return Err(GatewayError::ThresholdTooHigh);
        }
        self.required_signatures = new_threshold;
        Ok(())
    }

    /// Enables or disables this registry. A disabled registry vouches
    /// for nobody and fails validation wherever it is required.
    pub fn set_registry_enabled(&mut self, authority: &[u8; 32], enabled: bool) -> (r: Result<
        (),
        GatewayError,
    >)
        ensures
            old(self).authority@ != authority@ ==> r == Err::<(), GatewayError>(
                GatewayError::UnauthorizedAuthority,
            ) && *final(self) == *old(self),
            old(self).authority@ == authority@ ==> (r matches Ok(_) && *final(self)
                == SignerRegistry { enabled, ..*old(self) }),
    {
        if !bytes32_eq(&self.authority, authority) {
            return Err(GatewayError::UnauthorizedAuthority);
        }
        self.enabled = enabled;
        Ok(())
    }
}

/// Per-tier tally of a validation pass.
#[derive(Clone, Copy, Debug, PartialEq, Eq, Structural)]
pub struct ValidationResult {
    /// Signatures whose signer the platform registry vouched for.
    pub platform_signatures: u8,
    /// Signatures whose signer the chain registry vouched for.
    pub chain_signatures: u8,
    /// Signatures whose signer the project registry vouched for.
    pub project_signatures: u8,
    /// Signatures whose signer at least one registry vouched for.
    pub total_valid: u8,
}

impl ValidationResult {
    /// An empty tally.
    pub fn new() -> (r: ValidationResult)
        ensures
            r == (ValidationResult {
                platform_signatures: 0,
                chain_signatures: 0,
                project_signatures: 0,
                total_valid: 0,
            }),
    {
        ValidationResult {
            platform_signatures: 0,
            chain_signatures: 0,
            project_signatures: 0,
            total_valid: 0,
        }
    }

    /// Tallies one signer by the tiers that vouch for it; membership is
    /// non-exclusive, so several counters may move at once.
    pub fn increment_for_signer(&mut self, is_platform: bool, is_chain: bool, is_project: bool)
        requires
            is_platform ==> old(self).platform_signatures < 255,
            is_chain ==> old(self).chain_signatures < 255,
            is_project ==> old(self).project_signatures < 255,
            (is_platform || is_chain || is_project) ==> old(self).total_valid < 255,
        ensures
            final(self).platform_signatures == old(self).platform_signatures + (
            if is_platform {
                1int
            } else {
                0int
            }),
            final(self).chain_signatures == old(self).chain_signatures + (
            if is_chain {
                1int
            } else {
                0int
            }),
            final(self).project_signatures == old(self).project_signatures + (
            if is_project {
                1int
            } else {
                0int
            }),
            final(self).total_valid == old(self).total_valid + (
            if is_platform || is_chain || is_project {
                1int
            } else {
                0int
            }),
    {
        if is_platform {
            self.platform_signatures += 1;
        }
        if is_chain {
            self.chain_signatures += 1;
        }
        if is_project {
            self.project_signatures += 1;
        }
        if is_platform || is_chain || is_project {
            self.total_valid += 1;
        }
    }
}

} // verus!
