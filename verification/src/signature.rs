//! Signature verification and tiered authorization.
//!
//! A signature is deemed cryptographically valid when the surrounding
//! transaction carries, ahead of the current instruction, a successful
//! invocation of the host's ed25519 verifier program over exactly this
//! (signature, signer, digest) triple; the host has already executed
//! that instruction, so its presence proves the signature. The engine
//! here checks that presence, deduplicates signers, classifies each
//! signer against up to three registries, and enforces each tier's
//! threshold.

use vstd::prelude::*;

use crate::errors::GatewayError;
use crate::hash::spec_is_zero_digest;
use crate::hash::validate_message_hash;
use crate::registry::bytes32_eq;
use crate::registry::is_signer_in;
use crate::registry::MessageSignature;
use crate::registry::SignerRegistry;
use crate::registry::ValidationResult;
use crate::MAX_SIGNATURES_PER_MESSAGE;
use crate::MIN_SIGNATURES_REQUIRED;

verus! {

/// The well-known 32-byte identity of the host's ed25519 verifier
/// program.
pub open spec fn spec_ed25519_program_id() -> Seq<u8> {
    seq![
        3u8,
        125u8,
        70u8,
        214u8,
        124u8,
        147u8,
        251u8,
        190u8,
        18u8,
        249u8,
        66u8,
        143u8,
        131u8,
        141u8,
        64u8,
        255u8,
        5u8,
        112u8,
        116u8,
        73u8,
        39u8,
        244u8,
        138u8,
        100u8,
        252u8,
        202u8,
        112u8,
        68u8,
        128u8,
        0u8,
        0u8,
        0u8,
    ]
}

/// One instruction of the surrounding transaction, as the host reports
/// it: the program it invokes and its raw data.
#[derive(Debug)]
pub struct InstructionRecord {
    /// The invoked program's 32-byte identity.
    pub program_id: [u8; 32],
    /// The instruction's raw data bytes.
    pub data: Vec<u8>,
}

/// Whether one ed25519-verifier instruction's data attests exactly this
/// (signature, signer, message) triple. The verifier's single-signature
/// layout places the 64-byte signature at offset 16, the 32-byte public
/// key at offset 80 and the 32-byte message at offset 112.
pub open spec fn spec_ix_data_matches(
    data: Seq<u8>,
    sig: Seq<u8>,
    signer: Seq<u8>,
    msg: Seq<u8>,
) -> bool {
    &&& data.len() == 144
    &&& data.subrange(16, 80) == sig
    &&& data.subrange(80, 112) == signer
    &&& data.subrange(112, 144) == msg
}

/// Whether `ix` is an ed25519-verifier instruction attesting this
/// triple.
pub open spec fn spec_ix_matches(
    ix: InstructionRecord,
    sig: Seq<u8>,
    signer: Seq<u8>,
    msg: Seq<u8>,
) -> bool {
    &&& ix.program_id@ == spec_ed25519_program_id()
    &&& spec_ix_data_matches(ix.data@, sig, signer, msg)
}

/// Whether some instruction of the transaction attests this triple.
pub open spec fn spec_signature_verified(
    ctx: Seq<InstructionRecord>,
    sig: Seq<u8>,
    signer: Seq<u8>,
    msg: Seq<u8>,
) -> bool {
    exists|i: int| 0 <= i < ctx.len() && spec_ix_matches(ctx[i], sig, signer, msg)
}

/// Compares `pat` against the bytes of `data` starting at `start`.
fn range_matches(data: &Vec<u8>, start: usize, pat: &[u8]) -> (r: bool)
    requires
        start + pat@.len() <= data@.len(),
    ensures
        r == (data@.subrange(start as int, start + pat@.len()) == pat@),
{
    let data_len: usize = data.len();
    let mut k: usize = 0;
    while k < pat.len()
        invariant
            k <= pat@.len(),
            start + pat@.len() <= data@.len(),
            data@.len() == data_len,
            forall|j: int| 0 <= j < k ==> data@[start + j] == pat@[j],
        decreases pat@.len() - k,
    {
        if data[start + k] != pat[k] {
            proof {
                assert(data@.subrange(start as int, start + pat@.len())[k as int] != pat@[
                k as int]);
            }
            return false;
        }
        k += 1;
    }
    proof {
        assert(data@.subrange(start as int, start + pat@.len()) =~= pat@);
    }
    true
}

/// The ed25519 verifier program's identity, as concrete bytes.
pub fn ed25519_program_id() -> (r: [u8; 32])
    ensures
        r@ == spec_ed25519_program_id(),
{
    let expected: [u8; 32] = [
        3u8,
        125u8,
        70u8,
        214u8,
        124u8,
        147u8,
        251u8,
        190u8,
        18u8,
        249u8,
        66u8,
        143u8,
        131u8,
        141u8,
        64u8,
        255u8,
        5u8,
        112u8,
        116u8,
        73u8,
        39u8,
        244u8,
        138u8,
        100u8,
        252u8,
        202u8,
        112u8,
        68u8,
        128u8,
        0u8,
        0u8,
        0u8,
    ];
    proof {
        assert(expected@ =~= spec_ed25519_program_id());
    }
    expected
}

/// Whether `id` is the ed25519 verifier program's identity.
fn is_ed25519_program(id: &[u8; 32]) -> (r: bool)
    ensures
        r == (id@ == spec_ed25519_program_id()),
{
    let expected = ed25519_program_id();
    bytes32_eq(id, &expected)
}

/// Decides whether one instruction's data attests the expected triple,
/// assuming the caller already picked an ed25519-verifier instruction.
pub fn parse_ed25519_instruction(
    ix: &InstructionRecord,
    expected_signature: &[u8; 64],
    expected_signer: &[u8; 32],
    expected_message: &[u8; 32],
) -> (r: Option<bool>)
    ensures
        r == Some(
            spec_ix_data_matches(ix.data@, expected_signature@, expected_signer@, expected_message@),
        ),
{
    if ix.data.len() != 144 {
        return Some(false);
    }
    let signature_ok = range_matches(&ix.data, 16, expected_signature.as_slice());
    let signer_ok = range_matches(&ix.data, 80, expected_signer.as_slice());
    let message_ok = range_matches(&ix.data, 112, expected_message.as_slice());
    Some(signature_ok && signer_ok && message_ok)
}

/// Decides whether the transaction attests this (signature, signer,
/// digest) triple through an ed25519-verifier instruction; the digest
/// must not be the zero sentinel.
pub fn verify_ed25519_signature(
    signature: &[u8; 64],
    signer: &[u8; 32],
    message_hash: &[u8; 32],
    instruction_context: &Vec<InstructionRecord>,
) -> (r: Result<bool, GatewayError>)
    ensures
        spec_is_zero_digest(message_hash@) ==> r == Err::<bool, GatewayError>(
            GatewayError::InvalidDigest,
        ),
        !spec_is_zero_digest(message_hash@) ==> r == Ok::<bool, GatewayError>(
            spec_signature_verified(instruction_context@, signature@, signer@, message_hash@),
        ),
{
    match validate_message_hash(message_hash) {
        Ok(_) => {},
        Err(e) => {
            return Err(e);
        },
    }
    let mut i: usize = 0;
    while i < instruction_context.len()
        invariant
            i <= instruction_context@.len(),
            forall|j: int|
                0 <= j < i ==> !spec_ix_matches(
                    instruction_context@[j],
                    signature@,
                    signer@,
                    message_hash@,
                ),
            !spec_is_zero_digest(message_hash@),
        decreases instruction_context@.len() - i,
    {
        let ix = &instruction_context[i];
        if is_ed25519_program(&ix.program_id) {
            match parse_ed25519_instruction(ix, signature, signer, message_hash) {
                Some(true) => {
                    proof {
                        assert(spec_ix_matches(
                            instruction_context@[i as int],
                            signature@,
                            signer@,
                            message_hash@,
                        ));
                    }
                    return Ok(true);
                },
                _ => {},
            }
        }
        i += 1;
    }
    Ok(false)
}

/// Whether `reg` currently vouches for `id`.
pub open spec fn spec_member(reg: SignerRegistry, id: [u8; 32]) -> bool {
    reg.enabled && is_signer_in(reg.signers@, id)
}

/// Whether the optional project registry vouches for `id`.
pub open spec fn spec_project_member(pr: Option<&SignerRegistry>, id: [u8; 32]) -> bool {
    match pr {
        Some(reg) => spec_member(*reg, id),
        None => false,
    }
}

/// Whether any supplied registry vouches for `id`.
pub open spec fn spec_member_any(
    p: SignerRegistry,
    c: SignerRegistry,
    pr: Option<&SignerRegistry>,
    id: [u8; 32],
) -> bool {
    spec_member(p, id) || spec_member(c, id) || spec_project_member(pr, id)
}

/// Whether the optional project registry, if supplied, is enabled.
pub open spec fn spec_project_enabled(pr: Option<&SignerRegistry>) -> bool {
    match pr {
        Some(reg) => reg.enabled,
        None => true,
    }
}

/// How many of `sigs` carry a signer that `reg` vouches for.
pub open spec fn spec_member_count(sigs: Seq<MessageSignature>, reg: SignerRegistry) -> nat
    decreases sigs.len(),
{
    if sigs.len() == 0 {
        0
    } else {
        spec_member_count(sigs.drop_last(), reg) + if spec_member(reg, sigs.last().signer) {
            1nat
        } else {
            0nat
        }
    }
}

/// How many of `sigs` carry a signer the optional project registry
/// vouches for; zero when none is supplied.
pub open spec fn spec_project_count(sigs: Seq<MessageSignature>, pr: Option<&SignerRegistry>) -> nat {
    match pr {
        Some(reg) => spec_member_count(sigs, *reg),
        None => 0,
    }
}

/// Whether the signer of `sigs[i]` already appeared earlier in the
/// batch.
pub open spec fn spec_dup_at(sigs: Seq<MessageSignature>, i: int) -> bool {
    exists|j: int| 0 <= j < i && sigs[j].signer@ == sigs[i].signer@
}

/// The error, if any, on which the per-signature pass aborts when
/// started at index `i`: at each index a repeated signer, then a
/// cryptographically invalid signature, then a signer no registry
/// vouches for, each abort the whole batch.
pub open spec fn spec_batch_error(
    sigs: Seq<MessageSignature>,
    ctx: Seq<InstructionRecord>,
    msg: Seq<u8>,
    p: SignerRegistry,
    c: SignerRegistry,
    pr: Option<&SignerRegistry>,
    i: int,
) -> Option<GatewayError>
    decreases sigs.len() - i,
{
    if i < 0 || i >= sigs.len() {
        None
    } else if spec_dup_at(sigs, i) {
        Some(GatewayError::DuplicateSigner)
    } else if !spec_signature_verified(ctx, sigs[i].signature@, sigs[i].signer@, msg) {
        Some(GatewayError::InvalidSignature)
    } else if !spec_member_any(p, c, pr, sigs[i].signer) {
        Some(GatewayError::UnauthorizedSigner)
    } else {
        spec_batch_error(sigs, ctx, msg, p, c, pr, i + 1)
    }
}

/// The error, if any, of the checks that precede the per-signature
/// pass: batch size bounds, the zero-digest sentinel, and the enabled
/// flag of every supplied registry.
pub open spec fn spec_precheck_error(
    sigs: Seq<MessageSignature>,
    msg: Seq<u8>,
    p: SignerRegistry,
    c: SignerRegistry,
    pr: Option<&SignerRegistry>,
) -> Option<GatewayError> {
    if sigs.len() < MIN_SIGNATURES_REQUIRED {
        Some(GatewayError::TooFewSignatures)
    } else if sigs.len() > MAX_SIGNATURES_PER_MESSAGE {
        Some(GatewayError::TooManySignatures)
    } else if spec_is_zero_digest(msg) {
        Some(GatewayError::InvalidDigest)
    } else if !p.enabled || !c.enabled || !spec_project_enabled(pr) {
        Some(GatewayError::RegistryDisabled)
    } else {
        None
    }
}

/// The error, if any, of the final per-tier threshold comparison.
pub open spec fn spec_threshold_error(
    sigs: Seq<MessageSignature>,
    p: SignerRegistry,
    c: SignerRegistry,
    pr: Option<&SignerRegistry>,
) -> Option<GatewayError> {
    if spec_member_count(sigs, p) < p.required_signatures {
        Some(GatewayError::InsufficientPlatformSignatures)
    } else if spec_member_count(sigs, c) < c.required_signatures {
        Some(GatewayError::InsufficientChainSignatures)
    } else if (match pr {
        Some(reg) => spec_member_count(sigs, *reg) < reg.required_signatures,
        None => false,
    }) {
        Some(GatewayError::InsufficientProjectSignatures)
    } else {
        None
    }
}

/// The error, if any, of a full three-tier authorization pass.
pub open spec fn spec_validate_error(
    sigs: Seq<MessageSignature>,
    msg: Seq<u8>,
    p: SignerRegistry,
    c: SignerRegistry,
    pr: Option<&SignerRegistry>,
    ctx: Seq<InstructionRecord>,
) -> Option<GatewayError> {
    match spec_precheck_error(sigs, msg, p, c, pr) {
        Some(e) => Some(e),
        None => match spec_batch_error(sigs, ctx, msg, p, c, pr, 0) {
            Some(e) => Some(e),
            None => spec_threshold_error(sigs, p, c, pr),
        },
    }
}

/// The tally a successful three-tier authorization pass reports.
pub open spec fn spec_validation_counts(
    sigs: Seq<MessageSignature>,
    p: SignerRegistry,
    c: SignerRegistry,
    pr: Option<&SignerRegistry>,
) -> ValidationResult {
    ValidationResult {
        platform_signatures: spec_member_count(sigs, p) as u8,
        chain_signatures: spec_member_count(sigs, c) as u8,
        project_signatures: spec_project_count(sigs, pr) as u8,
        total_valid: sigs.len() as u8,
    }
}

/// No registry can vouch for more signatures than the batch holds.
pub proof fn lemma_member_count_le(sigs: Seq<MessageSignature>, reg: SignerRegistry)
    ensures
        spec_member_count(sigs, reg) <= sigs.len(),
    decreases sigs.len(),
{
    if sigs.len() > 0 {
        lemma_member_count_le(sigs.drop_last(), reg);
    }
}

/// Compares an accumulated tally against every required tier's
/// threshold.
pub fn validate_signature_thresholds(
    validation_result: &ValidationResult,
    platform_registry: &SignerRegistry,
    chain_registry: &SignerRegistry,
    project_registry: Option<&SignerRegistry>,
) -> (r: Result<(), GatewayError>)
    ensures
        validation_result.platform_signatures < platform_registry.required_signatures ==> r
            == Err::<(), GatewayError>(GatewayError::InsufficientPlatformSignatures),
        validation_result.platform_signatures >= platform_registry.required_signatures
            && validation_result.chain_signatures < chain_registry.required_signatures ==> r
            == Err::<(), GatewayError>(GatewayError::InsufficientChainSignatures),
        validation_result.platform_signatures >= platform_registry.required_signatures
            && validation_result.chain_signatures >= chain_registry.required_signatures && (
        match project_registry {
            Some(reg) => validation_result.project_signatures < reg.required_signatures,
            None => false,
        }) ==> r == Err::<(), GatewayError>(GatewayError::InsufficientProjectSignatures),
        validation_result.platform_signatures >= platform_registry.required_signatures
            && validation_result.chain_signatures >= chain_registry.required_signatures && (
        match project_registry {
            Some(reg) => validation_result.project_signatures >= reg.required_signatures,
            None => true,
        }) ==> r matches Ok(_),
{
    if validation_result.platform_signatures < platform_registry.required_signatures {
        return Err(GatewayError::InsufficientPlatformSignatures);
    }
    if validation_result.chain_signatures < chain_registry.required_signatures {
        return Err(GatewayError::InsufficientChainSignatures);
    }
    match project_registry {
        Some(reg) => {
            if validation_result.project_signatures < reg.required_signatures {
                return Err(GatewayError::InsufficientProjectSignatures);
            }
        },
        None => {},
    }
    Ok(())
}

/// Runs the full three-tier authorization: size and digest checks,
/// registry-enabled checks, per-signature deduplication, cryptographic
/// verification and classification, then per-tier thresholds. One bad
/// signature aborts the whole batch; a signer may count toward several
/// tiers at once.
#[verifier::loop_isolation(false)]
pub fn validate_three_layer_signatures(
    signatures: &Vec<MessageSignature>,
    message_hash: &[u8; 32],
    platform_registry: &SignerRegistry,
    chain_registry: &SignerRegistry,
    project_registry: Option<&SignerRegistry>,
    instruction_context: &Vec<InstructionRecord>,
) -> (r: Result<ValidationResult, GatewayError>)
    ensures
        match spec_validate_error(
            signatures@,
            message_hash@,
            *platform_registry,
            *chain_registry,
            project_registry,
            instruction_context@,
        ) {
            Some(e) => r == Err::<ValidationResult, GatewayError>(e),
            None => r == Ok::<ValidationResult, GatewayError>(
                spec_validation_counts(
                    signatures@,
                    *platform_registry,
                    *chain_registry,
                    project_registry,
                ),
            ),
        },
{
    if signatures.len() < MIN_SIGNATURES_REQUIRED {
        return Err(GatewayError::TooFewSignatures);
    }
    if signatures.len() > MAX_SIGNATURES_PER_MESSAGE {
        return Err(GatewayError::TooManySignatures);
    }
    match validate_message_hash(message_hash) {
        Ok(_) => {},
        Err(e) => {
            return Err(e);
        },
    }
    if !platform_registry.enabled {
        return Err(GatewayError::RegistryDisabled);
    }
    if !chain_registry.enabled {
        return Err(GatewayError::RegistryDisabled);
    }
    match project_registry {
        Some(reg) => {
            if !reg.enabled {
                return Err(GatewayError::RegistryDisabled);
            }
        },
        None => {},
    }

    let ghost p = *platform_registry;
    let ghost c = *chain_registry;
    let mut validation_result = ValidationResult::new();
    let mut i: usize = 0;
    while i < signatures.len()
        invariant
            i <= signatures@.len(),
            MIN_SIGNATURES_REQUIRED <= signatures@.len() <= MAX_SIGNATURES_PER_MESSAGE,
            p == *platform_registry,
            c == *chain_registry,
            p.enabled,
            c.enabled,
            spec_project_enabled(project_registry),
            !spec_is_zero_digest(message_hash@),
            spec_batch_error(
                signatures@,
                instruction_context@,
                message_hash@,
                p,
                c,
                project_registry,
                0,
            ) == spec_batch_error(
                signatures@,
                instruction_context@,
                message_hash@,
                p,
                c,
                project_registry,
                i as int,
            ),
            validation_result.platform_signatures == spec_member_count(
                signatures@.subrange(0, i as int),
                p,
            ),
            validation_result.chain_signatures == spec_member_count(
                signatures@.subrange(0, i as int),
                c,
            ),
            validation_result.project_signatures == spec_project_count(
                signatures@.subrange(0, i as int),
                project_registry,
            ),
            validation_result.total_valid == i,
        decreases signatures@.len() - i,
    {
        let ghost prefix = signatures@.subrange(0, i as int);
        proof {
            lemma_member_count_le(prefix, p);
            lemma_member_count_le(prefix, c);
            match project_registry {
                Some(reg) => lemma_member_count_le(prefix, *reg),
                None => (),
            }
        }
        let mut j: usize = 0;
        while j < i
            invariant
                j <= i,
                i < signatures@.len(),
                forall|k: int| 0 <= k < j ==> signatures@[k].signer@ != signatures@[i as int].signer@,
            decreases i - j,
        {
            if bytes32_eq(&signatures[j].signer, &signatures[i].signer) {
                proof {
                    assert(signatures@[j as int].signer@ == signatures@[i as int].signer@);
                    assert(spec_dup_at(signatures@, i as int));
                }
                return Err(GatewayError::DuplicateSigner);
            }
            j += 1;
        }
        proof {
            assert(!spec_dup_at(signatures@, i as int));
        }
        let signature = &signatures[i];

        let is_valid_signature = match verify_ed25519_signature(
            &signature.signature,
            &signature.signer,
            message_hash,
            instruction_context,
        ) {
            Ok(b) => b,
            Err(e) => {
                return Err(e);
            },
        };
        if !is_valid_signature {
            return Err(GatewayError::InvalidSignature);
        }

        let is_platform_signer = platform_registry.is_signer(&signature.signer);
        let is_chain_signer = chain_registry.is_signer(&signature.signer);
        let is_project_signer = match project_registry {
            Some(reg) => reg.is_signer(&signature.signer),
            None => false,
        };

        if !is_platform_signer && !is_chain_signer && !is_project_signer {
            return Err(GatewayError::UnauthorizedSigner);
        }

        validation_result.increment_for_signer(
            is_platform_signer,
            is_chain_signer,
            is_project_signer,
        );
        proof {
            assert(signatures@.subrange(0, i + 1).drop_last() =~= prefix);
            assert(signatures@.subrange(0, i + 1).last() == signatures@[i as int]);
        }
        i += 1;
    }
    proof {
        assert(signatures@.subrange(0, signatures@.len() as int) =~= signatures@);
        lemma_member_count_le(signatures@, p);
        lemma_member_count_le(signatures@, c);
        match project_registry {
            Some(reg) => lemma_member_count_le(signatures@, *reg),
            None => (),
        }
    }

    match validate_signature_thresholds(
        &validation_result,
        platform_registry,
        chain_registry,
        project_registry,
    ) {
        Ok(_) => {},
        Err(e) => {
            return Err(e);
        },
    }

    Ok(validation_result)
}

/// Whether at least one signature of the batch is attested by the
/// transaction.
pub open spec fn spec_any_signature_verified(
    sigs: Seq<MessageSignature>,
    ctx: Seq<InstructionRecord>,
    msg: Seq<u8>,
) -> bool {
    exists|i: int|
        0 <= i < sigs.len() && spec_signature_verified(ctx, sigs[i].signature@, sigs[i].signer@, msg)
}

/// The error, if any, of the lighter claim-phase check: size bounds,
/// the zero-digest sentinel, then at least one attested signature. No
/// registry is consulted and no threshold applies; full authorization
/// happens only at consumption.
pub open spec fn spec_claim_auth_error(
    sigs: Seq<MessageSignature>,
    msg: Seq<u8>,
    ctx: Seq<InstructionRecord>,
) -> Option<GatewayError> {
    if sigs.len() == 0 || sigs.len() > MAX_SIGNATURES_PER_MESSAGE {
        Some(GatewayError::TooManySignatures)
    } else if spec_is_zero_digest(msg) {
        Some(GatewayError::InvalidDigest)
    } else if !spec_any_signature_verified(sigs, ctx, msg) {
        Some(GatewayError::InvalidSignature)
    } else {
        None
    }
}

/// The claim-phase check: accepts any non-empty batch within the size
/// cap in which at least one signature is attested by the transaction.
pub fn validate_signatures_tx1(
    signatures: &Vec<MessageSignature>,
    message_hash: &[u8; 32],
    instruction_context: &Vec<InstructionRecord>,
) -> (r: Result<(), GatewayError>)
    ensures
        match spec_claim_auth_error(signatures@, message_hash@, instruction_context@) {
            Some(e) => r == Err::<(), GatewayError>(e),
            None => r matches Ok(_),
        },
{
    if signatures.len() == 0 || signatures.len() > MAX_SIGNATURES_PER_MESSAGE {
        return Err(GatewayError::TooManySignatures);
    }
    match validate_message_hash(message_hash) {
        Ok(_) => {},
        Err(e) => {
            return Err(e);
        },
    }
    let mut i: usize = 0;
    while i < signatures.len()
        invariant
            i <= signatures@.len(),
            0 < signatures@.len() <= MAX_SIGNATURES_PER_MESSAGE,
            !spec_is_zero_digest(message_hash@),
            forall|k: int|
                0 <= k < i ==> !spec_signature_verified(
                    instruction_context@,
                    signatures@[k].signature@,
                    signatures@[k].signer@,
                    message_hash@,
                ),
        decreases signatures@.len() - i,
    {
        let signature = &signatures[i];
        let found = match verify_ed25519_signature(
            &signature.signature,
            &signature.signer,
            message_hash,
            instruction_context,
        ) {
            Ok(b) => b,
            Err(e) => {
                return Err(e);
            },
        };
        if found {
            proof {
                assert(spec_signature_verified(
                    instruction_context@,
                    signatures@[i as int].signature@,
                    signatures@[i as int].signer@,
                    message_hash@,
                ));
            }
            return Ok(());
        }
        i += 1;
    }
    Err(GatewayError::InvalidSignature)
}

/// If every signature of the batch is attested and every signer is
/// vouched for, the per-signature pass started at `k` aborts with
/// `DuplicateSigner` exactly when some signer at or past `k` repeats
/// an earlier one.
proof fn lemma_batch_error_on_duplicate(
    sigs: Seq<MessageSignature>,
    ctx: Seq<InstructionRecord>,
    msg: Seq<u8>,
    p: SignerRegistry,
    c: SignerRegistry,
    pr: Option<&SignerRegistry>,
    k: int,
)
    requires
        0 <= k <= sigs.len(),
        forall|i: int|
            0 <= i < sigs.len() ==> spec_signature_verified(
                ctx,
                sigs[i].signature@,
                sigs[i].signer@,
                msg,
            ),
        forall|i: int| 0 <= i < sigs.len() ==> spec_member_any(p, c, pr, sigs[i].signer),
        exists|j: int| k <= j < sigs.len() && spec_dup_at(sigs, j),
    ensures
        spec_batch_error(sigs, ctx, msg, p, c, pr, k) == Some(GatewayError::DuplicateSigner),
    decreases sigs.len() - k,
{
    if !spec_dup_at(sigs, k) {
        let j = choose|j: int| k <= j < sigs.len() && spec_dup_at(sigs, j);
        assert(j != k);
        assert(k + 1 <= j < sigs.len() && spec_dup_at(sigs, j));
        lemma_batch_error_on_duplicate(sigs, ctx, msg, p, c, pr, k + 1);
    }
}

/// Law: a repeated signer always aborts the full authorization with
/// `DuplicateSigner`, even when the signer belongs to several tiers
/// and every signature is cryptographically valid.
pub proof fn lemma_duplicate_signer_rejected(
    sigs: Seq<MessageSignature>,
    msg: Seq<u8>,
    p: SignerRegistry,
    c: SignerRegistry,
    pr: Option<&SignerRegistry>,
    ctx: Seq<InstructionRecord>,
)
    requires
        spec_precheck_error(sigs, msg, p, c, pr) is None,
        forall|i: int|
            0 <= i < sigs.len() ==> spec_signature_verified(
                ctx,
                sigs[i].signature@,
                sigs[i].signer@,
                msg,
            ),
        forall|i: int| 0 <= i < sigs.len() ==> spec_member_any(p, c, pr, sigs[i].signer),
        exists|i: int, j: int| 0 <= i < j < sigs.len() && sigs[i].signer@ == sigs[j].signer@,
    ensures
        spec_validate_error(sigs, msg, p, c, pr, ctx) == Some(GatewayError::DuplicateSigner),
{
    let (i, j) = choose|i: int, j: int|
        0 <= i < j < sigs.len() && sigs[i].signer@ == sigs[j].signer@;
    assert(spec_dup_at(sigs, j));
    lemma_batch_error_on_duplicate(sigs, ctx, msg, p, c, pr, 0);
}

/// If no signer repeats, every signature is attested, and every signer
/// before `k` is vouched for, the pass started at `k` aborts with
/// `UnauthorizedSigner` exactly when some signer at or past `k` is
/// vouched for by no registry.
proof fn lemma_batch_error_on_unauthorized(
    sigs: Seq<MessageSignature>,
    ctx: Seq<InstructionRecord>,
    msg: Seq<u8>,
    p: SignerRegistry,
    c: SignerRegistry,
    pr: Option<&SignerRegistry>,
    k: int,
)
    requires
        0 <= k <= sigs.len(),
        forall|i: int, j: int|
            0 <= i < j < sigs.len() ==> sigs[i].signer@ != sigs[j].signer@,
        forall|i: int|
            0 <= i < sigs.len() ==> spec_signature_verified(
                ctx,
                sigs[i].signature@,
                sigs[i].signer@,
                msg,
            ),
        exists|i: int| k <= i < sigs.len() && !spec_member_any(p, c, pr, sigs[i].signer),
    ensures
        spec_batch_error(sigs, ctx, msg, p, c, pr, k) == Some(GatewayError::UnauthorizedSigner),
    decreases sigs.len() - k,
{
    assert(!spec_dup_at(sigs, k));
    if spec_member_any(p, c, pr, sigs[k].signer) {
        let i = choose|i: int| k <= i < sigs.len() && !spec_member_any(p, c, pr, sigs[i].signer);
        assert(i != k);
        assert(k + 1 <= i < sigs.len() && !spec_member_any(p, c, pr, sigs[i].signer));
        lemma_batch_error_on_unauthorized(sigs, ctx, msg, p, c, pr, k + 1);
    }
}

/// Law: a signer that no supplied registry vouches for always aborts
/// the full authorization with `UnauthorizedSigner`, even when its
/// signature is cryptographically valid.
pub proof fn lemma_unauthorized_signer_rejected(
    sigs: Seq<MessageSignature>,
    msg: Seq<u8>,
    p: SignerRegistry,
    c: SignerRegistry,
    pr: Option<&SignerRegistry>,
    ctx: Seq<InstructionRecord>,
)
    requires
        spec_precheck_error(sigs, msg, p, c, pr) is None,
        forall|i: int, j: int|
            0 <= i < j < sigs.len() ==> sigs[i].signer@ != sigs[j].signer@,
        forall|i: int|
            0 <= i < sigs.len() ==> spec_signature_verified(
                ctx,
                sigs[i].signature@,
                sigs[i].signer@,
                msg,
            ),
        exists|i: int| 0 <= i < sigs.len() && !spec_member_any(p, c, pr, sigs[i].signer),
    ensures
        spec_validate_error(sigs, msg, p, c, pr, ctx) == Some(GatewayError::UnauthorizedSigner),
{
    lemma_batch_error_on_unauthorized(sigs, ctx, msg, p, c, pr, 0);
}

/// Law: two attested signatures from distinct signers, one vouched for
/// only by the platform registry and one only by the chain registry,
/// authorize a message against thresholds of one each, and the tally
/// reads one platform signature, one chain signature and two valid in
/// total.
pub proof fn lemma_one_platform_one_chain_authorizes(
    sig_a: MessageSignature,
    sig_b: MessageSignature,
    msg: Seq<u8>,
    p: SignerRegistry,
    c: SignerRegistry,
    ctx: Seq<InstructionRecord>,
)
    requires
        p.enabled,
        c.enabled,
        p.required_signatures == 1,
        c.required_signatures == 1,
        !spec_is_zero_digest(msg),
        sig_a.signer@ != sig_b.signer@,
        spec_signature_verified(ctx, sig_a.signature@, sig_a.signer@, msg),
        spec_signature_verified(ctx, sig_b.signature@, sig_b.signer@, msg),
        spec_member(p, sig_a.signer),
        !spec_member(c, sig_a.signer),
        spec_member(c, sig_b.signer),
        !spec_member(p, sig_b.signer),
    ensures
        spec_validate_error(
            seq![sig_a, sig_b],
            msg,
            p,
            c,
            None::<&SignerRegistry>,
            ctx,
        ) is None,
        spec_validation_counts(seq![sig_a, sig_b], p, c, None::<&SignerRegistry>)
            == (ValidationResult {
            platform_signatures: 1,
            chain_signatures: 1,
            project_signatures: 0,
            total_valid: 2,
        }),
{
    let sigs = seq![sig_a, sig_b];
    let pr = None::<&SignerRegistry>;
    assert(sigs[0] == sig_a);
    assert(sigs[1] == sig_b);
    assert(!spec_dup_at(sigs, 0));
    assert(!spec_dup_at(sigs, 1)) by {
        assert forall|j: int| 0 <= j < 1 implies (#[trigger] sigs[j]).signer@ != sigs[1].signer@ by {
            assert(sigs[0].signer@ != sigs[1].signer@);
        }
    }
    assert(spec_batch_error(sigs, ctx, msg, p, c, pr, 2) is None);
    assert(spec_batch_error(sigs, ctx, msg, p, c, pr, 1) is None);
    assert(spec_batch_error(sigs, ctx, msg, p, c, pr, 0) is None);
    let single = seq![sig_a];
    let empty = Seq::<MessageSignature>::empty();
    assert(sigs.drop_last() =~= single);
    assert(single.drop_last() =~= empty);
    assert(spec_member_count(empty, p) == 0);
    assert(spec_member_count(single, p) == 1);
    assert(spec_member_count(sigs, p) == 1);
    assert(spec_member_count(empty, c) == 0);
    assert(spec_member_count(single, c) == 0);
    assert(spec_member_count(sigs, c) == 1);
    assert(spec_threshold_error(sigs, p, c, pr) is None);
}

} // verus!
