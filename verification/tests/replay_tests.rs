use message_gateway_v4::errors::GatewayError;
use message_gateway_v4::events::TxPdaCreated;
use message_gateway_v4::gateway::initialize_gateway;
use message_gateway_v4::hash::create_message_hash_for_signing;
use message_gateway_v4::registry::initialize_signer_registry;
use message_gateway_v4::registry::MessageSignature;
use message_gateway_v4::registry::SignerRegistry;
use message_gateway_v4::registry::SignerRegistryType;
use message_gateway_v4::replay::create_tx_pda;
use message_gateway_v4::replay::initialize_counter;
use message_gateway_v4::replay::process_message;
use message_gateway_v4::replay::ReplayStore;
use message_gateway_v4::signature::ed25519_program_id;
use message_gateway_v4::signature::InstructionRecord;

const AUTH: [u8; 32] = [0xAA; 32];
const RELAYER: [u8; 32] = [0xBB; 32];
const SENDER: [u8; 1] = [1];
const RECIPIENT: [u8; 1] = [2];
const ON_CHAIN: [u8; 1] = [3];
const OFF_CHAIN: [u8; 1] = [4];
const DEST_CHAIN: u64 = 1;

fn key(b: u8) -> [u8; 32] {
    [b; 32]
}

fn sig_of(b: u8) -> MessageSignature {
    MessageSignature { signature: [b; 64], signer: key(b) }
}

fn digest_of(tx_id: u128, source_chain_id: u64) -> [u8; 32] {
    create_message_hash_for_signing(
        tx_id,
        source_chain_id,
        DEST_CHAIN,
        &SENDER,
        &RECIPIENT,
        &ON_CHAIN,
        &OFF_CHAIN,
    )
    .unwrap()
}

fn attestation(sig: &MessageSignature, msg: &[u8; 32]) -> InstructionRecord {
    let mut data = vec![0u8; 16];
    data.extend_from_slice(&sig.signature);
    data.extend_from_slice(&sig.signer);
    data.extend_from_slice(msg);
    InstructionRecord { program_id: ed25519_program_id(), data }
}

fn context_for(sigs: &[MessageSignature], tx_id: u128, source_chain_id: u64) -> Vec<
    InstructionRecord,
> {
    let msg = digest_of(tx_id, source_chain_id);
    sigs.iter().map(|s| attestation(s, &msg)).collect()
}

fn claim(
    store: &mut ReplayStore,
    tx_id: u128,
    source_chain_id: u64,
    sigs: &[MessageSignature],
) -> Result<TxPdaCreated, GatewayError> {
    let ctx = context_for(sigs, tx_id, source_chain_id);
    create_tx_pda(
        store,
        tx_id,
        source_chain_id,
        DEST_CHAIN,
        &SENDER,
        &RECIPIENT,
        &ON_CHAIN,
        &OFF_CHAIN,
        &sigs.to_vec(),
        &ctx,
    )
}

fn registry(tier: SignerRegistryType, signers: Vec<[u8; 32]>, threshold: u8) -> SignerRegistry {
    initialize_signer_registry(tier, AUTH, DEST_CHAIN, signers, threshold).unwrap()
}

#[test]
fn claim_records_the_key_and_reports_the_event() {
    let mut store = ReplayStore::new();
    let s = sig_of(1);
    let ev = claim(&mut store, 7, 2, &[s]).unwrap();
    assert_eq!(ev, TxPdaCreated { tx_id: 7, source_chain_id: 2 });
    assert!(store.is_claimed(2, 7));
    assert!(!store.is_claimed(2, 8));
    assert!(!store.is_claimed(3, 7));
    assert_eq!(store.watermark(2), Some(7));
}

#[test]
fn claim_requires_an_attested_signature() {
    let mut store = ReplayStore::new();
    let s = sig_of(1);
    // Context attests a different envelope's digest.
    let ctx = context_for(&[s], 8, 2);
    assert_eq!(
        create_tx_pda(
            &mut store,
            7,
            2,
            DEST_CHAIN,
            &SENDER,
            &RECIPIENT,
            &ON_CHAIN,
            &OFF_CHAIN,
            &vec![s],
            &ctx
        )
        .err(),
        Some(GatewayError::InvalidSignature)
    );
    assert!(!store.is_claimed(2, 7));
}

#[test]
fn claim_rejects_oversized_fields() {
    let mut store = ReplayStore::new();
    let s = sig_of(1);
    let ctx = context_for(&[s], 7, 2);
    let big = [0u8; 65];
    assert_eq!(
        create_tx_pda(
            &mut store,
            7,
            2,
            DEST_CHAIN,
            &big,
            &RECIPIENT,
            &ON_CHAIN,
            &OFF_CHAIN,
            &vec![s],
            &ctx
        )
        .err(),
        Some(GatewayError::OversizedField)
    );
}

#[test]
fn second_claim_for_the_same_key_fails() {
    let mut store = ReplayStore::new();
    let s = sig_of(1);
    claim(&mut store, 7, 2, &[s]).unwrap();
    assert_eq!(claim(&mut store, 7, 2, &[s]).err(), Some(GatewayError::AlreadyClaimed));
    // A different id on the same chain, and the same id on a different
    // chain, are both still free.
    claim(&mut store, 8, 2, &[s]).unwrap();
    claim(&mut store, 7, 3, &[s]).unwrap();
}

#[test]
fn claim_stays_blocked_even_after_consuming_another_id() {
    let mut store = ReplayStore::new();
    let gateway = initialize_gateway(AUTH, DEST_CHAIN);
    let platform = registry(SignerRegistryType::Platform, vec![key(1)], 1);
    let chain = registry(SignerRegistryType::Chain, vec![key(2)], 1);
    let a = sig_of(1);
    let b = sig_of(2);
    claim(&mut store, 5, 2, &[a]).unwrap();
    claim(&mut store, 7, 2, &[a]).unwrap();
    let ctx = context_for(&[a, b], 7, 2);
    process_message(
        &mut store,
        &gateway,
        7,
        2,
        DEST_CHAIN,
        &SENDER,
        &RECIPIENT,
        &ON_CHAIN,
        &OFF_CHAIN,
        &vec![a, b],
        &platform,
        &chain,
        None,
        RELAYER,
        &ctx,
    )
    .unwrap();
    // Consuming id 7 freed nothing else: id 5 is still claimed.
    assert_eq!(claim(&mut store, 5, 2, &[a]).err(), Some(GatewayError::AlreadyClaimed));
}

#[test]
fn watermark_is_the_running_maximum() {
    let mut store = ReplayStore::new();
    let s = sig_of(1);
    assert_eq!(store.watermark(2), None);
    claim(&mut store, 5, 2, &[s]).unwrap();
    assert_eq!(store.watermark(2), Some(5));
    claim(&mut store, 2, 2, &[s]).unwrap();
    assert_eq!(store.watermark(2), Some(5));
    claim(&mut store, 9, 2, &[s]).unwrap();
    assert_eq!(store.watermark(2), Some(9));
    // The watermark never gated the lower id: 2 was claimed above.
    assert!(store.is_claimed(2, 2));
    // Other chains are untouched.
    assert_eq!(store.watermark(3), None);
}

#[test]
fn watermark_distinguishes_id_zero_from_unseen() {
    let mut store = ReplayStore::new();
    let s = sig_of(1);
    assert_eq!(store.watermark(2), None);
    claim(&mut store, 0, 2, &[s]).unwrap();
    assert_eq!(store.watermark(2), Some(0));
}

fn consume(
    store: &mut ReplayStore,
    gateway: &message_gateway_v4::gateway::MessageGateway,
    tx_id: u128,
    source_chain_id: u64,
    sigs: &[MessageSignature],
    platform: &SignerRegistry,
    chain: &SignerRegistry,
) -> Result<
    (message_gateway_v4::registry::ValidationResult, message_gateway_v4::events::MessageProcessed),
    GatewayError,
> {
    let ctx = context_for(sigs, tx_id, source_chain_id);
    process_message(
        store,
        gateway,
        tx_id,
        source_chain_id,
        DEST_CHAIN,
        &SENDER,
        &RECIPIENT,
        &ON_CHAIN,
        &OFF_CHAIN,
        &sigs.to_vec(),
        platform,
        chain,
        None,
        RELAYER,
        &ctx,
    )
}

#[test]
fn consume_destroys_the_record_and_is_not_idempotent() {
    let mut store = ReplayStore::new();
    let gateway = initialize_gateway(AUTH, DEST_CHAIN);
    let platform = registry(SignerRegistryType::Platform, vec![key(1)], 1);
    let chain = registry(SignerRegistryType::Chain, vec![key(2)], 1);
    let a = sig_of(1);
    let b = sig_of(2);
    claim(&mut store, 7, 2, &[a]).unwrap();
    let (vr, ev) = consume(&mut store, &gateway, 7, 2, &[a, b], &platform, &chain).unwrap();
    assert_eq!(vr.platform_signatures, 1);
    assert_eq!(vr.chain_signatures, 1);
    assert_eq!(vr.total_valid, 2);
    assert_eq!(ev.tx_id, 7);
    assert_eq!(ev.source_chain_id, 2);
    assert_eq!(ev.relayer, RELAYER);
    assert!(!store.is_claimed(2, 7));
    // The identical consumption again must fail: the record is gone.
    assert_eq!(
        consume(&mut store, &gateway, 7, 2, &[a, b], &platform, &chain).err(),
        Some(GatewayError::NoSuchClaim)
    );
}

#[test]
fn consume_without_a_claim_fails() {
    let mut store = ReplayStore::new();
    let gateway = initialize_gateway(AUTH, DEST_CHAIN);
    let platform = registry(SignerRegistryType::Platform, vec![key(1)], 1);
    let chain = registry(SignerRegistryType::Chain, vec![key(2)], 1);
    assert_eq!(
        consume(&mut store, &gateway, 7, 2, &[sig_of(1), sig_of(2)], &platform, &chain).err(),
        Some(GatewayError::NoSuchClaim)
    );
}

#[test]
fn consume_respects_the_gateway_switch_and_chain() {
    let mut store = ReplayStore::new();
    let mut gateway = initialize_gateway(AUTH, DEST_CHAIN);
    let platform = registry(SignerRegistryType::Platform, vec![key(1)], 1);
    let chain = registry(SignerRegistryType::Chain, vec![key(2)], 1);
    let a = sig_of(1);
    let b = sig_of(2);
    gateway.set_system_enabled(&AUTH, false).unwrap();
    // Claims are unaffected by the switch, by design.
    claim(&mut store, 7, 2, &[a]).unwrap();
    assert_eq!(
        consume(&mut store, &gateway, 7, 2, &[a, b], &platform, &chain).err(),
        Some(GatewayError::SystemDisabled)
    );
    gateway.set_system_enabled(&AUTH, true).unwrap();
    let ctx = context_for(&[a, b], 7, 2);
    assert_eq!(
        process_message(
            &mut store,
            &gateway,
            7,
            2,
            DEST_CHAIN + 1,
            &SENDER,
            &RECIPIENT,
            &ON_CHAIN,
            &OFF_CHAIN,
            &vec![a, b],
            &platform,
            &chain,
            None,
            RELAYER,
            &ctx,
        )
        .err(),
        Some(GatewayError::ChainMismatch)
    );
    // The record survived both failures and can still be consumed.
    assert!(store.is_claimed(2, 7));
    consume(&mut store, &gateway, 7, 2, &[a, b], &platform, &chain).unwrap();
}

#[test]
fn failed_authorization_leaves_the_claim_for_a_retry() {
    let mut store = ReplayStore::new();
    let gateway = initialize_gateway(AUTH, DEST_CHAIN);
    let platform = registry(SignerRegistryType::Platform, vec![key(1)], 1);
    let chain = registry(SignerRegistryType::Chain, vec![key(2)], 1);
    let a = sig_of(1);
    let b = sig_of(2);
    let stranger = sig_of(9);
    claim(&mut store, 7, 2, &[a]).unwrap();
    assert_eq!(
        consume(&mut store, &gateway, 7, 2, &[a, stranger], &platform, &chain).err(),
        Some(GatewayError::UnauthorizedSigner)
    );
    assert!(store.is_claimed(2, 7));
    consume(&mut store, &gateway, 7, 2, &[a, b], &platform, &chain).unwrap();
    assert!(!store.is_claimed(2, 7));
}

#[test]
fn end_to_end_two_platform_one_chain() {
    let mut store = ReplayStore::new();
    let gateway = initialize_gateway(AUTH, DEST_CHAIN);
    let p1 = sig_of(1);
    let p2 = sig_of(2);
    let c1 = sig_of(3);
    let platform = registry(SignerRegistryType::Platform, vec![key(1), key(2)], 2);
    let chain = registry(SignerRegistryType::Chain, vec![key(3)], 1);
    // The claim needs only one attested signature, here the chain
    // validator's.
    claim(&mut store, 7, 2, &[c1]).unwrap();
    let (vr, _) = consume(&mut store, &gateway, 7, 2, &[p1, p2, c1], &platform, &chain).unwrap();
    assert_eq!(vr.platform_signatures, 2);
    assert_eq!(vr.chain_signatures, 1);
    assert_eq!(vr.total_valid, 3);
    // A second message with only one platform signature falls short of
    // the platform threshold.
    claim(&mut store, 8, 2, &[c1]).unwrap();
    assert_eq!(
        consume(&mut store, &gateway, 8, 2, &[p1, c1], &platform, &chain).err(),
        Some(GatewayError::InsufficientPlatformSignatures)
    );
    assert!(store.is_claimed(2, 8));
}

#[test]
fn counters_can_be_initialized_explicitly() {
    let mut store = ReplayStore::new();
    let mut gateway = initialize_gateway(AUTH, DEST_CHAIN);
    assert_eq!(
        initialize_counter(&mut store, &gateway, &key(0x55), 2).err(),
        Some(GatewayError::UnauthorizedAuthority)
    );
    assert_eq!(
        initialize_counter(&mut store, &gateway, &AUTH, 0).err(),
        Some(GatewayError::InvalidChainId)
    );
    initialize_counter(&mut store, &gateway, &AUTH, 2).unwrap();
    assert_eq!(store.watermark(2), Some(0));
    assert_eq!(
        initialize_counter(&mut store, &gateway, &AUTH, 2).err(),
        Some(GatewayError::CounterAlreadyExists)
    );
    gateway.set_system_enabled(&AUTH, false).unwrap();
    assert_eq!(
        initialize_counter(&mut store, &gateway, &AUTH, 3).err(),
        Some(GatewayError::SystemDisabled)
    );
    // A claim on the initialized chain raises the existing counter.
    let s = sig_of(1);
    claim(&mut store, 6, 2, &[s]).unwrap();
    assert_eq!(store.watermark(2), Some(6));
}
