use message_gateway_v4::errors::GatewayError;
use message_gateway_v4::registry::create_message_signature;
use message_gateway_v4::registry::initialize_signer_registry;
use message_gateway_v4::registry::SignerLayer;
use message_gateway_v4::registry::SignerRegistry;
use message_gateway_v4::registry::SignerRegistryType;
use message_gateway_v4::registry::ValidationResult;

const AUTH: [u8; 32] = [0xAA; 32];

fn key(b: u8) -> [u8; 32] {
    [b; 32]
}

fn fresh(signers: Vec<[u8; 32]>, threshold: u8) -> SignerRegistry {
    initialize_signer_registry(SignerRegistryType::Chain, AUTH, 9, signers, threshold).unwrap()
}

#[test]
fn initialize_validates_signers_and_threshold() {
    assert_eq!(
        initialize_signer_registry(SignerRegistryType::Platform, AUTH, 1, vec![], 1).err(),
        Some(GatewayError::EmptySignerSet)
    );
    let eleven: Vec<[u8; 32]> = (0..11).map(|i| key(i as u8)).collect();
    assert_eq!(
        initialize_signer_registry(SignerRegistryType::Platform, AUTH, 1, eleven, 1).err(),
        Some(GatewayError::TooManySigners)
    );
    assert_eq!(
        initialize_signer_registry(SignerRegistryType::Platform, AUTH, 1, vec![key(1)], 0).err(),
        Some(GatewayError::InvalidThreshold)
    );
    assert_eq!(
        initialize_signer_registry(SignerRegistryType::Platform, AUTH, 1, vec![key(1)], 2).err(),
        Some(GatewayError::InvalidThreshold)
    );
    let reg = initialize_signer_registry(
        SignerRegistryType::Platform,
        AUTH,
        1,
        vec![key(1), key(2)],
        2,
    )
    .unwrap();
    assert_eq!(reg.registry_type, SignerRegistryType::Platform);
    assert_eq!(reg.authority, AUTH);
    assert_eq!(reg.signers, vec![key(1), key(2)]);
    assert_eq!(reg.required_signatures, 2);
    assert_eq!(reg.chain_id, 1);
    assert!(reg.enabled);
}

#[test]
fn membership_requires_enabled_registry() {
    let mut reg = fresh(vec![key(1), key(2)], 1);
    assert!(reg.is_signer(&key(1)));
    assert!(!reg.is_signer(&key(3)));
    reg.set_registry_enabled(&AUTH, false).unwrap();
    assert!(!reg.is_signer(&key(1)));
    reg.set_registry_enabled(&AUTH, true).unwrap();
    assert!(reg.is_signer(&key(1)));
}

#[test]
fn mutations_require_the_authority() {
    let mut reg = fresh(vec![key(1), key(2)], 1);
    let stranger = key(0x55);
    assert_eq!(
        reg.update_signers(&stranger, vec![key(3)], 1).err(),
        Some(GatewayError::UnauthorizedAuthority)
    );
    assert_eq!(reg.add_signer(&stranger, key(3)).err(), Some(GatewayError::UnauthorizedAuthority));
    assert_eq!(
        reg.remove_signer(&stranger, key(1)).err(),
        Some(GatewayError::UnauthorizedAuthority)
    );
    assert_eq!(reg.update_threshold(&stranger, 1).err(), Some(GatewayError::UnauthorizedAuthority));
    assert_eq!(
        reg.set_registry_enabled(&stranger, false).err(),
        Some(GatewayError::UnauthorizedAuthority)
    );
    assert_eq!(reg.signers, vec![key(1), key(2)]);
    assert!(reg.enabled);
}

#[test]
fn add_signer_rejects_duplicates_and_the_cap() {
    let mut reg = fresh(vec![key(1)], 1);
    assert_eq!(reg.add_signer(&AUTH, key(1)).err(), Some(GatewayError::DuplicateSigner));
    for i in 2..=10 {
        reg.add_signer(&AUTH, key(i as u8)).unwrap();
    }
    assert_eq!(reg.signers.len(), 10);
    assert_eq!(reg.add_signer(&AUTH, key(11)).err(), Some(GatewayError::TooManySigners));
}

#[test]
fn remove_signer_not_found() {
    let mut reg = fresh(vec![key(1), key(2)], 1);
    assert_eq!(reg.remove_signer(&AUTH, key(9)).err(), Some(GatewayError::SignerNotFound));
    assert_eq!(reg.signers, vec![key(1), key(2)]);
}

#[test]
fn remove_signer_refuses_to_break_the_threshold() {
    let mut reg = fresh(vec![key(1), key(2)], 2);
    assert_eq!(
        reg.remove_signer(&AUTH, key(2)).err(),
        Some(GatewayError::ThresholdUnsatisfiable)
    );
    assert_eq!(reg.signers, vec![key(1), key(2)]);
    assert_eq!(reg.required_signatures, 2);
}

#[test]
fn remove_signer_drops_the_first_occurrence() {
    let mut reg = fresh(vec![key(1), key(2), key(3)], 1);
    reg.remove_signer(&AUTH, key(2)).unwrap();
    assert_eq!(reg.signers, vec![key(1), key(3)]);
    assert!(!reg.is_signer(&key(2)));
}

#[test]
fn update_signers_replaces_the_whole_set() {
    let mut reg = fresh(vec![key(1), key(2)], 2);
    assert_eq!(reg.update_signers(&AUTH, vec![], 1).err(), Some(GatewayError::EmptySignerSet));
    let eleven: Vec<[u8; 32]> = (0..11).map(|i| key(i as u8)).collect();
    assert_eq!(reg.update_signers(&AUTH, eleven, 1).err(), Some(GatewayError::TooManySigners));
    assert_eq!(
        reg.update_signers(&AUTH, vec![key(7)], 0).err(),
        Some(GatewayError::InvalidThreshold)
    );
    assert_eq!(
        reg.update_signers(&AUTH, vec![key(7)], 2).err(),
        Some(GatewayError::InvalidThreshold)
    );
    assert_eq!(reg.signers, vec![key(1), key(2)]);
    reg.update_signers(&AUTH, vec![key(7), key(8)], 1).unwrap();
    assert_eq!(reg.signers, vec![key(7), key(8)]);
    assert_eq!(reg.required_signatures, 1);
}

#[test]
fn update_threshold_stays_within_signer_count() {
    let mut reg = fresh(vec![key(1), key(2)], 1);
    assert_eq!(reg.update_threshold(&AUTH, 0).err(), Some(GatewayError::InvalidThreshold));
    assert_eq!(reg.update_threshold(&AUTH, 3).err(), Some(GatewayError::ThresholdTooHigh));
    reg.update_threshold(&AUTH, 2).unwrap();
    assert_eq!(reg.required_signatures, 2);
}

#[test]
fn validate_threshold_reports_both_violations() {
    let mut reg = fresh(vec![key(1)], 1);
    assert!(reg.validate_threshold().is_ok());
    reg.required_signatures = 0;
    assert_eq!(reg.validate_threshold().err(), Some(GatewayError::InvalidThreshold));
    reg.required_signatures = 2;
    assert_eq!(reg.validate_threshold().err(), Some(GatewayError::ThresholdTooHigh));
}

#[test]
fn space_counts_bytes_per_signer() {
    assert_eq!(SignerRegistry::space(0), 56);
    assert_eq!(SignerRegistry::space(10), 376);
}

#[test]
fn registry_type_discriminants_round_trip() {
    assert_eq!(SignerRegistryType::Platform.discriminant(), 0);
    assert_eq!(SignerRegistryType::Chain.discriminant(), 1);
    assert_eq!(SignerRegistryType::Project.discriminant(), 2);
    assert_eq!(
        SignerRegistryType::from_discriminant(0),
        Some(SignerRegistryType::Platform)
    );
    assert_eq!(SignerRegistryType::from_discriminant(1), Some(SignerRegistryType::Chain));
    assert_eq!(SignerRegistryType::from_discriminant(2), Some(SignerRegistryType::Project));
    assert_eq!(SignerRegistryType::from_discriminant(3), None);
}

#[test]
fn layers_map_to_registry_types() {
    assert_eq!(SignerLayer::Platform.to_registry_type(), SignerRegistryType::Platform);
    assert_eq!(SignerLayer::Chain.to_registry_type(), SignerRegistryType::Chain);
    assert_eq!(SignerLayer::Project.to_registry_type(), SignerRegistryType::Project);
}

#[test]
fn validation_result_tallies_tiers_independently() {
    let mut vr = ValidationResult::new();
    assert_eq!(
        vr,
        ValidationResult {
            platform_signatures: 0,
            chain_signatures: 0,
            project_signatures: 0,
            total_valid: 0,
        }
    );
    vr.increment_for_signer(true, false, false);
    vr.increment_for_signer(true, true, false);
    vr.increment_for_signer(false, false, true);
    vr.increment_for_signer(false, false, false);
    assert_eq!(vr.platform_signatures, 2);
    assert_eq!(vr.chain_signatures, 1);
    assert_eq!(vr.project_signatures, 1);
    assert_eq!(vr.total_valid, 3);
}

#[test]
fn message_signature_keeps_its_parts() {
    let sig = create_message_signature([7u8; 64], key(9));
    assert_eq!(sig.signature, [7u8; 64]);
    assert_eq!(sig.signer, key(9));
}
