use message_gateway_v4::errors::GatewayError;
use message_gateway_v4::hash::create_cross_chain_hash;
use message_gateway_v4::hash::create_message_hash_for_signing;
use message_gateway_v4::hash::validate_message_hash;
use message_gateway_v4::hash::verify_hash_consistency;

fn sample_hash() -> [u8; 32] {
    create_cross_chain_hash(7, 2, 1, &[1, 2, 3], &[4, 5], &[6], &[7, 8, 9]).unwrap()
}

#[test]
fn hash_is_deterministic() {
    let a = sample_hash();
    let b = sample_hash();
    assert_eq!(a, b);
}

#[test]
fn hash_for_signing_matches_cross_chain_hash() {
    let a = create_cross_chain_hash(7, 2, 1, &[1, 2, 3], &[4, 5], &[6], &[7, 8, 9]).unwrap();
    let b = create_message_hash_for_signing(7, 2, 1, &[1, 2, 3], &[4, 5], &[6], &[7, 8, 9])
        .unwrap();
    assert_eq!(a, b);
}

#[test]
fn hash_changes_with_each_field() {
    let base = sample_hash();
    assert_ne!(base, create_cross_chain_hash(8, 2, 1, &[1, 2, 3], &[4, 5], &[6], &[7, 8, 9]).unwrap());
    assert_ne!(base, create_cross_chain_hash(7, 3, 1, &[1, 2, 3], &[4, 5], &[6], &[7, 8, 9]).unwrap());
    assert_ne!(base, create_cross_chain_hash(7, 2, 4, &[1, 2, 3], &[4, 5], &[6], &[7, 8, 9]).unwrap());
    assert_ne!(base, create_cross_chain_hash(7, 2, 1, &[1, 2, 0], &[4, 5], &[6], &[7, 8, 9]).unwrap());
    assert_ne!(base, create_cross_chain_hash(7, 2, 1, &[1, 2, 3], &[4, 0], &[6], &[7, 8, 9]).unwrap());
    assert_ne!(base, create_cross_chain_hash(7, 2, 1, &[1, 2, 3], &[4, 5], &[0], &[7, 8, 9]).unwrap());
    assert_ne!(base, create_cross_chain_hash(7, 2, 1, &[1, 2, 3], &[4, 5], &[6], &[7, 8, 0]).unwrap());
}

#[test]
fn length_prefix_prevents_field_bleed() {
    // Same byte stream split differently between adjacent variable
    // fields must hash differently.
    let a = create_cross_chain_hash(1, 1, 1, &[9, 9], &[], &[], &[]).unwrap();
    let b = create_cross_chain_hash(1, 1, 1, &[9], &[9], &[], &[]).unwrap();
    assert_ne!(a, b);
    let c = create_cross_chain_hash(1, 1, 1, &[], &[], &[5, 5, 5], &[]).unwrap();
    let d = create_cross_chain_hash(1, 1, 1, &[], &[], &[5, 5], &[5]).unwrap();
    assert_ne!(c, d);
}

#[test]
fn oversized_fields_are_rejected() {
    let big65 = [0u8; 65];
    let big1025 = [0u8; 1025];
    let ok64 = [0u8; 64];
    let ok1024 = [0u8; 1024];
    assert_eq!(
        create_cross_chain_hash(1, 1, 1, &big65, &[], &[], &[]),
        Err(GatewayError::OversizedField)
    );
    assert_eq!(
        create_cross_chain_hash(1, 1, 1, &[], &big65, &[], &[]),
        Err(GatewayError::OversizedField)
    );
    assert_eq!(
        create_cross_chain_hash(1, 1, 1, &[], &[], &big1025, &[]),
        Err(GatewayError::OversizedField)
    );
    assert_eq!(
        create_cross_chain_hash(1, 1, 1, &[], &[], &[], &big1025),
        Err(GatewayError::OversizedField)
    );
    assert!(create_cross_chain_hash(1, 1, 1, &ok64, &ok64, &ok1024, &ok1024).is_ok());
}

#[test]
fn digest_is_a_real_hash_of_the_encoding() {
    // The encoding of this envelope starts with 32 zero bytes (all
    // three integers are zero), so a digest that merely echoed the
    // encoded bytes would be the zero sentinel; Keccak-256 is not.
    let h = create_cross_chain_hash(0, 0, 0, &[], &[], &[], &[]).unwrap();
    assert_ne!(h, [0u8; 32]);
    assert!(validate_message_hash(&h).is_ok());
}

#[test]
fn zero_digest_is_rejected() {
    assert_eq!(validate_message_hash(&[0u8; 32]), Err(GatewayError::InvalidDigest));
    let mut nearly = [0u8; 32];
    nearly[31] = 1;
    assert!(validate_message_hash(&nearly).is_ok());
}

#[test]
fn consistency_check_accepts_and_rejects() {
    let h = sample_hash();
    assert_eq!(
        verify_hash_consistency(&h, 7, 2, 1, &[1, 2, 3], &[4, 5], &[6], &[7, 8, 9]),
        Ok(true)
    );
    assert_eq!(
        verify_hash_consistency(&h, 8, 2, 1, &[1, 2, 3], &[4, 5], &[6], &[7, 8, 9]),
        Ok(false)
    );
    let big65 = [0u8; 65];
    assert_eq!(
        verify_hash_consistency(&h, 7, 2, 1, &big65, &[4, 5], &[6], &[7, 8, 9]),
        Err(GatewayError::OversizedField)
    );
}
