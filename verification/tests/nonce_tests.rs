use durable_nonce::nonce::{
    extract_durable_nonce, fetch_nonce_from_account, parse_nonce_versions, NonceError, NonceState,
    NonceVersions,
};

use solana_sdk::nonce::state::{Data, DurableNonce, State, Versions};
use solana_sdk::pubkey::Pubkey;

fn record_bytes(version_tag: u32, state_tag: u32, authority: u8, nonce: u8, fee: u64) -> Vec<u8> {
    let mut data = Vec::new();
    data.extend_from_slice(&version_tag.to_le_bytes());
    data.extend_from_slice(&state_tag.to_le_bytes());
    data.extend_from_slice(&[authority; 32]);
    data.extend_from_slice(&[nonce; 32]);
    data.extend_from_slice(&fee.to_le_bytes());
    data
}

#[test]
fn parses_current_initialized_record() {
    let data = record_bytes(1, 1, 7, 9, 5000);
    match parse_nonce_versions(&data) {
        Some(NonceVersions::Current(NonceState::Initialized(d))) => {
            assert_eq!(d.authority, vec![7u8; 32]);
            assert_eq!(d.durable_nonce, vec![9u8; 32]);
            assert_eq!(d.lamports_per_signature, 5000);
        }
        _ => panic!("expected a current initialized record"),
    }
}

#[test]
fn parses_legacy_and_uninitialized_records() {
    let data = record_bytes(0, 1, 3, 4, 1);
    assert!(matches!(
        parse_nonce_versions(&data),
        Some(NonceVersions::Legacy(NonceState::Initialized(_)))
    ));

    let mut short = Vec::new();
    short.extend_from_slice(&1u32.to_le_bytes());
    short.extend_from_slice(&0u32.to_le_bytes());
    assert!(matches!(
        parse_nonce_versions(&short),
        Some(NonceVersions::Current(NonceState::Uninitialized))
    ));
}

#[test]
fn rejects_malformed_records() {
    assert!(parse_nonce_versions(&Vec::new()).is_none());
    assert!(parse_nonce_versions(&vec![1u8, 0, 0]).is_none());
    // bad version tag
    assert!(parse_nonce_versions(&record_bytes(2, 1, 0, 0, 0)).is_none());
    // bad state tag
    assert!(parse_nonce_versions(&record_bytes(1, 3, 0, 0, 0)).is_none());
    // initialized record cut short
    let mut cut = record_bytes(1, 1, 7, 9, 5000);
    cut.truncate(79);
    assert!(parse_nonce_versions(&cut).is_none());
}

#[test]
fn ignores_trailing_bytes_as_the_ledger_decoder_does() {
    let mut data = record_bytes(1, 1, 7, 9, 5000);
    data.push(0xAA);
    assert!(matches!(
        parse_nonce_versions(&data),
        Some(NonceVersions::Current(NonceState::Initialized(_)))
    ));
}

#[test]
fn parse_agrees_with_the_ledger_encoder() {
    let authority = Pubkey::new_from_array([11u8; 32]);
    let durable = DurableNonce::from_blockhash(&solana_sdk::hash::Hash::new_from_array([22u8; 32]));
    let state = Versions::new(State::Initialized(Data::new(authority, durable, 42)));
    let data = bincode::serialize(&state).unwrap();
    assert_eq!(data.len(), 80);

    match parse_nonce_versions(&data) {
        Some(NonceVersions::Current(NonceState::Initialized(d))) => {
            assert_eq!(d.authority, authority.to_bytes().to_vec());
            assert_eq!(d.durable_nonce, durable.as_hash().to_bytes().to_vec());
            assert_eq!(d.lamports_per_signature, 42);
        }
        _ => panic!("expected a current initialized record"),
    }
}

#[test]
fn extracts_nonce_only_for_the_expected_authority() {
    let data = record_bytes(1, 1, 7, 9, 5000);
    let versions = parse_nonce_versions(&data).unwrap();

    let hash = extract_durable_nonce(&versions, &vec![7u8; 32]).unwrap();
    assert_eq!(hash, vec![9u8; 32]);

    assert_eq!(
        extract_durable_nonce(&versions, &vec![8u8; 32]),
        Err(NonceError::WrongAuthority)
    );
}

#[test]
fn extract_rejects_legacy_and_uninitialized_state() {
    let legacy = parse_nonce_versions(&record_bytes(0, 1, 7, 9, 0)).unwrap();
    assert_eq!(
        extract_durable_nonce(&legacy, &vec![7u8; 32]),
        Err(NonceError::LegacyVersion)
    );

    let uninitialized = parse_nonce_versions(&record_bytes(1, 0, 0, 0, 0)).unwrap();
    assert_eq!(
        extract_durable_nonce(&uninitialized, &vec![7u8; 32]),
        Err(NonceError::UninitializedState)
    );
}

#[test]
fn fetch_nonce_reports_each_failure() {
    assert_eq!(
        fetch_nonce_from_account(&None, &vec![7u8; 32]),
        Err(NonceError::MissingAccount)
    );
    assert_eq!(
        fetch_nonce_from_account(&Some(vec![9u8, 9, 9]), &vec![7u8; 32]),
        Err(NonceError::MalformedState)
    );
    let good = record_bytes(1, 1, 7, 9, 5000);
    assert_eq!(
        fetch_nonce_from_account(&Some(good), &vec![7u8; 32]),
        Ok(vec![9u8; 32])
    );
}
