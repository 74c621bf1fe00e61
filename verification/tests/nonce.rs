use inheritx_backend::nonce::{uuid_text, NonceChallengeStore, NonceError, WalletChallenge};

#[test]
fn a_second_nonce_invalidates_the_first() {
    let mut store = NonceChallengeStore::new();
    store.issue_at("GADDR1", "first".to_string(), 100);
    store.issue_at("GADDR1", "second".to_string(), 110);
    assert_eq!(store.len(), 1);
    assert_eq!(store.consume_at("GADDR1", "first", 120), Err(NonceError::Mismatch));
    // the live nonce is untouched by the failed attempt
    assert_eq!(store.get("GADDR1").unwrap().nonce, "second");
    assert_eq!(store.consume_at("GADDR1", "second", 120), Ok(()));
}

#[test]
fn a_nonce_is_consumed_once() {
    let mut store = NonceChallengeStore::new();
    let expires = store.issue_at("GADDR1", "n-1".to_string(), 1_000);
    assert_eq!(expires, 1_300);
    assert_eq!(store.consume_at("GADDR1", "n-1", 1_001), Ok(()));
    assert!(store.get("GADDR1").is_none());
    assert_eq!(store.consume_at("GADDR1", "n-1", 1_002), Err(NonceError::NotFound));
    assert_eq!(store.len(), 0);
}

#[test]
fn an_expired_nonce_is_rejected_and_purged() {
    let mut store = NonceChallengeStore::new();
    store.issue_at("A", "n".to_string(), 1_000);
    assert_eq!(store.consume_at("A", "n", 1_301), Err(NonceError::Expired));
    assert!(store.get("A").is_none());
    // at the expiry itself the nonce is still good
    store.issue_at("A", "n".to_string(), 1_000);
    assert_eq!(store.consume_at("A", "n", 1_300), Ok(()));
}

#[test]
fn a_wrong_nonce_leaves_the_challenge_in_place() {
    let mut store = NonceChallengeStore::new();
    store.issue_at("A", "right".to_string(), 0);
    assert_eq!(store.consume_at("A", "wrong", 1), Err(NonceError::Mismatch));
    let row = store.get("A").unwrap();
    assert_eq!(row.address, "A");
    assert_eq!(row.nonce, "right");
    assert_eq!(row.issued_at, 0);
    assert_eq!(row.expires_at, 300);
}

#[test]
fn an_unknown_address_has_no_nonce() {
    let mut store = NonceChallengeStore::new();
    assert_eq!(store.consume_at("nobody", "n", 0), Err(NonceError::NotFound));
    store.issue_at("A", "n".to_string(), 0);
    assert_eq!(store.consume_at("B", "n", 0), Err(NonceError::NotFound));
    assert_eq!(store.len(), 1);
}

#[test]
fn addresses_do_not_interfere() {
    let mut store = NonceChallengeStore::new();
    store.issue_at("A", "na".to_string(), 0);
    store.issue_at("B", "nb".to_string(), 0);
    assert_eq!(store.len(), 2);
    assert_eq!(store.consume_at("A", "na", 1), Ok(()));
    assert_eq!(store.get("B").unwrap().nonce, "nb");
    assert_eq!(store.consume_at("B", "na", 1), Err(NonceError::Mismatch));
    assert_eq!(store.consume_at("B", "nb", 1), Ok(()));
}

#[test]
fn issued_nonces_are_fresh_identifiers() {
    let mut store = NonceChallengeStore::new();
    let first = store.issue("A");
    let second = store.issue("A");
    assert_eq!(first.len(), 36);
    assert!(uuid::Uuid::parse_str(&first).is_ok());
    assert_ne!(first, second);
    let row = store.get("A").unwrap().clone();
    assert_eq!(row.nonce, second);
    assert_eq!(row.expires_at, row.issued_at + 300);
    assert_eq!(store.consume("A", &first), Err(NonceError::Mismatch));
    assert_eq!(store.consume("A", &second), Ok(()));
    assert_eq!(store.consume("A", &second), Err(NonceError::NotFound));
}

#[test]
fn a_persisted_challenge_is_put_back_as_it_was() {
    let mut store = NonceChallengeStore::new();
    store.issue_at("A", "old".to_string(), 0);
    let row = WalletChallenge {
        address: "A".to_string(),
        nonce: "kept".to_string(),
        issued_at: 40,
        expires_at: 50,
    };
    store.restore(row.clone());
    assert_eq!(store.len(), 1);
    assert_eq!(store.get("A"), Some(&row));
    assert_eq!(store.consume_at("A", "kept", 51), Err(NonceError::Expired));
}

#[test]
fn an_identifier_is_written_as_the_uuid_crate_writes_it() {
    assert_eq!(uuid_text(0), "00000000-0000-0000-0000-000000000000");
    assert_eq!(uuid_text(u128::MAX), "ffffffff-ffff-ffff-ffff-ffffffffffff");
    assert_eq!(
        uuid_text(0x67e55044_10b1_426f_9247_bb680e5fe0c8),
        "67e55044-10b1-426f-9247-bb680e5fe0c8"
    );
    assert_eq!(
        uuid_text(0x0123456789abcdef_fedcba9876543210),
        "01234567-89ab-cdef-fedc-ba9876543210"
    );
    assert_eq!(uuid_text(1), "00000000-0000-0000-0000-000000000001");
    assert_eq!(uuid_text(1 << 127), "80000000-0000-0000-0000-000000000000");
    let mut id: u128 = 0x9e3779b97f4a7c15_f39cc0605cedc835;
    for _ in 0..200 {
        id = id.wrapping_mul(0x2360ed051fc65da4_4385df649fccf645).wrapping_add(1442695040888963407);
        assert_eq!(uuid_text(id), uuid::Uuid::from_u128(id).to_string());
    }
    for _ in 0..50 {
        let drawn = uuid::Uuid::new_v4();
        assert_eq!(uuid_text(drawn.as_u128()), drawn.hyphenated().to_string());
    }
}
