use packurl::driver::restore_kid;
use packurl::errors::AcmeError;
use packurl::store::AccountStore;
use packurl::store::CertifiedKeyData;
use packurl::store::ChallengeStore;
use packurl::store::IssuedSlot;

fn key_data(tag: u8) -> CertifiedKeyData {
    CertifiedKeyData { chain: vec![vec![tag, tag, tag]], key_der: vec![tag] }
}

#[test]
fn persist_keys_then_restore_round_trips() {
    let mut store = AccountStore::new();
    let bytes = vec![9u8, 8, 7];
    store.backup_account_keys(&bytes);
    assert_eq!(store.restore_account_keys(), Some(bytes));
}

#[test]
fn persist_new_keys_invalidates_stored_kid() {
    let mut store = AccountStore::new();
    store.backup_account_keys(&vec![1u8]);
    store.backup_account_kid(&vec![b'k', b'i', b'd']);
    assert_eq!(store.restore_account_kid(), Some(vec![b'k', b'i', b'd']));
    store.backup_account_keys(&vec![2u8]);
    assert_eq!(store.restore_account_kid(), None);
    assert_eq!(store.restore_account_keys(), Some(vec![2u8]));
}

#[test]
fn kid_restores_as_text_and_rejects_bad_bytes() {
    let mut store = AccountStore::new();
    assert_eq!(restore_kid(&store), Ok(None));
    store.backup_account_kid(&vec![b'u', b'r', b'l']);
    assert_eq!(restore_kid(&store), Ok(Some(String::from("url"))));
    store.backup_account_kid(&vec![0xffu8, 0xfe]);
    assert_eq!(restore_kid(&store), Err(AcmeError::Storage));
    assert_eq!(AcmeError::Storage.message(), "durable storage failed");
    assert_eq!(AcmeError::Network.message(), "request to the ACME server failed");
}

#[test]
fn challenge_store_keeps_independent_domains() {
    let mut store = ChallengeStore::new();
    let a = String::from("a.example");
    let b = String::from("b.example");
    assert!(store.get_challenge_key(&a).is_none());
    store.set_challenge_key(&a, key_data(1));
    store.set_challenge_key(&b, key_data(2));
    let got_a = store.get_challenge_key(&a).unwrap();
    assert_eq!(got_a.chain, vec![vec![1u8, 1, 1]]);
    let got_b = store.get_challenge_key(&b).unwrap();
    assert_eq!(got_b.key_der, vec![2u8]);
}

#[test]
fn challenge_store_overwrites_per_domain() {
    let mut store = ChallengeStore::new();
    let a = String::from("a.example");
    store.set_challenge_key(&a, key_data(1));
    store.set_challenge_key(&a, key_data(3));
    let got = store.get_challenge_key(&a).unwrap();
    assert_eq!(got.key_der, vec![3u8]);
}

#[test]
fn issued_slot_install_and_read() {
    let mut slot = IssuedSlot::new();
    assert!(slot.get_certificate().is_none());
    slot.install(key_data(5), 42);
    let (key, at) = slot.get_certificate().unwrap();
    assert_eq!(at, 42);
    assert_eq!(key.chain, vec![vec![5u8, 5, 5]]);
}

#[test]
fn pem_install_splits_key_and_chain() {
    let key_block = pem::Pem { tag: String::from("PRIVATE KEY"), contents: vec![1, 2, 3] };
    let cert_block = pem::Pem { tag: String::from("CERTIFICATE"), contents: vec![4, 5, 6] };
    let extra_block = pem::Pem { tag: String::from("CERTIFICATE"), contents: vec![7] };
    let text = pem::encode_many(&[key_block, cert_block, extra_block]);
    let mut slot = IssuedSlot::new();
    slot.set_certificate(&text.into_bytes(), 7).expect("install");
    let (key, at) = slot.get_certificate().unwrap();
    assert_eq!(at, 7);
    assert_eq!(key.key_der, vec![1u8, 2, 3]);
    assert_eq!(key.chain, vec![vec![4u8, 5, 6], vec![7u8]]);
}

#[test]
fn incomplete_pem_is_rejected_and_slot_kept() {
    let only_key = pem::Pem { tag: String::from("PRIVATE KEY"), contents: vec![1] };
    let text = pem::encode_many(&[only_key]);
    let mut slot = IssuedSlot::new();
    slot.install(key_data(9), 1);
    let err = slot.set_certificate(&text.into_bytes(), 2).unwrap_err();
    assert_eq!(err, AcmeError::Crypto);
    let (key, at) = slot.get_certificate().unwrap();
    assert_eq!(at, 1);
    assert_eq!(key.key_der, vec![9u8]);
    let err2 = slot.set_certificate(&vec![b'n', b'o'], 3).unwrap_err();
    assert_eq!(err2, AcmeError::Crypto);
    assert_eq!(slot.get_certificate().unwrap().1, 1);
}
