use packurl::domains::DomainList;
use packurl::resolver::CertResolver;
use packurl::resolver::MAX_AGE_SECONDS;
use packurl::store::CertifiedKeyData;
use packurl::store::ChallengeStore;
use packurl::store::IssuedSlot;

fn key_data(tag: u8) -> CertifiedKeyData {
    CertifiedKeyData { chain: vec![vec![tag; 4]], key_der: vec![tag, tag] }
}

fn managed() -> DomainList {
    DomainList::new(vec![String::from("managed.example")])
}

fn resolver() -> CertResolver {
    let fallback = DomainList::new(vec![String::from("cdn.example")]);
    CertResolver::try_new(&fallback, managed()).expect("self-signed generation")
}

fn acme_alpn() -> Vec<Vec<u8>> {
    vec![b"acme-tls/1".to_vec()]
}

fn plain_alpn() -> Vec<Vec<u8>> {
    vec![b"http/1.1".to_vec()]
}

#[test]
fn no_sni_serves_nothing() {
    let mut r = resolver();
    let challenges = ChallengeStore::new();
    let issued = IssuedSlot::new();
    assert!(r.resolve(None, Some(&plain_alpn()), &challenges, &issued, 0).is_none());
}

#[test]
fn non_managed_sni_always_gets_the_self_signed_key() {
    let mut r = resolver();
    let challenges = ChallengeStore::new();
    let issued = IssuedSlot::new();
    let sni = String::from("cdn.example");
    let with_plain = r.resolve(Some(&sni), Some(&plain_alpn()), &challenges, &issued, 0).unwrap();
    let with_acme = r.resolve(Some(&sni), Some(&acme_alpn()), &challenges, &issued, 0).unwrap();
    let without_alpn = r.resolve(Some(&sni), None, &challenges, &issued, 0).unwrap();
    assert_eq!(with_plain.chain, with_acme.chain);
    assert_eq!(with_plain.chain, without_alpn.chain);
    assert_eq!(with_plain.chain.len(), 1);
    assert!(!with_plain.chain[0].is_empty());
}

#[test]
fn managed_sni_with_acme_alpn_needs_a_challenge_certificate() {
    let mut r = resolver();
    let mut challenges = ChallengeStore::new();
    let issued = IssuedSlot::new();
    let sni = String::from("managed.example");
    assert!(r.resolve(Some(&sni), Some(&acme_alpn()), &challenges, &issued, 0).is_none());
    challenges.set_challenge_key(&sni, key_data(8));
    let got = r.resolve(Some(&sni), Some(&acme_alpn()), &challenges, &issued, 0).unwrap();
    assert_eq!(got.chain, vec![vec![8u8; 4]]);
    assert_eq!(got.key_der, vec![8u8, 8]);
}

#[test]
fn managed_sni_before_issuance_serves_nothing() {
    let mut r = resolver();
    let challenges = ChallengeStore::new();
    let issued = IssuedSlot::new();
    let sni = String::from("managed.example");
    assert!(r.resolve(Some(&sni), Some(&plain_alpn()), &challenges, &issued, 0).is_none());
}

#[test]
fn installed_certificate_is_served_after_install() {
    let mut r = resolver();
    let challenges = ChallengeStore::new();
    let mut issued = IssuedSlot::new();
    let sni = String::from("managed.example");
    issued.install(key_data(4), 10);
    let got = r.resolve(Some(&sni), Some(&plain_alpn()), &challenges, &issued, 10).unwrap();
    assert_eq!(got.chain, vec![vec![4u8; 4]]);
}

#[test]
fn stale_read_serves_current_and_schedules_refresh() {
    let mut r = resolver();
    let challenges = ChallengeStore::new();
    let mut issued = IssuedSlot::new();
    let sni = String::from("managed.example");
    issued.install(key_data(1), 0);
    // warm the resolver cache with the first certificate
    let first = r.resolve(Some(&sni), Some(&plain_alpn()), &challenges, &issued, 0).unwrap();
    assert_eq!(first.key_der, vec![1u8, 1]);
    // a renewal installs a newer certificate while the cache ages
    issued.install(key_data(2), 50);
    let stale_now = MAX_AGE_SECONDS + 1;
    // the stale read still serves the previously cached certificate at once
    let served = r.resolve(Some(&sni), Some(&plain_alpn()), &challenges, &issued, stale_now).unwrap();
    assert_eq!(served.key_der, vec![1u8, 1]);
    // the refresh it scheduled is visible to the next handshake
    let next = r.resolve(Some(&sni), Some(&plain_alpn()), &challenges, &issued, stale_now).unwrap();
    assert_eq!(next.key_der, vec![2u8, 2]);
}

#[test]
fn fresh_cache_is_not_refreshed() {
    let mut r = resolver();
    let challenges = ChallengeStore::new();
    let mut issued = IssuedSlot::new();
    let sni = String::from("managed.example");
    issued.install(key_data(1), 0);
    let _ = r.resolve(Some(&sni), Some(&plain_alpn()), &challenges, &issued, 0);
    issued.install(key_data(2), 5);
    // well within the staleness threshold: the cache is left alone
    let served = r.resolve(Some(&sni), Some(&plain_alpn()), &challenges, &issued, 10).unwrap();
    assert_eq!(served.key_der, vec![1u8, 1]);
    let again = r.resolve(Some(&sni), Some(&plain_alpn()), &challenges, &issued, 11).unwrap();
    assert_eq!(again.key_der, vec![1u8, 1]);
}

#[test]
fn update_certificate_copies_the_slot() {
    let mut r = resolver();
    let mut issued = IssuedSlot::new();
    assert!(r.update_certificate(&issued).is_none());
    issued.install(key_data(3), 9);
    let got = r.update_certificate(&issued).unwrap();
    assert_eq!(got.chain, vec![vec![3u8; 4]]);
}
