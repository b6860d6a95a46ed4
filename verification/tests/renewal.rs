use packurl::driver::ensure_account_keys;
use packurl::driver::select_tls_alpn_challenge;
use packurl::driver::AcmeEngine;
use packurl::driver::Action;
use packurl::driver::AuthInfo;
use packurl::driver::ChallengeInfo;
use packurl::driver::ChallengeKind;
use packurl::driver::Directory;
use packurl::driver::Event;
use packurl::driver::OrderInfo;
use packurl::driver::ReplyKind;
use packurl::errors::AcmeError;
use packurl::store::AccountStore;
use packurl::store::CertificateState;
use packurl::store::CertifiedKeyData;

fn engine_and_state() -> (AcmeEngine, CertificateState) {
    let mut store = AccountStore::new();
    let pkcs8 = ensure_account_keys(&mut store).expect("keys");
    let engine = AcmeEngine::new(
        pkcs8,
        String::from("https://acme.example/acct/1"),
        vec![String::from("a.example"), String::from("b.example")],
    );
    (engine, CertificateState::new())
}

fn directory() -> Directory {
    Directory {
        new_account: String::from("https://acme.example/new-account"),
        new_nonce: String::from("https://acme.example/new-nonce"),
        new_order: String::from("https://acme.example/new-order"),
    }
}

fn tls_alpn_challenge(url: &str, token: &str) -> ChallengeInfo {
    ChallengeInfo {
        kind: ChallengeKind::TlsAlpn01,
        url: String::from(url),
        token: String::from(token),
    }
}

fn http_challenge() -> ChallengeInfo {
    ChallengeInfo {
        kind: ChallengeKind::Http01,
        url: String::from("https://acme.example/chall/http"),
        token: String::from("t"),
    }
}

fn expect_post(action: Action) -> (String, Option<String>, u64, ReplyKind) {
    match action {
        Action::Post { url, payload, delay_ms, expect } => (url, payload, delay_ms, expect),
        _ => panic!("expected a post action"),
    }
}

fn issued_chain(state: &CertificateState) -> Option<(Vec<Vec<u8>>, u64)> {
    state.issued.get_certificate().map(|(key, at)| (key.chain, at))
}

fn drive_one_authorization(
    engine: &mut AcmeEngine,
    certs: &mut CertificateState,
    domain: &str,
    chall_url: &str,
) {
    let auth = AuthInfo::Pending {
        domain: String::from(domain),
        challenges: vec![http_challenge(), tls_alpn_challenge(chall_url, "token")],
    };
    let (url, payload, delay, expect) = expect_post(engine.step(certs, Event::AuthResponse(auth), 0));
    assert_eq!(url, chall_url);
    assert_eq!(payload, Some(String::from("{}")));
    assert_eq!(delay, 0);
    assert_eq!(expect, ReplyKind::Challenge);
    let key = String::from(domain);
    assert!(certs.challenges.get_challenge_key(&key).is_some());
    let (url, payload, delay, expect) = expect_post(engine.step(certs, Event::ChallengeAccepted, 0));
    assert!(payload.is_none());
    assert_eq!(delay, packurl::driver::POLL_DELAY_MS);
    assert_eq!(expect, ReplyKind::Authorization);
    assert!(url.ends_with(&format!("auth-{}", domain)));
}

#[test]
fn full_renewal_installs_the_certificate_exactly_once() {
    let (mut engine, mut certs) = engine_and_state();
    let dir = directory();
    let (url, payload, _, expect) = expect_post(engine.start_renewal(&dir));
    assert_eq!(url, dir.new_order);
    assert_eq!(expect, ReplyKind::Order);
    assert_eq!(
        payload,
        Some(String::from(
            "{\"identifiers\":[{\"type\":\"dns\",\"value\":\"a.example\"},\
             {\"type\":\"dns\",\"value\":\"b.example\"}]}"
        ))
    );
    let order = OrderInfo::Pending {
        authorizations: vec![
            String::from("https://acme.example/auth-a.example"),
            String::from("https://acme.example/auth-b.example"),
        ],
        finalize: String::from("https://acme.example/finalize/9"),
    };
    let (url, payload, _, _) = expect_post(engine.step(&mut certs, Event::OrderResponse(order), 0));
    assert_eq!(url, "https://acme.example/auth-a.example");
    assert!(payload.is_none());

    drive_one_authorization(&mut engine, &mut certs, "a.example", "https://acme.example/chall-a");
    let (url, payload, _, _) = expect_post(engine.step(
        &mut certs,
        Event::AuthResponse(AuthInfo::Valid),
        0,
    ));
    assert_eq!(url, "https://acme.example/auth-b.example");
    assert!(payload.is_none());

    drive_one_authorization(&mut engine, &mut certs, "b.example", "https://acme.example/chall-b");
    // both challenge certificates stand during their windows and stay after
    let a = String::from("a.example");
    let b = String::from("b.example");
    assert!(certs.challenges.get_challenge_key(&a).is_some());
    assert!(certs.challenges.get_challenge_key(&b).is_some());
    assert!(issued_chain(&certs).is_none());

    let (url, payload, _, expect) = expect_post(engine.step(
        &mut certs,
        Event::AuthResponse(AuthInfo::Valid),
        0,
    ));
    assert_eq!(url, "https://acme.example/finalize/9");
    assert_eq!(expect, ReplyKind::Finalize);
    let csr_payload = payload.expect("finalize payload");
    assert!(csr_payload.starts_with("{\"csr\":\""));
    assert!(csr_payload.ends_with("\"}"));
    assert!(!csr_payload.contains('='));

    let action = engine.step(
        &mut certs,
        Event::FinalizeResponse(OrderInfo::Valid {
            certificate: String::from("https://acme.example/cert/3"),
        }),
        0,
    );
    match action {
        Action::Download { url } => assert_eq!(url, "https://acme.example/cert/3"),
        _ => panic!("expected a download action"),
    }

    let chain_pem = pem::encode(&pem::Pem {
        tag: String::from("CERTIFICATE"),
        contents: vec![0xde, 0xad],
    });
    let action = engine.step(
        &mut certs,
        Event::CertificateResponse(chain_pem.into_bytes()),
        777,
    );
    assert!(matches!(action, Action::Done));
    let (chain, at) = issued_chain(&certs).expect("installed");
    assert_eq!(at, 777);
    assert_eq!(chain, vec![vec![0xdeu8, 0xad]]);
    assert!(certs.challenges.get_challenge_key(&a).is_some());
    assert!(certs.challenges.get_challenge_key(&b).is_some());
}

#[test]
fn protocol_error_on_finalize_keeps_the_installed_certificate() {
    let (mut engine, mut certs) = engine_and_state();
    certs.issued.install(
        CertifiedKeyData { chain: vec![vec![7u8]], key_der: vec![7u8] },
        123,
    );
    let dir = directory();
    let _ = engine.start_renewal(&dir);
    let order = OrderInfo::Ready { finalize: String::from("https://acme.example/finalize/9") };
    let (url, _, _, _) = expect_post(engine.step(&mut certs, Event::OrderResponse(order), 0));
    assert_eq!(url, "https://acme.example/finalize/9");
    let action = engine.step(
        &mut certs,
        Event::RequestFailed(500, b"boom".to_vec()),
        200,
    );
    assert_eq!(
        action_error(action),
        AcmeError::Protocol { status: 500, body: b"boom".to_vec() }
    );
    assert_eq!(issued_chain(&certs), Some((vec![vec![7u8]], 123)));
}

#[test]
fn invalid_finalize_status_keeps_the_installed_certificate() {
    let (mut engine, mut certs) = engine_and_state();
    certs.issued.install(
        CertifiedKeyData { chain: vec![vec![7u8]], key_der: vec![7u8] },
        123,
    );
    let _ = engine.start_renewal(&directory());
    let order = OrderInfo::Ready { finalize: String::from("https://acme.example/finalize/9") };
    let _ = engine.step(&mut certs, Event::OrderResponse(order), 0);
    let action = engine.step(&mut certs, Event::FinalizeResponse(OrderInfo::Invalid), 200);
    assert!(matches!(action_error(action), AcmeError::Protocol { .. }));
    assert_eq!(issued_chain(&certs), Some((vec![vec![7u8]], 123)));
}

fn action_error(action: Action) -> AcmeError {
    match action {
        Action::Fail(e) => e,
        _ => panic!("expected a failure action"),
    }
}

#[test]
fn missing_tls_alpn_challenge_is_fatal() {
    let (mut engine, mut certs) = engine_and_state();
    let _ = engine.start_renewal(&directory());
    let order = OrderInfo::Pending {
        authorizations: vec![String::from("https://acme.example/auth-a.example")],
        finalize: String::from("https://acme.example/finalize/9"),
    };
    let _ = engine.step(&mut certs, Event::OrderResponse(order), 0);
    let auth = AuthInfo::Pending {
        domain: String::from("a.example"),
        challenges: vec![http_challenge()],
    };
    let action = engine.step(&mut certs, Event::AuthResponse(auth), 0);
    assert_eq!(action_error(action), AcmeError::ChallengeUnavailable);
    assert_eq!(
        AcmeError::ChallengeUnavailable.message(),
        "tls-alpn-01 challenge is not available"
    );
}

#[test]
fn exhausted_validation_poll_times_out() {
    let (mut engine, mut certs) = engine_and_state();
    let _ = engine.start_renewal(&directory());
    let order = OrderInfo::Pending {
        authorizations: vec![String::from("https://acme.example/auth-a.example")],
        finalize: String::from("https://acme.example/finalize/9"),
    };
    let _ = engine.step(&mut certs, Event::OrderResponse(order), 0);
    drive_one_authorization(&mut engine, &mut certs, "a.example", "https://acme.example/chall-a");
    let pending = || AuthInfo::Pending {
        domain: String::from("a.example"),
        challenges: vec![tls_alpn_challenge("https://acme.example/chall-a", "token")],
    };
    let mut last_delay = packurl::driver::POLL_DELAY_MS;
    for _ in 0..packurl::driver::MAX_POLL_RETRIES {
        let (url, payload, delay, _) = expect_post(engine.step(
            &mut certs,
            Event::AuthResponse(pending()),
            0,
        ));
        assert_eq!(url, "https://acme.example/auth-a.example");
        assert!(payload.is_none());
        assert!(delay >= last_delay);
        last_delay = delay;
    }
    let action = engine.step(&mut certs, Event::AuthResponse(pending()), 0);
    assert_eq!(action_error(action), AcmeError::AuthorizationTimeout);
}

#[test]
fn invalid_order_aborts_the_cycle() {
    let (mut engine, mut certs) = engine_and_state();
    let _ = engine.start_renewal(&directory());
    let action = engine.step(&mut certs, Event::OrderResponse(OrderInfo::Invalid), 0);
    assert!(matches!(action_error(action), AcmeError::Protocol { .. }));
}

#[test]
fn terminal_authorization_states_abort() {
    let (mut engine, mut certs) = engine_and_state();
    let _ = engine.start_renewal(&directory());
    let order = OrderInfo::Pending {
        authorizations: vec![String::from("https://acme.example/auth-a.example")],
        finalize: String::from("https://acme.example/finalize/9"),
    };
    let _ = engine.step(&mut certs, Event::OrderResponse(order), 0);
    let action = engine.step(&mut certs, Event::AuthResponse(AuthInfo::Invalid), 0);
    assert!(matches!(action_error(action), AcmeError::Protocol { .. }));
}

#[test]
fn challenge_selection_takes_the_first_tls_alpn_offer() {
    let challenges = vec![
        http_challenge(),
        tls_alpn_challenge("https://one.example", "t1"),
        tls_alpn_challenge("https://two.example", "t2"),
    ];
    assert_eq!(select_tls_alpn_challenge(&challenges), Some(1));
    assert_eq!(select_tls_alpn_challenge(&vec![http_challenge()]), None);
    assert_eq!(select_tls_alpn_challenge(&vec![]), None);
}

#[test]
fn registration_persists_the_account_url() {
    let mut store = AccountStore::new();
    let _ = ensure_account_keys(&mut store).unwrap();
    packurl::driver::complete_registration(&mut store, &String::from("https://a/acct/5"));
    assert_eq!(
        packurl::driver::restore_kid(&store),
        Ok(Some(String::from("https://a/acct/5")))
    );
    // restored keys parse again and stay stable
    let before = store.restore_account_keys().unwrap();
    let again = ensure_account_keys(&mut store).unwrap();
    assert_eq!(before, again);
}
