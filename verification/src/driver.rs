use vstd::prelude::*;

use crate::b64::b64url_encode;
use crate::b64::b64url_of;
use crate::bytes::append_bytes;
use crate::certgen::{
    acme_challenge_certificate, certificate_csr_der, certificate_der, certificate_key_der,
    certificate_key_pem, csr_certificate,
};
use crate::crypto::generate_p256_pkcs8;
use crate::crypto::p256_public_key;
use crate::errors::AcmeError;
use crate::jose::{jose, spec_protected_json, Jws};
use crate::payloads::{empty_object_payload, finalize_payload, new_order_payload};
use crate::pemfile::{spec_certified_key_of_pem, spec_pem_installable};
use crate::store::{AccountStore, CertificateState, CertifiedKeyData};
use crate::strutil::string_from_utf8;
use vstd::utf8::encode_utf8;

verus! {

/// How long to wait before the first validation status check, in
/// milliseconds.
pub const POLL_DELAY_MS: u64 = 5_000;

/// How many times a still-pending authorization is re-checked before the
/// bounded poll gives up with an authorization timeout.
pub const MAX_POLL_RETRIES: u8 = 5;

/// The ACME API endpoint URLs, fetched fresh at the start of every
/// renewal cycle and never cached across cycles.
pub struct Directory {
    pub new_account: String,
    pub new_nonce: String,
    pub new_order: String,
}

/// An ACME order resource, as the server reports it.
pub enum OrderInfo {
    Pending { authorizations: Vec<String>, finalize: String },
    Ready { finalize: String },
    Valid { certificate: String },
    Invalid,
}

/// The challenge types an authorization may offer.
#[derive(PartialEq, Eq, Structural)]
pub enum ChallengeKind {
    Http01,
    Dns01,
    TlsAlpn01,
}

/// One challenge offered by an authorization.
pub struct ChallengeInfo {
    pub kind: ChallengeKind,
    pub url: String,
    pub token: String,
}

/// An ACME authorization resource, as the server reports it.
pub enum AuthInfo {
    Pending { domain: String, challenges: Vec<ChallengeInfo> },
    Valid,
    Invalid,
    Expired,
    Revoked,
}

/// One server reply, handed to the driver by the transport loop.
pub enum Event {
    OrderResponse(OrderInfo),
    AuthResponse(AuthInfo),
    ChallengeAccepted,
    FinalizeResponse(OrderInfo),
    CertificateResponse(Vec<u8>),
    RequestFailed(u16, Vec<u8>),
}

/// What kind of resource a posted request's reply describes, so that the
/// transport knows how to decode it.
#[derive(Clone, Copy, Debug, PartialEq, Eq, Structural)]
pub enum ReplyKind {
    Order,
    Authorization,
    Challenge,
    Finalize,
}

/// What the transport loop must do next.  `Post` is a signed request to
/// `url` with the given payload (none meaning POST-as-GET), sent after
/// `delay_ms` milliseconds, whose reply is an `expect` resource.
/// `Download` is a signed POST-as-GET expecting the PEM certificate chain
/// as text.
pub enum Action {
    Post { url: String, payload: Option<String>, delay_ms: u64, expect: ReplyKind },
    Download { url: String },
    Done,
    Fail(AcmeError),
}

/// Where the driver stands inside one renewal cycle.
pub enum DriverState {
    Idle,
    AwaitingOrder,
    AwaitingAuth { current: String, remaining: Vec<String>, finalize: String },
    AwaitingTrigger {
        auth_url: String,
        remaining: Vec<String>,
        finalize: String,
        retries: u8,
        next_poll_ms: u64,
    },
    AwaitingRecheck {
        auth_url: String,
        remaining: Vec<String>,
        finalize: String,
        retries: u8,
        next_poll_ms: u64,
    },
    AwaitingFinalize { key_pem: Vec<u8> },
    AwaitingCertificate { key_pem: Vec<u8> },
    Completed,
    Failed,
}

/// Whether an authorization offers a `tls-alpn-01` challenge.
pub open spec fn spec_has_tls_alpn(chs: Seq<ChallengeInfo>) -> bool {
    exists|i: int| 0 <= i < chs.len() && chs[i].kind is TlsAlpn01
}

/// Select the `tls-alpn-01` challenge: the first offered one.
pub fn select_tls_alpn_challenge(chs: &Vec<ChallengeInfo>) -> (r: Option<usize>)
    ensures
        r is Some <==> spec_has_tls_alpn(chs@),
        r matches Some(i) ==> i < chs@.len() && chs@[i as int].kind is TlsAlpn01 && forall|j: int|
            0 <= j < i ==> !((#[trigger] chs@[j]).kind is TlsAlpn01),
{
    let n = chs.len();
    let mut i: usize = 0;
    while i < n
        invariant
            i <= n,
            n == chs@.len(),
            forall|j: int| 0 <= j < i ==> !((#[trigger] chs@[j]).kind is TlsAlpn01),
        decreases n - i,
    {
        if chs[i].kind == ChallengeKind::TlsAlpn01 {
            return Some(i);
        }
        i = i + 1;
    }
    None
}

/// An action that begins finalization of the order at `finalize`: either
/// a signed POST of a CSR payload to that URL, or a cryptographic failure
/// while building the CSR.
pub open spec fn spec_finalize_action(r: Action, finalize: Seq<char>) -> bool {
    ||| (r matches Action::Post { url, payload, delay_ms, expect } && url@ == finalize && payload
        is Some && delay_ms == 0 && expect is Finalize)
    ||| r == Action::Fail(AcmeError::Crypto)
}

/// An action that either starts the next authorization of `remaining` or,
/// with none left, begins finalization.
pub open spec fn spec_advance_action(
    r: Action,
    remaining: Seq<Seq<char>>,
    finalize: Seq<char>,
) -> bool {
    if remaining.len() > 0 {
        r matches Action::Post { url, payload, delay_ms, expect } && url@ == remaining[0]
            && payload is None && delay_ms == 0 && expect is Authorization
    } else {
        spec_finalize_action(r, finalize)
    }
}

/// The view of the authorization URLs of a state's `remaining` list.
pub open spec fn spec_urls(urls: Seq<String>) -> Seq<Seq<char>> {
    Seq::new(urls.len(), |i: int| urls[i]@)
}

// ---------------------------------------------------------------------------
// Account initialization
// ---------------------------------------------------------------------------
/// Restore the account key document from the store, or generate a fresh
/// P-256 key pair and persist it — which atomically invalidates any stored
/// account id, since an id is only valid with the key that produced it.
/// A document that does not parse as a P-256 key, and a failing key
/// generation, are fatal.
pub fn ensure_account_keys(store: &mut AccountStore) -> (r: Result<Vec<u8>, AcmeError>)
    ensures
        old(store)@.keys matches Some(k) ==> {
            &&& final(store)@ == old(store)@
            &&& (r matches Ok(b) ==> b@ == k)
        },
        old(store)@.keys is None ==> {
            &&& (r matches Ok(b) ==> final(store)@ == crate::store::spec_backup_keys(
                old(store)@,
                b@,
            ))
            &&& (r is Err ==> final(store)@ == old(store)@)
        },
        r matches Err(e) ==> e == AcmeError::Crypto,
{
    match store.restore_account_keys() {
        Some(bytes) => {
            if p256_public_key(&bytes).is_none() {
                return Err(AcmeError::Crypto);
            }
            Ok(bytes)
        },
        None => {
            let bytes = match generate_p256_pkcs8() {
                Some(b) => b,
                None => {
                    return Err(AcmeError::Crypto);
                },
            };
            store.backup_account_keys(&bytes);
            Ok(bytes)
        },
    }
}

/// The stored account id as a string, if one is stored.  Stored bytes
/// that are not valid UTF-8 are a storage failure.
pub fn restore_kid(store: &AccountStore) -> (r: Result<Option<String>, AcmeError>)
    ensures
        store@.kid is None ==> (r matches Ok(o) && o is None),
        store@.kid matches Some(b) ==> (vstd::utf8::valid_utf8(b) ==> (r matches Ok(o) && (o
            matches Some(s) && encode_utf8(s@) == b))),
        store@.kid matches Some(b) && !vstd::utf8::valid_utf8(b) ==> r == Err::<
            Option<String>,
            AcmeError,
        >(AcmeError::Storage),
{
    match store.restore_account_kid() {
        Some(bytes) => match string_from_utf8(bytes) {
            Some(s) => Ok(Some(s)),
            None => Err(AcmeError::Storage),
        },
        None => Ok(None),
    }
}

/// Persist the account URL returned by a successful registration.
pub fn complete_registration(store: &mut AccountStore, kid: &String)
    ensures
        final(store)@.kid == Some(encode_utf8(kid@)),
        final(store)@.keys == old(store)@.keys,
{
    let bytes = kid.as_str().as_bytes_vec();
    store.backup_account_kid(&bytes);
}

// ---------------------------------------------------------------------------
// The renewal driver
// ---------------------------------------------------------------------------
/// The ACME protocol driver for one account: it signs every outbound
/// request with the account key, walks order creation, authorization,
/// validation polling, finalization and download, and installs the result
/// into the issued certificate slot.  All network traffic is done by a
/// transport loop outside, which performs each returned [`Action`] and
/// hands the reply back as an [`Event`].
pub struct AcmeEngine {
    pkcs8: Vec<u8>,
    kid: String,
    domains: Vec<String>,
    state: DriverState,
}

impl AcmeEngine {
    /// The account key document.
    pub closed spec fn spec_pkcs8(&self) -> Seq<u8> {
        self.pkcs8@
    }

    /// The account URL.
    pub closed spec fn spec_kid(&self) -> Seq<char> {
        self.kid@
    }

    /// The managed domain set, in order.
    pub closed spec fn spec_domains(&self) -> Seq<Seq<char>> {
        Seq::new(self.domains@.len(), |i: int| self.domains@[i]@)
    }

    /// Where the driver stands.
    pub closed spec fn spec_state(&self) -> DriverState {
        self.state
    }

    /// A driver for a registered account.
    pub fn new(pkcs8: Vec<u8>, kid: String, domains: Vec<String>) -> (r: AcmeEngine)
        ensures
            r.spec_pkcs8() == pkcs8@,
            r.spec_kid() == kid@,
            r.spec_domains() == Seq::new(domains@.len(), |i: int| domains@[i]@),
            r.spec_state() is Idle,
    {
        AcmeEngine { pkcs8, kid, domains, state: DriverState::Idle }
    }

    /// Sign one ACME request with the account key: with the account URL
    /// as `kid` for ordinary requests, or with the full public JWK when
    /// `with_kid` is false (account creation).
    pub fn sign_request(
        &self,
        payload: Option<&String>,
        with_kid: bool,
        nonce: &String,
        url: &String,
    ) -> (r: Result<Jws, AcmeError>)
        ensures
            r matches Ok(jws) ==> {
                &&& jws.protected@ == b64url_of(
                    encode_utf8(
                        spec_protected_json(
                            self.spec_pkcs8(),
                            if with_kid {
                                Some(self.spec_kid())
                            } else {
                                None
                            },
                            nonce@,
                            url@,
                        ),
                    ),
                )
                &&& (payload matches Some(p) ==> jws.payload@ == b64url_of(encode_utf8(p@)))
                &&& (payload is None ==> jws.payload@ == Seq::<char>::empty())
            },
            r matches Err(e) ==> e == AcmeError::Crypto,
    {
        if with_kid {
            jose(&self.pkcs8, payload, Some(&self.kid), nonce, url)
        } else {
            jose(&self.pkcs8, payload, None, nonce, url)
        }
    }

    /// Open a renewal cycle: ask for a new order over the managed domain
    /// set, at the new-order endpoint of the freshly fetched directory.
    pub fn start_renewal(&mut self, directory: &Directory) -> (r: Action)
        ensures
            final(self).spec_pkcs8() == old(self).spec_pkcs8(),
            final(self).spec_kid() == old(self).spec_kid(),
            final(self).spec_domains() == old(self).spec_domains(),
            final(self).spec_state() is AwaitingOrder,
            r matches Action::Post { url, payload, delay_ms, expect } && url@
                == directory.new_order@ && (payload matches Some(p) && p@
                == crate::payloads::spec_new_order_payload(old(self).spec_domains())) && delay_ms
                == 0 && expect is Order,
    {
        let payload = new_order_payload(&self.domains);
        self.state = DriverState::AwaitingOrder;
        Action::Post {
            url: directory.new_order.clone(),
            payload: Some(payload),
            delay_ms: 0,
            expect: ReplyKind::Order,
        }
    }

    /// Start the next authorization of `remaining`, or begin finalization
    /// when none is left.
    fn advance_auth(&mut self, remaining: Vec<String>, finalize: String) -> (r: Action)
        ensures
            final(self).spec_pkcs8() == old(self).spec_pkcs8(),
            final(self).spec_kid() == old(self).spec_kid(),
            final(self).spec_domains() == old(self).spec_domains(),
            spec_advance_action(r, spec_urls(remaining@), finalize@),
            r matches Action::Fail(_) ==> final(self).spec_state() is Failed,
    {
        let mut remaining = remaining;
        if remaining.len() > 0 {
            let current = remaining.remove(0);
            let url = current.clone();
            self.state = DriverState::AwaitingAuth { current, remaining, finalize };
            Action::Post { url, payload: None, delay_ms: 0, expect: ReplyKind::Authorization }
        } else {
            self.begin_finalize(finalize)
        }
    }

    /// Build a fresh key pair and CSR for the managed domain set and post
    /// it to the finalize URL.  The new private key is kept, in PEM form,
    /// to be prepended to the downloaded chain.
    fn begin_finalize(&mut self, finalize: String) -> (r: Action)
        ensures
            final(self).spec_pkcs8() == old(self).spec_pkcs8(),
            final(self).spec_kid() == old(self).spec_kid(),
            final(self).spec_domains() == old(self).spec_domains(),
            spec_finalize_action(r, finalize@),
            r matches Action::Fail(_) ==> final(self).spec_state() is Failed,
    {
        let cert = match csr_certificate(self.domains.clone()) {
            Ok(c) => c,
            Err(_) => {
                self.state = DriverState::Failed;
                return Action::Fail(AcmeError::Crypto);
            },
        };
        let csr = match certificate_csr_der(&cert) {
            Ok(d) => d,
            Err(_) => {
                self.state = DriverState::Failed;
                return Action::Fail(AcmeError::Crypto);
            },
        };
        let key_pem = certificate_key_pem(&cert);
        let key_pem_bytes = key_pem.as_str().as_bytes_vec();
        let csr_b64 = b64url_encode(&csr);
        let payload = finalize_payload(&csr_b64);
        self.state = DriverState::AwaitingFinalize { key_pem: key_pem_bytes };
        Action::Post {
            url: finalize,
            payload: Some(payload),
            delay_ms: 0,
            expect: ReplyKind::Finalize,
        }
    }

    /// Feed one server reply to the driver and get the next thing to do.
    ///
    /// The account store is never touched here.  The issued certificate
    /// slot moves only when a downloaded certificate actually installs:
    /// any failure — an HTTP failure, an invalid order or authorization,
    /// a missing challenge type, an exhausted validation poll, a chain
    /// that does not parse — aborts the cycle and leaves the previously
    /// installed certificate in place.
    pub fn step(&mut self, certs: &mut CertificateState, event: Event, now: u64) -> (r: Action)
        ensures
            final(self).spec_pkcs8() == old(self).spec_pkcs8(),
            final(self).spec_kid() == old(self).spec_kid(),
            final(self).spec_domains() == old(self).spec_domains(),
            final(certs).account@ == old(certs).account@,
            r matches Action::Fail(_) ==> final(self).spec_state() is Failed,
            r is Done ==> final(self).spec_state() is Completed,
            // a failed exchange aborts the cycle with the status and body kept
            event matches Event::RequestFailed(status, body) ==> r == Action::Fail(
                AcmeError::Protocol { status, body },
            ),
            // the issued slot never moves except at installation
            !(old(self).spec_state() is AwaitingCertificate && event is CertificateResponse)
                ==> final(certs).issued.spec_current() == old(certs).issued.spec_current(),
            // exact installation effect
            old(self).spec_state() matches DriverState::AwaitingCertificate { key_pem } ==> (event
                matches Event::CertificateResponse(body) ==> ({
                let combined = key_pem@ + seq![10u8] + body@;
                &&& (spec_pem_installable(combined) ==> final(certs).issued.spec_current() == Some(
                    (spec_certified_key_of_pem(combined), now),
                ) && r is Done)
                &&& (!spec_pem_installable(combined) ==> final(certs).issued.spec_current() == old(
                    certs,
                ).issued.spec_current() && r == Action::Fail(AcmeError::Crypto))
            })),
            // the challenge store moves only for the domain under authorization
            forall|d: Seq<char>|
                final(certs).challenges.spec_get(d) != old(certs).challenges.spec_get(d) ==> (old(
                    self,
                ).spec_state() is AwaitingAuth && (event matches Event::AuthResponse(
                    AuthInfo::Pending { domain, .. },
                ) && d == domain@)),
            // order outcomes
            old(self).spec_state() is AwaitingOrder ==> (event matches Event::OrderResponse(
                OrderInfo::Pending { authorizations, finalize },
            ) ==> spec_advance_action(r, spec_urls(authorizations@), finalize@)),
            old(self).spec_state() is AwaitingOrder ==> (event matches Event::OrderResponse(
                OrderInfo::Ready { finalize },
            ) ==> spec_finalize_action(r, finalize@)),
            old(self).spec_state() is AwaitingOrder ==> (event matches Event::OrderResponse(
                OrderInfo::Invalid,
            ) ==> r matches Action::Fail(AcmeError::Protocol { .. })),
            // a pending authorization: select tls-alpn-01, install the
            // challenge certificate, trigger validation
            old(self).spec_state() is AwaitingAuth ==> (event matches Event::AuthResponse(
                AuthInfo::Pending { domain, challenges },
            ) ==> {
                &&& (!spec_has_tls_alpn(challenges@) ==> r == Action::Fail(
                    AcmeError::ChallengeUnavailable,
                ))
                &&& (r matches Action::Fail(e) ==> e == AcmeError::ChallengeUnavailable || e
                    == AcmeError::Crypto)
                &&& (r matches Action::Post { url, payload, delay_ms, expect } ==> (final(certs).challenges.spec_get(domain@) is Some && (exists|i: int|
                    0 <= i < challenges@.len() && (#[trigger] challenges@[i]).kind is TlsAlpn01
                        && url@ == challenges@[i].url@) && (payload matches Some(p) && p@ == "{}"@)
                    && delay_ms == 0 && expect is Challenge))
            }),
            // a valid authorization advances to the next one, or finalizes
            old(self).spec_state() matches DriverState::AwaitingAuth { remaining, finalize, .. }
                ==> (event matches Event::AuthResponse(AuthInfo::Valid) ==> spec_advance_action(
                r,
                spec_urls(remaining@),
                finalize@,
            )),
            old(self).spec_state() matches DriverState::AwaitingRecheck { remaining, finalize, .. }
                ==> (event matches Event::AuthResponse(AuthInfo::Valid) ==> spec_advance_action(
                r,
                spec_urls(remaining@),
                finalize@,
            )),
            // an accepted trigger schedules the delayed status re-check
            old(self).spec_state() matches DriverState::AwaitingTrigger {
                auth_url,
                next_poll_ms,
                ..
            } ==> (event is ChallengeAccepted ==> (r matches Action::Post {
                url,
                payload,
                delay_ms,
                expect,
            } && url@ == auth_url@ && payload is None && delay_ms == next_poll_ms && expect
                is Authorization)),
            // a still-pending re-check retries with backoff until the
            // bounded poll is exhausted
            old(self).spec_state() matches DriverState::AwaitingRecheck { auth_url, retries, .. }
                ==> (event matches Event::AuthResponse(AuthInfo::Pending { .. }) ==> {
                &&& (retries > 0 ==> (r matches Action::Post { url, payload, expect, .. } && url@
                    == auth_url@ && payload is None && expect is Authorization))
                &&& (retries == 0 ==> r == Action::Fail(AcmeError::AuthorizationTimeout))
            }),
            // terminal authorization states abort the cycle
            old(self).spec_state() is AwaitingAuth || old(self).spec_state() is AwaitingRecheck
                ==> (event matches Event::AuthResponse(a) ==> ((a is Invalid || a is Expired
                || a is Revoked) ==> r matches Action::Fail(AcmeError::Protocol { .. }))),
            // finalize outcomes
            old(self).spec_state() is AwaitingFinalize ==> (event matches Event::FinalizeResponse(
                OrderInfo::Valid { certificate },
            ) ==> (r matches Action::Download { url } && url@ == certificate@)),
            old(self).spec_state() is AwaitingFinalize ==> (event matches Event::FinalizeResponse(
                o,
            ) ==> (!(o is Valid) ==> r matches Action::Fail(AcmeError::Protocol { .. }))),
    {
        let mut state = DriverState::Failed;
        core::mem::swap(&mut state, &mut self.state);
        match (state, event) {
            (_, Event::RequestFailed(status, body)) => {
                self.state = DriverState::Failed;
                Action::Fail(AcmeError::Protocol { status, body })
            },
            (DriverState::AwaitingOrder, Event::OrderResponse(order)) => match order {
                OrderInfo::Pending { authorizations, finalize } => {
                    self.advance_auth(authorizations, finalize)
                },
                OrderInfo::Ready { finalize } => self.begin_finalize(finalize),
                _ => {
                    self.state = DriverState::Failed;
                    Action::Fail(AcmeError::Protocol { status: 200, body: Vec::new() })
                },
            },
            (
                DriverState::AwaitingAuth { current, remaining, finalize },
                Event::AuthResponse(auth),
            ) => match auth {
                AuthInfo::Valid => self.advance_auth(remaining, finalize),
                AuthInfo::Pending { domain, challenges } => {
                    let idx = match select_tls_alpn_challenge(&challenges) {
                        Some(i) => i,
                        None => {
                            self.state = DriverState::Failed;
                            return Action::Fail(AcmeError::ChallengeUnavailable);
                        },
                    };
                    let digest = match crate::jose::authorization_hash(
                        &self.pkcs8,
                        &challenges[idx].token,
                    ) {
                        Ok(d) => d,
                        Err(e) => {
                            self.state = DriverState::Failed;
                            return Action::Fail(e);
                        },
                    };
                    let cert = match acme_challenge_certificate(&domain, &digest) {
                        Ok(c) => c,
                        Err(_) => {
                            self.state = DriverState::Failed;
                            return Action::Fail(AcmeError::Crypto);
                        },
                    };
                    let der = match certificate_der(&cert) {
                        Ok(d) => d,
                        Err(_) => {
                            self.state = DriverState::Failed;
                            return Action::Fail(AcmeError::Crypto);
                        },
                    };
                    let key_der = certificate_key_der(&cert);
                    let mut chain: Vec<Vec<u8>> = Vec::new();
                    chain.push(der);
                    certs.challenges.set_challenge_key(
                        &domain,
                        CertifiedKeyData { chain, key_der },
                    );
                    let url = challenges[idx].url.clone();
                    self.state = DriverState::AwaitingTrigger {
                        auth_url: current,
                        remaining,
                        finalize,
                        retries: MAX_POLL_RETRIES,
                        next_poll_ms: POLL_DELAY_MS,
                    };
                    Action::Post {
                        url,
                        payload: Some(empty_object_payload()),
                        delay_ms: 0,
                        expect: ReplyKind::Challenge,
                    }
                },
                _ => {
                    self.state = DriverState::Failed;
                    Action::Fail(AcmeError::Protocol { status: 200, body: Vec::new() })
                },
            },
            (
                DriverState::AwaitingTrigger { auth_url, remaining, finalize, retries, next_poll_ms },
                Event::ChallengeAccepted,
            ) => {
                let url = auth_url.clone();
                self.state = DriverState::AwaitingRecheck {
                    auth_url,
                    remaining,
                    finalize,
                    retries,
                    next_poll_ms,
                };
                Action::Post {
                    url,
                    payload: None,
                    delay_ms: next_poll_ms,
                    expect: ReplyKind::Authorization,
                }
            },
            (
                DriverState::AwaitingRecheck { auth_url, remaining, finalize, retries, next_poll_ms },
                Event::AuthResponse(auth),
            ) => match auth {
                AuthInfo::Valid => self.advance_auth(remaining, finalize),
                AuthInfo::Pending { .. } => {
                    if retries > 0 {
                        let backed_off: u64 = if next_poll_ms <= 40_000 {
                            next_poll_ms * 2
                        } else {
                            next_poll_ms
                        };
                        let url = auth_url.clone();
                        self.state = DriverState::AwaitingRecheck {
                            auth_url,
                            remaining,
                            finalize,
                            retries: retries - 1,
                            next_poll_ms: backed_off,
                        };
                        Action::Post {
                            url,
                            payload: None,
                            delay_ms: backed_off,
                            expect: ReplyKind::Authorization,
                        }
                    } else {
                        self.state = DriverState::Failed;
                        Action::Fail(AcmeError::AuthorizationTimeout)
                    }
                },
                _ => {
                    self.state = DriverState::Failed;
                    Action::Fail(AcmeError::Protocol { status: 200, body: Vec::new() })
                },
            },
            (DriverState::AwaitingFinalize { key_pem }, Event::FinalizeResponse(order)) => {
                match order {
                    OrderInfo::Valid { certificate } => {
                        self.state = DriverState::AwaitingCertificate { key_pem };
                        Action::Download { url: certificate }
                    },
                    _ => {
                        self.state = DriverState::Failed;
                        Action::Fail(AcmeError::Protocol { status: 200, body: Vec::new() })
                    },
                }
            },
            (DriverState::AwaitingCertificate { key_pem }, Event::CertificateResponse(body)) => {
                let ghost key_pem_bytes = key_pem@;
                let mut combined = key_pem;
                combined.push(10u8);
                append_bytes(&mut combined, &body);
                proof {
                    assert(combined@ =~= key_pem_bytes + seq![10u8] + body@);
                }
                match certs.issued.set_certificate(&combined, now) {
                    Ok(()) => {
                        self.state = DriverState::Completed;
                        Action::Done
                    },
                    Err(e) => {
                        self.state = DriverState::Failed;
                        Action::Fail(e)
                    },
                }
            },
            (_, _) => {
                self.state = DriverState::Failed;
                Action::Fail(AcmeError::Protocol { status: 0, body: Vec::new() })
            },
        }
    }
}

} // verus!
