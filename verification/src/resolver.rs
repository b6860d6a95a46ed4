use vstd::prelude::*;

use crate::certgen::{certificate_der, certificate_key_der, generate_self_signed};
use crate::domains::DomainList;
use crate::errors::AcmeError;
use crate::store::{CertifiedKeyData, CertifiedKeyView, ChallengeStore, IssuedSlot};
use vstd::utf8::encode_utf8;

verus! {

/// Age in seconds beyond which a cached issued certificate triggers a
/// refresh from the slot: a little over one day.
pub const MAX_AGE_SECONDS: u64 = 90_000;

/// The ALPN protocol identifier of `tls-alpn-01` validation handshakes.
pub const ALPN_ACME_TLS: &'static str = "acme-tls/1";

/// The ALPN protocol identifier of ordinary traffic.
pub const ALPN_HTTP1: &'static str = "http/1.1";

/// Whether a protocol list contains `acme-tls/1`.
pub open spec fn spec_has_acme_proto(list: Seq<Seq<u8>>) -> bool {
    exists|i: int| 0 <= i < list.len() && list[i] == encode_utf8(ALPN_ACME_TLS@)
}

/// Whether an advertised ALPN protocol list contains `acme-tls/1`.
pub open spec fn spec_alpn_has_acme(alpn: Option<Seq<Seq<u8>>>) -> bool {
    match alpn {
        Some(list) => spec_has_acme_proto(list),
        None => false,
    }
}

/// Whether a cached certificate loaded at `loaded` is stale at `now`.
pub open spec fn spec_stale(loaded: u64, now: u64) -> bool {
    now > loaded && now - loaded > MAX_AGE_SECONDS
}

/// Exact protocol-list test for `acme-tls/1`.
pub fn alpn_has_acme(alpn: Option<&Vec<Vec<u8>>>) -> (r: bool)
    ensures
        r == spec_alpn_has_acme(match alpn {
            Some(list) => Some(list.deep_view()),
            None => None,
        }),
{
    match alpn {
        None => false,
        Some(list) => {
            let n = list.len();
            let mut i: usize = 0;
            while i < n
                invariant
                    i <= n,
                    n == list@.len(),
                    alpn == Some(list),
                    forall|j: int| 0 <= j < i ==> list.deep_view()[j] != encode_utf8(ALPN_ACME_TLS@),
                decreases n - i,
            {
                if crate::bytes::bytes_eq(list[i].as_slice(), ALPN_ACME_TLS.as_bytes()) {
                    proof {
                        assert(list@[i as int]@ == encode_utf8(ALPN_ACME_TLS@));
                        assert(list.deep_view()[i as int] =~= list@[i as int]@);
                        assert(spec_has_acme_proto(list.deep_view())) by {
                            assert(0 <= i < list.deep_view().len() && list.deep_view()[i as int]
                                == encode_utf8(ALPN_ACME_TLS@));
                        }
                        assert(spec_alpn_has_acme(alpn_view(alpn)));
                    }
                    return true;
                }
                proof {
                    assert(list.deep_view()[i as int] =~= list@[i as int]@);
                }
                i = i + 1;
            }
            false
        },
    }
}


/// The view of an optional advertised protocol list.
pub open spec fn alpn_view(alpn: Option<&Vec<Vec<u8>>>) -> Option<Seq<Seq<u8>>> {
    match alpn {
        Some(list) => Some(list.deep_view()),
        None => None,
    }
}

/// The full decision table of [`CertResolver::resolve`] for a present
/// SNI `name`: what is returned and how the cache moves.
pub open spec fn spec_resolved(
    pre: CertResolver,
    post: CertResolver,
    name: Seq<char>,
    acme_alpn: bool,
    challenges: &ChallengeStore,
    issued: &IssuedSlot,
    now: u64,
    r: Option<CertifiedKeyView>,
) -> bool {
    if !pre.spec_managed(name) {
        r == Some(pre.spec_self_signed()) && post.spec_cache() == pre.spec_cache()
    } else if acme_alpn {
        r == challenges.spec_get(name) && post.spec_cache() == pre.spec_cache()
    } else {
        match pre.spec_cache() {
            Some((k, loaded)) => {
                &&& r == Some(k)
                &&& (spec_stale(loaded, now) ==> match issued.spec_current() {
                    Some((ik, it)) => post.spec_cache() == Some((ik, it)),
                    None => post.spec_cache() == pre.spec_cache(),
                })
                &&& (!spec_stale(loaded, now) ==> post.spec_cache() == pre.spec_cache())
            },
            None => match issued.spec_current() {
                Some((ik, it)) => r == Some(ik) && post.spec_cache() == Some((ik, it)),
                None => r is None && post.spec_cache() == pre.spec_cache(),
            },
        }
    }
}

/// A read of a stale certificate never blocks the caller: with a
/// certificate cached, a resolution for a managed hostname with ordinary
/// ALPN serves that certificate immediately, whatever its age; staleness
/// only makes the cache take the slot's newer contents, for the next
/// handshake to see.
pub proof fn lemma_stale_read_served_immediately(
    pre: CertResolver,
    post: CertResolver,
    name: Seq<char>,
    challenges: &ChallengeStore,
    issued: &IssuedSlot,
    now: u64,
    r: Option<CertifiedKeyView>,
    k: CertifiedKeyView,
    loaded: u64,
)
    requires
        pre.spec_managed(name),
        pre.spec_cache() == Some((k, loaded)),
        spec_resolved(pre, post, name, false, challenges, issued, now, r),
    ensures
        r == Some(k),
        spec_stale(loaded, now) ==> (issued.spec_current() matches Some(p) ==> post.spec_cache()
            == Some(p)),
{
}

/// Decides, at each TLS ClientHello, which certificate to present: the
/// static self-signed fallback for hostnames outside the managed set, an
/// in-flight challenge certificate for `tls-alpn-01` handshakes, or the
/// latest issued certificate, cached here and refreshed from the issued
/// slot when it grows stale.
pub struct CertResolver {
    acme: Option<(CertifiedKeyData, u64)>,
    self_signed: CertifiedKeyData,
    managed: DomainList,
}

impl CertResolver {
    /// The cached issued certificate and its load instant, if any.
    pub closed spec fn spec_cache(&self) -> Option<(CertifiedKeyView, u64)> {
        match self.acme {
            Some((ref k, t)) => Some((k@, t)),
            None => None,
        }
    }

    /// The static self-signed certified key.
    pub closed spec fn spec_self_signed(&self) -> CertifiedKeyView {
        self.self_signed@
    }

    /// Whether a hostname is in the ACME-managed set.
    pub closed spec fn spec_managed(&self, name: Seq<char>) -> bool {
        self.managed.spec_contains(name)
    }

    /// Build a resolver around a fresh self-signed fallback certificate
    /// for `self_signed_domains`, managing `managed`.  Fails only when
    /// certificate generation or serialization fails.
    pub fn try_new(self_signed_domains: &DomainList, managed: DomainList) -> (r: Result<
        CertResolver,
        AcmeError,
    >)
        ensures
            r matches Ok(res) ==> {
                &&& res.spec_cache() is None
                &&& res.spec_self_signed().chain.len() == 1
                &&& forall|d: Seq<char>| res.spec_managed(d) == managed.spec_contains(d)
            },
            r matches Err(e) ==> e == AcmeError::Crypto,
    {
        let cert = match generate_self_signed(self_signed_domains.names()) {
            Ok(c) => c,
            Err(_) => {
                return Err(AcmeError::Crypto);
            },
        };
        let der = match certificate_der(&cert) {
            Ok(d) => d,
            Err(_) => {
                return Err(AcmeError::Crypto);
            },
        };
        let key_der = certificate_key_der(&cert);
        let mut chain: Vec<Vec<u8>> = Vec::new();
        chain.push(der);
        let self_signed = CertifiedKeyData { chain, key_der };
        Ok(CertResolver { acme: None, self_signed, managed })
    }

    /// Copy the slot contents into the cache, if the slot holds anything,
    /// and hand back the freshly cached certificate.
    pub fn update_certificate(&mut self, issued: &IssuedSlot) -> (r: Option<CertifiedKeyData>)
        ensures
            final(self).spec_self_signed() == old(self).spec_self_signed(),
            forall|d: Seq<char>| final(self).spec_managed(d) == old(self).spec_managed(d),
            match issued.spec_current() {
                Some((k, t)) => {
                    &&& r matches Some(rk) && rk@ == k
                    &&& final(self).spec_cache() == Some((k, t))
                },
                None => {
                    &&& r is None
                    &&& final(self).spec_cache() == old(self).spec_cache()
                },
            },
    {
        match issued.get_certificate() {
            Some((key, loaded)) => {
                let out = key.clone_data();
                self.acme = Some((key, loaded));
                Some(out)
            },
            None => None,
        }
    }

    /// Pick the certificate to present for a ClientHello.
    ///
    /// No SNI: nothing is ever served.  A hostname outside the managed
    /// set: always the static self-signed key, whatever the ALPN.  A
    /// managed hostname negotiating `acme-tls/1`: exactly the challenge
    /// store entry for that domain, or nothing while no authorization for
    /// it is in flight.  A managed hostname with ordinary ALPN: the cached
    /// issued certificate, served immediately even when stale — a stale
    /// cache only schedules a refresh from the slot for the next
    /// handshake — or, with a cold cache, whatever the slot holds now;
    /// nothing in the pre-issuance state.
    pub fn resolve(
        &mut self,
        sni: Option<&String>,
        alpn: Option<&Vec<Vec<u8>>>,
        challenges: &ChallengeStore,
        issued: &IssuedSlot,
        now: u64,
    ) -> (r: Option<CertifiedKeyData>)
        ensures
            final(self).spec_self_signed() == old(self).spec_self_signed(),
            forall|d: Seq<char>| final(self).spec_managed(d) == old(self).spec_managed(d),
            sni is None ==> r is None && final(self).spec_cache() == old(self).spec_cache(),
            sni matches Some(name) ==> spec_resolved(
                *old(self),
                *final(self),
                name@,
                spec_alpn_has_acme(alpn_view(alpn)),
                challenges,
                issued,
                now,
                match r {
                    Some(ref k) => Some(k@),
                    None => None,
                },
            ),
    {
        let name = match sni {
            Some(name) => name,
            None => {
                return None;
            },
        };
        if self.managed.find(name).is_none() {
            return Some(self.self_signed.clone_data());
        }
        if alpn_has_acme(alpn) {
            return challenges.get_challenge_key(name);
        }
        match &self.acme {
            Some((key, loaded)) => {
                let out = key.clone_data();
                let stale = now > *loaded && now - *loaded > MAX_AGE_SECONDS;
                if stale {
                    let _ = self.update_certificate(issued);
                }
                Some(out)
            },
            None => self.update_certificate(issued),
        }
    }
}

} // verus!
