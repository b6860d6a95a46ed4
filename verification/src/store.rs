use vstd::prelude::*;

use crate::bytes::copy_bytes;

verus! {

// ---------------------------------------------------------------------------
// Certified key material
// ---------------------------------------------------------------------------
/// A certificate chain (one or more DER certificates) plus the DER private
/// key able to sign with it.  This is the plain-data form of what the TLS
/// layer turns into its own certified-key object at the boundary.
pub struct CertifiedKeyData {
    pub chain: Vec<Vec<u8>>,
    pub key_der: Vec<u8>,
}

/// Mathematical view of [`CertifiedKeyData`].
#[verifier::ext_equal]
pub struct CertifiedKeyView {
    pub chain: Seq<Seq<u8>>,
    pub key_der: Seq<u8>,
}

impl View for CertifiedKeyData {
    type V = CertifiedKeyView;

    open spec fn view(&self) -> CertifiedKeyView {
        CertifiedKeyView {
            chain: Seq::new(self.chain@.len(), |i: int| self.chain@[i]@),
            key_der: self.key_der@,
        }
    }
}

impl CertifiedKeyData {
    /// An independent copy holding the same bytes.
    pub fn clone_data(&self) -> (r: CertifiedKeyData)
        ensures
            r@ == self@,
    {
        let mut chain: Vec<Vec<u8>> = Vec::new();
        let n = self.chain.len();
        let mut i: usize = 0;
        while i < n
            invariant
                i <= n,
                n == self.chain@.len(),
                chain@.len() == i,
                forall|j: int| 0 <= j < i ==> chain@[j]@ == self.chain@[j]@,
            decreases n - i,
        {
            chain.push(copy_bytes(&self.chain[i]));
            i = i + 1;
        }
        let r = CertifiedKeyData { chain, key_der: copy_bytes(&self.key_der) };
        proof {
            assert(r@.chain =~= self@.chain);
            assert(r@ =~= self@);
        }
        r
    }
}

// ---------------------------------------------------------------------------
// Account store
// ---------------------------------------------------------------------------
/// View of the account store: the persisted key document and account id.
#[verifier::ext_equal]
pub struct AccountStoreView {
    pub keys: Option<Seq<u8>>,
    pub kid: Option<Seq<u8>>,
}

/// What persisting a key document does to the store: the bytes are kept
/// and any stored account id is invalidated, because an id is only valid
/// paired with the key that produced it.
pub open spec fn spec_backup_keys(v: AccountStoreView, bytes: Seq<u8>) -> AccountStoreView {
    AccountStoreView { keys: Some(bytes), kid: None }
}

/// What persisting an account id does to the store.
pub open spec fn spec_backup_kid(v: AccountStoreView, bytes: Seq<u8>) -> AccountStoreView {
    AccountStoreView { keys: v.keys, kid: Some(bytes) }
}

/// Durable store for the ACME account key pair and account identifier.
/// Pure key-value durability; no network access.
pub struct AccountStore {
    keys: Option<Vec<u8>>,
    kid: Option<Vec<u8>>,
}

impl View for AccountStore {
    type V = AccountStoreView;

    closed spec fn view(&self) -> AccountStoreView {
        AccountStoreView {
            keys: match self.keys {
                Some(ref b) => Some(b@),
                None => None,
            },
            kid: match self.kid {
                Some(ref b) => Some(b@),
                None => None,
            },
        }
    }
}

impl AccountStore {
    /// A store holding nothing yet.
    pub fn new() -> (r: AccountStore)
        ensures
            r@.keys is None,
            r@.kid is None,
    {
        AccountStore { keys: None, kid: None }
    }

    /// The persisted account key document, if any.
    pub fn restore_account_keys(&self) -> (r: Option<Vec<u8>>)
        ensures
            r is Some <==> self@.keys is Some,
            r matches Some(b) ==> self@.keys == Some(b@),
    {
        match &self.keys {
            Some(b) => Some(copy_bytes(b)),
            None => None,
        }
    }

    /// The persisted account id, if any.
    pub fn restore_account_kid(&self) -> (r: Option<Vec<u8>>)
        ensures
            r is Some <==> self@.kid is Some,
            r matches Some(b) ==> self@.kid == Some(b@),
    {
        match &self.kid {
            Some(b) => Some(copy_bytes(b)),
            None => None,
        }
    }

    /// Persist a new account key document.  Atomically invalidates any
    /// stored account id.
    pub fn backup_account_keys(&mut self, bytes: &Vec<u8>)
        ensures
            final(self)@ == spec_backup_keys(old(self)@, bytes@),
    {
        self.keys = Some(copy_bytes(bytes));
        self.kid = None;
    }

    /// Persist the account id.
    pub fn backup_account_kid(&mut self, bytes: &Vec<u8>)
        ensures
            final(self)@ == spec_backup_kid(old(self)@, bytes@),
    {
        self.kid = Some(copy_bytes(bytes));
    }
}

/// Persisting account keys stores exactly those bytes, and afterwards no
/// account id is stored, whatever the store held before; persisting an id
/// afterwards leaves those keys in place.
pub proof fn lemma_account_store_round_trip(v: AccountStoreView, bytes: Seq<u8>, id: Seq<u8>)
    ensures
        spec_backup_keys(v, bytes).keys == Some(bytes),
        spec_backup_keys(v, bytes).kid is None,
        spec_backup_kid(spec_backup_keys(v, bytes), id).keys == Some(bytes),
        spec_backup_kid(spec_backup_keys(v, bytes), id).kid == Some(id),
{
}

// ---------------------------------------------------------------------------
// Challenge certificate store
// ---------------------------------------------------------------------------
/// First-match lookup over the entry list.
pub open spec fn seq_get(
    s: Seq<(String, CertifiedKeyData)>,
    domain: Seq<char>,
) -> Option<CertifiedKeyView>
    decreases s.len(),
{
    if s.len() == 0 {
        None
    } else if s[0].0@ == domain {
        Some(s[0].1@)
    } else {
        seq_get(s.skip(1), domain)
    }
}

proof fn lemma_seq_get_append(
    a: Seq<(String, CertifiedKeyData)>,
    b: Seq<(String, CertifiedKeyData)>,
    domain: Seq<char>,
)
    ensures
        seq_get(a + b, domain) == (if seq_get(a, domain) is Some {
            seq_get(a, domain)
        } else {
            seq_get(b, domain)
        }),
    decreases a.len(),
{
    if a.len() == 0 {
        assert(a + b =~= b);
    } else {
        lemma_seq_get_append(a.skip(1), b, domain);
        assert((a + b).skip(1) =~= a.skip(1) + b);
    }
}

proof fn lemma_seq_get_none(s: Seq<(String, CertifiedKeyData)>, domain: Seq<char>)
    requires
        forall|i: int| 0 <= i < s.len() ==> (#[trigger] s[i]).0@ != domain,
    ensures
        seq_get(s, domain) is None,
    decreases s.len(),
{
    if s.len() > 0 {
        assert(s[0].0@ != domain);
        lemma_seq_get_none(s.skip(1), domain);
    }
}

/// Ephemeral, per-domain self-signed certificates embedding the ACME
/// key-authorization extension; they only answer `tls-alpn-01` validation
/// handshakes.  Entries for different domains are independent and an entry
/// is overwritten whenever a new authorization attempt for its domain
/// begins.
pub struct ChallengeStore {
    entries: Vec<(String, CertifiedKeyData)>,
}

impl ChallengeStore {
    /// Lookup of the stored challenge certificate for a domain.
    pub closed spec fn spec_get(&self, domain: Seq<char>) -> Option<CertifiedKeyView> {
        seq_get(self.entries@, domain)
    }

    /// A store holding no challenge certificates.
    pub fn new() -> (r: ChallengeStore)
        ensures
            forall|d: Seq<char>| r.spec_get(d) is None,
    {
        let r = ChallengeStore { entries: Vec::new() };
        proof {
            assert forall|d: Seq<char>| r.spec_get(d) is None by {
                assert(r.entries@.len() == 0);
            }
        }
        r
    }

    /// Install (or overwrite) the challenge certificate for a domain,
    /// leaving every other domain's entry unchanged.
    pub fn set_challenge_key(&mut self, domain: &String, key: CertifiedKeyData)
        ensures
            final(self).spec_get(domain@) == Some(key@),
            forall|d: Seq<char>|
                d != domain@ ==> #[trigger] final(self).spec_get(d) == old(self).spec_get(d),
    {
        let ghost prev = self.entries@;
        self.entries.insert(0, (domain.clone(), key));
        proof {
            assert(self.entries@[0].0@ == domain@);
            assert(self.entries@.skip(1) =~= prev);
        }
    }

    /// The challenge certificate stored for a domain, if any.
    pub fn get_challenge_key(&self, domain: &String) -> (r: Option<CertifiedKeyData>)
        ensures
            r is Some <==> self.spec_get(domain@) is Some,
            r matches Some(k) ==> self.spec_get(domain@) == Some(k@),
    {
        let n = self.entries.len();
        let mut i: usize = 0;
        proof {
            assert(self.entries@.skip(0) =~= self.entries@);
        }
        while i < n
            invariant
                i <= n,
                n == self.entries@.len(),
                seq_get(self.entries@, domain@) == seq_get(self.entries@.skip(i as int), domain@),
            decreases n - i,
        {
            proof {
                assert(self.entries@.skip(i as int)[0] == self.entries@[i as int]);
                assert(self.entries@.skip(i as int).skip(1) =~= self.entries@.skip(i + 1 as int));
            }
            if self.entries[i].0.eq(domain) {
                return Some(self.entries[i].1.clone_data());
            }
            i = i + 1;
        }
        proof {
            assert(self.entries@.skip(n as int) =~= Seq::<(String, CertifiedKeyData)>::empty());
        }
        None
    }
}

// ---------------------------------------------------------------------------
// Issued certificate slot
// ---------------------------------------------------------------------------
/// The most recently issued real certificate together with the instant
/// (in seconds) at which it was loaded.  Shared, read-heavy, occasionally
/// written; once populated it never regresses to empty — no operation of
/// this type clears it.
pub struct IssuedSlot {
    current: Option<(CertifiedKeyData, u64)>,
}

impl IssuedSlot {
    /// The installed certificate and its load instant, if any.
    pub closed spec fn spec_current(&self) -> Option<(CertifiedKeyView, u64)> {
        match self.current {
            Some((ref k, t)) => Some((k@, t)),
            None => None,
        }
    }

    /// An empty slot: the pre-issuance state.
    pub fn new() -> (r: IssuedSlot)
        ensures
            r.spec_current() is None,
    {
        IssuedSlot { current: None }
    }

    /// Atomically replace the slot contents with a freshly obtained
    /// certificate and its retrieval instant.
    pub fn install(&mut self, key: CertifiedKeyData, now: u64)
        ensures
            final(self).spec_current() == Some((key@, now)),
    {
        self.current = Some((key, now));
    }

    /// The installed certificate, if any, with its load instant.
    pub fn get_certificate(&self) -> (r: Option<(CertifiedKeyData, u64)>)
        ensures
            r is Some <==> self.spec_current() is Some,
            r matches Some(p) ==> self.spec_current() == Some((p.0@, p.1)),
    {
        match &self.current {
            Some((k, t)) => Some((k.clone_data(), *t)),
            None => None,
        }
    }
}

// ---------------------------------------------------------------------------
// Combined certificate state
// ---------------------------------------------------------------------------
/// The three guarded slots of the engine, owned explicitly and passed by
/// reference into the driver, the resolver and the dispatcher.
pub struct CertificateState {
    pub account: AccountStore,
    pub challenges: ChallengeStore,
    pub issued: IssuedSlot,
}

impl CertificateState {
    /// Fresh state: nothing persisted, no challenge certificates, empty slot.
    pub fn new() -> (r: CertificateState)
        ensures
            r.account@.keys is None,
            r.account@.kid is None,
            forall|d: Seq<char>| r.challenges.spec_get(d) is None,
            r.issued.spec_current() is None,
    {
        CertificateState {
            account: AccountStore::new(),
            challenges: ChallengeStore::new(),
            issued: IssuedSlot::new(),
        }
    }
}

} // verus!
