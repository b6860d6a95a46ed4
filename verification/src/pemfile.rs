use vstd::prelude::*;

use crate::errors::AcmeError;
use crate::store::{CertifiedKeyData, CertifiedKeyView, IssuedSlot};

verus! {

/// The DER contents of each PEM block of `input`, in order, or nothing
/// when the text is not a well-formed PEM sequence.  A deterministic
/// function of the bytes; the outside parser is the authority.
pub uninterp spec fn pem_contents_of(input: Seq<u8>) -> Option<Seq<Seq<u8>>>;

/// Relies on `pem::parse_many`: parses the concatenation of PEM blocks
/// and yields the decoded contents of each block in order of appearance.
#[verifier::external_body]
pub(crate) fn parse_pem_contents(input: &Vec<u8>) -> (r: Option<Vec<Vec<u8>>>)
    ensures
        r is Some <==> pem_contents_of(input@) is Some,
        r matches Some(v) ==> pem_contents_of(input@) == Some(v.deep_view()),
{
    match pem::parse_many(input.as_slice()) {
        Ok(blocks) => Some(blocks.into_iter().map(|b| b.contents).collect()),
        Err(_) => None,
    }
}

/// The certified key described by a parsable PEM sequence of at least two
/// blocks: the first block is the private key, the remaining blocks are
/// the certificate chain.
pub open spec fn spec_certified_key_of_pem(input: Seq<u8>) -> CertifiedKeyView
    recommends
        pem_contents_of(input) is Some,
        pem_contents_of(input).unwrap().len() >= 2,
{
    let blocks = pem_contents_of(input).unwrap();
    CertifiedKeyView { chain: blocks.skip(1), key_der: blocks[0] }
}

/// Whether a PEM sequence is complete enough to install: it parses and
/// holds at least the private key block and one certificate.
pub open spec fn spec_pem_installable(input: Seq<u8>) -> bool {
    pem_contents_of(input) matches Some(blocks) && blocks.len() >= 2
}

/// Parse a combined PEM sequence (private key first, then the chain) into
/// plain certified-key data.  Rejects a sequence that does not parse or
/// holds fewer than two blocks.
pub fn certified_key_from_pem(pem: &Vec<u8>) -> (r: Result<CertifiedKeyData, AcmeError>)
    ensures
        r is Ok <==> spec_pem_installable(pem@),
        r matches Ok(k) ==> k@ == spec_certified_key_of_pem(pem@),
        r matches Err(e) ==> e == AcmeError::Crypto,
{
    let mut blocks = match parse_pem_contents(pem) {
        Some(v) => v,
        None => {
            return Err(AcmeError::Crypto);
        },
    };
    if blocks.len() < 2 {
        return Err(AcmeError::Crypto);
    }
    let ghost orig = blocks@;
    let ghost all = blocks.deep_view();
    let key_der = blocks.remove(0);
    let key = CertifiedKeyData { chain: blocks, key_der };
    proof {
        assert(forall|j: int| 0 <= j < orig.len() ==> all[j] =~= (#[trigger] orig[j])@);
        assert(key.chain@ =~= orig.skip(1));
        assert(key@.chain =~= all.skip(1));
        assert(key@ =~= spec_certified_key_of_pem(pem@));
    }
    Ok(key)
}

impl IssuedSlot {
    /// Parse a freshly downloaded PEM sequence and atomically replace the
    /// slot contents with it, stamped with the load instant `now`.  On a
    /// parse failure the previously installed certificate stays in place.
    pub fn set_certificate(&mut self, pem: &Vec<u8>, now: u64) -> (r: Result<(), AcmeError>)
        ensures
            r is Ok <==> spec_pem_installable(pem@),
            r is Ok ==> final(self).spec_current() == Some((spec_certified_key_of_pem(pem@), now)),
            r is Err ==> final(self).spec_current() == old(self).spec_current(),
            r matches Err(e) ==> e == AcmeError::Crypto,
    {
        match certified_key_from_pem(pem) {
            Ok(key) => {
                self.install(key, now);
                Ok(())
            },
            Err(e) => Err(e),
        }
    }
}

} // verus!
