use vstd::prelude::*;

verus! {

/// The SHA-256 digest of `data`.  Left uninterpreted: the outside
/// implementation is the authority; only its documented output length is
/// stated beside it.
pub uninterp spec fn sha256_of(data: Seq<u8>) -> Seq<u8>;

/// Relies on `ring::digest::digest` with `SHA256`, whose `output_len` is 32.
#[verifier::external_body]
pub(crate) fn sha256(data: &Vec<u8>) -> (r: Vec<u8>)
    ensures
        r@ == sha256_of(data@),
        r@.len() == 32,
{
    ring::digest::digest(&ring::digest::SHA256, data.as_slice()).as_ref().to_vec()
}

/// The public key of the P-256 key pair held in the PKCS#8 document
/// `pkcs8`, in the uncompressed SEC 1 point encoding.  A deterministic
/// function of the document bytes alone.
pub uninterp spec fn p256_public_key_of(pkcs8: Seq<u8>) -> Seq<u8>;

/// Relies on `ring::signature::EcdsaKeyPair::from_pkcs8` with
/// `ECDSA_P256_SHA256_FIXED_SIGNING` and `KeyPair::public_key`: parsing is
/// deterministic in the bytes, and the public key is the uncompressed
/// SEC 1 point of the key pair the document holds.
#[verifier::external_body]
pub(crate) fn p256_public_key(pkcs8: &Vec<u8>) -> (r: Option<Vec<u8>>)
    ensures
        r matches Some(pk) ==> pk@ == p256_public_key_of(pkcs8@),
{
    match ring::signature::EcdsaKeyPair::from_pkcs8(
        &ring::signature::ECDSA_P256_SHA256_FIXED_SIGNING,
        pkcs8.as_slice(),
    ) {
        Ok(kp) => Some(ring::signature::KeyPair::public_key(&kp).as_ref().to_vec()),
        Err(_) => None,
    }
}

/// Relies on `ring::signature::EcdsaKeyPair::sign` with `SystemRandom`: the
/// signature is randomized, so nothing is assumed of the returned bytes.
#[verifier::external_body]
pub(crate) fn p256_sign(pkcs8: &Vec<u8>, message: &Vec<u8>) -> (r: Option<Vec<u8>>) {
    let keypair = match ring::signature::EcdsaKeyPair::from_pkcs8(
        &ring::signature::ECDSA_P256_SHA256_FIXED_SIGNING,
        pkcs8.as_slice(),
    ) {
        Ok(kp) => kp,
        Err(_) => return None,
    };
    let rng = ring::rand::SystemRandom::new();
    match keypair.sign(&rng, message.as_slice()) {
        Ok(sig) => Some(sig.as_ref().to_vec()),
        Err(_) => None,
    }
}

/// Relies on `ring::signature::EcdsaKeyPair::generate_pkcs8` with
/// `SystemRandom`: a freshly generated random P-256 key pair in PKCS#8 v1
/// form; nothing is assumed of the bytes.
#[verifier::external_body]
pub(crate) fn generate_p256_pkcs8() -> (r: Option<Vec<u8>>) {
    let rng = ring::rand::SystemRandom::new();
    match ring::signature::EcdsaKeyPair::generate_pkcs8(
        &ring::signature::ECDSA_P256_SHA256_FIXED_SIGNING,
        &rng,
    ) {
        Ok(doc) => Some(doc.as_ref().to_vec()),
        Err(_) => None,
    }
}

} // verus!
