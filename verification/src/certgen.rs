use vstd::prelude::*;

verus! {

#[verifier::external_type_specification]
#[verifier::external_body]
pub struct ExCertificate(rcgen::Certificate);

#[verifier::external_type_specification]
#[verifier::external_body]
pub struct ExRcgenError(rcgen::RcgenError);

/// Relies on `rcgen::generate_simple_self_signed`: a freshly generated
/// self-signed certificate with a random key for the given subject alt
/// names.  Nothing is assumed of the certificate bytes.
#[verifier::external_body]
pub(crate) fn generate_self_signed(domains: Vec<String>) -> (r: Result<
    rcgen::Certificate,
    rcgen::RcgenError,
>) {
    rcgen::generate_simple_self_signed(domains)
}

/// Relies on `rcgen::CertificateParams::new` and
/// `rcgen::Certificate::from_params`: a throwaway P-256 certificate for
/// the one domain, carrying the ACME key-authorization digest as the
/// acmeIdentifier extension (RFC 8737).  `new_acme_identifier` panics
/// unless the digest holds exactly 32 bytes, so that is required here.
#[verifier::external_body]
pub(crate) fn acme_challenge_certificate(domain: &String, digest: &Vec<u8>) -> (r: Result<
    rcgen::Certificate,
    rcgen::RcgenError,
>)
    requires
        digest@.len() == 32,
{
    let mut params = rcgen::CertificateParams::new(vec![domain.clone()]);
    params.alg = &rcgen::PKCS_ECDSA_P256_SHA256;
    params.custom_extensions = vec![rcgen::CustomExtension::new_acme_identifier(
        digest.as_slice(),
    )];
    rcgen::Certificate::from_params(params)
}

/// Relies on `rcgen::CertificateParams::new` and
/// `rcgen::Certificate::from_params`: a fresh P-256 certificate for the
/// managed domain set with an empty distinguished name, used only as the
/// carrier of the key pair and CSR submitted at finalization.
#[verifier::external_body]
pub(crate) fn csr_certificate(domains: Vec<String>) -> (r: Result<
    rcgen::Certificate,
    rcgen::RcgenError,
>) {
    let mut params = rcgen::CertificateParams::new(domains);
    params.distinguished_name = rcgen::DistinguishedName::new();
    params.alg = &rcgen::PKCS_ECDSA_P256_SHA256;
    rcgen::Certificate::from_params(params)
}

/// Relies on `rcgen::Certificate::serialize_der`.
#[verifier::external_body]
pub(crate) fn certificate_der(cert: &rcgen::Certificate) -> (r: Result<
    Vec<u8>,
    rcgen::RcgenError,
>) {
    cert.serialize_der()
}

/// Relies on `rcgen::Certificate::serialize_request_der`: the DER
/// certificate signing request for the certificate's parameters and key.
#[verifier::external_body]
pub(crate) fn certificate_csr_der(cert: &rcgen::Certificate) -> (r: Result<
    Vec<u8>,
    rcgen::RcgenError,
>) {
    cert.serialize_request_der()
}

/// Relies on `rcgen::Certificate::serialize_private_key_der`.
#[verifier::external_body]
pub(crate) fn certificate_key_der(cert: &rcgen::Certificate) -> (r: Vec<u8>) {
    cert.serialize_private_key_der()
}

/// Relies on `rcgen::Certificate::serialize_private_key_pem`.
#[verifier::external_body]
pub(crate) fn certificate_key_pem(cert: &rcgen::Certificate) -> (r: String) {
    cert.serialize_private_key_pem()
}

} // verus!
