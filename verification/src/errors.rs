use vstd::prelude::*;

verus! {

/// Errors of the certificate engine.
///
/// `Storage` is a durable read/write failure, fatal to account
/// initialization.  `Network` is a failed HTTP exchange with the ACME server.
/// `Protocol` is a non-success ACME response or an unexpected resource
/// status, carrying the HTTP status and response body for diagnosis; it
/// aborts the current renewal cycle only.  `Crypto` is a key generation,
/// signing or certificate construction failure.  `ChallengeUnavailable`
/// means the server offered no `tls-alpn-01` challenge and is fatal and
/// non-retryable.  `AuthorizationTimeout` means the bounded validation poll
/// was exhausted while the authorization stayed pending.
#[derive(Debug, PartialEq, Eq)]
pub enum AcmeError {
    Storage,
    Network,
    Protocol { status: u16, body: Vec<u8> },
    Crypto,
    ChallengeUnavailable,
    AuthorizationTimeout,
}

impl AcmeError {
    /// A short fixed description, usable where a displayable message is needed.
    pub fn message(&self) -> (r: &'static str)
        ensures
            r@ == self.spec_message(),
    {
        match self {
            AcmeError::Storage => "durable storage failed",
            AcmeError::Network => "request to the ACME server failed",
            AcmeError::Protocol { .. } => "unexpected ACME response",
            AcmeError::Crypto => "cryptographic operation failed",
            AcmeError::ChallengeUnavailable => "tls-alpn-01 challenge is not available",
            AcmeError::AuthorizationTimeout => "authorization stayed pending",
        }
    }

    pub open spec fn spec_message(&self) -> Seq<char> {
        match self {
            AcmeError::Storage => "durable storage failed"@,
            AcmeError::Network => "request to the ACME server failed"@,
            AcmeError::Protocol { .. } => "unexpected ACME response"@,
            AcmeError::Crypto => "cryptographic operation failed"@,
            AcmeError::ChallengeUnavailable => "tls-alpn-01 challenge is not available"@,
            AcmeError::AuthorizationTimeout => "authorization stayed pending"@,
        }
    }
}

} // verus!
