use vstd::prelude::*;

use crate::bytes::{bytes_eq, bytes_starts_with};
use crate::domains::{APEX, CDN, LOCALHOST, LOCALHOST_IPV4, LOCALHOST_IPV6, WWW};
use crate::resolver::{alpn_has_acme, alpn_view, spec_alpn_has_acme};
use vstd::utf8::encode_utf8;

verus! {

/// Where an accepted connection is handed after the ClientHello is read.
pub enum Route {
    NoServerName,
    AcmeValidation,
    Local,
    Cdn,
    Apex,
    Unrecognized,
}

/// The view of an optional borrowed server name.
pub open spec fn sni_view(sni: Option<&String>) -> Option<Seq<char>> {
    match sni {
        Some(s) => Some(s@),
        None => None,
    }
}

/// The routing table of the dispatcher: without SNI the connection is
/// dropped; `acme-tls/1` in the ALPN goes to the validation responder,
/// whatever the hostname; otherwise the server name picks the handler.
pub open spec fn spec_route(sni: Option<Seq<char>>, acme_alpn: bool) -> Route {
    match sni {
        None => Route::NoServerName,
        Some(name) => {
            if acme_alpn {
                Route::AcmeValidation
            } else if name == LOCALHOST@ || name == LOCALHOST_IPV4@ || name == LOCALHOST_IPV6@ {
                Route::Local
            } else if name == CDN@ {
                Route::Cdn
            } else if name == APEX@ || name == WWW@ {
                Route::Apex
            } else {
                Route::Unrecognized
            }
        },
    }
}

/// Exact text equality of two strings.
pub fn str_eq(a: &str, b: &str) -> (r: bool)
    ensures
        r == (a@ == b@),
{
    let an = a.unicode_len();
    let bn = b.unicode_len();
    if an != bn {
        proof {
            assert(a@.len() != b@.len());
        }
        return false;
    }
    let mut j: usize = 0;
    while j < an
        invariant
            j <= an,
            an == a@.len(),
            an == b@.len(),
            forall|k: int| 0 <= k < j ==> a@[k] == b@[k],
        decreases an - j,
    {
        if a.get_char(j) != b.get_char(j) {
            return false;
        }
        j = j + 1;
    }
    proof {
        assert(a@ =~= b@);
    }
    true
}

/// Decide where a connection goes, from its SNI and ALPN alone.
pub fn route_connection(sni: Option<&String>, alpn: Option<&Vec<Vec<u8>>>) -> (r: Route)
    ensures
        r == spec_route(sni_view(sni), spec_alpn_has_acme(alpn_view(alpn))),
{
    let name = match sni {
        Some(name) => name,
        None => {
            return Route::NoServerName;
        },
    };
    if alpn_has_acme(alpn) {
        return Route::AcmeValidation;
    }
    let n = name.as_str();
    if str_eq(n, LOCALHOST) || str_eq(n, LOCALHOST_IPV4) || str_eq(n, LOCALHOST_IPV6) {
        Route::Local
    } else if str_eq(n, CDN) {
        Route::Cdn
    } else if str_eq(n, APEX) || str_eq(n, WWW) {
        Route::Apex
    } else {
        Route::Unrecognized
    }
}

/// What the apex handler answers, decided by the first sixteen bytes of
/// the request.
pub enum ApexRequest {
    Root,
    ServiceWorker,
    Manifest,
    Favicon,
    UriTooLong,
    MethodNotAllowed,
}

/// Whether `s` starts with the bytes of `p`.
pub open spec fn spec_starts_with_bytes(s: Seq<u8>, p: Seq<u8>) -> bool {
    s.len() >= p.len() && s.subrange(0, p.len() as int) == p
}

/// The apex routing table: the four known request prefixes get their
/// replies, any other `GET` is a too-long URI, anything else is not
/// allowed.
pub open spec fn spec_apex_request(buf: Seq<u8>) -> ApexRequest {
    if buf == encode_utf8("GET / HTTP/1.1\r\n"@) {
        ApexRequest::Root
    } else if buf == encode_utf8("GET /sw.mjs HTTP"@) {
        ApexRequest::ServiceWorker
    } else if buf == encode_utf8("GET /pwa.json HT"@) {
        ApexRequest::Manifest
    } else if buf == encode_utf8("GET /favicon.ico"@) {
        ApexRequest::Favicon
    } else if spec_starts_with_bytes(buf, encode_utf8("GET "@)) {
        ApexRequest::UriTooLong
    } else {
        ApexRequest::MethodNotAllowed
    }
}

/// Decide the apex reply from the first sixteen request bytes.
pub fn route_apex(buf: &[u8]) -> (r: ApexRequest)
    requires
        buf@.len() == 16,
    ensures
        r == spec_apex_request(buf@),
{
    if bytes_eq(buf, "GET / HTTP/1.1\r\n".as_bytes()) {
        ApexRequest::Root
    } else if bytes_eq(buf, "GET /sw.mjs HTTP".as_bytes()) {
        ApexRequest::ServiceWorker
    } else if bytes_eq(buf, "GET /pwa.json HT".as_bytes()) {
        ApexRequest::Manifest
    } else if bytes_eq(buf, "GET /favicon.ico".as_bytes()) {
        ApexRequest::Favicon
    } else if bytes_starts_with(buf, "GET ".as_bytes()) {
        ApexRequest::UriTooLong
    } else {
        ApexRequest::MethodNotAllowed
    }
}

/// What the diagnostic handler answers.
pub enum LocalRequest {
    UpdateCache,
    NotFound,
}

/// The local routing table: only the cache update request is recognized.
pub open spec fn spec_local_request(buf: Seq<u8>) -> LocalRequest {
    if buf == encode_utf8("GET /update HTTP/1.1\r\n"@) {
        LocalRequest::UpdateCache
    } else {
        LocalRequest::NotFound
    }
}

/// Decide the diagnostic reply from the first request bytes.
pub fn route_local(buf: &[u8]) -> (r: LocalRequest)
    requires
        buf@.len() == 22,
    ensures
        r == spec_local_request(buf@),
{
    if bytes_eq(buf, "GET /update HTTP/1.1\r\n".as_bytes()) {
        LocalRequest::UpdateCache
    } else {
        LocalRequest::NotFound
    }
}

} // verus!
