use vstd::prelude::*;

use crate::b64::{b64url_encode, b64url_of, is_b64url_char};
use crate::bytes::sub_bytes;
use crate::crypto::{p256_public_key, p256_public_key_of, p256_sign, sha256, sha256_of};
use crate::errors::AcmeError;
use crate::strutil::string_push;
use vstd::utf8::encode_utf8;

verus! {

// ---------------------------------------------------------------------------
// JSON string escaping
// ---------------------------------------------------------------------------
/// The lower-case hexadecimal digit for a value below sixteen.
pub open spec fn spec_hex_digit(n: u32) -> char {
    if n == 0 {
        '0'
    } else if n == 1 {
        '1'
    } else if n == 2 {
        '2'
    } else if n == 3 {
        '3'
    } else if n == 4 {
        '4'
    } else if n == 5 {
        '5'
    } else if n == 6 {
        '6'
    } else if n == 7 {
        '7'
    } else if n == 8 {
        '8'
    } else if n == 9 {
        '9'
    } else if n == 10 {
        'a'
    } else if n == 11 {
        'b'
    } else if n == 12 {
        'c'
    } else if n == 13 {
        'd'
    } else if n == 14 {
        'e'
    } else {
        'f'
    }
}

/// How one character appears inside a JSON string literal: quotes and
/// backslashes are escaped, control characters become `\u00XX`, everything
/// else stands for itself.
pub open spec fn json_escaped_char(c: char) -> Seq<char> {
    if c == '"' {
        seq!['\\', '"']
    } else if c == '\\' {
        seq!['\\', '\\']
    } else if (c as u32) < 32 {
        seq!['\\', 'u', '0', '0', spec_hex_digit((c as u32) / 16), spec_hex_digit((c as u32) % 16)]
    } else {
        seq![c]
    }
}

/// The body of a JSON string literal holding the text `s`.
pub open spec fn json_escaped(s: Seq<char>) -> Seq<char>
    decreases s.len(),
{
    if s.len() == 0 {
        Seq::empty()
    } else {
        json_escaped_char(s[0]) + json_escaped(s.skip(1))
    }
}

proof fn lemma_json_escaped_snoc(s: Seq<char>, c: char)
    ensures
        json_escaped(s.push(c)) == json_escaped(s) + json_escaped_char(c),
    decreases s.len(),
{
    if s.len() == 0 {
        assert(s.push(c)[0] == c);
        assert(s.push(c).skip(1) =~= Seq::<char>::empty());
        assert(json_escaped(s.push(c)) == json_escaped_char(c) + json_escaped(
            Seq::<char>::empty(),
        ));
        assert(json_escaped(s.push(c)) =~= json_escaped(s) + json_escaped_char(c));
    } else {
        lemma_json_escaped_snoc(s.skip(1), c);
        assert(s.push(c).skip(1) =~= s.skip(1).push(c));
        assert(json_escaped(s.push(c)) =~= json_escaped(s) + json_escaped_char(c));
    }
}

pub(crate) fn hex_digit(n: u32) -> (r: char)
    requires
        n < 16,
    ensures
        r == spec_hex_digit(n),
{
    if n == 0 {
        '0'
    } else if n == 1 {
        '1'
    } else if n == 2 {
        '2'
    } else if n == 3 {
        '3'
    } else if n == 4 {
        '4'
    } else if n == 5 {
        '5'
    } else if n == 6 {
        '6'
    } else if n == 7 {
        '7'
    } else if n == 8 {
        '8'
    } else if n == 9 {
        '9'
    } else if n == 10 {
        'a'
    } else if n == 11 {
        'b'
    } else if n == 12 {
        'c'
    } else if n == 13 {
        'd'
    } else if n == 14 {
        'e'
    } else {
        'f'
    }
}

/// Escape `s` for use inside a JSON string literal.
pub fn json_escape(s: &str) -> (r: String)
    ensures
        r@ == json_escaped(s@),
{
    let n = s.unicode_len();
    let mut out = String::new();
    let mut i: usize = 0;
    while i < n
        invariant
            i <= n,
            n == s@.len(),
            out@ == json_escaped(s@.take(i as int)),
        decreases n - i,
    {
        let c = s.get_char(i);
        proof {
            lemma_json_escaped_snoc(s@.take(i as int), s@[i as int]);
            assert(s@.take(i as int).push(s@[i as int]) =~= s@.take(i + 1 as int));
        }
        if c == '"' {
            string_push(&mut out, '\\');
            string_push(&mut out, '"');
            proof {
                assert(out@ =~= json_escaped(s@.take(i + 1 as int)));
            }
        } else if c == '\\' {
            string_push(&mut out, '\\');
            string_push(&mut out, '\\');
            proof {
                assert(out@ =~= json_escaped(s@.take(i + 1 as int)));
            }
        } else if (c as u32) < 32 {
            let v = c as u32;
            string_push(&mut out, '\\');
            string_push(&mut out, 'u');
            string_push(&mut out, '0');
            string_push(&mut out, '0');
            string_push(&mut out, hex_digit(v / 16));
            string_push(&mut out, hex_digit(v % 16));
            proof {
                assert(out@ =~= json_escaped(s@.take(i + 1 as int)));
            }
        } else {
            string_push(&mut out, c);
            proof {
                assert(out@ =~= json_escaped(s@.take(i + 1 as int)));
            }
        }
        i = i + 1;
    }
    proof {
        assert(s@.take(n as int) =~= s@);
    }
    out
}

// ---------------------------------------------------------------------------
// Canonical JOSE documents
// ---------------------------------------------------------------------------
/// The public JWK document for a P-256 key with the given base64url
/// coordinates, fields in the fixed order `alg, crv, kty, use, x, y`.
pub open spec fn spec_jwk_json(x: Seq<char>, y: Seq<char>) -> Seq<char> {
    "{\"alg\":\"ES256\",\"crv\":\"P-256\",\"kty\":\"EC\",\"use\":\"sig\",\"x\":\""@ + x
        + "\",\"y\":\""@ + y + "\"}"@
}

/// The canonical JWK thumbprint document (RFC 7638): only the required
/// fields, serialized in the exact lexicographic order `crv, kty, x, y`.
/// This ordering is part of the protocol contract; any deviation changes
/// the thumbprint and validation fails against a compliant server.
pub open spec fn spec_jwk_thumbprint_json(x: Seq<char>, y: Seq<char>) -> Seq<char> {
    "{\"crv\":\"P-256\",\"kty\":\"EC\",\"x\":\""@ + x + "\",\"y\":\""@ + y + "\"}"@
}

/// The protected JOSE header: `alg`, then either the full public `jwk`
/// (account creation) or the account URL as `kid` (all later requests),
/// then `nonce` and `url`.
pub open spec fn spec_protected_json(
    pkcs8: Seq<u8>,
    kid: Option<Seq<char>>,
    nonce: Seq<char>,
    url: Seq<char>,
) -> Seq<char> {
    match kid {
        Some(k) => "{\"alg\":\"ES256\",\"kid\":\""@ + json_escaped(k) + "\",\"nonce\":\""@
            + json_escaped(nonce) + "\",\"url\":\""@ + json_escaped(url) + "\"}"@,
        None => "{\"alg\":\"ES256\",\"jwk\":"@ + spec_account_jwk(pkcs8) + ",\"nonce\":\""@
            + json_escaped(nonce) + "\",\"url\":\""@ + json_escaped(url) + "\"}"@,
    }
}

/// The JWK document derived from the account key: coordinates are the two
/// halves of the uncompressed public point, base64url encoded.
pub open spec fn spec_account_jwk(pkcs8: Seq<u8>) -> Seq<char> {
    let pk = p256_public_key_of(pkcs8);
    spec_jwk_json(b64url_of(pk.subrange(1, 33)), b64url_of(pk.subrange(33, 65)))
}

/// The serialized JWS request body `{protected, payload, signature}`.
pub open spec fn spec_jws_json(
    protected: Seq<char>,
    payload: Seq<char>,
    signature: Seq<char>,
) -> Seq<char> {
    "{\"protected\":\""@ + protected + "\",\"payload\":\""@ + payload + "\",\"signature\":\""@
        + signature + "\"}"@
}

/// The key-authorization digest for a challenge token: SHA-256 over
/// `"{token}.{base64url(SHA-256(canonical JWK thumbprint JSON))}"`.
pub open spec fn spec_key_auth_digest(pkcs8: Seq<u8>, token: Seq<char>) -> Seq<u8> {
    let pk = p256_public_key_of(pkcs8);
    let thumb_json = spec_jwk_thumbprint_json(
        b64url_of(pk.subrange(1, 33)),
        b64url_of(pk.subrange(33, 65)),
    );
    let thumbprint = b64url_of(sha256_of(encode_utf8(thumb_json)));
    sha256_of(encode_utf8(token + "."@ + thumbprint))
}

// ---------------------------------------------------------------------------
// Executable builders
// ---------------------------------------------------------------------------
/// Build the public JWK document from base64url coordinates.
pub fn jwk_json(x_b64: &String, y_b64: &String) -> (r: String)
    ensures
        r@ == spec_jwk_json(x_b64@, y_b64@),
{
    let mut out = String::from_str(
        "{\"alg\":\"ES256\",\"crv\":\"P-256\",\"kty\":\"EC\",\"use\":\"sig\",\"x\":\"",
    );
    out.append(x_b64.as_str());
    out.append("\",\"y\":\"");
    out.append(y_b64.as_str());
    out.append("\"}");
    proof {
        assert(out@ =~= spec_jwk_json(x_b64@, y_b64@));
    }
    out
}

/// Build the canonical JWK thumbprint document from base64url coordinates.
pub fn jwk_thumbprint_json(x_b64: &String, y_b64: &String) -> (r: String)
    ensures
        r@ == spec_jwk_thumbprint_json(x_b64@, y_b64@),
{
    let mut out = String::from_str("{\"crv\":\"P-256\",\"kty\":\"EC\",\"x\":\"");
    out.append(x_b64.as_str());
    out.append("\",\"y\":\"");
    out.append(y_b64.as_str());
    out.append("\"}");
    proof {
        assert(out@ =~= spec_jwk_thumbprint_json(x_b64@, y_b64@));
    }
    out
}

/// The string a validation server hashes for a key authorization:
/// the token, a dot, and the account key thumbprint.
pub fn key_authorization_material(token: &String, thumbprint_b64: &String) -> (r: String)
    ensures
        r@ == token@ + "."@ + thumbprint_b64@,
{
    let mut out = token.clone();
    out.append(".");
    out.append(thumbprint_b64.as_str());
    proof {
        assert(out@ =~= token@ + "."@ + thumbprint_b64@);
    }
    out
}

/// The base64url coordinates of an uncompressed P-256 public point, or
/// nothing when the point does not have the 65-byte uncompressed form.
pub fn jwk_coordinates(pk: &Vec<u8>) -> (r: Option<(String, String)>)
    ensures
        pk@.len() == 65 <==> r is Some,
        r matches Some(c) ==> c.0@ == b64url_of(pk@.subrange(1, 33)) && c.1@ == b64url_of(
            pk@.subrange(33, 65),
        ),
{
    if pk.len() != 65 {
        return None;
    }
    let x = sub_bytes(pk, 1, 33);
    let y = sub_bytes(pk, 33, 65);
    let x_b64 = b64url_encode(&x);
    let y_b64 = b64url_encode(&y);
    Some((x_b64, y_b64))
}

// ---------------------------------------------------------------------------
// Signing
// ---------------------------------------------------------------------------
/// A signed JOSE request body: the three base64url segments.
pub struct Jws {
    pub protected: String,
    pub payload: String,
    pub signature: String,
}

impl Jws {
    /// Serialize the body as the `application/jose+json` document.
    pub fn to_json(&self) -> (r: String)
        ensures
            r@ == spec_jws_json(self.protected@, self.payload@, self.signature@),
    {
        let mut out = String::from_str("{\"protected\":\"");
        out.append(self.protected.as_str());
        out.append("\",\"payload\":\"");
        out.append(self.payload.as_str());
        out.append("\",\"signature\":\"");
        out.append(self.signature.as_str());
        out.append("\"}");
        proof {
            assert(out@ =~= spec_jws_json(self.protected@, self.payload@, self.signature@));
        }
        out
    }
}

/// The view of an optional borrowed string.
pub open spec fn opt_view(s: Option<&String>) -> Option<Seq<char>> {
    match s {
        Some(v) => Some(v@),
        None => None,
    }
}

/// Sign an ACME request.
///
/// Builds the protected header carrying the algorithm, the nonce, the
/// target URL and either the account's public JWK (when `kid` is absent,
/// i.e. account creation) or the account URL; base64url-encodes header and
/// payload separately, signs `"{protected}.{payload}"` with the account
/// key, and returns the three segments.  Fails only when the underlying
/// key parse or signature operation fails, which is fatal for the current
/// operation.
///
/// On success the header and payload segments are exactly the unpadded
/// base64url encodings of the canonical documents, and every character of
/// every segment is in the URL-safe alphabet — in particular no segment
/// carries an `=` padding character.
pub fn jose(
    pkcs8: &Vec<u8>,
    payload: Option<&String>,
    kid: Option<&String>,
    nonce: &String,
    url: &String,
) -> (r: Result<Jws, AcmeError>)
    ensures
        r matches Ok(jws) ==> {
            &&& jws.protected@ == b64url_of(
                encode_utf8(spec_protected_json(pkcs8@, opt_view(kid), nonce@, url@)),
            )
            &&& (payload matches Some(p) ==> jws.payload@ == b64url_of(encode_utf8(p@)))
            &&& (payload is None ==> jws.payload@ == Seq::<char>::empty())
            &&& forall|i: int|
                0 <= i < jws.protected@.len() ==> is_b64url_char(#[trigger] jws.protected@[i])
            &&& forall|i: int|
                0 <= i < jws.payload@.len() ==> is_b64url_char(#[trigger] jws.payload@[i])
            &&& forall|i: int|
                0 <= i < jws.signature@.len() ==> is_b64url_char(#[trigger] jws.signature@[i])
        },
        r matches Err(e) ==> e == AcmeError::Crypto,
{
    let protected = match kid {
        Some(k) => {
            let mut out = String::from_str("{\"alg\":\"ES256\",\"kid\":\"");
            let escaped_kid = json_escape(k.as_str());
            out.append(escaped_kid.as_str());
            out.append("\",\"nonce\":\"");
            let escaped_nonce = json_escape(nonce.as_str());
            out.append(escaped_nonce.as_str());
            out.append("\",\"url\":\"");
            let escaped_url = json_escape(url.as_str());
            out.append(escaped_url.as_str());
            out.append("\"}");
            proof {
                assert(out@ =~= spec_protected_json(pkcs8@, opt_view(kid), nonce@, url@));
            }
            out
        },
        None => {
            let pk = match p256_public_key(pkcs8) {
                Some(pk) => pk,
                None => {
                    return Err(AcmeError::Crypto);
                },
            };
            let (x_b64, y_b64) = match jwk_coordinates(&pk) {
                Some(c) => c,
                None => {
                    return Err(AcmeError::Crypto);
                },
            };
            let jwk = jwk_json(&x_b64, &y_b64);
            let mut out = String::from_str("{\"alg\":\"ES256\",\"jwk\":");
            out.append(jwk.as_str());
            out.append(",\"nonce\":\"");
            let escaped_nonce = json_escape(nonce.as_str());
            out.append(escaped_nonce.as_str());
            out.append("\",\"url\":\"");
            let escaped_url = json_escape(url.as_str());
            out.append(escaped_url.as_str());
            out.append("\"}");
            proof {
                assert(out@ =~= spec_protected_json(pkcs8@, opt_view(kid), nonce@, url@));
            }
            out
        },
    };
    let protected_bytes = protected.as_str().as_bytes_vec();
    let protected_b64 = b64url_encode(&protected_bytes);
    let payload_b64 = match payload {
        Some(p) => {
            let payload_bytes = p.as_str().as_bytes_vec();
            b64url_encode(&payload_bytes)
        },
        None => String::new(),
    };
    let mut message = protected_b64.clone();
    message.append(".");
    message.append(payload_b64.as_str());
    let message_bytes = message.as_str().as_bytes_vec();
    let signature = match p256_sign(pkcs8, &message_bytes) {
        Some(sig) => sig,
        None => {
            return Err(AcmeError::Crypto);
        },
    };
    let signature_b64 = b64url_encode(&signature);
    Ok(Jws { protected: protected_b64, payload: payload_b64, signature: signature_b64 })
}

/// The key-authorization digest is deterministic: equal account key
/// documents and equal tokens always yield equal digest bytes.
pub proof fn lemma_authorization_hash_deterministic(
    pkcs8_a: Seq<u8>,
    token_a: Seq<char>,
    pkcs8_b: Seq<u8>,
    token_b: Seq<char>,
)
    requires
        pkcs8_a == pkcs8_b,
        token_a == token_b,
    ensures
        spec_key_auth_digest(pkcs8_a, token_a) == spec_key_auth_digest(pkcs8_b, token_b),
{
}

/// Compute the key-authorization digest for a challenge token.
///
/// Deterministic: the result is a function of the account key document and
/// the token alone, so equal inputs always yield equal digest bytes.
pub fn authorization_hash(pkcs8: &Vec<u8>, token: &String) -> (r: Result<Vec<u8>, AcmeError>)
    ensures
        r matches Ok(d) ==> {
            &&& p256_public_key_of(pkcs8@).len() == 65
            &&& d@ == spec_key_auth_digest(pkcs8@, token@)
            &&& d@.len() == 32
        },
        r matches Err(e) ==> e == AcmeError::Crypto,
{
    let pk = match p256_public_key(pkcs8) {
        Some(pk) => pk,
        None => {
            return Err(AcmeError::Crypto);
        },
    };
    let (x_b64, y_b64) = match jwk_coordinates(&pk) {
        Some(c) => c,
        None => {
            return Err(AcmeError::Crypto);
        },
    };
    let thumb_json = jwk_thumbprint_json(&x_b64, &y_b64);
    let thumb_bytes = thumb_json.as_str().as_bytes_vec();
    let thumb_digest = sha256(&thumb_bytes);
    let thumbprint_b64 = b64url_encode(&thumb_digest);
    let material = key_authorization_material(token, &thumbprint_b64);
    let material_bytes = material.as_str().as_bytes_vec();
    let digest = sha256(&material_bytes);
    Ok(digest)
}

} // verus!
