use vstd::prelude::*;

verus! {

/// The base64url (RFC 4648 URL-safe alphabet) encoding of `bytes`, without
/// padding.  Left uninterpreted: the outside encoder is the authority; the
/// clauses of [`b64url_encode`] state the facts its source shows.
pub uninterp spec fn b64url_of(bytes: Seq<u8>) -> Seq<char>;

/// A character of the URL-safe base64 alphabet.
pub open spec fn is_b64url_char(c: char) -> bool {
    ('A' <= c && c <= 'Z') || ('a' <= c && c <= 'z') || ('0' <= c && c <= '9') || c == '-' || c
        == '_'
}

/// Length of the unpadded base64 encoding of `n` input bytes: four output
/// characters for every full three-byte group, two or three for a trailing
/// group of one or two bytes.
pub open spec fn b64url_len(n: nat) -> nat {
    (n / 3) * 4 + if n % 3 == 0 {
        0
    } else {
        (n % 3 + 1)
    }
}

/// Relies on `base64::encode_config` with `URL_SAFE_NO_PAD`: the URL-safe
/// alphabet (`A`-`Z`, `a`-`z`, `0`-`9`, `-`, `_`), no `=` padding, and an
/// output length fixed by the input length.
#[verifier::external_body]
pub(crate) fn b64url_encode(bytes: &Vec<u8>) -> (r: String)
    ensures
        r@ == b64url_of(bytes@),
        r@.len() == b64url_len(bytes@.len()),
        forall|i: int| 0 <= i < r@.len() ==> is_b64url_char(#[trigger] r@[i]),
{
    base64::encode_config(bytes.as_slice(), base64::URL_SAFE_NO_PAD)
}

} // verus!
