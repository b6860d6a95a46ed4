use vstd::prelude::*;

use crate::bytes::append_bytes;
use crate::jose::spec_hex_digit;
use crate::strutil::string_push;
use vstd::utf8::encode_utf8;

verus! {

/// Whether the text of `s` ends with `suffix`.
pub open spec fn spec_ends_with(s: Seq<char>, suffix: Seq<char>) -> bool {
    s.len() >= suffix.len() && s.skip(s.len() - suffix.len()) == suffix
}

/// Exact suffix test over the characters of two strings.
pub fn str_ends_with(s: &str, suffix: &str) -> (r: bool)
    ensures
        r == spec_ends_with(s@, suffix@),
{
    let sn = s.unicode_len();
    let pn = suffix.unicode_len();
    if sn < pn {
        return false;
    }
    let base = sn - pn;
    let mut j: usize = 0;
    while j < pn
        invariant
            j <= pn,
            sn == s@.len(),
            pn == suffix@.len(),
            base == sn - pn,
            forall|k: int| 0 <= k < j ==> s@[base + k] == suffix@[k],
        decreases pn - j,
    {
        if s.get_char(base + j) != suffix.get_char(j) {
            proof {
                assert(s@.skip(s@.len() - suffix@.len())[j as int] == s@[base + j]);
            }
            return false;
        }
        j = j + 1;
    }
    proof {
        assert(s@.skip(s@.len() - suffix@.len()) =~= suffix@);
    }
    true
}

/// The caching policy and media type served for a file name, decided by
/// its suffix; nothing for a suffix that is not served.
pub open spec fn spec_content_meta(name: Seq<char>) -> Option<(Seq<char>, Seq<char>)> {
    if spec_ends_with(name, ".html"@) || spec_ends_with(name, ".htm"@) {
        Some(("public,no-cache"@, "text/html"@))
    } else if spec_ends_with(name, ".css"@) {
        Some(("public,no-cache"@, "text/css"@))
    } else if spec_ends_with(name, ".js"@) || spec_ends_with(name, ".mjs"@) || spec_ends_with(
        name,
        ".js.map"@,
    ) || spec_ends_with(name, ".mjs.map"@) {
        Some(("public,no-cache"@, "application/javascript"@))
    } else if spec_ends_with(name, ".svg"@) {
        Some(("public,max-age=31536000,immutable"@, "image/svg+xml"@))
    } else if spec_ends_with(name, ".jpg"@) {
        Some(("public,max-age=31536000,immutable"@, "image/jpeg"@))
    } else if spec_ends_with(name, ".png"@) {
        Some(("public,max-age=31536000,immutable"@, "image/png"@))
    } else if spec_ends_with(name, ".webp"@) {
        Some(("public,max-age=31536000,immutable"@, "image/webp"@))
    } else if spec_ends_with(name, ".woff2"@) {
        Some(("public,max-age=31536000,immutable"@, "font/woff2"@))
    } else if spec_ends_with(name, ".json"@) {
        Some(("public,max-age=3600,must-revalidate"@, "application/json"@))
    } else if spec_ends_with(name, ".wasm"@) {
        Some(("public,max-age=31536000,immutable"@, "application/wasm"@))
    } else if spec_ends_with(name, ".glb"@) {
        Some(("public,max-age=31536000,immutable"@, "model/gltf-binary"@))
    } else if spec_ends_with(name, ".md"@) {
        Some(("public,no-cache"@, "text/markdown"@))
    } else if spec_ends_with(name, ".xml"@) {
        Some(("public,max-age=3600,must-revalidate"@, "application/xml"@))
    } else if spec_ends_with(name, ".txt"@) || spec_ends_with(name, ".glsl"@) || spec_ends_with(
        name,
        ".wat"@,
    ) {
        Some(("public,no-cache"@, "text/plain"@))
    } else if spec_ends_with(name, ".mp3"@) {
        Some(("public,max-age=31536000,immutable"@, "audio/mp3"@))
    } else if spec_ends_with(name, ".mp4"@) {
        Some(("public,max-age=31536000,immutable"@, "audio/mp4"@))
    } else if spec_ends_with(name, ".sig"@) {
        Some(("no-store"@, "application/pgp-signature"@))
    } else {
        None
    }
}

/// The caching policy and media type for a file name, by its suffix.
pub fn cache_control_and_content_type(filename: &String) -> (r: Option<(&'static str, &'static str)>)
    ensures
        r is Some <==> spec_content_meta(filename@) is Some,
        r matches Some(p) ==> spec_content_meta(filename@) == Some((p.0@, p.1@)),
{
    let name = filename.as_str();
    if str_ends_with(name, ".html") || str_ends_with(name, ".htm") {
        Some(("public,no-cache", "text/html"))
    } else if str_ends_with(name, ".css") {
        Some(("public,no-cache", "text/css"))
    } else if str_ends_with(name, ".js") || str_ends_with(name, ".mjs") || str_ends_with(
        name,
        ".js.map",
    ) || str_ends_with(name, ".mjs.map") {
        Some(("public,no-cache", "application/javascript"))
    } else if str_ends_with(name, ".svg") {
        Some(("public,max-age=31536000,immutable", "image/svg+xml"))
    } else if str_ends_with(name, ".jpg") {
        Some(("public,max-age=31536000,immutable", "image/jpeg"))
    } else if str_ends_with(name, ".png") {
        Some(("public,max-age=31536000,immutable", "image/png"))
    } else if str_ends_with(name, ".webp") {
        Some(("public,max-age=31536000,immutable", "image/webp"))
    } else if str_ends_with(name, ".woff2") {
        Some(("public,max-age=31536000,immutable", "font/woff2"))
    } else if str_ends_with(name, ".json") {
        Some(("public,max-age=3600,must-revalidate", "application/json"))
    } else if str_ends_with(name, ".wasm") {
        Some(("public,max-age=31536000,immutable", "application/wasm"))
    } else if str_ends_with(name, ".glb") {
        Some(("public,max-age=31536000,immutable", "model/gltf-binary"))
    } else if str_ends_with(name, ".md") {
        Some(("public,no-cache", "text/markdown"))
    } else if str_ends_with(name, ".xml") {
        Some(("public,max-age=3600,must-revalidate", "application/xml"))
    } else if str_ends_with(name, ".txt") || str_ends_with(name, ".glsl") || str_ends_with(
        name,
        ".wat",
    ) {
        Some(("public,no-cache", "text/plain"))
    } else if str_ends_with(name, ".mp3") {
        Some(("public,max-age=31536000,immutable", "audio/mp3"))
    } else if str_ends_with(name, ".mp4") {
        Some(("public,max-age=31536000,immutable", "audio/mp4"))
    } else if str_ends_with(name, ".sig") {
        Some(("no-store", "application/pgp-signature"))
    } else {
        None
    }
}

// ---------------------------------------------------------------------------
// Numeric formatting
// ---------------------------------------------------------------------------
/// The lower-case hexadecimal digits of `n`, most significant first.
pub open spec fn spec_hex_u64(n: u64) -> Seq<char>
    decreases n,
{
    if n < 16 {
        seq![spec_hex_digit(n as u32)]
    } else {
        spec_hex_u64(n / 16).push(spec_hex_digit((n % 16) as u32))
    }
}

/// The decimal digits of `n`, most significant first.
pub open spec fn spec_dec_u64(n: u64) -> Seq<char>
    decreases n,
{
    if n < 10 {
        seq![spec_hex_digit(n as u32)]
    } else {
        spec_dec_u64(n / 10).push(spec_hex_digit((n % 10) as u32))
    }
}

fn push_hex_u64(out: &mut String, n: u64)
    ensures
        final(out)@ == old(out)@ + spec_hex_u64(n),
    decreases n,
{
    if n < 16 {
        string_push(out, crate::jose::hex_digit(n as u32));
        proof {
            assert(old(out)@ + spec_hex_u64(n) =~= old(out)@.push(spec_hex_digit(n as u32)));
        }
    } else {
        push_hex_u64(out, n / 16);
        string_push(out, crate::jose::hex_digit((n % 16) as u32));
        proof {
            assert(old(out)@ + spec_hex_u64(n) =~= (old(out)@ + spec_hex_u64(n / 16)).push(
                spec_hex_digit((n % 16) as u32),
            ));
        }
    }
}

fn push_dec_u64(out: &mut String, n: u64)
    ensures
        final(out)@ == old(out)@ + spec_dec_u64(n),
    decreases n,
{
    if n < 10 {
        string_push(out, crate::jose::hex_digit(n as u32));
        proof {
            assert(old(out)@ + spec_dec_u64(n) =~= old(out)@.push(spec_hex_digit(n as u32)));
        }
    } else {
        push_dec_u64(out, n / 10);
        string_push(out, crate::jose::hex_digit((n % 10) as u32));
        proof {
            assert(old(out)@ + spec_dec_u64(n) =~= (old(out)@ + spec_dec_u64(n / 10)).push(
                spec_hex_digit((n % 10) as u32),
            ));
        }
    }
}

/// The entity tag text for a file: the `0x`-prefixed hexadecimal content
/// length followed by the `0x`-prefixed hexadecimal modification time.
pub open spec fn spec_etag(content_length: u64, last_modified: u64) -> Seq<char> {
    "0x"@ + spec_hex_u64(content_length) + "0x"@ + spec_hex_u64(last_modified)
}

/// Build the entity tag for a file from its length and modification time
/// in seconds.
pub fn etag_value(content_length: u64, last_modified: u64) -> (r: String)
    ensures
        r@ == spec_etag(content_length, last_modified),
{
    let mut out = String::from_str("0x");
    push_hex_u64(&mut out, content_length);
    out.append("0x");
    push_hex_u64(&mut out, last_modified);
    proof {
        assert(out@ =~= spec_etag(content_length, last_modified));
    }
    out
}

// ---------------------------------------------------------------------------
// Prepared file responses
// ---------------------------------------------------------------------------
/// The header text of a served file.
pub open spec fn spec_ok_header(
    cache_control: Seq<char>,
    compressed: bool,
    etag: Seq<char>,
    content_type: Seq<char>,
    content_length: u64,
) -> Seq<char> {
    "HTTP/1.1 200 OK\r\nCache-Control: "@ + cache_control + "\r\nConnection: close\r\n"@ + (
    if compressed {
        "Content-Encoding: br\r\n"@
    } else {
        Seq::<char>::empty()
    }) + "ETag: "@ + etag + "\r\nContent-Type: "@ + content_type + "\r\nContent-Length: "@
        + spec_dec_u64(content_length) + "\r\n\r\n"@
}

/// The not-modified reply for a cached file.
pub open spec fn spec_not_modified(cache_control: Seq<char>, etag: Seq<char>) -> Seq<char> {
    "HTTP/1.1 304 Not Modified\r\nCache-Control: "@ + cache_control
        + "\r\nConnection: close\r\nETag: "@ + etag + "\r\n\r\n"@
}

/// Whether a freshly statted file replaces the stored cache entry: always
/// when nothing is stored for the key, otherwise when the stored entity
/// tag equals the fresh one.
pub fn should_replace_entry(stored_etag: Option<&String>, fresh_etag: &String) -> (r: bool)
    ensures
        r == match stored_etag {
            Some(e) => e@ == fresh_etag@,
            None => true,
        },
{
    match stored_etag {
        Some(e) => e.eq(fresh_etag),
        None => true,
    }
}

/// One cached file: its entity tag, the full success reply, and the
/// not-modified reply.
pub struct FileEntry {
    pub etag: String,
    pub ok: Vec<u8>,
    pub not_modified: Vec<u8>,
}

impl FileEntry {
    /// Prepare the two replies for a file body.  `compressed` says the
    /// body already carries brotli encoding.
    pub fn build(etag: String, cache_control: &str, content_type: &str, compressed: bool, body: Vec<
        u8,
    >) -> (r: FileEntry)
        requires
            body@.len() <= u64::MAX,
        ensures
            r.etag@ == etag@,
            r.ok@ == encode_utf8(
                spec_ok_header(cache_control@, compressed, etag@, content_type@, body@.len() as u64),
            ) + body@,
            r.not_modified@ == encode_utf8(spec_not_modified(cache_control@, etag@)),
    {
        let mut header = String::from_str("HTTP/1.1 200 OK\r\nCache-Control: ");
        header.append(cache_control);
        header.append("\r\nConnection: close\r\n");
        if compressed {
            header.append("Content-Encoding: br\r\n");
        }
        header.append("ETag: ");
        header.append(etag.as_str());
        header.append("\r\nContent-Type: ");
        header.append(content_type);
        header.append("\r\nContent-Length: ");
        push_dec_u64(&mut header, body.len() as u64);
        header.append("\r\n\r\n");
        proof {
            assert(header@ =~= spec_ok_header(
                cache_control@,
                compressed,
                etag@,
                content_type@,
                body@.len() as u64,
            ));
        }
        let mut ok = header.as_str().as_bytes_vec();
        append_bytes(&mut ok, &body);
        let mut nm = String::from_str("HTTP/1.1 304 Not Modified\r\nCache-Control: ");
        nm.append(cache_control);
        nm.append("\r\nConnection: close\r\nETag: ");
        nm.append(etag.as_str());
        nm.append("\r\n\r\n");
        proof {
            assert(nm@ =~= spec_not_modified(cache_control@, etag@));
        }
        let not_modified = nm.as_str().as_bytes_vec();
        FileEntry { etag, ok, not_modified }
    }
}

} // verus!
