use vstd::prelude::*;

use crate::bytes::{bytes_eq, sub_bytes};
use vstd::utf8::encode_utf8;

verus! {

// ---------------------------------------------------------------------------
// Byte scanning
// ---------------------------------------------------------------------------
/// Index of the first occurrence of `b` in `s`.
pub open spec fn spec_find_byte(s: Seq<u8>, b: u8) -> Option<int>
    decreases s.len(),
{
    if s.len() == 0 {
        None
    } else if s[0] == b {
        Some(0int)
    } else {
        match spec_find_byte(s.skip(1), b) {
            Some(i) => Some(1 + i),
            None => None,
        }
    }
}

/// The first occurrence is a first occurrence.
pub proof fn lemma_find_byte(s: Seq<u8>, b: u8)
    ensures
        match spec_find_byte(s, b) {
            Some(i) => 0 <= i < s.len() && s[i] == b && forall|j: int| 0 <= j < i ==> s[j] != b,
            None => forall|j: int| 0 <= j < s.len() ==> s[j] != b,
        },
    decreases s.len(),
{
    if s.len() > 0 && s[0] != b {
        lemma_find_byte(s.skip(1), b);
        assert forall|j: int| 1 <= j < s.len() implies s.skip(1)[j - 1] == s[j] by {}
    }
}

/// A position with the first-occurrence properties is the found one.
pub proof fn lemma_find_byte_at(s: Seq<u8>, b: u8, i: int)
    requires
        0 <= i < s.len(),
        s[i] == b,
        forall|j: int| 0 <= j < i ==> s[j] != b,
    ensures
        spec_find_byte(s, b) == Some(i),
    decreases s.len(),
{
    if s[0] == b {
        assert(i == 0);
    } else {
        assert(s.skip(1)[i - 1] == s[i]);
        assert forall|j: int| 0 <= j < i - 1 implies s.skip(1)[j] != b by {
            assert(s.skip(1)[j] == s[j + 1]);
        }
        lemma_find_byte_at(s.skip(1), b, i - 1);
    }
}

/// Index of the first `\r\n` pair in `s`.
pub open spec fn spec_find_crlf(s: Seq<u8>) -> Option<int>
    decreases s.len(),
{
    if s.len() < 2 {
        None
    } else if s[0] == 13 && s[1] == 10 {
        Some(0int)
    } else {
        match spec_find_crlf(s.skip(1)) {
            Some(i) => Some(1 + i),
            None => None,
        }
    }
}

pub proof fn lemma_find_crlf(s: Seq<u8>)
    ensures
        match spec_find_crlf(s) {
            Some(i) => 0 <= i && i + 1 < s.len() && s[i] == 13 && s[i + 1] == 10 && forall|j: int|
                0 <= j < i ==> !((#[trigger] s[j]) == 13 && s[j + 1] == 10),
            None => forall|j: int|
                0 <= j && j + 1 < s.len() ==> !((#[trigger] s[j]) == 13 && s[j + 1] == 10),
        },
    decreases s.len(),
{
    if s.len() >= 2 && !(s[0] == 13 && s[1] == 10) {
        lemma_find_crlf(s.skip(1));
        assert forall|j: int| 1 <= j && j + 1 < s.len() implies (#[trigger] s[j]) == s.skip(1)[j
            - 1] && s[j + 1] == s.skip(1)[j] by {}
    }
}

pub proof fn lemma_find_crlf_at(s: Seq<u8>, i: int)
    requires
        0 <= i,
        i + 1 < s.len(),
        s[i] == 13,
        s[i + 1] == 10,
        forall|j: int| 0 <= j < i ==> !((#[trigger] s[j]) == 13 && s[j + 1] == 10),
    ensures
        spec_find_crlf(s) == Some(i),
    decreases s.len(),
{
    if s[0] == 13 && s[1] == 10 {
        assert(i == 0);
    } else {
        assert(s.skip(1)[i - 1] == s[i]);
        assert(s.skip(1)[i] == s[i + 1]);
        assert forall|j: int| 0 <= j < i - 1 implies !((#[trigger] s.skip(1)[j]) == 13 && s.skip(
            1,
        )[j + 1] == 10) by {
            assert(s.skip(1)[j] == s[j + 1]);
            assert(s.skip(1)[j + 1] == s[j + 2]);
        }
        lemma_find_crlf_at(s.skip(1), i - 1);
    }
}

/// Index of the first `\r\n\r\n` in `s`: where the header block ends.
pub open spec fn spec_find_terminator(s: Seq<u8>) -> Option<int>
    decreases s.len(),
{
    if s.len() < 4 {
        None
    } else if s[0] == 13 && s[1] == 10 && s[2] == 13 && s[3] == 10 {
        Some(0int)
    } else {
        match spec_find_terminator(s.skip(1)) {
            Some(i) => Some(1 + i),
            None => None,
        }
    }
}

pub proof fn lemma_find_terminator(s: Seq<u8>)
    ensures
        match spec_find_terminator(s) {
            Some(i) => 0 <= i && i + 3 < s.len() && s[i] == 13 && s[i + 1] == 10 && s[i + 2] == 13
                && s[i + 3] == 10 && forall|j: int|
                0 <= j < i ==> !((#[trigger] s[j]) == 13 && s[j + 1] == 10 && s[j + 2] == 13 && s[j
                    + 3] == 10),
            None => forall|j: int|
                0 <= j && j + 3 < s.len() ==> !((#[trigger] s[j]) == 13 && s[j + 1] == 10 && s[j
                    + 2] == 13 && s[j + 3] == 10),
        },
    decreases s.len(),
{
    if s.len() >= 4 && !(s[0] == 13 && s[1] == 10 && s[2] == 13 && s[3] == 10) {
        lemma_find_terminator(s.skip(1));
        assert forall|j: int| 1 <= j && j + 3 < s.len() implies (#[trigger] s[j]) == s.skip(1)[j
            - 1] && s[j + 1] == s.skip(1)[j] && s[j + 2] == s.skip(1)[j + 1] && s[j + 3] == s.skip(
            1,
        )[j + 2] by {}
    }
}

pub proof fn lemma_find_terminator_at(s: Seq<u8>, i: int)
    requires
        0 <= i,
        i + 3 < s.len(),
        s[i] == 13,
        s[i + 1] == 10,
        s[i + 2] == 13,
        s[i + 3] == 10,
        forall|j: int|
            0 <= j < i ==> !((#[trigger] s[j]) == 13 && s[j + 1] == 10 && s[j + 2] == 13 && s[j
                + 3] == 10),
    ensures
        spec_find_terminator(s) == Some(i),
    decreases s.len(),
{
    if s[0] == 13 && s[1] == 10 && s[2] == 13 && s[3] == 10 {
        assert(i == 0);
    } else {
        assert(s.skip(1)[i - 1] == s[i]);
        assert(s.skip(1)[i] == s[i + 1]);
        assert(s.skip(1)[i + 1] == s[i + 2]);
        assert(s.skip(1)[i + 2] == s[i + 3]);
        assert forall|j: int| 0 <= j < i - 1 implies !((#[trigger] s.skip(1)[j]) == 13 && s.skip(
            1,
        )[j + 1] == 10 && s.skip(1)[j + 2] == 13 && s.skip(1)[j + 3] == 10) by {
            assert(s.skip(1)[j] == s[j + 1]);
            assert(s.skip(1)[j + 1] == s[j + 2]);
            assert(s.skip(1)[j + 2] == s[j + 3]);
            assert(s.skip(1)[j + 3] == s[j + 4]);
        }
        lemma_find_terminator_at(s.skip(1), i - 1);
    }
}

/// Find the end of the header block: the first `\r\n\r\n`.
pub fn find_terminator(s: &[u8]) -> (r: Option<usize>)
    ensures
        r is Some <==> spec_find_terminator(s@) is Some,
        r matches Some(i) ==> spec_find_terminator(s@) == Some(i as int),
{
    proof {
        lemma_find_terminator(s@);
    }
    if s.len() < 4 {
        return None;
    }
    let n = s.len();
    let mut i: usize = 0;
    while i + 3 < n
        invariant
            i + 3 <= n,
            n == s@.len(),
            forall|j: int|
                0 <= j < i ==> !((#[trigger] s@[j]) == 13 && s@[j + 1] == 10 && s@[j + 2] == 13
                    && s@[j + 3] == 10),
        decreases n - i,
    {
        if s[i] == 13 && s[i + 1] == 10 && s[i + 2] == 13 && s[i + 3] == 10 {
            proof {
                lemma_find_terminator_at(s@, i as int);
            }
            return Some(i);
        }
        i = i + 1;
    }
    None
}

/// Remove every occurrence of `pat` from `s`, scanning left to right.
pub open spec fn spec_remove_all(s: Seq<u8>, pat: Seq<u8>) -> Seq<u8>
    recommends
        pat.len() > 0,
    decreases s.len(),
    when pat.len() > 0
{
    if s.len() < pat.len() {
        s
    } else if s.take(pat.len() as int) == pat {
        spec_remove_all(s.skip(pat.len() as int), pat)
    } else {
        seq![s[0]] + spec_remove_all(s.skip(1), pat)
    }
}

/// Remove every occurrence of `pat` from `s`, as replacing it with the
/// empty string does.
pub fn remove_all(s: &Vec<u8>, pat: &Vec<u8>) -> (r: Vec<u8>)
    requires
        pat@.len() > 0,
    ensures
        r@ == spec_remove_all(s@, pat@),
{
    let mut out: Vec<u8> = Vec::new();
    let n = s.len();
    let m = pat.len();
    let mut i: usize = 0;
    proof {
        assert(s@.skip(0) =~= s@);
    }
    while i < n
        invariant
            i <= n,
            n == s@.len(),
            m == pat@.len(),
            m > 0,
            spec_remove_all(s@, pat@) == out@ + spec_remove_all(s@.skip(i as int), pat@),
        decreases n - i,
    {
        let suffix_len = n - i;
        if suffix_len >= m {
            let window = sub_bytes(s, i, i + m);
            proof {
                assert(s@.skip(i as int).take(m as int) =~= s@.subrange(i as int, i + m));
            }
            if bytes_eq(window.as_slice(), pat.as_slice()) {
                proof {
                    assert(s@.skip(i as int).skip(m as int) =~= s@.skip(i + m));
                }
                i = i + m;
                continue ;
            }
        }
        proof {
            assert(s@.skip(i as int)[0] == s@[i as int]);
            assert(s@.skip(i as int).skip(1) =~= s@.skip(i + 1 as int));
            assert((out@ + spec_remove_all(s@.skip(i as int), pat@)) =~= (out@.push(s@[i as int])
                + spec_remove_all(s@.skip(i + 1 as int), pat@)));
        }
        out.push(s[i]);
        i = i + 1;
    }
    proof {
        assert(s@.skip(n as int) =~= Seq::<u8>::empty());
        assert(out@ + spec_remove_all(s@.skip(n as int), pat@) =~= out@);
    }
    out
}

// ---------------------------------------------------------------------------
// Header field extraction
// ---------------------------------------------------------------------------
/// ASCII whitespace trimmed around header names and values: space, tab,
/// and the line-break bytes a line scanner leaves at the front.
pub open spec fn spec_is_space(b: u8) -> bool {
    b == 32 || b == 9 || b == 10 || b == 13
}

/// `s` without leading spaces.
pub open spec fn spec_trim_start(s: Seq<u8>) -> Seq<u8>
    decreases s.len(),
{
    if s.len() > 0 && spec_is_space(s[0]) {
        spec_trim_start(s.skip(1))
    } else {
        s
    }
}

/// `s` without trailing spaces.
pub open spec fn spec_trim_end(s: Seq<u8>) -> Seq<u8>
    decreases s.len(),
{
    if s.len() > 0 && spec_is_space(s.last()) {
        spec_trim_end(s.drop_last())
    } else {
        s
    }
}

/// `s` without leading and trailing spaces.
pub open spec fn spec_trim(s: Seq<u8>) -> Seq<u8> {
    spec_trim_end(spec_trim_start(s))
}

proof fn lemma_trim_start_at(s: Seq<u8>, k: int)
    requires
        0 <= k <= s.len(),
        forall|j: int| 0 <= j < k ==> spec_is_space(s[j]),
        k == s.len() || !spec_is_space(s[k]),
    ensures
        spec_trim_start(s) == s.skip(k),
    decreases k,
{
    if k == 0 {
        assert(s.skip(0) =~= s);
    } else {
        assert(spec_is_space(s[0]));
        lemma_trim_start_at(s.skip(1), k - 1);
        assert(s.skip(1).skip(k - 1) =~= s.skip(k));
    }
}

proof fn lemma_trim_end_at(s: Seq<u8>, k: int)
    requires
        0 <= k <= s.len(),
        forall|j: int| k <= j < s.len() ==> spec_is_space(s[j]),
        k == 0 || !spec_is_space(s[k - 1]),
    ensures
        spec_trim_end(s) == s.take(k),
    decreases s.len() - k,
{
    if k == s.len() {
        if s.len() > 0 && spec_is_space(s.last()) {
            assert(false);
        }
        assert(s.take(k) =~= s);
    } else {
        assert(spec_is_space(s.last()));
        lemma_trim_end_at(s.drop_last(), k);
        assert(s.drop_last().take(k) =~= s.take(k));
    }
}

/// Copy `s` without leading and trailing spaces.
pub fn trim_bytes(s: &Vec<u8>) -> (r: Vec<u8>)
    ensures
        r@ == spec_trim(s@),
{
    let n = s.len();
    let mut start: usize = 0;
    while start < n && (s[start] == 32 || s[start] == 9 || s[start] == 10 || s[start] == 13)
        invariant
            start <= n,
            n == s@.len(),
            forall|j: int| 0 <= j < start ==> spec_is_space(s@[j]),
        decreases n - start,
    {
        start = start + 1;
    }
    let mut end: usize = n;
    while end > start && (s[end - 1] == 32 || s[end - 1] == 9 || s[end - 1] == 10 || s[end - 1]
        == 13)
        invariant
            start <= end <= n,
            n == s@.len(),
            forall|j: int| 0 <= j < start ==> spec_is_space(s@[j]),
            forall|j: int| end <= j < n ==> spec_is_space(s@[j]),
        decreases end,
    {
        end = end - 1;
    }
    let r = sub_bytes(s, start, end);
    proof {
        lemma_trim_start_at(s@, start as int);
        assert forall|j: int| end - start <= j < s@.skip(start as int).len() implies spec_is_space(
            s@.skip(start as int)[j],
        ) by {
            assert(s@.skip(start as int)[j] == s@[j + start]);
        }
        if end > start {
            assert(!spec_is_space(s@.skip(start as int)[end - start - 1]));
        }
        lemma_trim_end_at(s@.skip(start as int), end - start);
        assert(r@ =~= spec_trim(s@));
    }
    r
}

/// A byte with any ASCII upper-case letter folded to lower case.
pub open spec fn spec_lower_byte(b: u8) -> u8 {
    if 65 <= b && b <= 90 {
        (b + 32) as u8
    } else {
        b
    }
}

/// The text with ASCII letters folded to lower case.
pub open spec fn spec_lower(s: Seq<u8>) -> Seq<u8> {
    Seq::new(s.len(), |i: int| spec_lower_byte(s[i]))
}

/// Copy `s` with ASCII letters folded to lower case.
pub fn lower_bytes(s: &Vec<u8>) -> (r: Vec<u8>)
    ensures
        r@ == spec_lower(s@),
{
    let mut out: Vec<u8> = Vec::new();
    let n = s.len();
    let mut i: usize = 0;
    while i < n
        invariant
            i <= n,
            n == s@.len(),
            out@.len() == i,
            forall|j: int| 0 <= j < i ==> out@[j] == spec_lower_byte(s@[j]),
        decreases n - i,
    {
        let b = s[i];
        if 65 <= b && b <= 90 {
            out.push(b + 32);
        } else {
            out.push(b);
        }
        i = i + 1;
    }
    proof {
        assert(out@ =~= spec_lower(s@));
    }
    out
}

/// The value of the `if-none-match` header inside a header block, if one
/// stands there: lines are cut at each `\r\n`, the scan gives up on a
/// block that opens with an empty line or on a bare `\r`, the header name
/// is matched after ASCII case folding and whitespace trimming, and the
/// value is what follows the `": "` separator, trimmed.
pub open spec fn spec_if_none_match(s: Seq<u8>) -> Option<Seq<u8>>
    decreases s.len(),
    via spec_if_none_match_decreases
{
    match spec_find_byte(s, 13) {
        None => None,
        Some(p) => {
            if p + 1 >= s.len() {
                None
            } else if s[p + 1] != 10 {
                None
            } else if p == 0 {
                None
            } else {
                let line = s.take(p);
                match spec_find_byte(line, 58) {
                    Some(c) => {
                        if spec_lower(spec_trim(line.take(c))) == encode_utf8("if-none-match"@) {
                            Some(
                                spec_trim(
                                    if c + 2 <= line.len() {
                                        line.skip(c + 2)
                                    } else {
                                        Seq::<u8>::empty()
                                    },
                                ),
                            )
                        } else {
                            spec_if_none_match(s.skip(p + 1))
                        }
                    },
                    None => spec_if_none_match(s.skip(p + 1)),
                }
            }
        },
    }
}

#[via_fn]
proof fn spec_if_none_match_decreases(s: Seq<u8>) {
    lemma_find_byte(s, 13);
}

/// Find the first `\r` at or after `from`, as an absolute index.
fn find_cr_from(s: &Vec<u8>, from: usize) -> (r: Option<usize>)
    requires
        from <= s@.len(),
    ensures
        r is Some <==> spec_find_byte(s@.skip(from as int), 13) is Some,
        r matches Some(p) ==> from <= p < s@.len() && spec_find_byte(s@.skip(from as int), 13)
            == Some(p - from),
{
    proof {
        lemma_find_byte(s@.skip(from as int), 13);
    }
    let n = s.len();
    let mut i: usize = from;
    while i < n
        invariant
            from <= i <= n,
            n == s@.len(),
            forall|j: int| from <= j < i ==> s@[j] != 13,
        decreases n - i,
    {
        if s[i] == 13 {
            proof {
                assert(s@.skip(from as int)[i - from] == s@[i as int]);
                assert forall|j: int| 0 <= j < i - from implies s@.skip(from as int)[j] != 13 by {
                    assert(s@.skip(from as int)[j] == s@[j + from]);
                }
                lemma_find_byte_at(s@.skip(from as int), 13, i - from);
            }
            return Some(i);
        }
        i = i + 1;
    }
    proof {
        assert forall|j: int| 0 <= j < s@.skip(from as int).len() implies s@.skip(from as int)[j]
            != 13 by {
            assert(s@.skip(from as int)[j] == s@[j + from]);
        }
    }
    None
}

/// Find the first `:` inside `[from, to)`, as an absolute index.
fn find_colon_in(s: &Vec<u8>, from: usize, to: usize) -> (r: Option<usize>)
    requires
        from <= to <= s@.len(),
    ensures
        r is Some <==> spec_find_byte(s@.subrange(from as int, to as int), 58) is Some,
        r matches Some(p) ==> from <= p < to && spec_find_byte(
            s@.subrange(from as int, to as int),
            58,
        ) == Some(p - from),
{
    proof {
        lemma_find_byte(s@.subrange(from as int, to as int), 58);
    }
    let mut i: usize = from;
    while i < to
        invariant
            from <= i <= to <= s@.len(),
            forall|j: int| from <= j < i ==> s@[j] != 58,
        decreases to - i,
    {
        if s[i] == 58 {
            proof {
                assert(s@.subrange(from as int, to as int)[i - from] == s@[i as int]);
                assert forall|j: int| 0 <= j < i - from implies s@.subrange(
                    from as int,
                    to as int,
                )[j] != 58 by {
                    assert(s@.subrange(from as int, to as int)[j] == s@[j + from]);
                }
                lemma_find_byte_at(s@.subrange(from as int, to as int), 58, i - from);
            }
            return Some(i);
        }
        i = i + 1;
    }
    proof {
        assert forall|j: int| 0 <= j < to - from implies s@.subrange(from as int, to as int)[j]
            != 58 by {
            assert(s@.subrange(from as int, to as int)[j] == s@[j + from]);
        }
    }
    None
}

/// Extract the `if-none-match` header value from a header block.
pub fn get_if_none_match(bytes: &Vec<u8>) -> (r: Option<Vec<u8>>)
    ensures
        r is Some <==> spec_if_none_match(bytes@) is Some,
        r matches Some(v) ==> spec_if_none_match(bytes@) == Some(v@),
{
    let n = bytes.len();
    let mut o: usize = 0;
    proof {
        assert(bytes@.skip(0) =~= bytes@);
    }
    loop
        invariant
            n == bytes@.len(),
            o <= bytes@.len(),
            spec_if_none_match(bytes@) == spec_if_none_match(bytes@.skip(o as int)),
        decreases bytes@.len() - o,
    {
        let ghost suffix = bytes@.skip(o as int);
        let p = match find_cr_from(bytes, o) {
            Some(p) => p,
            None => {
                return None;
            },
        };
        proof {
            assert forall|j: int| 0 <= j < suffix.len() implies suffix[j] == bytes@[j + o] by {}
        }
        if p + 1 >= n {
            return None;
        }
        if bytes[p + 1] != 10 {
            return None;
        }
        if p == o {
            return None;
        }
        // the header line is bytes[o..p]
        proof {
            assert(suffix.take(p - o) =~= bytes@.subrange(o as int, p as int));
        }
        match find_colon_in(bytes, o, p) {
            Some(c) => {
                let name = sub_bytes(bytes, o, c);
                proof {
                    assert(suffix.take(p - o).take(c - o) =~= bytes@.subrange(o as int, c as int));
                }
                let lowered = lower_bytes(&trim_bytes(&name));
                if bytes_eq(lowered.as_slice(), "if-none-match".as_bytes()) {
                    let value = if c + 2 <= p {
                        sub_bytes(bytes, c + 2, p)
                    } else {
                        Vec::new()
                    };
                    proof {
                        if c + 2 <= p {
                            assert(suffix.take(p - o).skip(c - o + 2) =~= bytes@.subrange(
                                c + 2,
                                p as int,
                            ));
                        }
                    }
                    let trimmed = trim_bytes(&value);
                    return Some(trimmed);
                }
                proof {
                    assert(suffix.skip(p - o + 1) =~= bytes@.skip(p + 1));
                }
                o = p + 1;
            },
            None => {
                proof {
                    assert(suffix.skip(p - o + 1) =~= bytes@.skip(p + 1));
                }
                o = p + 1;
            },
        }
    }
}

// ---------------------------------------------------------------------------
// Request line parsing
// ---------------------------------------------------------------------------
/// What a parsed CDN request asks for.
pub enum CdnRequest {
    Get { path: Vec<u8> },
    MethodNotAllowed,
    BadRequest,
}

/// Find the first `\r\n` pair.
fn find_crlf_pos(bytes: &Vec<u8>) -> (r: Option<usize>)
    ensures
        r is Some <==> spec_find_crlf(bytes@) is Some,
        r matches Some(p) ==> spec_find_crlf(bytes@) == Some(p as int),
{
    proof {
        lemma_find_crlf(bytes@);
    }
    let n = bytes.len();
    if n < 2 {
        return None;
    }
    let mut i: usize = 0;
    while i + 1 < n
        invariant
            i < n,
            n >= 2,
            n == bytes@.len(),
            forall|j: int|
                0 <= j < i ==> !((#[trigger] bytes@[j]) == 13 && bytes@[j + 1] == 10),
        decreases n - i,
    {
        if bytes[i] == 13 && bytes[i + 1] == 10 {
            proof {
                lemma_find_crlf_at(bytes@, i as int);
            }
            return Some(i);
        }
        i = i + 1;
    }
    None
}

/// Parse the request line of a CDN request: a `GET` of a path followed by
/// ` HTTP/1.1`.  Too-short requests and malformed request lines are bad
/// requests; a well-formed line with another method is not allowed.
pub fn parse_cdn_request(bytes: &Vec<u8>) -> (r: CdnRequest)
    ensures
        bytes@.len() <= 15 ==> r is BadRequest,
        bytes@.len() > 15 && spec_find_crlf(bytes@) is None ==> r is BadRequest,
        bytes@.len() > 15 ==> (spec_find_crlf(bytes@) matches Some(p) ==> {
            let line_ok = p > 12 && bytes@.subrange(p - 9, p) == encode_utf8(" HTTP/1.1"@);
            &&& (!line_ok ==> r is BadRequest)
            &&& (line_ok && bytes@.subrange(0, 4) == encode_utf8("GET "@) ==> (r
                matches CdnRequest::Get { path } && path@ == bytes@.subrange(4, p - 9)))
            &&& (line_ok && bytes@.subrange(0, 4) != encode_utf8("GET "@) ==> r
                is MethodNotAllowed)
        }),
{
    if bytes.len() <= 15 {
        return CdnRequest::BadRequest;
    }
    let pos = find_crlf_pos(bytes);
    let p = match pos {
        Some(p) => p,
        None => {
            return CdnRequest::BadRequest;
        },
    };
    proof {
        lemma_find_crlf(bytes@);
    }
    if p <= 12 {
        return CdnRequest::BadRequest;
    }
    let tail = sub_bytes(bytes, p - 9, p);
    if !bytes_eq(tail.as_slice(), " HTTP/1.1".as_bytes()) {
        return CdnRequest::BadRequest;
    }
    let method = sub_bytes(bytes, 0, 4);
    if bytes_eq(method.as_slice(), "GET ".as_bytes()) {
        let path = sub_bytes(bytes, 4, p - 9);
        CdnRequest::Get { path }
    } else {
        CdnRequest::MethodNotAllowed
    }
}

/// Whether a conditional request matches the entry tag, so that the
/// not-modified reply is served instead of the body.
pub fn not_modified_for(etag: &String, if_none_match: Option<&Vec<u8>>) -> (r: bool)
    ensures
        r == (if_none_match matches Some(v) && v@ == encode_utf8(etag@)),
{
    match if_none_match {
        Some(v) => bytes_eq(v.as_slice(), etag.as_str().as_bytes()),
        None => false,
    }
}

} // verus!
