use vstd::prelude::*;

verus! {

/// Relies on std `String::push`: appends exactly the one character to the
/// end of the string.  vstd gives `push` no specification of its own.
#[verifier::external_body]
pub(crate) fn string_push(s: &mut String, c: char)
    ensures
        final(s)@ == old(s)@.push(c),
{
    s.push(c);
}

/// Relies on std `String::from_utf8`: succeeds exactly on valid UTF-8 and
/// yields the string holding those very bytes.  vstd gives `from_utf8` no
/// specification of its own.
#[verifier::external_body]
pub(crate) fn string_from_utf8(bytes: Vec<u8>) -> (r: Option<String>)
    ensures
        r is Some <==> vstd::utf8::valid_utf8(bytes@),
        r matches Some(s) ==> vstd::utf8::encode_utf8(s@) == bytes@,
{
    String::from_utf8(bytes).ok()
}

} // verus!
