use vstd::prelude::*;

use crate::jose::{json_escape, json_escaped};

verus! {

/// The new-account request payload: agreement to the terms of service and
/// the one contact address.
pub open spec fn spec_new_account_payload(contact: Seq<char>) -> Seq<char> {
    "{\"termsOfServiceAgreed\":true,\"contact\":[\""@ + json_escaped(contact) + "\"]}"@
}

/// One DNS identifier object of a new-order payload.
pub open spec fn spec_identifier_json(name: Seq<char>) -> Seq<char> {
    "{\"type\":\"dns\",\"value\":\""@ + json_escaped(name) + "\"}"@
}

/// The comma-separated identifier objects for the managed domain set.
pub open spec fn spec_identifier_list_json(names: Seq<Seq<char>>) -> Seq<char>
    decreases names.len(),
{
    if names.len() == 0 {
        Seq::empty()
    } else if names.len() == 1 {
        spec_identifier_json(names[0])
    } else {
        spec_identifier_json(names[0]) + ","@ + spec_identifier_list_json(names.skip(1))
    }
}

/// The new-order request payload for the managed domain set.
pub open spec fn spec_new_order_payload(names: Seq<Seq<char>>) -> Seq<char> {
    "{\"identifiers\":["@ + spec_identifier_list_json(names) + "]}"@
}

/// The finalize request payload carrying the base64url CSR.
pub open spec fn spec_finalize_payload(csr_b64: Seq<char>) -> Seq<char> {
    "{\"csr\":\""@ + csr_b64 + "\"}"@
}

proof fn lemma_identifier_list_snoc(names: Seq<Seq<char>>, n: Seq<char>)
    ensures
        spec_identifier_list_json(names.push(n)) == if names.len() == 0 {
            spec_identifier_json(n)
        } else {
            spec_identifier_list_json(names) + ","@ + spec_identifier_json(n)
        },
    decreases names.len(),
{
    if names.len() == 0 {
        assert(names.push(n)[0] == n);
        assert(spec_identifier_list_json(names.push(n)) =~= spec_identifier_json(n));
    } else if names.len() == 1 {
        assert(names.push(n)[0] == names[0]);
        assert(names.push(n).skip(1) =~= seq![n]);
        assert(spec_identifier_list_json(seq![n]) == spec_identifier_json(n));
        assert(spec_identifier_list_json(names.push(n)) =~= spec_identifier_list_json(names)
            + ","@ + spec_identifier_json(n));
    } else {
        lemma_identifier_list_snoc(names.skip(1), n);
        assert(names.push(n).skip(1) =~= names.skip(1).push(n));
        assert(spec_identifier_list_json(names.push(n)) =~= spec_identifier_list_json(names)
            + ","@ + spec_identifier_json(n));
    }
}

/// Build the new-account payload.
pub fn new_account_payload(contact: &String) -> (r: String)
    ensures
        r@ == spec_new_account_payload(contact@),
{
    let mut out = String::from_str("{\"termsOfServiceAgreed\":true,\"contact\":[\"");
    let escaped = json_escape(contact.as_str());
    out.append(escaped.as_str());
    out.append("\"]}");
    proof {
        assert(out@ =~= spec_new_account_payload(contact@));
    }
    out
}

/// Build one DNS identifier object.
fn identifier_json(name: &String) -> (r: String)
    ensures
        r@ == spec_identifier_json(name@),
{
    let mut out = String::from_str("{\"type\":\"dns\",\"value\":\"");
    let escaped = json_escape(name.as_str());
    out.append(escaped.as_str());
    out.append("\"}");
    proof {
        assert(out@ =~= spec_identifier_json(name@));
    }
    out
}

/// Build the new-order payload for the given domain names, in order.
pub fn new_order_payload(names: &Vec<String>) -> (r: String)
    ensures
        r@ == spec_new_order_payload(Seq::new(names@.len(), |i: int| names@[i]@)),
{
    let ghost views = Seq::new(names@.len(), |i: int| names@[i]@);
    let mut list = String::new();
    let n = names.len();
    let mut i: usize = 0;
    while i < n
        invariant
            i <= n,
            n == names@.len(),
            views == Seq::new(names@.len(), |j: int| names@[j]@),
            list@ == spec_identifier_list_json(views.take(i as int)),
        decreases n - i,
    {
        proof {
            lemma_identifier_list_snoc(views.take(i as int), views[i as int]);
            assert(views.take(i as int).push(views[i as int]) =~= views.take(i + 1 as int));
        }
        if i > 0 {
            list.append(",");
        }
        let ident = identifier_json(&names[i]);
        list.append(ident.as_str());
        proof {
            assert(list@ =~= spec_identifier_list_json(views.take(i + 1 as int)));
        }
        i = i + 1;
    }
    let mut out = String::from_str("{\"identifiers\":[");
    out.append(list.as_str());
    out.append("]}");
    proof {
        assert(views.take(n as int) =~= views);
        assert(out@ =~= spec_new_order_payload(views));
    }
    out
}

/// Build the finalize payload around a base64url CSR.
pub fn finalize_payload(csr_b64: &String) -> (r: String)
    ensures
        r@ == spec_finalize_payload(csr_b64@),
{
    let mut out = String::from_str("{\"csr\":\"");
    out.append(csr_b64.as_str());
    out.append("\"}");
    proof {
        assert(out@ =~= spec_finalize_payload(csr_b64@));
    }
    out
}

/// The empty JSON object posted to trigger a challenge.
pub fn empty_object_payload() -> (r: String)
    ensures
        r@ == "{}"@,
{
    String::from_str("{}")
}

} // verus!
