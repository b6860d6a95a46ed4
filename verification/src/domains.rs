use vstd::prelude::*;

verus! {

pub const LOCALHOST: &'static str = "localhost";

pub const LOCALHOST_IPV4: &'static str = "127.0.0.1";

pub const LOCALHOST_IPV6: &'static str = "::1";

pub const APEX: &'static str = "packurl.net";

pub const WWW: &'static str = "www.packurl.net";

pub const CDN: &'static str = "cdn.packurl.net";

/// A closed, config-time list of domain names.
pub struct DomainList {
    names: Vec<String>,
}

impl DomainList {
    /// The listed names, in order.
    pub closed spec fn spec_names(&self) -> Seq<Seq<char>> {
        Seq::new(self.names@.len(), |i: int| self.names@[i]@)
    }

    /// Whether `name` is in the list.
    pub open spec fn spec_contains(&self, name: Seq<char>) -> bool {
        exists|i: int| 0 <= i < self.spec_names().len() && self.spec_names()[i] == name
    }

    /// A list holding exactly the given names.
    pub fn new(names: Vec<String>) -> (r: DomainList)
        ensures
            r.spec_names() == Seq::new(names@.len(), |i: int| names@[i]@),
    {
        DomainList { names }
    }

    /// The ACME-managed domain set: the apex and its `www` alias.
    pub fn acme_domains() -> (r: DomainList)
        ensures
            r.spec_names() =~= seq![APEX@, WWW@],
    {
        let mut names: Vec<String> = Vec::new();
        names.push(String::from_str(APEX));
        names.push(String::from_str(WWW));
        let r = DomainList { names };
        proof {
            assert(r.spec_names() =~= seq![APEX@, WWW@]);
        }
        r
    }

    /// The identifier set of the static self-signed fallback certificate.
    pub fn self_signed_domains() -> (r: DomainList)
        ensures
            r.spec_names() =~= seq![CDN@, LOCALHOST@, LOCALHOST@, LOCALHOST_IPV6@],
    {
        let mut names: Vec<String> = Vec::new();
        names.push(String::from_str(CDN));
        names.push(String::from_str(LOCALHOST));
        names.push(String::from_str(LOCALHOST));
        names.push(String::from_str(LOCALHOST_IPV6));
        let r = DomainList { names };
        proof {
            assert(r.spec_names() =~= seq![CDN@, LOCALHOST@, LOCALHOST@, LOCALHOST_IPV6@]);
        }
        r
    }

    /// Membership test; yields a unit witness exactly when the name is listed.
    pub fn find(&self, needle: &String) -> (r: Option<()>)
        ensures
            r is Some <==> self.spec_contains(needle@),
    {
        let n = self.names.len();
        let mut i: usize = 0;
        while i < n
            invariant
                i <= n,
                n == self.names@.len(),
                forall|j: int| 0 <= j < i ==> self.spec_names()[j] != needle@,
            decreases n - i,
        {
            if self.names[i].eq(needle) {
                proof {
                    assert(self.spec_names()[i as int] == needle@);
                }
                return Some(());
            }
            i = i + 1;
        }
        None
    }

    /// A copy of the listed names, for order creation and certificate
    /// requests.
    pub fn names(&self) -> (r: Vec<String>)
        ensures
            Seq::new(r@.len(), |i: int| r@[i]@) =~= self.spec_names(),
    {
        let n = self.names.len();
        let mut out: Vec<String> = Vec::new();
        let mut i: usize = 0;
        while i < n
            invariant
                i <= n,
                n == self.names@.len(),
                out@.len() == i,
                forall|j: int| 0 <= j < i ==> out@[j]@ == self.names@[j]@,
            decreases n - i,
        {
            out.push(self.names[i].clone());
            i = i + 1;
        }
        out
    }
}

} // verus!
