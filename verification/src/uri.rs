use vstd::prelude::*;

use crate::strutil::string_push;

verus! {

/// A path component that is kept: non-empty and not the `.` segment.
pub open spec fn spec_real_component(c: Seq<char>) -> bool {
    c.len() > 0 && c != seq!['.']
}

/// The kept components of a path text, splitting on `/`, given the
/// partial component `cur` read so far.
pub open spec fn spec_path_components(s: Seq<char>, cur: Seq<char>) -> Seq<Seq<char>>
    decreases s.len(),
{
    if s.len() == 0 {
        if spec_real_component(cur) {
            seq![cur]
        } else {
            seq![]
        }
    } else if s[0] == '/' {
        (if spec_real_component(cur) {
            seq![cur]
        } else {
            seq![]
        }) + spec_path_components(s.skip(1), Seq::empty())
    } else {
        spec_path_components(s.skip(1), cur.push(s[0]))
    }
}

/// The components joined with `/`.
pub open spec fn spec_joined(cs: Seq<Seq<char>>) -> Seq<char>
    decreases cs.len(),
{
    if cs.len() == 0 {
        Seq::empty()
    } else if cs.len() == 1 {
        cs[0]
    } else {
        cs[0] + seq!['/'] + spec_joined(cs.skip(1))
    }
}

proof fn lemma_joined_snoc(cs: Seq<Seq<char>>, c: Seq<char>)
    ensures
        spec_joined(cs.push(c)) == if cs.len() == 0 {
            c
        } else {
            spec_joined(cs) + seq!['/'] + c
        },
    decreases cs.len(),
{
    if cs.len() == 0 {
        assert(cs.push(c)[0] == c);
        assert(spec_joined(cs.push(c)) =~= c);
    } else if cs.len() == 1 {
        assert(cs.push(c)[0] == cs[0]);
        assert(cs.push(c).skip(1) =~= seq![c]);
        assert(spec_joined(seq![c]) == c);
        assert(spec_joined(cs.push(c)) =~= spec_joined(cs) + seq!['/'] + c);
    } else {
        lemma_joined_snoc(cs.skip(1), c);
        assert(cs.push(c).skip(1) =~= cs.skip(1).push(c));
        assert(spec_joined(cs.push(c)) =~= spec_joined(cs) + seq!['/'] + c);
    }
}

/// Whether the text of `s` starts with the text of `p`.
pub fn str_starts_with(s: &str, p: &str) -> (r: bool)
    ensures
        r == (s@.len() >= p@.len() && s@.take(p@.len() as int) == p@),
{
    let sn = s.unicode_len();
    let pn = p.unicode_len();
    if sn < pn {
        return false;
    }
    let mut j: usize = 0;
    while j < pn
        invariant
            j <= pn,
            sn == s@.len(),
            pn == p@.len(),
            pn <= sn,
            forall|k: int| 0 <= k < j ==> s@[k] == p@[k],
        decreases pn - j,
    {
        if s.get_char(j) != p.get_char(j) {
            proof {
                assert(s@.take(p@.len() as int)[j as int] == s@[j as int]);
            }
            return false;
        }
        j = j + 1;
    }
    proof {
        assert(s@.take(p@.len() as int) =~= p@);
    }
    true
}

/// A normalized URI path: a fixed prefix and the kept path components.
pub struct UriPath {
    prefix: String,
    components: Vec<String>,
}

impl UriPath {
    /// The prefix text.
    pub closed spec fn spec_prefix(&self) -> Seq<char> {
        self.prefix@
    }

    /// The component texts, in order.
    pub closed spec fn spec_components(&self) -> Seq<Seq<char>> {
        Seq::new(self.components@.len(), |i: int| self.components@[i]@)
    }

    /// Split `path` on `/`, dropping empty and `.` segments.
    pub fn new(prefix: &str, path: &str) -> (r: UriPath)
        ensures
            r.spec_prefix() == prefix@,
            r.spec_components() == spec_path_components(path@, Seq::<char>::empty()),
    {
        let n = path.unicode_len();
        let mut components: Vec<String> = Vec::new();
        let mut cur = String::new();
        let mut i: usize = 0;
        proof {
            assert(path@.skip(0) =~= path@);
            assert(Seq::new(components@.len(), |j: int| components@[j]@) + spec_path_components(
                path@,
                Seq::<char>::empty(),
            ) =~= spec_path_components(path@, Seq::<char>::empty()));
        }
        while i < n
            invariant
                i <= n,
                n == path@.len(),
                spec_path_components(path@, Seq::<char>::empty()) == Seq::new(
                    components@.len(),
                    |j: int| components@[j]@,
                ) + spec_path_components(path@.skip(i as int), cur@),
            decreases n - i,
        {
            let ghost pre = Seq::new(components@.len(), |j: int| components@[j]@);
            let c = path.get_char(i);
            proof {
                assert(path@.skip(i as int)[0] == path@[i as int]);
                assert(path@.skip(i as int).skip(1) =~= path@.skip(i + 1 as int));
            }
            if c == '/' {
                if is_real_component(&cur) {
                    components.push(cur);
                    cur = String::new();
                    proof {
                        assert(Seq::new(components@.len(), |j: int| components@[j]@) =~= pre
                            + seq![components@[components@.len() - 1]@]);
                    }
                } else {
                    cur = String::new();
                }
            } else {
                string_push(&mut cur, c);
            }
            i = i + 1;
        }
        proof {
            assert(path@.skip(n as int) =~= Seq::<char>::empty());
        }
        let ghost pre = Seq::new(components@.len(), |j: int| components@[j]@);
        if is_real_component(&cur) {
            components.push(cur);
            proof {
                assert(Seq::new(components@.len(), |j: int| components@[j]@) =~= pre
                    + seq![components@[components@.len() - 1]@]);
            }
        }
        let r = UriPath { prefix: String::from_str(prefix), components };
        proof {
            assert(r.spec_components() =~= spec_path_components(path@, Seq::<char>::empty()));
        }
        r
    }

    /// This path with one more component at the end.
    pub fn join(&self, component: &str) -> (r: UriPath)
        ensures
            r.spec_prefix() == self.spec_prefix(),
            r.spec_components() == self.spec_components().push(component@),
    {
        let mut components: Vec<String> = Vec::new();
        let n = self.components.len();
        let mut i: usize = 0;
        while i < n
            invariant
                i <= n,
                n == self.components@.len(),
                components@.len() == i,
                forall|j: int| 0 <= j < i ==> components@[j]@ == self.components@[j]@,
            decreases n - i,
        {
            components.push(self.components[i].clone());
            i = i + 1;
        }
        components.push(String::from_str(component));
        let r = UriPath { prefix: self.prefix.clone(), components };
        proof {
            assert(r.spec_components() =~= self.spec_components().push(component@));
        }
        r
    }

    /// This path without its last component; nothing when it has at most
    /// one component.
    pub fn parent(&self) -> (r: Option<UriPath>)
        ensures
            self.spec_components().len() <= 1 ==> r is None,
            self.spec_components().len() > 1 ==> (r matches Some(p) && p.spec_prefix()
                == self.spec_prefix() && p.spec_components() == self.spec_components().take(
                self.spec_components().len() - 1,
            )),
    {
        if self.components.len() <= 1 {
            return None;
        }
        let n = self.components.len() - 1;
        let mut components: Vec<String> = Vec::new();
        let mut i: usize = 0;
        while i < n
            invariant
                i <= n,
                n < self.components@.len(),
                components@.len() == i,
                forall|j: int| 0 <= j < i ==> components@[j]@ == self.components@[j]@,
            decreases n - i,
        {
            components.push(self.components[i].clone());
            i = i + 1;
        }
        let r = UriPath { prefix: self.prefix.clone(), components };
        proof {
            assert(r.spec_components() =~= self.spec_components().take(
                self.spec_components().len() - 1,
            ));
        }
        Some(r)
    }

    /// Interpret a file path under `root` as a URI path with `prefix`:
    /// nothing when the path does not lie under the root.
    pub fn from(prefix: &str, root: &str, path: &str) -> (r: Option<UriPath>)
        ensures
            r is Some <==> path@.len() >= root@.len() && path@.take(root@.len() as int) == root@,
            r matches Some(p) ==> p.spec_prefix() == prefix@ && p.spec_components()
                == spec_path_components(path@.skip(root@.len() as int), Seq::<char>::empty()),
    {
        if !str_starts_with(path, root) {
            return None;
        }
        let rn = root.unicode_len();
        let pn = path.unicode_len();
        let rest = path.substring_char(rn, pn);
        proof {
            assert(rest@ =~= path@.skip(root@.len() as int));
        }
        Some(UriPath::new(prefix, rest))
    }

    /// The textual form: the prefix followed by the components joined
    /// with `/`.
    pub fn to_string(&self) -> (r: String)
        ensures
            r@ == self.spec_prefix() + spec_joined(self.spec_components()),
    {
        let mut joined = String::new();
        let n = self.components.len();
        let mut i: usize = 0;
        while i < n
            invariant
                i <= n,
                n == self.components@.len(),
                joined@ == spec_joined(self.spec_components().take(i as int)),
            decreases n - i,
        {
            proof {
                lemma_joined_snoc(
                    self.spec_components().take(i as int),
                    self.spec_components()[i as int],
                );
                assert(self.spec_components().take(i as int).push(
                    self.spec_components()[i as int],
                ) =~= self.spec_components().take(i + 1 as int));
            }
            if i > 0 {
                string_push(&mut joined, '/');
            }
            joined.append(self.components[i].as_str());
            proof {
                assert(joined@ =~= spec_joined(self.spec_components().take(i + 1 as int)));
            }
            i = i + 1;
        }
        let mut out = self.prefix.clone();
        out.append(joined.as_str());
        proof {
            assert(self.spec_components().take(n as int) =~= self.spec_components());
        }
        out
    }
}

/// Whether a built component is kept: non-empty and not `.`.
fn is_real_component(c: &String) -> (r: bool)
    ensures
        r == spec_real_component(c@),
{
    let n = c.as_str().unicode_len();
    if n == 0 {
        proof {
            assert(!spec_real_component(c@));
        }
        false
    } else if n == 1 && c.as_str().get_char(0) == '.' {
        proof {
            assert(c@ =~= seq!['.']);
        }
        false
    } else {
        proof {
            if c@.len() == 1 {
                assert(c@[0] != '.');
                assert(c@ != seq!['.']);
            } else {
                assert(c@.len() != seq!['.'].len());
                assert(c@ != seq!['.']);
            }
        }
        true
    }
}

} // verus!
