//! Paths as strings, with the separator `/`.
use vstd::prelude::*;

verus! {

/// A path is absolute when it starts at the filesystem root.
pub open spec fn is_absolute_spec(p: Seq<char>) -> bool {
    p.len() > 0 && p[0] == '/'
}

/// `rel` pushed onto `root`: an absolute `rel` replaces `root`; otherwise a
/// separator goes between the two unless `root` is empty or already ends in one.
pub open spec fn join_spec(root: Seq<char>, rel: Seq<char>) -> Seq<char> {
    if is_absolute_spec(rel) {
        rel
    } else if root.len() == 0 || root.last() == '/' {
        root + rel
    } else {
        root + seq!['/'] + rel
    }
}

/// The path without its final component, as the platform's path type computes
/// it; `None` at a root or for the empty path.
pub uninterp spec fn parent_of(p: Seq<char>) -> Option<Seq<char>>;

/// The views of a sequence of strings.
pub open spec fn views(v: Seq<String>) -> Seq<Seq<char>> {
    v.map_values(|s: String| s@)
}

/// Each entry of `c` but the last has the next entry as its parent.
pub open spec fn linked(c: Seq<Seq<char>>) -> bool {
    forall|i: int| 0 <= i < c.len() - 1 ==> parent_of(#[trigger] c[i]) == Some(c[i + 1])
}

/// Each entry of `c` is strictly shorter than the one before it.
pub open spec fn shrinking(c: Seq<Seq<char>>) -> bool {
    forall|i: int, j: int| 0 <= i < j < c.len() ==> (#[trigger] c[j]).len() < (#[trigger] c[i]).len()
}

/// `q` is a leading part of `p`.
pub open spec fn is_prefix(q: Seq<char>, p: Seq<char>) -> bool {
    q.len() <= p.len() && q == p.subrange(0, q.len() as int)
}

/// The parent of `p`, if it has one, is a strictly shorter leading part of it.
pub open spec fn parent_is_leading(p: Seq<char>) -> bool {
    match parent_of(p) {
        Some(q) => q.len() < p.len() && is_prefix(q, p),
        None => true,
    }
}

/// Each entry of `c` is a leading part of the first one.
pub open spec fn prefixes(c: Seq<Seq<char>>) -> bool {
    forall|i: int| 0 <= i < c.len() ==> is_prefix(#[trigger] c[i], c[0])
}

/// `c` lists `p`, then its parent, its parent's parent and so on, up to the
/// first path that has no parent.
pub open spec fn is_ancestor_chain(c: Seq<Seq<char>>, p: Seq<char>) -> bool {
    &&& c.len() >= 1
    &&& c[0] == p
    &&& linked(c)
    &&& parent_of(c.last()).is_none()
    &&& shrinking(c)
    &&& prefixes(c)
}

/// `p` after following its parent `k` times; `None` once a path without a
/// parent is passed.
pub open spec fn nth_parent(p: Seq<char>, k: nat) -> Option<Seq<char>>
    decreases k,
{
    if k == 0 {
        Some(p)
    } else {
        match nth_parent(p, (k - 1) as nat) {
            Some(q) => parent_of(q),
            None => None,
        }
    }
}

/// Entry `i` of an ancestor chain of `p` is `p` after `i` steps up.
pub proof fn lemma_chain_entry(c: Seq<Seq<char>>, p: Seq<char>, i: int)
    requires
        is_ancestor_chain(c, p),
        0 <= i < c.len(),
    ensures
        nth_parent(p, i as nat) == Some(c[i]),
    decreases i,
{
    if i > 0 {
        lemma_chain_entry(c, p, i - 1);
        assert(parent_of(c[i - 1]) == Some(c[i]));
    }
}

/// Whether `p` starts at the filesystem root.
pub fn is_absolute(p: &str) -> (r: bool)
    ensures
        r == is_absolute_spec(p@),
{
    p.unicode_len() > 0 && p.get_char(0) == '/'
}

/// `rel` pushed onto `root`.
pub fn join(root: &str, rel: &str) -> (r: String)
    ensures
        r@ == join_spec(root@, rel@),
{
    if is_absolute(rel) {
        return String::from_str(rel);
    }
    let n = root.unicode_len();
    if n == 0 || root.get_char(n - 1) == '/' {
        String::from_str(root).concat(rel)
    } else {
        proof {
            reveal_strlit("/");
        }
        let r = String::from_str(root).concat("/").concat(rel);
        assert(r@ =~= join_spec(root@, rel@));
        r
    }
}

/// Relies on `std::path::Path::parent`: the path without its final component,
/// which is a prefix of it and so strictly shorter; `None` at a root or for the
/// empty path.
#[verifier::external_body]
pub(crate) fn parent(p: &str) -> (r: Option<String>)
    ensures
        match r {
            Some(q) => parent_of(p@) == Some(q@) && q@.len() < p@.len() && is_prefix(q@, p@),
            None => parent_of(p@).is_none(),
        },
{
    match std::path::Path::new(p).parent() {
        Some(q) => Some(q.to_string_lossy().into_owned()),
        None => None,
    }
}

/// The chain of ancestors of `p`, starting with `p` itself.
pub fn ancestors(p: &str) -> (r: Vec<String>)
    ensures
        is_ancestor_chain(views(r@), p@),
{
    let mut chain: Vec<String> = Vec::new();
    let mut cur: String = String::from_str(p);
    let mut done: bool = false;
    assert(views(chain@).push(cur@)[0] =~= views(chain@).push(cur@)[0].subrange(0, p@.len() as int));
    while !done
        invariant
            !done ==> views(chain@).push(cur@)[0] == p@,
            !done ==> linked(views(chain@).push(cur@)),
            !done ==> shrinking(views(chain@).push(cur@)),
            !done ==> prefixes(views(chain@).push(cur@)),
            done ==> is_ancestor_chain(views(chain@), p@),
        decreases cur@.len() + if done { 0int } else { 1int },
    {
        let ghost before = views(chain@).push(cur@);
        match parent(cur.as_str()) {
            Some(q) => {
                chain.push(cur);
                cur = q;
                assert(views(chain@) =~= before);
                let ghost after = views(chain@).push(cur@);
                assert(after[0] == before[0]);
                assert forall|i: int, j: int| 0 <= i < j < after.len() implies (#[trigger] after[j]).len()
                    < (#[trigger] after[i]).len() by {
                    if j == after.len() - 1 && i < j - 1 {
                        assert(before[j - 1].len() < before[i].len());
                    }
                }
                assert forall|i: int| 0 <= i < after.len() implies is_prefix(#[trigger] after[i], after[0]) by {
                    if i == after.len() - 1 {
                        let last = before[i - 1];
                        assert(is_prefix(last, before[0]));
                        assert(after[i] =~= before[0].subrange(0, after[i].len() as int));
                    } else {
                        assert(after[i] == before[i]);
                    }
                }
            },
            None => {
                let last = cur.clone();
                chain.push(last);
                done = true;
                assert(views(chain@) =~= before);
            },
        }
    }
    chain
}

} // verus!
