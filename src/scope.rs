//! The scoped directory: a fixture root and the directory deleted at teardown.
use crate::path::{is_ancestor_chain, is_prefix, lemma_chain_entry, nth_parent, views};
use vstd::prelude::*;

verus! {

/// `k` is the deletion boundary for a target whose ancestor chain had the
/// existence flags `existed` (index 0 is the target itself): climbing from the
/// target, every parent reached up to index `k` was missing, and the next one,
/// if there is one, was present.
pub open spec fn is_boundary(existed: Seq<bool>, k: int) -> bool {
    &&& 0 <= k < existed.len()
    &&& forall|j: int| 1 <= j <= k ==> !#[trigger] existed[j]
    &&& (k == existed.len() - 1 || existed[k + 1])
}

/// Index of the deletion boundary in an ancestor chain with the given
/// existence flags.
pub fn boundary_index(existed: &Vec<bool>) -> (k: usize)
    requires
        existed.len() >= 1,
    ensures
        is_boundary(existed@, k as int),
{
    let mut k: usize = 0;
    while k + 1 < existed.len() && !existed[k + 1]
        invariant
            k < existed.len(),
            forall|j: int| 1 <= j <= k ==> !#[trigger] existed@[j],
        decreases existed.len() - k,
    {
        k = k + 1;
    }
    k
}

/// The boundary is unique: the flags decide it.
pub proof fn lemma_boundary_unique(existed: Seq<bool>, k1: int, k2: int)
    requires
        is_boundary(existed, k1),
        is_boundary(existed, k2),
    ensures
        k1 == k2,
{
    if k1 < k2 {
        assert(!existed[k1 + 1]);
    } else if k2 < k1 {
        assert(!existed[k2 + 1]);
    }
}

/// A directory that exists for the lifetime of a fixture.
///
/// `path` is the fixture root; `delete` is the topmost directory that did not
/// exist before the root was made, which is the one removed at teardown.
pub struct TempDir {
    path: String,
    delete: String,
    chain: Ghost<Seq<Seq<char>>>,
    existed: Ghost<Seq<bool>>,
}

impl TempDir {
    /// The root of the directory.
    pub closed spec fn root_view(&self) -> Seq<char> {
        self.path@
    }

    /// The directory removed at teardown.
    pub closed spec fn boundary_view(&self) -> Seq<char> {
        self.delete@
    }

    /// The ancestor chain of the root, as observed at creation.
    pub closed spec fn chain_view(&self) -> Seq<Seq<char>> {
        self.chain@
    }

    /// Which entries of the chain existed before creation.
    pub closed spec fn existed_view(&self) -> Seq<bool> {
        self.existed@
    }

    /// The chain is the ancestor chain of the root and the boundary is the
    /// entry of it that the existence flags select.
    pub closed spec fn wf(&self) -> bool {
        &&& is_ancestor_chain(self.chain@, self.path@)
        &&& self.existed@.len() == self.chain@.len()
        &&& exists|k: int| is_boundary(self.existed@, k) && self.delete@ == self.chain@[k]
    }

    /// Records a directory rooted at the head of `chain`, the ancestor chain
    /// of the root, where `existed[i]` tells whether `chain[i]` existed before
    /// the root was made.
    pub fn new(chain: Vec<String>, existed: Vec<bool>) -> (r: TempDir)
        requires
            chain.len() >= 1,
            is_ancestor_chain(views(chain@), chain@[0]@),
            existed.len() == chain.len(),
        ensures
            r.wf(),
            r.root_view() == chain@[0]@,
            r.chain_view() == views(chain@),
            r.existed_view() == existed@,
            exists|k: int| is_boundary(existed@, k) && r.boundary_view() == r.chain_view()[k],
    {
        let k = boundary_index(&existed);
        let path = chain[0].clone();
        let delete = chain[k].clone();
        let r = TempDir { path, delete, chain: Ghost(views(chain@)), existed: Ghost(existed@) };
        assert(is_boundary(existed@, k as int) && r.delete@ == r.chain@[k as int]);
        r
    }

    /// The root of the directory.
    pub fn path(&self) -> (r: String)
        ensures
            r@ == self.root_view(),
    {
        self.path.clone()
    }

    /// The directory to remove at teardown.
    pub fn boundary(&self) -> (r: String)
        ensures
            r@ == self.boundary_view(),
    {
        self.delete.clone()
    }
}

/// Teardown removes the root: the deleted directory is the root itself or
/// one of its ancestors, reached by following parents from the root, and it
/// is a leading part of the root's path.
pub proof fn lemma_teardown_covers_root(t: TempDir)
    requires
        t.wf(),
    ensures
        exists|k: nat| nth_parent(t.root_view(), k) == Some(t.boundary_view()),
        is_prefix(t.boundary_view(), t.root_view()),
{
    let k = choose|k: int| is_boundary(t.existed_view(), k) && t.boundary_view() == t.chain_view()[k];
    lemma_chain_entry(t.chain_view(), t.root_view(), k);
    assert(nth_parent(t.root_view(), k as nat) == Some(t.boundary_view()));
}

/// Teardown spares every directory that existed before the fixture: on the
/// ancestor chain of the root, each entry above the root that existed is
/// strictly shorter than the deleted directory, so it lies outside the tree
/// that teardown removes, and it sits above the boundary on the chain.
pub proof fn lemma_teardown_spares_existing(t: TempDir)
    requires
        t.wf(),
    ensures
        forall|j: int|
            1 <= j < t.chain_view().len() && #[trigger] t.existed_view()[j] ==> t.chain_view()[j].len()
                < t.boundary_view().len() && t.chain_view()[j] != t.boundary_view(),
{
    let k = choose|k: int| is_boundary(t.existed_view(), k) && t.boundary_view() == t.chain_view()[k];
    assert forall|j: int|
        1 <= j < t.chain_view().len() && #[trigger] t.existed_view()[j] implies t.chain_view()[j].len()
            < t.boundary_view().len() && t.chain_view()[j] != t.boundary_view() by {
        if j <= k {
            assert(!t.existed_view()[j]);
        }
        assert(t.chain_view()[j].len() < t.chain_view()[k].len());
    }
}

} // verus!
