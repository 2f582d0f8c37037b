//! The fixture builder: a scoped root plus a record of what was created in it.
use crate::content::{content, is_alphanumeric, is_content_of, is_random_name, FileType};
use crate::path::{
    ancestors, is_absolute, is_absolute_spec, is_ancestor_chain, is_prefix, join, join_spec, parent, parent_is_leading,
    nth_parent, parent_of, views,
};
use crate::scope::{is_boundary, lemma_teardown_covers_root, TempDir};
use vstd::prelude::*;

verus! {

/// A filesystem step that carries out a decision of the builder.
#[derive(Debug)]
pub enum FsOp {
    /// Create a directory and every missing parent of it.
    CreateDirAll(String),
    /// Create or truncate a file and write the bytes into it.
    WriteFile(String, Vec<u8>),
    /// Remove a directory and everything under it.
    RemoveDirAll(String),
    /// Remove a single file.
    RemoveFile(String),
}

/// What was found at a path before removing it.
#[derive(PartialEq, Eq, Structural, Debug, Clone, Copy)]
pub enum EntryKind {
    /// Nothing is there.
    Missing,
    /// A directory.
    Dir,
    /// A regular file.
    File,
    /// Something that is neither a directory nor a regular file.
    Other,
}

/// `op` creates the directory `p` with its parents.
pub open spec fn is_create_dir(op: FsOp, p: Seq<char>) -> bool {
    match op {
        FsOp::CreateDirAll(d) => d@ == p,
        _ => false,
    }
}

/// `op` writes a file at `p` with a content fit for `ft`.
pub open spec fn is_write(op: FsOp, p: Seq<char>, ft: FileType) -> bool {
    match op {
        FsOp::WriteFile(f, b) => f@ == p && is_content_of(ft, b@),
        _ => false,
    }
}

/// `op` removes the directory tree at `p`.
pub open spec fn is_remove_dir(op: FsOp, p: Seq<char>) -> bool {
    match op {
        FsOp::RemoveDirAll(d) => d@ == p,
        _ => false,
    }
}

/// `op` removes the single file at `p`.
pub open spec fn is_remove_file(op: FsOp, p: Seq<char>) -> bool {
    match op {
        FsOp::RemoveFile(f) => f@ == p,
        _ => false,
    }
}

/// The directories that creating `rel` of type `ft` under `root` makes, where
/// `parent` is the parent of `rel`: the path itself for a directory, else the
/// parent, if there is one.
pub open spec fn dirs_made_in(root: Seq<char>, rel: Seq<char>, ft: FileType, parent: Option<Seq<char>>) -> Seq<
    Seq<char>,
> {
    if ft == FileType::Dir {
        seq![join_spec(root, rel)]
    } else {
        match parent {
            Some(p) => seq![join_spec(root, p)],
            None => seq![],
        }
    }
}

/// The directories that creating `rel` of type `ft` under `root` makes.
pub open spec fn dirs_made(root: Seq<char>, rel: Seq<char>, ft: FileType) -> Seq<Seq<char>> {
    dirs_made_in(root, rel, ft, parent_of(rel))
}

/// The view of an optional string.
pub open spec fn opt_view(o: Option<String>) -> Option<Seq<char>> {
    match o {
        Some(s) => Some(s@),
        None => None,
    }
}

/// The files that creating `rel` of type `ft` under `root` makes.
pub open spec fn files_made(root: Seq<char>, rel: Seq<char>, ft: FileType) -> Seq<Seq<char>> {
    if ft == FileType::Dir {
        seq![]
    } else {
        seq![join_spec(root, rel)]
    }
}

/// The steps that create `rel` of type `ft` under `root`, where `parent` is
/// the parent of `rel`: a directory is created with its parents; for a file,
/// its parent directory, if it has one, is created with its parents, then the
/// file is written.
pub open spec fn is_create_plan_in(
    root: Seq<char>,
    rel: Seq<char>,
    ft: FileType,
    parent: Option<Seq<char>>,
    ops: Seq<FsOp>,
) -> bool {
    let target = join_spec(root, rel);
    if ft == FileType::Dir {
        ops.len() == 1 && is_create_dir(ops[0], target)
    } else {
        match parent {
            Some(p) => ops.len() == 2 && is_create_dir(ops[0], join_spec(root, p)) && is_write(
                ops[1],
                target,
                ft,
            ),
            None => ops.len() == 1 && is_write(ops[0], target, ft),
        }
    }
}

/// The steps that create `rel` of type `ft` under `root`.
pub open spec fn is_create_plan(root: Seq<char>, rel: Seq<char>, ft: FileType, ops: Seq<FsOp>) -> bool {
    is_create_plan_in(root, rel, ft, parent_of(rel), ops)
}

/// The steps that remove what was found at `target`: a directory goes with
/// its contents, a file alone, and anything else is left as it is.
pub open spec fn is_remove_plan(target: Seq<char>, found: EntryKind, ops: Seq<FsOp>) -> bool {
    match found {
        EntryKind::Dir => ops.len() == 1 && is_remove_dir(ops[0], target),
        EntryKind::File => ops.len() == 1 && is_remove_file(ops[0], target),
        _ => ops.len() == 0,
    }
}

/// A fixture root that is chosen but not made yet: the target directory and
/// its ancestor chain. The caller finds which entries of the chain exist,
/// creates the target with its parents, and calls `finish`.
pub struct Setup {
    target: String,
    ancestors: Vec<String>,
}

impl Setup {
    /// The directory to become the fixture root.
    pub closed spec fn target_view(&self) -> Seq<char> {
        self.target@
    }

    /// The target, its parent, and so on up to the first path without one.
    pub closed spec fn ancestors_view(&self) -> Seq<Seq<char>> {
        views(self.ancestors@)
    }

    /// The chain is the ancestor chain of the target.
    #[verifier::type_invariant]
    spec fn chain_of_target(&self) -> bool {
        is_ancestor_chain(views(self.ancestors@), self.target@)
    }

    /// Chooses `target` as the fixture root.
    pub fn at(target: String) -> (r: Setup)
        ensures
            r.target_view() == target@,
            is_ancestor_chain(r.ancestors_view(), r.target_view()),
    {
        let ancestors = ancestors(target.as_str());
        Setup { target, ancestors }
    }

    /// The directory to become the fixture root.
    pub fn target(&self) -> (r: &String)
        ensures
            r@ == self.target_view(),
    {
        &self.target
    }

    /// The target, its parent, and so on up to the first path without one.
    pub fn ancestors(&self) -> (r: &Vec<String>)
        ensures
            views(r@) == self.ancestors_view(),
            is_ancestor_chain(self.ancestors_view(), self.target_view()),
    {
        proof {
            use_type_invariant(self);
        }
        &self.ancestors
    }

    /// The fixture, once the target exists; `existed[i]` tells whether
    /// `ancestors[i]` existed before the target was made.
    pub fn finish(self, existed: Vec<bool>) -> (r: TestDir)
        requires
            existed.len() == self.ancestors_view().len(),
        ensures
            r.wf(),
            r.scope_view().wf(),
            r.root_view() == self.target_view(),
            r.scope_view().root_view() == self.target_view(),
            r.scope_view().chain_view() == self.ancestors_view(),
            r.scope_view().existed_view() == existed@,
            exists|k: int|
                is_boundary(existed@, k) && r.scope_view().boundary_view() == r.scope_view().chain_view()[k],
            r.files_view().len() == 0,
            r.dirs_view().len() == 0,
    {
        proof {
            use_type_invariant(&self);
        }
        let t = TempDir::new(self.ancestors, existed);
        TestDir::new(t)
    }
}

/// A directory tree built for a test, removed when the fixture is torn down.
pub struct TestDir {
    tempdir: TempDir,
    root: String,
    files: Vec<String>,
    dirs: Vec<String>,
}

impl TestDir {
    /// The root directory.
    pub closed spec fn root_view(&self) -> Seq<char> {
        self.root@
    }

    /// The files created so far, in order.
    pub closed spec fn files_view(&self) -> Seq<Seq<char>> {
        views(self.files@)
    }

    /// The directories created so far, in order.
    pub closed spec fn dirs_view(&self) -> Seq<Seq<char>> {
        views(self.dirs@)
    }

    /// The scoped directory that owns the root.
    pub closed spec fn scope_view(&self) -> TempDir {
        self.tempdir
    }

    /// The root is the root of the owned scoped directory.
    pub closed spec fn wf(&self) -> bool {
        self.tempdir.wf() && self.tempdir.root_view() == self.root@
    }

    /// A fixture rooted at the scoped directory `tempdir`, with nothing
    /// created in it yet.
    pub fn new(tempdir: TempDir) -> (r: TestDir)
        requires
            tempdir.wf(),
        ensures
            r.wf(),
            r.root_view() == tempdir.root_view(),
            r.scope_view() == tempdir,
            r.files_view().len() == 0,
            r.dirs_view().len() == 0,
    {
        let root = tempdir.path();
        let r = TestDir { tempdir, root, files: Vec::new(), dirs: Vec::new() };
        assert(r.files_view() =~= Seq::empty());
        r
    }

    /// A fixture named `name` under the system temporary directory
    /// `system_temp`; `random_name` gives a fresh name.
    pub fn temp(system_temp: &str, name: &str) -> (r: Setup)
        ensures
            r.target_view() == join_spec(system_temp@, name@),
            is_ancestor_chain(r.ancestors_view(), r.target_view()),
    {
        Setup::at(join(system_temp, name))
    }

    /// A fixture named `name` under the current directory `cwd`;
    /// `random_name` gives a fresh name.
    pub fn current_rnd(cwd: &str, name: &str) -> (r: Setup)
        ensures
            r.target_view() == join_spec(cwd@, name@),
            is_ancestor_chain(r.ancestors_view(), r.target_view()),
    {
        Setup::at(join(cwd, name))
    }

    /// A fixture at `path` under the current directory `cwd`.
    pub fn current(cwd: &str, path: &str) -> (r: Setup)
        ensures
            r.target_view() == join_spec(cwd@, path@),
            is_ancestor_chain(r.ancestors_view(), r.target_view()),
    {
        Setup::at(join(cwd, path))
    }

    /// The files created so far, in order.
    pub fn get_files(&self) -> (r: &Vec<String>)
        ensures
            views(r@) == self.files_view(),
    {
        &self.files
    }

    /// The directories created so far, in order.
    pub fn get_dirs(&self) -> (r: &Vec<String>)
        ensures
            views(r@) == self.dirs_view(),
    {
        &self.dirs
    }

    /// The step that tears the fixture down: removing the tree at the
    /// boundary of its scoped directory.
    pub fn teardown(&self) -> (op: FsOp)
        ensures
            is_remove_dir(op, self.scope_view().boundary_view()),
    {
        FsOp::RemoveDirAll(self.tempdir.boundary())
    }

    /// The scoped directory; its boundary is what teardown removes.
    pub fn scope(&self) -> (r: &TempDir)
        ensures
            *r == self.scope_view(),
    {
        &self.tempdir
    }

    /// Creates a file or directory of type `filetype` at `path` under the
    /// root, where `parent` is the parent of `path`: returns the steps that
    /// make it, and records what they make.
    pub fn create_in(&mut self, path: &str, filetype: FileType, parent: Option<String>) -> (ops: Vec<FsOp>)
        requires
            !is_absolute_spec(path@),
        ensures
            final(self).wf() == old(self).wf(),
            final(self).scope_view() == old(self).scope_view(),
            final(self).root_view() == old(self).root_view(),
            final(self).dirs_view() == old(self).dirs_view() + dirs_made_in(
                old(self).root_view(),
                path@,
                filetype,
                opt_view(parent),
            ),
            final(self).files_view() == old(self).files_view() + files_made(old(self).root_view(), path@, filetype),
            is_create_plan_in(old(self).root_view(), path@, filetype, opt_view(parent), ops@),
    {
        let ghost dirs0 = self.dirs_view();
        let ghost files0 = self.files_view();
        let mut ops: Vec<FsOp> = Vec::new();
        if filetype == FileType::Dir {
            let target = join(self.root.as_str(), path);
            ops.push(FsOp::CreateDirAll(target.clone()));
            self.dirs.push(target);
            assert(self.dirs_view() =~= dirs0 + dirs_made_in(self.root@, path@, filetype, opt_view(parent)));
        } else {
            match parent {
                Some(p) => {
                    let dir = join(self.root.as_str(), p.as_str());
                    ops.push(FsOp::CreateDirAll(dir.clone()));
                    self.dirs.push(dir);
                    assert(self.dirs_view() =~= dirs0 + dirs_made_in(self.root@, path@, filetype, opt_view(parent)));
                },
                None => {
                    assert(self.dirs_view() =~= dirs0 + dirs_made_in(self.root@, path@, filetype, opt_view(parent)));
                },
            }
            let target = join(self.root.as_str(), path);
            ops.push(FsOp::WriteFile(target.clone(), content(filetype)));
            self.files.push(target);
        }
        assert(self.files_view() =~= files0 + files_made(self.root@, path@, filetype));
        ops
    }
}

/// A root chosen by `temp` or `current_rnd` lies strictly inside the base
/// directory: the base is a proper prefix of it.
pub proof fn lemma_random_root_inside(base: Seq<char>, name: Seq<char>)
    requires
        is_random_name(name),
    ensures
        join_spec(base, name).len() > base.len(),
        join_spec(base, name).subrange(0, base.len() as int) == base,
{
    assert(is_alphanumeric(name[0]));
    assert(!is_absolute_spec(name));
    assert(join_spec(base, name).subrange(0, base.len() as int) =~= base);
}

/// The directory that `create` makes for a file lies above the file: when the
/// parent of a relative path is a leading part of it, the parent pushed onto
/// any root is a leading part of the path pushed onto that root.
pub proof fn lemma_parent_dir_above_file(root: Seq<char>, rel: Seq<char>)
    requires
        !is_absolute_spec(rel),
        parent_is_leading(rel),
        parent_of(rel) is Some,
    ensures
        is_prefix(join_spec(root, parent_of(rel)->0), join_spec(root, rel)),
{
    let q = parent_of(rel)->0;
    if q.len() > 0 {
        assert(q[0] == rel[0]);
    }
    assert(!is_absolute_spec(q));
    assert(join_spec(root, q) =~= join_spec(root, rel).subrange(0, join_spec(root, q).len() as int));
}

/// Tearing a well-formed fixture down removes its root: the directory that
/// `teardown` removes is the root or one of its ancestors, and a leading part
/// of the root's path. `create` keeps the scoped directory and well-formedness,
/// so this holds however the fixture was populated.
pub proof fn lemma_fixture_teardown_removes_root(d: TestDir)
    requires
        d.wf(),
    ensures
        exists|k: nat| nth_parent(d.root_view(), k) == Some(d.scope_view().boundary_view()),
        is_prefix(d.scope_view().boundary_view(), d.root_view()),
{
    lemma_teardown_covers_root(d.scope_view());
    assert(d.scope_view().root_view() == d.root_view());
    let k = choose|k: nat| nth_parent(d.scope_view().root_view(), k) == Some(d.scope_view().boundary_view());
    assert(nth_parent(d.root_view(), k) == Some(d.scope_view().boundary_view()));
}

/// Why a request on a fixture was refused.
#[derive(PartialEq, Eq, Structural, Debug, Clone, Copy)]
pub enum PathError {
    /// The path is absolute; only paths relative to the root are allowed.
    Absolute,
}

impl TestDir {
    /// `create`, refusing an absolute `path` and then leaving the fixture
    /// as it was.
    pub fn try_create(&mut self, path: &str, filetype: FileType) -> (r: Result<Vec<FsOp>, PathError>)
        ensures
            r is Err <==> is_absolute_spec(path@),
            r is Err ==> r == Err::<Vec<FsOp>, PathError>(PathError::Absolute) && *final(self) == *old(self),
            r is Ok ==> {
                &&& final(self).root_view() == old(self).root_view()
                &&& final(self).scope_view() == old(self).scope_view()
                &&& final(self).wf() == old(self).wf()
                &&& final(self).dirs_view() == old(self).dirs_view() + dirs_made(old(self).root_view(), path@, filetype)
                &&& final(self).files_view() == old(self).files_view() + files_made(old(self).root_view(), path@, filetype)
                &&& is_create_plan(old(self).root_view(), path@, filetype, r->Ok_0@)
            },
    {
        if is_absolute(path) {
            Err(PathError::Absolute)
        } else {
            Ok(self.create(path, filetype))
        }
    }

    /// `remove`, refusing an absolute `path`.
    pub fn try_remove(&self, path: &str, found: EntryKind) -> (r: Result<Vec<FsOp>, PathError>)
        ensures
            r is Err <==> is_absolute_spec(path@),
            r is Err ==> r == Err::<Vec<FsOp>, PathError>(PathError::Absolute),
            r is Ok ==> is_remove_plan(join_spec(self.root_view(), path@), found, r->Ok_0@),
    {
        if is_absolute(path) {
            Err(PathError::Absolute)
        } else {
            Ok(self.remove(path, found))
        }
    }
}

/// Builds a tree of files and directories under a root.
pub trait DirBuilder: Sized {
    /// The root directory.
    spec fn root_spec(&self) -> Seq<char>;

    /// The files created so far, in order.
    spec fn files_spec(&self) -> Seq<Seq<char>>;

    /// The directories created so far, in order.
    spec fn dirs_spec(&self) -> Seq<Seq<char>>;

    /// The scoped directory that owns the root.
    spec fn scope_spec(&self) -> TempDir;

    /// The builder is well formed.
    spec fn wf_spec(&self) -> bool;

    /// Creates a file or directory of type `filetype` at `path` under the
    /// root: returns the steps that make it, and records what they make.
    fn create(&mut self, path: &str, filetype: FileType) -> (ops: Vec<FsOp>)
        requires
            !is_absolute_spec(path@),
        ensures
            final(self).root_spec() == old(self).root_spec(),
            final(self).scope_spec() == old(self).scope_spec(),
            final(self).wf_spec() == old(self).wf_spec(),
            filetype != FileType::Dir ==> parent_is_leading(path@),
            final(self).dirs_spec() == old(self).dirs_spec() + dirs_made(old(self).root_spec(), path@, filetype),
            final(self).files_spec() == old(self).files_spec() + files_made(old(self).root_spec(), path@, filetype),
            is_create_plan(old(self).root_spec(), path@, filetype, ops@),
    ;

    /// Removes what was found at `path` under the root: returns the steps
    /// that remove it.
    fn remove(&self, path: &str, found: EntryKind) -> (ops: Vec<FsOp>)
        requires
            !is_absolute_spec(path@),
        ensures
            is_remove_plan(join_spec(self.root_spec(), path@), found, ops@),
    ;

    /// `path` prefixed with the root.
    fn path(&self, path: &str) -> (r: String)
        ensures
            r@ == join_spec(self.root_spec(), path@),
    ;

    /// The root directory.
    fn root(&self) -> (r: &str)
        ensures
            r@ == self.root_spec(),
    ;
}

impl DirBuilder for TestDir {
    open spec fn root_spec(&self) -> Seq<char> {
        self.root_view()
    }

    open spec fn files_spec(&self) -> Seq<Seq<char>> {
        self.files_view()
    }

    open spec fn dirs_spec(&self) -> Seq<Seq<char>> {
        self.dirs_view()
    }

    open spec fn scope_spec(&self) -> TempDir {
        self.scope_view()
    }

    open spec fn wf_spec(&self) -> bool {
        self.wf()
    }

    fn create(&mut self, path: &str, filetype: FileType) -> (ops: Vec<FsOp>) {
        let p = parent(path);
        self.create_in(path, filetype, p)
    }

    fn remove(&self, path: &str, found: EntryKind) -> (ops: Vec<FsOp>) {
        let target = join(self.root.as_str(), path);
        let mut ops: Vec<FsOp> = Vec::new();
        match found {
            EntryKind::Dir => ops.push(FsOp::RemoveDirAll(target)),
            EntryKind::File => ops.push(FsOp::RemoveFile(target)),
            _ => {},
        }
        ops
    }

    fn path(&self, path: &str) -> (r: String) {
        join(self.root.as_str(), path)
    }

    fn root(&self) -> (r: &str) {
        self.root.as_str()
    }
}

} // verus!
