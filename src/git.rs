//! The status of a path on one side (index or working tree), and the cache of
//! the statuses that a repository reports.

use crate::meta::git_file_status::GitFileStatus;
use std::cmp::Ordering;
use vstd::std_specs::cmp::PartialOrdSpec;
use vstd::prelude::*;

verus! {

// A raw status, as a repository reports it for a path, is a set of bits,
// one per change, with the values libgit2 gives them.
/// No change: the path is current.
pub const CURRENT: u32 = 0;
/// Added to the index.
pub const INDEX_NEW: u32 = 1;
/// Changed in the index.
pub const INDEX_MODIFIED: u32 = 2;
/// Removed from the index.
pub const INDEX_DELETED: u32 = 4;
/// Renamed in the index.
pub const INDEX_RENAMED: u32 = 8;
/// Changed kind in the index.
pub const INDEX_TYPECHANGE: u32 = 16;
/// Untracked in the working tree.
pub const WT_NEW: u32 = 128;
/// Changed in the working tree.
pub const WT_MODIFIED: u32 = 256;
/// Removed from the working tree.
pub const WT_DELETED: u32 = 512;
/// Changed kind in the working tree.
pub const WT_TYPECHANGE: u32 = 1024;
/// Renamed in the working tree.
pub const WT_RENAMED: u32 = 2048;
/// Matched by an ignore rule.
pub const IGNORED: u32 = 16384;
/// In conflict.
pub const CONFLICTED: u32 = 32768;

/// Every bit of `flag` is set in `bits`.
pub open spec fn has_flag(bits: u32, flag: u32) -> bool {
    bits & flag == flag
}

/// The state of one side of a path, from least to most notable.
#[derive(Clone, Copy, Debug, PartialEq, Eq, Structural, Hash)]
pub enum GitStatus {
    /// No status info
    Default,
    /// No changes (got from git status)
    Unmodified,
    /// Entry is ignored item in workdir
    Ignored,
    /// Entry does not exist in old version (now in stage)
    NewInIndex,
    /// Entry does not exist in old version (not in stage)
    NewInWorkdir,
    /// Type of entry changed between old and new
    Typechange,
    /// Entry does not exist in new version
    Deleted,
    /// Entry was renamed between old and new
    Renamed,
    /// Entry content changed between old and new
    Modified,
    /// Entry in the index is conflicted
    Conflicted,
}

impl GitStatus {
    /// The position of a status in the order, `Default` lowest.
    pub open spec fn rank(self) -> nat {
        match self {
            GitStatus::Default => 0,
            GitStatus::Unmodified => 1,
            GitStatus::Ignored => 2,
            GitStatus::NewInIndex => 3,
            GitStatus::NewInWorkdir => 4,
            GitStatus::Typechange => 5,
            GitStatus::Deleted => 6,
            GitStatus::Renamed => 7,
            GitStatus::Modified => 8,
            GitStatus::Conflicted => 9,
        }
    }

    /// `self` comes strictly before `other` in the order.
    pub open spec fn lt_spec(self, other: GitStatus) -> bool {
        self.rank() < other.rank()
    }

    /// The later of two statuses in the order.
    pub open spec fn max_spec(self, other: GitStatus) -> GitStatus {
        if self.rank() >= other.rank() {
            self
        } else {
            other
        }
    }

    /// The position of this status in the order.
    pub fn rank_of(&self) -> (r: u8)
        ensures
            r as nat == self.rank(),
    {
        match self {
            GitStatus::Default => 0,
            GitStatus::Unmodified => 1,
            GitStatus::Ignored => 2,
            GitStatus::NewInIndex => 3,
            GitStatus::NewInWorkdir => 4,
            GitStatus::Typechange => 5,
            GitStatus::Deleted => 6,
            GitStatus::Renamed => 7,
            GitStatus::Modified => 8,
            GitStatus::Conflicted => 9,
        }
    }

    /// The more notable of two statuses.
    pub fn max(self, other: GitStatus) -> (r: GitStatus)
        ensures
            r == self.max_spec(other),
    {
        if self.rank_of() >= other.rank_of() {
            self
        } else {
            other
        }
    }
}

impl PartialOrd for GitStatus {
    fn partial_cmp(&self, other: &GitStatus) -> (r: Option<Ordering>) {
        let a = self.rank_of();
        let b = other.rank_of();
        if a < b {
            Some(Ordering::Less)
        } else if a == b {
            Some(Ordering::Equal)
        } else {
            Some(Ordering::Greater)
        }
    }
}

impl vstd::std_specs::cmp::PartialOrdSpecImpl for GitStatus {
    open spec fn obeys_partial_cmp_spec() -> bool {
        true
    }

    open spec fn partial_cmp_spec(&self, other: &GitStatus) -> Option<Ordering> {
        if self.lt_spec(*other) {
            Some(Ordering::Less)
        } else if other.lt_spec(*self) {
            Some(Ordering::Greater)
        } else {
            Some(Ordering::Equal)
        }
    }
}

/// Statuses are strictly and totally ordered: no status comes before itself,
/// no two come each before the other, the order is transitive, of two
/// distinct statuses one comes first, `Default` comes before every other
/// status and `Conflicted` after every other. The comparison operators
/// follow this order.
pub proof fn lemma_status_total_order(a: GitStatus, b: GitStatus, c: GitStatus)
    ensures
        !a.lt_spec(a),
        a.lt_spec(b) ==> !b.lt_spec(a),
        a.lt_spec(b) && b.lt_spec(c) ==> a.lt_spec(c),
        a == b || a.lt_spec(b) || b.lt_spec(a),
        a != GitStatus::Default ==> GitStatus::Default.lt_spec(a),
        a != GitStatus::Conflicted ==> a.lt_spec(GitStatus::Conflicted),
        (a.partial_cmp_spec(&b) == Some(Ordering::Less)) == a.lt_spec(b),
        (a.partial_cmp_spec(&b) == Some(Ordering::Equal)) == (a == b),
{
    lemma_rank_injective(a, b);
}

/// Distinct statuses have distinct places in the order.
pub proof fn lemma_rank_injective(a: GitStatus, b: GitStatus)
    ensures
        a.rank() == b.rank() ==> a == b,
{
}

/// A path as the text of each of its components, root first.
pub open spec fn components(p: Seq<String>) -> Seq<Seq<char>> {
    p.map_values(|c: String| c@)
}

/// `path` lies in `dir` or is `dir` itself, compared component by component.
pub open spec fn lies_in(path: Seq<Seq<char>>, dir: Seq<Seq<char>>) -> bool {
    dir.len() <= path.len() && path.subrange(0, dir.len() as int) == dir
}

/// The status stored for exactly `path`: that of its first entry, or the
/// default where no entry names it.
pub open spec fn exact_status(entries: Seq<(Seq<Seq<char>>, u32)>, path: Seq<Seq<char>>) -> GitFileStatus
    decreases entries.len(),
{
    if entries.len() == 0 {
        GitFileStatus::default_spec()
    } else if entries[0].0 == path {
        GitFileStatus::from_bits_spec(entries[0].1)
    } else {
        exact_status(entries.drop_first(), path)
    }
}

/// The fold, in order, of the statuses of every entry that lies in `dir`,
/// starting from the default. Ignored entries take part like any other, at
/// their place in the order.
pub open spec fn subtree_status(entries: Seq<(Seq<Seq<char>>, u32)>, dir: Seq<Seq<char>>) -> GitFileStatus
    decreases entries.len(),
{
    if entries.len() == 0 {
        GitFileStatus::default_spec()
    } else {
        let rest = subtree_status(entries.drop_last(), dir);
        if lies_in(entries.last().0, dir) {
            rest.combine_spec(GitFileStatus::from_bits_spec(entries.last().1))
        } else {
            rest
        }
    }
}

/// What a query answers: the subtree fold for a directory, the exact entry
/// for anything else.
pub open spec fn query_status(
    entries: Seq<(Seq<Seq<char>>, u32)>,
    path: Seq<Seq<char>>,
    is_directory: bool,
) -> GitFileStatus {
    if is_directory {
        subtree_status(entries, path)
    } else {
        exact_status(entries, path)
    }
}

/// A cache with no entries, as for a directory outside any repository,
/// answers every query, of any path and kind, with the default status.
pub proof fn lemma_empty_cache_answers_default(path: Seq<Seq<char>>, is_directory: bool)
    ensures
        query_status(Seq::empty(), path, is_directory) == GitFileStatus::default_spec(),
{
}

/// A directory's status is, on each side, at least as notable as that of
/// every entry that lies in the directory.
pub proof fn lemma_subtree_dominates(entries: Seq<(Seq<Seq<char>>, u32)>, dir: Seq<Seq<char>>, i: int)
    requires
        0 <= i < entries.len(),
        lies_in(entries[i].0, dir),
    ensures
        GitFileStatus::from_bits_spec(entries[i].1).index.rank()
            <= query_status(entries, dir, true).index.rank(),
        GitFileStatus::from_bits_spec(entries[i].1).workdir.rank()
            <= query_status(entries, dir, true).workdir.rank(),
    decreases entries.len(),
{
    if i < entries.len() - 1 {
        lemma_subtree_dominates(entries.drop_last(), dir, i);
    }
}

/// Each side of a directory's status is that of some entry lying in the
/// directory, or the default where no entry lies in it.
pub proof fn lemma_subtree_attained(entries: Seq<(Seq<Seq<char>>, u32)>, dir: Seq<Seq<char>>)
    ensures
        query_status(entries, dir, true).index == GitStatus::Default || exists|i: int|
            0 <= i < entries.len() && lies_in(entries[i].0, dir)
                && #[trigger] GitFileStatus::from_bits_spec(entries[i].1).index
                == query_status(entries, dir, true).index,
        query_status(entries, dir, true).workdir == GitStatus::Default || exists|i: int|
            0 <= i < entries.len() && lies_in(entries[i].0, dir)
                && #[trigger] GitFileStatus::from_bits_spec(entries[i].1).workdir
                == query_status(entries, dir, true).workdir,
    decreases entries.len(),
{
    if entries.len() > 0 {
        let rest = entries.drop_last();
        lemma_subtree_attained(rest, dir);
        let n = entries.len() - 1;
        let r = subtree_status(rest, dir);
        if r.index != GitStatus::Default {
            let i = choose|i: int|
                0 <= i < rest.len() && lies_in(rest[i].0, dir)
                    && #[trigger] GitFileStatus::from_bits_spec(rest[i].1).index == r.index;
            assert(entries[i] == rest[i]);
        }
        if r.workdir != GitStatus::Default {
            let i = choose|i: int|
                0 <= i < rest.len() && lies_in(rest[i].0, dir)
                    && #[trigger] GitFileStatus::from_bits_spec(rest[i].1).workdir == r.workdir;
            assert(entries[i] == rest[i]);
        }
        assert(entries[n] == entries.last());
    }
}

/// A query for anything but a directory answers the status stored for the
/// first entry of exactly that path, not a fold over several.
pub proof fn lemma_exact_match(entries: Seq<(Seq<Seq<char>>, u32)>, path: Seq<Seq<char>>, i: int)
    requires
        0 <= i < entries.len(),
        entries[i].0 == path,
        forall|j: int| 0 <= j < i ==> entries[j].0 != path,
    ensures
        query_status(entries, path, false) == GitFileStatus::from_bits_spec(entries[i].1),
    decreases i,
{
    if i > 0 {
        let rest = entries.drop_first();
        assert forall|j: int| 0 <= j < i - 1 implies rest[j].0 != path by {
            assert(rest[j] == entries[j + 1]);
        }
        lemma_exact_match(rest, path, i - 1);
    }
}

/// The statuses that a repository reported, each under the absolute path of
/// its entry, gathered once and then only read.
pub struct GitCache {
    statuses: Vec<(Vec<String>, u32)>,
    cached_dir: Option<Vec<String>>,
}

impl View for GitCache {
    type V = Seq<(Seq<Seq<char>>, u32)>;

    /// Each stored entry as its path's components and its raw status.
    closed spec fn view(&self) -> Seq<(Seq<Seq<char>>, u32)> {
        self.statuses@.map_values(|e: (Vec<String>, u32)| (components(e.0@), e.1))
    }
}

/// The two paths have the same components.
fn same_path(a: &Vec<String>, b: &Vec<String>) -> (r: bool)
    ensures
        r == (components(a@) == components(b@)),
{
    if a.len() != b.len() {
        assert(components(a@).len() != components(b@).len());
        return false;
    }
    let mut i: usize = 0;
    while i < a.len()
        invariant
            a.len() == b.len(),
            i <= a.len(),
            forall|j: int| 0 <= j < i ==> a@[j]@ == b@[j]@,
        decreases a.len() - i,
    {
        if a[i] != b[i] {
            assert(components(a@)[i as int] != components(b@)[i as int]);
            return false;
        }
        i = i + 1;
    }
    assert(components(a@) =~= components(b@));
    true
}

/// `path` lies in `dir`, compared component by component.
fn path_lies_in(path: &Vec<String>, dir: &Vec<String>) -> (r: bool)
    ensures
        r == lies_in(components(path@), components(dir@)),
{
    if dir.len() > path.len() {
        return false;
    }
    let mut i: usize = 0;
    while i < dir.len()
        invariant
            dir.len() <= path.len(),
            i <= dir.len(),
            forall|j: int| 0 <= j < i ==> path@[j]@ == dir@[j]@,
        decreases dir.len() - i,
    {
        if path[i] != dir[i] {
            assert(components(path@).subrange(0, dir.len() as int)[i as int] != components(dir@)[i as int]);
            return false;
        }
        i = i + 1;
    }
    assert(components(path@).subrange(0, dir.len() as int) =~= components(dir@));
    true
}

/// A copy of a path.
fn copy_path(p: &Vec<String>) -> (r: Vec<String>)
    ensures
        r@ == p@,
{
    let mut r: Vec<String> = Vec::new();
    let mut i: usize = 0;
    while i < p.len()
        invariant
            i <= p.len(),
            r@ =~= p@.subrange(0, i as int),
        decreases p.len() - i,
    {
        r.push(p[i].clone());
        i = i + 1;
    }
    assert(p@.subrange(0, p.len() as int) =~= p@);
    r
}

/// `rel` placed under `base`: the components of both, in turn.
fn join_path(base: &Vec<String>, rel: &Vec<String>) -> (r: Vec<String>)
    ensures
        components(r@) == components(base@) + components(rel@),
{
    let mut r = copy_path(base);
    let mut k: usize = 0;
    while k < rel.len()
        invariant
            k <= rel.len(),
            r@ =~= base@ + rel@.subrange(0, k as int),
        decreases rel.len() - k,
    {
        r.push(rel[k].clone());
        k = k + 1;
    }
    assert(rel@.subrange(0, rel.len() as int) =~= rel@);
    assert(components(r@) =~= components(base@) + components(rel@));
    r
}

impl GitCache {
    /// The directory the cache was built for, if it was built from a repository.
    pub closed spec fn dir(&self) -> Option<Seq<Seq<char>>> {
        match self.cached_dir {
            Some(d) => Some(components(d@)),
            None => None,
        }
    }

    /// A cache of the statuses that a repository reported: each relative path
    /// is placed under the working directory `workdir`, in the order given.
    /// `cached_dir` is the directory the listing was asked for.
    pub fn new(cached_dir: Vec<String>, workdir: &Vec<String>, reported: &Vec<(Vec<String>, u32)>) -> (r: GitCache)
        ensures
            r@.len() == reported@.len(),
            forall|i: int|
                0 <= i < reported@.len() ==> #[trigger] r@[i] == (
                    components(workdir@) + components(reported@[i].0@),
                    reported@[i].1,
                ),
            r.dir() == Some(components(cached_dir@)),
    {
        let mut statuses: Vec<(Vec<String>, u32)> = Vec::new();
        let mut i: usize = 0;
        while i < reported.len()
            invariant
                i <= reported.len(),
                statuses@.len() == i,
                forall|j: int|
                    0 <= j < i ==> components((#[trigger] statuses@[j]).0@) == components(workdir@)
                        + components(reported@[j].0@) && statuses@[j].1 == reported@[j].1,
            decreases reported.len() - i,
        {
            let path = join_path(workdir, &reported[i].0);
            statuses.push((path, reported[i].1));
            i = i + 1;
        }
        let r = GitCache { statuses, cached_dir: Some(cached_dir) };
        assert forall|i: int| 0 <= i < reported@.len() implies #[trigger] r@[i] == (
            components(workdir@) + components(reported@[i].0@),
            reported@[i].1,
        ) by {
            assert(r@[i] == (components(r.statuses@[i].0@), r.statuses@[i].1));
        }
        r
    }

    /// A cache with no entries, for a directory outside any repository.
    pub fn empty() -> (r: GitCache)
        ensures
            r@ == Seq::<(Seq<Seq<char>>, u32)>::empty(),
            r.dir() == None::<Seq<Seq<char>>>,
    {
        let r = GitCache { statuses: Vec::new(), cached_dir: None };
        assert(r@ =~= Seq::<(Seq<Seq<char>>, u32)>::empty());
        r
    }

    /// The number of stored entries.
    pub fn len(&self) -> (r: usize)
        ensures
            r == self@.len(),
    {
        self.statuses.len()
    }

    /// The status of `filepath`: for a directory, the fold of every entry
    /// that lies in it; otherwise the entry stored for exactly that path.
    /// Either way the default where nothing matches.
    pub fn get(&self, filepath: &Vec<String>, is_directory: bool) -> (r: GitFileStatus)
        ensures
            r == query_status(self@, components(filepath@), is_directory),
    {
        let ghost entries = self@;
        let ghost path = components(filepath@);
        if is_directory {
            let mut acc = GitFileStatus::default();
            let mut i: usize = 0;
            while i < self.statuses.len()
                invariant
                    entries == self@,
                    path == components(filepath@),
                    i <= self.statuses.len(),
                    acc == subtree_status(entries.subrange(0, i as int), path),
                decreases self.statuses.len() - i,
            {
                let entry = &self.statuses[i];
                assert(entries.subrange(0, i + 1).drop_last() =~= entries.subrange(0, i as int));
                assert(entries.subrange(0, i + 1).last() == entries[i as int]);
                assert(entries[i as int] == (components(entry.0@), entry.1));
                let ghost prefix = entries.subrange(0, i + 1);
                if path_lies_in(&entry.0, filepath) {
                    acc = acc.combine(&GitFileStatus::new(entry.1));
                    assert(lies_in(prefix.last().0, path));
                } else {
                    assert(!lies_in(prefix.last().0, path));
                }
                assert(acc == subtree_status(prefix, path));
                i = i + 1;
            }
            assert(entries.subrange(0, self.statuses.len() as int) =~= entries);
            acc
        } else {
            assert(entries.subrange(0, entries.len() as int) =~= entries);
            let mut i: usize = 0;
            while i < self.statuses.len()
                invariant
                    entries == self@,
                    path == components(filepath@),
                    i <= self.statuses.len(),
                    !is_directory,
                    exact_status(entries, path) == exact_status(entries.subrange(i as int, entries.len() as int), path),
                decreases self.statuses.len() - i,
            {
                let entry = &self.statuses[i];
                assert(entries[i as int] == (components(entry.0@), entry.1));
                assert(entries.subrange(i as int, entries.len() as int).drop_first()
                    =~= entries.subrange(i + 1, entries.len() as int));
                assert(entries.subrange(i as int, entries.len() as int)[0] == entries[i as int]);
                let ghost rest = entries.subrange(i as int, entries.len() as int);
                if same_path(filepath, &entry.0) {
                    assert(rest.len() > 0 && rest[0] == (path, entry.1));
                    assert(exact_status(rest, path) == GitFileStatus::from_bits_spec(entry.1));
                    return GitFileStatus::new(entry.1);
                }
                assert(rest[0].0 != path);
                assert(exact_status(rest, path) == exact_status(rest.drop_first(), path));
                i = i + 1;
            }
            GitFileStatus::default()
        }
    }
}

} // verus!
