//! The tables the pass-through file system keeps: inode numbers for the paths
//! the kernel has looked up, and handles for the files it has opened.

use std::collections::HashMap;
use vstd::prelude::*;
use crate::text::str_eq;

verus! {

broadcast use vstd::std_specs::hash::group_hash_axioms;

/// What the table knows of one inode.
pub struct InodeData {
    pub path: String,
    pub lookup_count: u64,
}

/// The model of an inode table: each inode's path and lookup count, and the
/// number the next new inode gets.
pub struct InodeModel {
    pub entries: Map<u64, (Seq<char>, u64)>,
    pub next: u64,
}

/// The inode number a model gives `path`, if any.
pub open spec fn spec_lookup(entries: Map<u64, (Seq<char>, u64)>, path: Seq<char>) -> Option<u64> {
    if exists|i: u64| entries.contains_key(i) && entries[i].0 == path {
        Some(choose|i: u64| entries.contains_key(i) && entries[i].0 == path)
    } else {
        None
    }
}

/// No two inodes of a model name the same path.
pub open spec fn paths_distinct(entries: Map<u64, (Seq<char>, u64)>) -> bool {
    forall|a: u64, b: u64|
        entries.contains_key(a) && entries.contains_key(b) && a != b ==> entries[a].0
            != entries[b].0
}

/// A well-formed model: the root inode 1 is present, every inode number is
/// below the next one, and paths are distinct.
pub open spec fn model_wf(m: InodeModel) -> bool {
    &&& m.entries.contains_key(1)
    &&& m.next >= 2
    &&& forall|i: u64| m.entries.contains_key(i) ==> 1 <= i < m.next
    &&& paths_distinct(m.entries)
}

/// Looking `path` up: the inode it already has, or a new inode (numbered
/// `next`) with lookup count 1.
pub open spec fn spec_allocate(m: InodeModel, path: Seq<char>) -> (InodeModel, u64) {
    match spec_lookup(m.entries, path) {
        Some(i) => (m, i),
        None => (
            InodeModel { entries: m.entries.insert(m.next, (path, 1)), next: (m.next + 1) as u64 },
            m.next,
        ),
    }
}

/// `a - b`, or 0 when `b > a` (`u64::saturating_sub`).
pub open spec fn saturating_sub(a: u64, b: u64) -> u64 {
    if b > a {
        0
    } else {
        (a - b) as u64
    }
}

/// Forgetting `n` lookups of `ino`: its count drops (never below 0); at 0 the
/// inode is dropped, except the root.
pub open spec fn spec_forget(m: InodeModel, ino: u64, n: u64) -> InodeModel {
    if !m.entries.contains_key(ino) {
        m
    } else {
        let c = saturating_sub(m.entries[ino].1, n);
        if c == 0 && ino != 1 {
            InodeModel { entries: m.entries.remove(ino), next: m.next }
        } else {
            InodeModel { entries: m.entries.insert(ino, (m.entries[ino].0, c)), next: m.next }
        }
    }
}

/// Looking a path up yields an inode that names that path.
pub proof fn law_allocate_names_path(m: InodeModel, path: Seq<char>)
    requires
        model_wf(m),
    ensures
        spec_allocate(m, path).0.entries.contains_key(spec_allocate(m, path).1),
        spec_allocate(m, path).0.entries[spec_allocate(m, path).1].0 == path,
{
}

/// A path that already has an inode gets that inode and leaves the table as
/// it was; any other path gets a new inode, above every inode the table holds
/// (so never the root's).
pub proof fn law_allocate_reuses_or_grows(m: InodeModel, path: Seq<char>)
    requires
        model_wf(m),
    ensures
        match spec_lookup(m.entries, path) {
            Some(i) => spec_allocate(m, path) == (m, i) && m.entries[i].0 == path,
            None => spec_allocate(m, path).1 >= 2 && forall|j: u64|
                m.entries.contains_key(j) ==> j < spec_allocate(m, path).1,
        },
{
}

/// Looking up the same path twice gives the same inode and leaves the table
/// as the first lookup left it.
pub proof fn law_allocate_idempotent(m: InodeModel, path: Seq<char>)
    requires
        model_wf(m),
        m.next < u64::MAX,
    ensures
        spec_allocate(spec_allocate(m, path).0, path) == spec_allocate(m, path),
{
    let (m2, r) = spec_allocate(m, path);
    law_allocate_keeps_wf(m, path);
    assert(m2.entries.contains_key(r) && m2.entries[r].0 == path);
    let c = choose|i: u64| m2.entries.contains_key(i) && m2.entries[i].0 == path;
    assert(c == r);
}

/// Looking a path up keeps the table well formed.
pub proof fn law_allocate_keeps_wf(m: InodeModel, path: Seq<char>)
    requires
        model_wf(m),
        m.next < u64::MAX,
    ensures
        model_wf(spec_allocate(m, path).0),
{
    if spec_lookup(m.entries, path) is None {
        let m2 = spec_allocate(m, path).0;
        assert forall|a: u64, b: u64|
            m2.entries.contains_key(a) && m2.entries.contains_key(b) && a != b implies m2.entries[a].0
            != m2.entries[b].0 by {
            if a == m.next {
                assert(m.entries.contains_key(b));
            } else if b == m.next {
                assert(m.entries.contains_key(a));
            }
        }
    }
}

/// Two different paths never share an inode.
pub proof fn law_distinct_paths_distinct_inodes(m: InodeModel, p: Seq<char>, q: Seq<char>)
    requires
        model_wf(m),
        m.next < u64::MAX - 1,
        p != q,
    ensures
        ({
            let (m1, a) = spec_allocate(m, p);
            let (m2, b) = spec_allocate(m1, q);
            a != b && m2.entries[a].0 == p && m2.entries[b].0 == q
        }),
{
    let (m1, a) = spec_allocate(m, p);
    law_allocate_keeps_wf(m, p);
    law_allocate_names_path(m, p);
    law_allocate_names_path(m1, q);
    let (m2, b) = spec_allocate(m1, q);
    assert(m2.entries.contains_key(a));
}

/// The root inode is never dropped, and forgetting keeps the table well formed.
pub proof fn law_forget_keeps_root(m: InodeModel, ino: u64, n: u64)
    requires
        model_wf(m),
    ensures
        model_wf(spec_forget(m, ino, n)),
        spec_forget(m, ino, n).entries.contains_key(1),
{
    let m2 = spec_forget(m, ino, n);
    assert forall|a: u64, b: u64|
        m2.entries.contains_key(a) && m2.entries.contains_key(b) && a != b implies m2.entries[a].0
        != m2.entries[b].0 by {
        assert(m.entries.contains_key(a) && m.entries.contains_key(b));
    }
}

/// The inode numbers of the paths the kernel has looked up.
pub struct InodeTable {
    inodes: HashMap<u64, InodeData>,
    by_path: Vec<(String, u64)>,
    next_inode: u64,
}

impl InodeTable {
    /// The model of the table.
    pub closed spec fn model(&self) -> InodeModel {
        InodeModel {
            entries: self.inodes@.map_values(|d: InodeData| (d.path@, d.lookup_count)),
            next: self.next_inode,
        }
    }

    /// The table's internal consistency: the path index lists each inode once,
    /// under its path.
    pub closed spec fn wf(&self) -> bool {
        &&& model_wf(self.model())
        &&& forall|k: int|
            #![trigger self.by_path@[k]]
            0 <= k < self.by_path@.len() ==> self.inodes@.contains_key(self.by_path@[k].1)
                && self.inodes@[self.by_path@[k].1].path@ == self.by_path@[k].0@
        &&& forall|i: u64|
            #![trigger self.inodes@.contains_key(i)]
            self.inodes@.contains_key(i) ==> exists|k: int|
                0 <= k < self.by_path@.len() && self.by_path@[k].1 == i
        &&& forall|k: int, l: int|
            #![trigger self.by_path@[k], self.by_path@[l]]
            0 <= k < self.by_path@.len() && 0 <= l < self.by_path@.len() && k != l
                ==> self.by_path@[k].1 != self.by_path@[l].1
    }

    /// A consistent table has a well-formed model: the root inode is there,
    /// every inode number is below the next one, and no two inodes share a path.
    pub proof fn lemma_wf_model(&self)
        requires
            self.wf(),
        ensures
            model_wf(self.model()),
    {
    }

    /// A table that knows only the root inode (1), for `root`.
    pub fn new(root: String) -> (t: InodeTable)
        ensures
            t.wf(),
            t.model().entries == map![1u64 => (root@, 1u64)],
            t.model().next == 2,
    {
        let mut inodes: HashMap<u64, InodeData> = HashMap::new();
        let root_copy = root.clone();
        inodes.insert(1, InodeData { path: root, lookup_count: 1 });
        let mut by_path: Vec<(String, u64)> = Vec::new();
        by_path.push((root_copy, 1));
        let t = InodeTable { inodes, by_path, next_inode: 2 };
        assert(t.model().entries =~= map![1u64 => (root@, 1u64)]);
        assert(t.by_path@[0].1 == 1);
        t
    }

    /// The number the next new inode gets.
    pub fn next_inode(&self) -> (r: u64)
        ensures
            r == self.model().next,
    {
        self.next_inode
    }

    /// The path of an inode (`None` stands for `ENOENT`).
    pub fn get_path(&self, ino: u64) -> (r: Option<String>)
        requires
            self.wf(),
        ensures
            match r {
                Some(p) => self.model().entries.contains_key(ino) && p@
                    == self.model().entries[ino].0,
                None => !self.model().entries.contains_key(ino),
            },
    {
        match self.inodes.get(&ino) {
            Some(d) => Some(d.path.clone()),
            None => None,
        }
    }

    /// The position of `path` in the path index, if it is there.
    fn find_path(&self, path: &str) -> (r: Option<usize>)
        requires
            self.wf(),
        ensures
            match r {
                Some(k) => k < self.by_path@.len() && self.by_path@[k as int].0@ == path@,
                None => forall|k: int|
                    0 <= k < self.by_path@.len() ==> self.by_path@[k].0@ != path@,
            },
    {
        let mut k: usize = 0;
        while k < self.by_path.len()
            invariant
                k <= self.by_path@.len(),
                forall|j: int| 0 <= j < k ==> self.by_path@[j].0@ != path@,
            decreases self.by_path.len() - k,
        {
            if str_eq(self.by_path[k].0.as_str(), path) {
                return Some(k);
            }
            k = k + 1;
        }
        None
    }

    proof fn lemma_lookup_found(&self, path: Seq<char>, k: int)
        requires
            self.wf(),
            0 <= k < self.by_path@.len(),
            self.by_path@[k].0@ == path,
        ensures
            spec_lookup(self.model().entries, path) == Some(self.by_path@[k].1),
    {
        let m = self.model().entries;
        let i = self.by_path@[k].1;
        assert(m.contains_key(i) && m[i].0 == path);
        let c = choose|c: u64| m.contains_key(c) && m[c].0 == path;
        assert(paths_distinct(m));
        assert(c == i);
    }

    proof fn lemma_lookup_absent(&self, path: Seq<char>)
        requires
            self.wf(),
            forall|k: int| 0 <= k < self.by_path@.len() ==> self.by_path@[k].0@ != path,
        ensures
            spec_lookup(self.model().entries, path) is None,
    {
        let m = self.model().entries;
        if exists|i: u64| m.contains_key(i) && m[i].0 == path {
            let i = choose|i: u64| m.contains_key(i) && m[i].0 == path;
            assert(self.inodes@.contains_key(i));
            let k = choose|k: int| 0 <= k < self.by_path@.len() && self.by_path@[k].1 == i;
            assert(self.by_path@[k].0@ == path);
        }
    }

    /// The inode of `path`: the one it already has, or a new one with lookup
    /// count 1.
    pub fn allocate_inode(&mut self, path: String) -> (r: u64)
        requires
            old(self).wf(),
            old(self).model().next < u64::MAX,
        ensures
            final(self).wf(),
            (final(self).model(), r) == spec_allocate(old(self).model(), path@),
    {
        match self.find_path(path.as_str()) {
            Some(k) => {
                proof {
                    self.lemma_lookup_found(path@, k as int);
                }
                self.by_path[k].1
            },
            None => {
                proof {
                    self.lemma_lookup_absent(path@);
                }
                let ino = self.next_inode;
                let ghost old_model = self.model();
                let ghost old_by_path = self.by_path@;
                let ghost old_inodes = self.inodes@;
                let path_copy = path.clone();
                self.inodes.insert(ino, InodeData { path, lookup_count: 1 });
                self.by_path.push((path_copy, ino));
                self.next_inode = ino + 1;
                proof {
                    assert(self.model().entries =~= old_model.entries.insert(ino, (path@, 1u64)));
                    assert(!old_model.entries.contains_key(ino));
                    let n = old_by_path.len() as int;
                    assert(self.by_path@[n] == (path_copy, ino));
                    assert forall|k: int|
                        #![trigger self.by_path@[k]]
                        0 <= k < self.by_path@.len() implies self.inodes@.contains_key(
                            self.by_path@[k].1,
                        ) && self.inodes@[self.by_path@[k].1].path@ == self.by_path@[k].0@ by {
                        if k < n {
                            assert(self.by_path@[k] == old_by_path[k]);
                            assert(old_inodes.contains_key(old_by_path[k].1));
                        }
                    }
                    assert forall|i: u64|
                        #![trigger self.inodes@.contains_key(i)]
                        self.inodes@.contains_key(i) implies exists|k: int|
                            0 <= k < self.by_path@.len() && self.by_path@[k].1 == i by {
                        if i == ino {
                            assert(self.by_path@[n].1 == i);
                        } else {
                            assert(old_inodes.contains_key(i));
                            let k = choose|k: int|
                                0 <= k < old_by_path.len() && old_by_path[k].1 == i;
                            assert(self.by_path@[k] == old_by_path[k]);
                        }
                    }
                    assert forall|k: int, l: int|
                        #![trigger self.by_path@[k], self.by_path@[l]]
                        0 <= k < self.by_path@.len() && 0 <= l < self.by_path@.len() && k != l
                            implies self.by_path@[k].1 != self.by_path@[l].1 by {
                        if k < n {
                            assert(self.by_path@[k] == old_by_path[k]);
                            assert(old_inodes.contains_key(old_by_path[k].1));
                        }
                        if l < n {
                            assert(self.by_path@[l] == old_by_path[l]);
                            assert(old_inodes.contains_key(old_by_path[l].1));
                        }
                    }
                    let m = self.model().entries;
                    assert forall|a: u64, b: u64|
                        m.contains_key(a) && m.contains_key(b) && a != b implies m[a].0
                        != m[b].0 by {
                        if a == ino && b != ino {
                            let k = choose|k: int|
                                0 <= k < old_by_path.len() && old_by_path[k].1 == b;
                            assert(old_by_path[k].0@ == old_model.entries[b].0);
                        }
                        if b == ino && a != ino {
                            let k = choose|k: int|
                                0 <= k < old_by_path.len() && old_by_path[k].1 == a;
                            assert(old_by_path[k].0@ == old_model.entries[a].0);
                        }
                    }
                }
                ino
            },
        }
    }

    /// Forgets `nlookup` lookups of `ino` (FUSE `forget`).
    pub fn forget(&mut self, ino: u64, nlookup: u64)
        requires
            old(self).wf(),
        ensures
            final(self).wf(),
            final(self).model() == spec_forget(old(self).model(), ino, nlookup),
    {
        let ghost old_model = self.model();
        let ghost old_by_path = self.by_path@;
        let ghost old_inodes = self.inodes@;
        let (path, count) = match self.inodes.get(&ino) {
            Some(d) => (d.path.clone(), d.lookup_count),
            None => {
                return ;
            },
        };
        let c = count.saturating_sub(nlookup);
        if c == 0 && ino != 1 {
            self.inodes.remove(&ino);
            let k = self.find_index_of(ino);
            self.by_path.remove(k);
            proof {
                assert(self.model().entries =~= old_model.entries.remove(ino));
                let m = self.model().entries;
                assert(m.contains_key(1));
                assert forall|a: u64, b: u64|
                    m.contains_key(a) && m.contains_key(b) && a != b implies m[a].0 != m[b].0 by {
                    assert(old_model.entries.contains_key(a) && old_model.entries.contains_key(b));
                }
                assert(model_wf(self.model()));
                assert forall|j: int|
                    #![trigger self.by_path@[j]]
                    0 <= j < self.by_path@.len() implies self.inodes@.contains_key(
                        self.by_path@[j].1,
                    ) && self.inodes@[self.by_path@[j].1].path@ == self.by_path@[j].0@ by {
                    let oj = if j < k { j } else { j + 1 };
                    assert(self.by_path@[j] == old_by_path[oj]);
                    assert(old_by_path[oj].1 != old_by_path[k as int].1);
                }
                assert forall|i: u64|
                    #![trigger self.inodes@.contains_key(i)]
                    self.inodes@.contains_key(i) implies exists|j: int|
                        0 <= j < self.by_path@.len() && self.by_path@[j].1 == i by {
                    assert(old_inodes.contains_key(i));
                    let oj = choose|j: int| 0 <= j < old_by_path.len() && old_by_path[j].1 == i;
                    assert(oj != k);
                    let j = if oj < k { oj } else { oj - 1 };
                    assert(self.by_path@[j] == old_by_path[oj]);
                }
                assert forall|a: int, b: int|
                    #![trigger self.by_path@[a], self.by_path@[b]]
                    0 <= a < self.by_path@.len() && 0 <= b < self.by_path@.len() && a != b
                        implies self.by_path@[a].1 != self.by_path@[b].1 by {
                    let oa = if a < k { a } else { a + 1 };
                    let ob = if b < k { b } else { b + 1 };
                    assert(self.by_path@[a] == old_by_path[oa]);
                    assert(self.by_path@[b] == old_by_path[ob]);
                }
            }
        } else {
            self.inodes.insert(ino, InodeData { path, lookup_count: c });
            proof {
                assert(self.model().entries =~= old_model.entries.insert(
                    ino,
                    (old_model.entries[ino].0, c),
                ));
                let m = self.model().entries;
                assert forall|a: u64, b: u64|
                    m.contains_key(a) && m.contains_key(b) && a != b implies m[a].0 != m[b].0 by {
                    assert(old_model.entries.contains_key(a) && old_model.entries.contains_key(b));
                }
                assert(old_model.entries.contains_key(ino));
                assert(m.contains_key(1));
                assert(self.model().next >= 2);
                assert forall|i: u64| m.contains_key(i) implies 1 <= i < self.model().next by {
                    assert(old_model.entries.contains_key(i));
                }
                assert(paths_distinct(m));
                assert(model_wf(self.model()));
                assert forall|i: u64|
                    #![trigger self.inodes@.contains_key(i)]
                    self.inodes@.contains_key(i) implies exists|j: int|
                        0 <= j < self.by_path@.len() && self.by_path@[j].1 == i by {
                    assert(old_inodes.contains_key(i));
                }
                assert forall|j: int|
                    #![trigger self.by_path@[j]]
                    0 <= j < self.by_path@.len() implies self.inodes@.contains_key(
                        self.by_path@[j].1,
                    ) && self.inodes@[self.by_path@[j].1].path@ == self.by_path@[j].0@ by {
                    assert(old_inodes.contains_key(old_by_path[j].1));
                }
            }
        }
    }

    /// The position of inode `ino` in the path index.
    fn find_index_of(&self, ino: u64) -> (k: usize)
        requires
            exists|j: int| 0 <= j < self.by_path@.len() && self.by_path@[j].1 == ino,
        ensures
            k < self.by_path@.len(),
            self.by_path@[k as int].1 == ino,
    {
        let mut k: usize = 0;
        while k < self.by_path.len()
            invariant
                k <= self.by_path@.len(),
                forall|j: int| 0 <= j < k ==> self.by_path@[j].1 != ino,
                exists|j: int| 0 <= j < self.by_path@.len() && self.by_path@[j].1 == ino,
            decreases self.by_path.len() - k,
        {
            if self.by_path[k].1 == ino {
                return k;
            }
            k = k + 1;
        }
        k
    }
}

/// The open files, by handle.
pub struct HandleTable<F> {
    handles: HashMap<u64, F>,
    next_fh: u64,
}

impl<F> HandleTable<F> {
    /// The open files, by handle.
    pub closed spec fn handles(&self) -> Map<u64, F> {
        self.handles@
    }

    /// The handle the next opened file gets.
    pub closed spec fn next(&self) -> u64 {
        self.next_fh
    }

    /// Every handle in use is below the next one, which is at least 1.
    pub closed spec fn wf(&self) -> bool {
        &&& self.next_fh >= 1
        &&& forall|h: u64| self.handles@.contains_key(h) ==> 1 <= h < self.next_fh
    }

    /// A table with no open file; the first handle is 1.
    pub fn new() -> (t: HandleTable<F>)
        ensures
            t.wf(),
            t.handles() == Map::<u64, F>::empty(),
            t.next() == 1,
    {
        HandleTable { handles: HashMap::new(), next_fh: 1 }
    }

    /// The handle the next opened file gets.
    pub fn next_handle(&self) -> (r: u64)
        ensures
            r == self.next(),
    {
        self.next_fh
    }

    /// Registers an open file under a new handle.
    pub fn allocate_fh(&mut self, file: F) -> (fh: u64)
        requires
            old(self).wf(),
            old(self).next() < u64::MAX,
        ensures
            final(self).wf(),
            fh == old(self).next(),
            !old(self).handles().contains_key(fh),
            final(self).handles() == old(self).handles().insert(fh, file),
            final(self).next() == old(self).next() + 1,
    {
        let fh = self.next_fh;
        self.handles.insert(fh, file);
        self.next_fh = fh + 1;
        fh
    }

    /// The file registered under `fh` (`None` stands for `EIO`).
    pub fn get_file_handle(&self, fh: u64) -> (r: Option<&F>)
        ensures
            match r {
                Some(f) => self.handles().contains_key(fh) && *f == self.handles()[fh],
                None => !self.handles().contains_key(fh),
            },
    {
        self.handles.get(&fh)
    }

    /// Drops the file registered under `fh`.
    pub fn release_fh(&mut self, fh: u64)
        requires
            old(self).wf(),
        ensures
            final(self).wf(),
            final(self).handles() == old(self).handles().remove(fh),
            final(self).next() == old(self).next(),
    {
        self.handles.remove(&fh);
    }
}

} // verus!
