//! Bounded LRU cache of file digests, keyed by mount namespace, path and the
//! file identity fields (inode, size, mtime); plus the pid-to-namespace map.
//!
//! A hit requires the whole key to match: a file whose identity changed is
//! recomputed. The entry list is kept in recency order, least recently
//! accessed first; an access moves the entry to the most-recent end, and an
//! insert into a full cache evicts the least recently accessed entry.

use vstd::prelude::*;

use crate::digests::{
    md5_hex, md5_of, sha1_hex, sha1_of, sha256_hex, sha256_of, sha512_hex, sha512_of,
    spec_hex_lower,
};

verus! {

/// Cache key: namespace, canonical path and file identity.
#[derive(Debug)]
pub struct CacheKey {
    pub mnt_ns: u32,
    pub path: String,
    pub inode: u64,
    pub size: u64,
    pub mtime: u64,
}

/// The two keys name the same file identity.
pub open spec fn key_eqv(a: CacheKey, b: CacheKey) -> bool {
    a.mnt_ns == b.mnt_ns && a.path@ == b.path@ && a.inode == b.inode && a.size == b.size
        && a.mtime == b.mtime
}

/// See [`key_eqv`].
pub fn key_eq(a: &CacheKey, b: &CacheKey) -> (r: bool)
    ensures
        r == key_eqv(*a, *b),
{
    a.mnt_ns == b.mnt_ns && a.path == b.path && a.inode == b.inode && a.size == b.size && a.mtime
        == b.mtime
}

/// Digest set of one file.
#[derive(Debug)]
pub struct Hashes {
    pub file: String,
    pub md5: String,
    pub sha1: String,
    pub sha256: String,
    pub sha512: String,
    pub size: u64,
    pub error: Option<String>,
}

/// The two digest records agree byte for byte.
pub open spec fn hashes_eqv(a: Hashes, b: Hashes) -> bool {
    &&& a.file@ == b.file@
    &&& a.md5@ == b.md5@
    &&& a.sha1@ == b.sha1@
    &&& a.sha256@ == b.sha256@
    &&& a.sha512@ == b.sha512@
    &&& a.size == b.size
    &&& match (a.error, b.error) {
        (None, None) => true,
        (Some(x), Some(y)) => x@ == y@,
        _ => false,
    }
}

impl Hashes {
    /// A field-for-field copy.
    pub fn duplicate(&self) -> (r: Hashes)
        ensures
            hashes_eqv(r, *self),
    {
        Hashes {
            file: self.file.clone(),
            md5: self.md5.clone(),
            sha1: self.sha1.clone(),
            sha256: self.sha256.clone(),
            sha512: self.sha512.clone(),
            size: self.size,
            error: match &self.error {
                Some(e) => Some(e.clone()),
                None => None,
            },
        }
    }
}

/// First entry with an equivalent key, if any.
pub open spec fn hc_lookup(s: Seq<(CacheKey, Hashes)>, k: CacheKey) -> Option<Hashes>
    decreases s.len(),
{
    if s.len() == 0 {
        None
    } else if key_eqv(s[0].0, k) {
        Some(s[0].1)
    } else {
        hc_lookup(s.drop_first(), k)
    }
}

/// No two entries share an equivalent key.
pub open spec fn hc_unique(s: Seq<(CacheKey, Hashes)>) -> bool {
    forall|i: int, j: int|
        0 <= i < j < s.len() ==> !key_eqv((#[trigger] s[i]).0, (#[trigger] s[j]).0)
}

proof fn lemma_hc_lookup_index(s: Seq<(CacheKey, Hashes)>, k: CacheKey, i: int)
    requires
        hc_unique(s),
        0 <= i < s.len(),
        key_eqv(s[i].0, k),
    ensures
        hc_lookup(s, k) == Some(s[i].1),
    decreases s.len(),
{
    if i == 0 {
    } else {
        assert(!key_eqv(s[0].0, k));
        lemma_hc_lookup_index(s.drop_first(), k, i - 1);
    }
}

proof fn lemma_hc_lookup_none(s: Seq<(CacheKey, Hashes)>, k: CacheKey)
    requires
        forall|i: int| 0 <= i < s.len() ==> !key_eqv((#[trigger] s[i]).0, k),
    ensures
        hc_lookup(s, k) == None::<Hashes>,
    decreases s.len(),
{
    if s.len() > 0 {
        lemma_hc_lookup_none(s.drop_first(), k);
    }
}

proof fn lemma_hc_lookup_push(s: Seq<(CacheKey, Hashes)>, k: CacheKey, v: Hashes)
    requires
        forall|i: int| 0 <= i < s.len() ==> !key_eqv((#[trigger] s[i]).0, k),
    ensures
        forall|k2: CacheKey|
            key_eqv(k, k2) ==> hc_lookup(s.push((k, v)), k2) == Some(v),
        forall|k2: CacheKey|
            !key_eqv(k, k2) ==> hc_lookup(s.push((k, v)), k2) == hc_lookup(s, k2),
    decreases s.len(),
{
    if s.len() == 0 {
        assert forall|k2: CacheKey| !key_eqv(k, k2) implies hc_lookup(s.push((k, v)), k2)
            == hc_lookup(s, k2) by {
            let t = s.push((k, v));
            assert(t.drop_first() =~= Seq::<(CacheKey, Hashes)>::empty());
            assert(hc_lookup(t.drop_first(), k2) == None::<Hashes>);
        }
    } else {
        lemma_hc_lookup_push(s.drop_first(), k, v);
        let t = s.push((k, v));
        assert(t.drop_first() =~= s.drop_first().push((k, v)));
        assert forall|k2: CacheKey| !key_eqv(k, k2) implies hc_lookup(t, k2) == hc_lookup(
            s,
            k2,
        ) by {
            assert(t[0] == s[0]);
            assert(hc_lookup(t.drop_first(), k2) == hc_lookup(s.drop_first().push((k, v)), k2));
            assert(hc_lookup(s.drop_first().push((k, v)), k2) == hc_lookup(s.drop_first(), k2));
        }
        assert forall|k2: CacheKey| key_eqv(k, k2) implies hc_lookup(t, k2) == Some(v) by {
            assert(!key_eqv(s[0].0, k2));
            assert(hc_lookup(t.drop_first(), k2) == hc_lookup(s.drop_first().push((k, v)), k2));
        }
    }
}

proof fn lemma_hc_lookup_remove(s: Seq<(CacheKey, Hashes)>, i: int)
    requires
        hc_unique(s),
        0 <= i < s.len(),
    ensures
        hc_unique(s.remove(i)),
        forall|k: CacheKey| key_eqv(s[i].0, k) ==> hc_lookup(s.remove(i), k) == None::<Hashes>,
        forall|k: CacheKey| !key_eqv(s[i].0, k) ==> hc_lookup(s.remove(i), k) == hc_lookup(s, k),
    decreases s.len(),
{
    let r = s.remove(i);
    assert forall|a: int, b: int| 0 <= a < b < r.len() implies !key_eqv(
        (#[trigger] r[a]).0,
        (#[trigger] r[b]).0,
    ) by {
        let a0 = if a < i { a } else { a + 1 };
        let b0 = if b < i { b } else { b + 1 };
        assert(r[a] == s[a0] && r[b] == s[b0]);
    }
    assert forall|k: CacheKey| key_eqv(s[i].0, k) implies hc_lookup(s.remove(i), k) == None::<
        Hashes,
    > by {
        assert forall|j: int| 0 <= j < r.len() implies !key_eqv((#[trigger] r[j]).0, k) by {
            let j0 = if j < i { j } else { j + 1 };
            assert(r[j] == s[j0]);
        }
        lemma_hc_lookup_none(r, k);
    }
    if i == 0 {
        assert(s.remove(0) =~= s.drop_first());
        assert forall|k: CacheKey| !key_eqv(s[0].0, k) implies hc_lookup(s.remove(0), k)
            == hc_lookup(s, k) by {
            assert(hc_lookup(s, k) == hc_lookup(s.drop_first(), k));
        }
    } else {
        lemma_hc_lookup_remove(s.drop_first(), i - 1);
        assert(s.remove(i).drop_first() =~= s.drop_first().remove(i - 1));
        assert(s.remove(i)[0] == s[0]);
        assert forall|k: CacheKey| !key_eqv(s[i].0, k) implies hc_lookup(s.remove(i), k)
            == hc_lookup(s, k) by {
            assert(s.drop_first()[i - 1] == s[i]);
            assert(hc_lookup(s.remove(i).drop_first(), k) == hc_lookup(
                s.drop_first().remove(i - 1),
                k,
            ));
            assert(hc_lookup(s.drop_first().remove(i - 1), k) == hc_lookup(s.drop_first(), k));
        }
    }
}

/// The mount namespace most recently recorded for a pid; writes win from the
/// end.
pub open spec fn ns_lookup(s: Seq<(i32, u32)>, pid: i32) -> Option<u32>
    decreases s.len(),
{
    if s.len() == 0 {
        None
    } else if s.last().0 == pid {
        Some(s.last().1)
    } else {
        ns_lookup(s.drop_last(), pid)
    }
}

/// Remembers which mount namespace each pid was last seen in; used to find a
/// namespace entry point for hashing.
#[derive(Debug)]
pub struct NsCache {
    entries: Vec<(i32, u32)>,
}

impl NsCache {
    pub closed spec fn spec_get(self, pid: i32) -> Option<u32> {
        ns_lookup(self.entries@, pid)
    }

    pub fn new() -> (r: NsCache)
        ensures
            forall|pid: i32| r.spec_get(pid) == None::<u32>,
    {
        NsCache { entries: Vec::new() }
    }

    /// Records `mnt_ns` as the namespace of `pid`, superseding any earlier
    /// record.
    pub fn cache_ns(&mut self, pid: i32, mnt_ns: u32)
        ensures
            final(self).spec_get(pid) == Some(mnt_ns),
            forall|p2: i32| p2 != pid ==> final(self).spec_get(p2) == old(self).spec_get(p2),
    {
        let ghost s0 = self.entries@;
        self.entries.push((pid, mnt_ns));
        proof {
            assert(self.entries@.last() == (pid, mnt_ns));
            assert forall|p2: i32| p2 != pid implies final(self).spec_get(p2) == old(
                self,
            ).spec_get(p2) by {
                assert(self.entries@.drop_last() =~= s0);
            }
        }
    }

    /// The namespace last recorded for `pid`.
    pub fn get_ns(&self, pid: i32) -> (r: Option<u32>)
        ensures
            r == self.spec_get(pid),
    {
        let mut i = self.entries.len();
        proof {
            assert(self.entries@.take(self.entries@.len() as int) =~= self.entries@);
        }
        while i > 0
            invariant
                i <= self.entries@.len(),
                ns_lookup(self.entries@.take(i as int), pid) == self.spec_get(pid),
            decreases i,
        {
            if self.entries[i - 1].0 == pid {
                proof {
                    assert(self.entries@.take(i as int).last() == self.entries@[i - 1]);
                }
                return Some(self.entries[i - 1].1);
            }
            proof {
                assert(self.entries@.take(i as int).last() == self.entries@[i - 1]);
                assert(self.entries@.take(i as int).drop_last() =~= self.entries@.take(i - 1));
            }
            i = i - 1;
        }
        proof {
            assert(self.entries@.take(0) =~= Seq::<(i32, u32)>::empty());
        }
        None
    }
}

proof fn lemma_hc_lookup_consistent(s: Seq<(CacheKey, Hashes)>, k: CacheKey)
    requires
        hc_consistent(s),
        hc_lookup(s, k) is Some,
    ensures
        hc_lookup(s, k) matches Some(h) && h.file@ == k.path@ && h.size == k.size && h.error
            is None,
    decreases s.len(),
{
    if s.len() > 0 {
        if key_eqv(s[0].0, k) {
        } else {
            lemma_hc_lookup_consistent(s.drop_first(), k);
        }
    }
}

proof fn lemma_hc_lookup_congruent(s: Seq<(CacheKey, Hashes)>, k1: CacheKey, k2: CacheKey)
    requires
        key_eqv(k1, k2),
    ensures
        hc_lookup(s, k1) == hc_lookup(s, k2),
    decreases s.len(),
{
    if s.len() > 0 {
        lemma_hc_lookup_congruent(s.drop_first(), k1, k2);
    }
}

/// What probing a file inside its mount namespace found: the identity fields
/// and content, or the error. The probe itself is I/O and happens outside
/// the library.
#[derive(Debug)]
pub enum FileProbe {
    Found { inode: u64, size: u64, mtime: u64, content: Vec<u8> },
    Failed { error: String },
}

/// Every stored record agrees with its key and carries no error: only
/// successfully computed digests are cached.
pub open spec fn hc_consistent(s: Seq<(CacheKey, Hashes)>) -> bool {
    forall|i: int|
        0 <= i < s.len() ==> ((#[trigger] s[i]).1.file@ == s[i].0.path@ && s[i].1.size
            == s[i].0.size && s[i].1.error is None)
}

/// What a digest record handed out for `path` under `probe` is, relative to
/// the cache state `pre` it was looked up in: a failed probe echoes its
/// error; a hit answers byte for byte from the stored entry; a miss answers
/// with the digests of the probed content.
pub open spec fn probe_outcome(pre: HashCache, mnt_ns: u32, path: String, probe: FileProbe, r:
    Hashes) -> bool {
    match probe {
        FileProbe::Failed { error } => r.file@ == path@ && (r.error matches Some(e) && e@
            == error@),
        FileProbe::Found { inode, size, mtime, content } => {
            let key = CacheKey { mnt_ns, path, inode, size, mtime };
            match pre.spec_get(key) {
                Some(h0) => hashes_eqv(r, h0),
                None => fresh_digests(path, size, content, r),
            }
        },
    }
}

/// The record holds exactly the digests of `content`, without error.
pub open spec fn fresh_digests(path: String, size: u64, content: Vec<u8>, r: Hashes) -> bool {
    &&& r.file@ == path@
    &&& r.size == size
    &&& r.error is None
    &&& r.md5@ == spec_hex_lower(md5_of(content@))
    &&& r.sha1@ == spec_hex_lower(sha1_of(content@))
    &&& r.sha256@ == spec_hex_lower(sha256_of(content@))
    &&& r.sha512@ == spec_hex_lower(sha512_of(content@))
}

/// One hit-or-compute step of the cache: the result per [`probe_outcome`],
/// and the state transition — untouched on a failed probe, recency-only on a
/// hit, an insert (evicting the least recently accessed entry when full) on
/// a miss.
pub open spec fn cache_step(pre: HashCache, post: HashCache, mnt_ns: u32, path: String,
    probe: FileProbe, r: Hashes) -> bool {
    &&& post.spec_capacity() == pre.spec_capacity()
    &&& probe_outcome(pre, mnt_ns, path, probe, r)
    &&& match probe {
        FileProbe::Failed { error } => post == pre,
        FileProbe::Found { inode, size, mtime, content } => {
            let key = CacheKey { mnt_ns, path, inode, size, mtime };
            match pre.spec_get(key) {
                Some(h0) => {
                    &&& post.spec_len() == pre.spec_len()
                    &&& forall|k2: CacheKey| post.spec_get(k2) == pre.spec_get(k2)
                },
                None => {
                    &&& forall|k2: CacheKey|
                        key_eqv(key, k2) ==> (post.spec_get(k2) matches Some(h) && hashes_eqv(
                            h,
                            r,
                        ))
                    &&& pre.spec_len() < pre.spec_capacity() ==> {
                        &&& post.spec_len() == pre.spec_len() + 1
                        &&& forall|k2: CacheKey|
                            !key_eqv(key, k2) ==> post.spec_get(k2) == pre.spec_get(k2)
                    }
                    &&& pre.spec_len() == pre.spec_capacity() ==> {
                        &&& post.spec_len() == pre.spec_len()
                        &&& pre.spec_lru() matches Some(lru) && forall|k2: CacheKey|
                            !key_eqv(key, k2) ==> post.spec_get(k2) == (if key_eqv(lru, k2) {
                                None
                            } else {
                                pre.spec_get(k2)
                            })
                    }
                },
            }
        },
    }
}

/// Bounded digest cache with LRU eviction.
#[derive(Debug)]
pub struct HashCache {
    entries: Vec<(CacheKey, Hashes)>,
    capacity: usize,
}

impl HashCache {
    pub closed spec fn wf(self) -> bool {
        hc_unique(self.entries@) && hc_consistent(self.entries@) && self.capacity > 0
            && self.entries@.len() <= self.capacity
    }

    /// The digests stored for `k`.
    pub closed spec fn spec_get(self, k: CacheKey) -> Option<Hashes> {
        hc_lookup(self.entries@, k)
    }

    pub closed spec fn spec_len(self) -> nat {
        self.entries@.len()
    }

    pub closed spec fn spec_capacity(self) -> nat {
        self.capacity as nat
    }

    /// The least recently accessed key, the one an insert into a full cache
    /// evicts.
    pub closed spec fn spec_lru(self) -> Option<CacheKey> {
        if self.entries@.len() > 0 {
            Some(self.entries@[0].0)
        } else {
            None
        }
    }

    pub fn with_max_entries(capacity: usize) -> (r: HashCache)
        requires
            capacity > 0,
        ensures
            r.wf(),
            forall|k: CacheKey| r.spec_get(k) == None::<Hashes>,
            r.spec_len() == 0,
            r.spec_capacity() == capacity,
    {
        HashCache { entries: Vec::new(), capacity }
    }

    fn find_index(&self, k: &CacheKey) -> (r: Option<usize>)
        requires
            self.wf(),
        ensures
            match r {
                Some(i) => i < self.entries@.len() && key_eqv(self.entries@[i as int].0, *k)
                    && self.spec_get(*k) == Some(self.entries@[i as int].1),
                None => self.spec_get(*k) == None::<Hashes> && forall|i: int|
                    0 <= i < self.entries@.len() ==> !key_eqv((#[trigger] self.entries@[i]).0, *k),
            },
    {
        let n = self.entries.len();
        for i in 0..n
            invariant
                self.wf(),
                n == self.entries@.len(),
                forall|j: int| 0 <= j < i ==> !key_eqv((#[trigger] self.entries@[j]).0, *k),
        {
            if key_eq(&self.entries[i].0, k) {
                proof {
                    lemma_hc_lookup_index(self.entries@, *k, i as int);
                }
                return Some(i);
            }
        }
        proof {
            lemma_hc_lookup_none(self.entries@, *k);
        }
        None
    }

    /// Looks `k` up; a hit returns the stored digests byte for byte and makes
    /// the entry the most recently accessed.
    pub fn get(&mut self, k: &CacheKey) -> (r: Option<Hashes>)
        requires
            old(self).wf(),
        ensures
            final(self).wf(),
            final(self).spec_len() == old(self).spec_len(),
            final(self).spec_capacity() == old(self).spec_capacity(),
            forall|k2: CacheKey| final(self).spec_get(k2) == old(self).spec_get(k2),
            match r {
                Some(h) => old(self).spec_get(*k) matches Some(h0) && hashes_eqv(h, h0),
                None => old(self).spec_get(*k) == None::<Hashes> && *final(self) == *old(self),
            },
    {
        match self.find_index(k) {
            Some(i) => {
                proof {
                    lemma_hc_lookup_remove(self.entries@, i as int);
                }
                let ghost s0 = self.entries@;
                let (k0, h) = self.entries.remove(i);
                proof {
                    assert forall|j: int|
                        0 <= j < self.entries@.len() implies !key_eqv(
                        (#[trigger] self.entries@[j]).0,
                        k0,
                    ) by {
                        let j0 = if j < i as int { j } else { j + 1 };
                        assert(self.entries@[j] == s0.remove(i as int)[j]);
                        assert(key_eqv(s0[i as int].0, k0));
                    }
                    lemma_hc_lookup_push(self.entries@, k0, h);
                }
                let r = h.duplicate();
                self.entries.push((k0, h));
                proof {
                    let ghost s1 = s0.remove(i as int);
                    assert forall|a: int, b: int|
                        0 <= a < b < self.entries@.len() implies !key_eqv(
                        (#[trigger] self.entries@[a]).0,
                        (#[trigger] self.entries@[b]).0,
                    ) by {
                        if b < s1.len() as int {
                            assert(self.entries@[a] == s1[a] && self.entries@[b] == s1[b]);
                        } else {
                            assert(self.entries@[a] == s1[a]);
                        }
                    }
                    assert forall|k2: CacheKey|
                        final(self).spec_get(k2) == old(self).spec_get(k2) by {
                        if key_eqv(k0, k2) {
                            lemma_hc_lookup_index(s0, k2, i as int);
                        }
                    }
                }
                Some(r)
            },
            None => None,
        }
    }


    /// A well-formed cache is never over capacity.
    pub proof fn lemma_wf_len(self)
        requires
            self.wf(),
        ensures
            self.spec_len() <= self.spec_capacity(),
            self.spec_capacity() > 0,
    {
    }

    /// A stored record always agrees with the key it was stored under and
    /// carries no error.
    pub proof fn lemma_get_consistent(self, k: CacheKey)
        requires
            self.wf(),
            self.spec_get(k) is Some,
        ensures
            self.spec_get(k) matches Some(h) && h.file@ == k.path@ && h.size == k.size && h.error
                is None,
    {
        lemma_hc_lookup_consistent(self.entries@, k);
    }

    /// Hit-or-compute lookup. On a hit the previously computed digests come
    /// back byte for byte. On a miss the digests of the probed content are
    /// computed, inserted and returned. A failed probe yields a record with
    /// the error set and is never inserted.
    pub fn get_or_cache_in_ns(&mut self, mnt_ns: u32, path: &String, probe: &FileProbe) -> (r:
        Hashes)
        requires
            old(self).wf(),
        ensures
            final(self).wf(),
            cache_step(*old(self), *final(self), mnt_ns, *path, *probe, r),
    {
        match probe {
            FileProbe::Failed { error } => Hashes {
                file: path.clone(),
                md5: String::new(),
                sha1: String::new(),
                sha256: String::new(),
                sha512: String::new(),
                size: 0,
                error: Some(error.clone()),
            },
            FileProbe::Found { inode, size, mtime, content } => {
                let key = CacheKey {
                    mnt_ns,
                    path: path.clone(),
                    inode: *inode,
                    size: *size,
                    mtime: *mtime,
                };
                let ghost key0 = CacheKey {
                    mnt_ns,
                    path: *path,
                    inode: *inode,
                    size: *size,
                    mtime: *mtime,
                };
                proof {
                    assert(key_eqv(key, key0));
                    lemma_hc_lookup_congruent(self.entries@, key, key0);
                }
                match self.get(&key) {
                    Some(h) => {
                        proof {
                            old(self).lemma_get_consistent(key0);
                            assert(old(self).spec_get(key0) is Some && key0.mnt_ns == mnt_ns
                                && key0.path@ == path@ && key0.inode == *inode && key0.size
                                == *size && key0.mtime == *mtime);
                        }
                        h
                    },
                    None => {
                        let h = Hashes {
                            file: path.clone(),
                            md5: md5_hex(content.as_slice()),
                            sha1: sha1_hex(content.as_slice()),
                            sha256: sha256_hex(content.as_slice()),
                            sha512: sha512_hex(content.as_slice()),
                            size: *size,
                            error: None,
                        };
                        let r = h.duplicate();
                        proof {
                            lemma_hc_lookup_congruent(self.entries@, key, key0);
                        }
                        self.insert(key, h);
                        r
                    },
                }
            },
        }
    }

    /// Inserts digests for a key not in the cache, evicting the least
    /// recently accessed entry when the cache is full.
    pub fn insert(&mut self, k: CacheKey, v: Hashes)
        requires
            old(self).wf(),
            old(self).spec_get(k) == None::<Hashes>,
            v.file@ == k.path@,
            v.size == k.size,
            v.error is None,
        ensures
            final(self).wf(),
            final(self).spec_capacity() == old(self).spec_capacity(),
            forall|k2: CacheKey| key_eqv(k, k2) ==> final(self).spec_get(k2) == Some(v),
            old(self).spec_len() < old(self).spec_capacity() ==> {
                &&& final(self).spec_len() == old(self).spec_len() + 1
                &&& forall|k2: CacheKey|
                    !key_eqv(k, k2) ==> final(self).spec_get(k2) == old(self).spec_get(k2)
            },
            old(self).spec_len() == old(self).spec_capacity() ==> {
                &&& final(self).spec_len() == old(self).spec_len()
                &&& old(self).spec_lru() matches Some(lru) && forall|k2: CacheKey|
                    !key_eqv(k, k2) ==> final(self).spec_get(k2) == (if key_eqv(lru, k2) {
                        None
                    } else {
                        old(self).spec_get(k2)
                    })
            },
    {
        proof {
            assert forall|i: int|
                0 <= i < self.entries@.len() implies !key_eqv(
                (#[trigger] self.entries@[i]).0,
                k,
            ) by {
                if key_eqv(self.entries@[i].0, k) {
                    lemma_hc_lookup_index(self.entries@, k, i);
                }
            }
        }
        if self.entries.len() == self.capacity {
            proof {
                lemma_hc_lookup_remove(self.entries@, 0);
            }
            let ghost s0 = self.entries@;
            self.entries.remove(0);
            proof {
                assert forall|i: int|
                    0 <= i < self.entries@.len() implies !key_eqv(
                    (#[trigger] self.entries@[i]).0,
                    k,
                ) by {
                    assert(self.entries@[i] == s0[i + 1]);
                }
            }
        }
        proof {
            lemma_hc_lookup_push(self.entries@, k, v);
        }
        let ghost s1 = self.entries@;
        self.entries.push((k, v));
        proof {
            assert forall|a: int, b: int|
                0 <= a < b < self.entries@.len() implies !key_eqv(
                (#[trigger] self.entries@[a]).0,
                (#[trigger] self.entries@[b]).0,
            ) by {
                if b < s1.len() as int {
                    assert(self.entries@[a] == s1[a] && self.entries@[b] == s1[b]);
                } else {
                    assert(self.entries@[a] == s1[a]);
                }
            }
        }
    }
}

} // verus!
