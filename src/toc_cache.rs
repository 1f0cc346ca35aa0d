//! Caches for downloaded tables of contents, keyed by the fingerprint that the
//! vehicle reports for its current table.
//!
//! A fingerprint and a table are both byte strings: the table is stored and
//! returned exactly as it was given.

use vstd::prelude::*;

verus! {

/// A store from fingerprints to tables of contents.
///
/// A lookup either returns exactly the table last stored for the fingerprint or
/// misses; it never returns a partial table.
pub trait TocCache {
    /// The state invariant of the cache.
    spec fn inv(&self) -> bool;

    /// Whether this cache keeps what is stored in it.
    spec fn retains(&self) -> bool;

    /// The tables held, by fingerprint.
    spec fn entries(&self) -> Map<Seq<u8>, Seq<u8>>;

    /// The table stored for `key`, or `None` on a miss.
    fn lookup(&self, key: &Vec<u8>) -> (r: Option<Vec<u8>>)
        requires
            self.inv(),
        ensures
            match r {
                Some(t) => self.entries().contains_key(key@) && self.entries()[key@] == t@,
                None => !self.entries().contains_key(key@),
            },
    ;

    /// Stores `toc` for `key`, replacing what was stored for it before.
    fn store(&mut self, key: &Vec<u8>, toc: &Vec<u8>)
        requires
            old(self).inv(),
        ensures
            final(self).inv(),
            final(self).retains() == old(self).retains(),
            final(self).entries() == (if old(self).retains() {
                old(self).entries().insert(key@, toc@)
            } else {
                old(self).entries()
            }),
    ;
}

/// The cache used when caching is turned off: every lookup misses.
#[derive(Debug, Clone, Copy)]
pub struct NoTocCache {}

impl NoTocCache {
    /// A cache that keeps nothing.
    pub fn new() -> (r: NoTocCache)
        ensures
            r.inv(),
    {
        NoTocCache {}
    }
}

impl TocCache for NoTocCache {
    open spec fn inv(&self) -> bool {
        true
    }

    open spec fn retains(&self) -> bool {
        false
    }

    open spec fn entries(&self) -> Map<Seq<u8>, Seq<u8>> {
        Map::empty()
    }

    fn lookup(&self, key: &Vec<u8>) -> (r: Option<Vec<u8>>) {
        None
    }

    fn store(&mut self, key: &Vec<u8>, toc: &Vec<u8>) {
    }
}

/// Compares two byte strings.
pub fn bytes_equal(a: &Vec<u8>, b: &Vec<u8>) -> (r: bool)
    ensures
        r == (a@ == b@),
{
    if a.len() != b.len() {
        return false;
    }
    let mut i: usize = 0;
    while i < a.len()
        invariant
            a@.len() == b@.len(),
            0 <= i <= a@.len(),
            forall|j: int| 0 <= j < i ==> a@[j] == b@[j],
        decreases a@.len() - i,
    {
        if a[i] != b[i] {
            return false;
        }
        i = i + 1;
    }
    assert(a@ =~= b@);
    true
}

/// Copies a byte string.
pub(crate) fn copy_bytes(a: &Vec<u8>) -> (r: Vec<u8>)
    ensures
        r@ == a@,
{
    let mut r: Vec<u8> = Vec::with_capacity(a.len());
    let mut i: usize = 0;
    while i < a.len()
        invariant
            0 <= i <= a@.len(),
            r@ == a@.subrange(0, i as int),
        decreases a@.len() - i,
    {
        r.push(a[i]);
        i = i + 1;
        assert(r@ =~= a@.subrange(0, i as int));
    }
    assert(a@.subrange(0, a@.len() as int) =~= a@);
    r
}

/// A cache held in memory for the lifetime of the process. It never evicts:
/// it grows with the number of distinct fingerprints stored.
pub struct InMemoryTocCache {
    keys: Vec<Vec<u8>>,
    tables: Vec<Vec<u8>>,
    model: Ghost<Map<Seq<u8>, Seq<u8>>>,
}

impl InMemoryTocCache {
    /// An empty cache.
    pub fn new() -> (r: InMemoryTocCache)
        ensures
            r.inv(),
            r.entries() == Map::<Seq<u8>, Seq<u8>>::empty(),
    {
        InMemoryTocCache { keys: Vec::new(), tables: Vec::new(), model: Ghost(Map::empty()) }
    }

    /// Number of fingerprints held.
    pub fn len(&self) -> (r: usize)
        requires
            self.inv(),
        ensures
            r == self.entries().len(),
    {
        proof {
            self.lemma_dom_is_keys();
        }
        self.keys.len()
    }

    /// Position of `key` among the stored fingerprints.
    fn find(&self, key: &Vec<u8>) -> (r: Option<usize>)
        requires
            self.inv(),
        ensures
            match r {
                Some(i) => i < self.keys@.len() && self.keys@[i as int]@ == key@,
                None => forall|j: int| 0 <= j < self.keys@.len() ==> self.keys@[j]@ != key@,
            },
    {
        let mut i: usize = 0;
        while i < self.keys.len()
            invariant
                0 <= i <= self.keys@.len(),
                forall|j: int| 0 <= j < i ==> self.keys@[j]@ != key@,
            decreases self.keys@.len() - i,
        {
            if bytes_equal(&self.keys[i], key) {
                return Some(i);
            }
            i = i + 1;
        }
        None
    }

    /// The fingerprints held are exactly the stored keys, each once.
    proof fn lemma_dom_is_keys(&self)
        requires
            self.inv(),
        ensures
            self.model@.dom() == Set::new(|k: Seq<u8>| exists|i: int| 0 <= i < self.keys@.len() && self.keys@[i]@ == k),
            self.model@.len() == self.keys@.len(),
        decreases self.keys@.len(),
    {
        let keys = self.keys@.map_values(|v: Vec<u8>| v@);
        assert(self.model@.dom() =~= keys.to_set()) by {
            assert forall|k: Seq<u8>| self.model@.dom().contains(k) implies keys.to_set().contains(k) by {
                let i = choose|i: int| 0 <= i < self.keys@.len() && self.keys@[i]@ == k;
                assert(keys[i] == k);
            }
            assert forall|k: Seq<u8>| keys.to_set().contains(k) implies self.model@.dom().contains(k) by {
                let i = choose|i: int| 0 <= i < keys.len() && keys[i] == k;
                assert(self.keys@[i]@ == k);
            }
        }
        assert(keys.no_duplicates());
        keys.unique_seq_to_set();
        assert(self.model@.dom() =~= Set::new(|k: Seq<u8>| exists|i: int| 0 <= i < self.keys@.len() && self.keys@[i]@ == k)) by {
            assert forall|k: Seq<u8>| #[trigger] self.model@.dom().contains(k) implies (exists|i: int| 0 <= i < self.keys@.len() && self.keys@[i]@ == k) by {
                let i = choose|i: int| 0 <= i < keys.len() && keys[i] == k;
                assert(self.keys@[i]@ == k);
            }
        }
    }
}

impl TocCache for InMemoryTocCache {
    closed spec fn inv(&self) -> bool {
        &&& self.keys@.len() == self.tables@.len()
        &&& forall|i: int| 0 <= i < self.keys@.len()
            ==> #[trigger] self.model@.contains_key(self.keys@[i]@)
                && self.model@[self.keys@[i]@] == self.tables@[i]@
        &&& forall|k: Seq<u8>| #[trigger] self.model@.contains_key(k)
            ==> exists|i: int| 0 <= i < self.keys@.len() && self.keys@[i]@ == k
        &&& forall|i: int, j: int| 0 <= i < j < self.keys@.len() ==> self.keys@[i]@ != self.keys@[j]@
    }

    open spec fn retains(&self) -> bool {
        true
    }

    closed spec fn entries(&self) -> Map<Seq<u8>, Seq<u8>> {
        self.model@
    }

    fn lookup(&self, key: &Vec<u8>) -> (r: Option<Vec<u8>>) {
        match self.find(key) {
            Some(i) => Some(copy_bytes(&self.tables[i])),
            None => {
                proof {
                    if self.model@.contains_key(key@) {
                        let i = choose|i: int| 0 <= i < self.keys@.len() && self.keys@[i]@ == key@;
                        assert(self.keys@[i]@ != key@);
                    }
                }
                None
            },
        }
    }

    fn store(&mut self, key: &Vec<u8>, toc: &Vec<u8>) {
        let ghost before = *old(self);
        assert(before.inv());
        let found = self.find(key);
        proof {
            self.model@ = self.model@.insert(key@, toc@);
        }
        match found {
            Some(i) => {
                let t = copy_bytes(toc);
                self.tables.set(i, t);
                assert(self.tables@ == before.tables@.update(i as int, t));
                assert(self.keys@ == before.keys@);
                assert forall|k: Seq<u8>| #[trigger] self.model@.contains_key(k)
                    implies exists|j: int| 0 <= j < self.keys@.len() && self.keys@[j]@ == k by {
                    if k != key@ {
                        assert(before.model@.contains_key(k));
                    }
                }
                assert forall|j: int| 0 <= j < self.keys@.len()
                    implies #[trigger] self.model@.contains_key(self.keys@[j]@)
                        && self.model@[self.keys@[j]@] == self.tables@[j]@ by {
                    if j != i {
                        assert(before.keys@[j]@ != key@);
                    }
                }
            },
            None => {
                self.keys.push(copy_bytes(key));
                self.tables.push(copy_bytes(toc));
                let ghost n = (self.keys@.len() - 1) as int;
                assert forall|k: Seq<u8>| #[trigger] self.model@.contains_key(k)
                    implies exists|j: int| 0 <= j < self.keys@.len() && self.keys@[j]@ == k by {
                    if k != key@ {
                        assert(before.model@.contains_key(k));
                        let j = choose|j: int| 0 <= j < before.keys@.len() && before.keys@[j]@ == k;
                        assert(self.keys@[j]@ == k);
                    } else {
                        assert(self.keys@[n]@ == k);
                    }
                }
            },
        }
    }
}

/// A cache that keeps nothing misses whatever was stored in it before; one that
/// keeps its entries returns, right after `store(key, toc)`, exactly `toc` for `key`.
pub proof fn lemma_lookup_after_store<C: TocCache>(before: C, after: C, key: Seq<u8>, toc: Seq<u8>)
    requires
        after.retains() == before.retains(),
        after.entries() == (if before.retains() {
            before.entries().insert(key, toc)
        } else {
            before.entries()
        }),
    ensures
        after.retains() ==> after.entries().contains_key(key) && after.entries()[key] == toc,
{
}

/// The cache that is turned off holds no table, so every lookup misses.
pub proof fn lemma_no_cache_always_misses(c: NoTocCache, key: Seq<u8>)
    ensures
        !c.entries().contains_key(key),
{
}

} // verus!
