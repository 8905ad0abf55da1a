//! Reference-counted handles to compiler-owned objects.
//!
//! An [`ObjectTable`] holds the reference count of every object that the
//! compiler has handed out; a [`IUnknown`] is one owned reference to one of
//! them. Duplicating a handle adds a reference, releasing it removes one, and
//! nothing else touches a count.

use vstd::prelude::*;

verus! {

/// One owned reference to a compiler-owned object. It is not `Clone`: a new
/// reference comes only from [`ObjectTable::add_ref`].
#[derive(Debug)]
pub struct IUnknown {
    id: usize,
}

impl IUnknown {
    /// The object this handle refers to.
    pub closed spec fn object(&self) -> usize {
        self.id
    }

    pub fn object_index(&self) -> (r: usize)
        ensures
            r == self.object(),
    {
        self.id
    }
}

/// The reference count of every object handed out so far; an object whose
/// count has dropped to zero has been freed.
pub struct ObjectTable {
    counts: Vec<u64>,
}

/// The counts after one more reference to `id` is taken.
pub open spec fn counts_after_add_ref(c: Seq<nat>, id: int) -> Seq<nat> {
    c.update(id, c[id] + 1)
}

/// The counts after one reference to `id` is released.
pub open spec fn counts_after_release(c: Seq<nat>, id: int) -> Seq<nat> {
    c.update(id, (c[id] - 1) as nat)
}

/// The counts after `n` more references to `id` are taken.
pub open spec fn counts_after_add_refs(c: Seq<nat>, id: int, n: nat) -> Seq<nat>
    decreases n,
{
    if n == 0 {
        c
    } else {
        counts_after_add_ref(counts_after_add_refs(c, id, (n - 1) as nat), id)
    }
}

/// The counts after `n` references to `id` are released.
pub open spec fn counts_after_releases(c: Seq<nat>, id: int, n: nat) -> Seq<nat>
    decreases n,
{
    if n == 0 {
        c
    } else {
        counts_after_release(counts_after_releases(c, id, (n - 1) as nat), id)
    }
}

impl View for ObjectTable {
    type V = Seq<nat>;

    closed spec fn view(&self) -> Seq<nat> {
        self.counts@.map_values(|c: u64| c as nat)
    }
}

impl ObjectTable {
    /// Object `id` has been handed out and not yet freed.
    pub open spec fn is_live(&self, id: usize) -> bool {
        id < self@.len() && self@[id as int] > 0
    }

    pub fn new() -> (r: ObjectTable)
        ensures
            r@ == Seq::<nat>::empty(),
    {
        let r = ObjectTable { counts: Vec::new() };
        assert(r@ =~= Seq::<nat>::empty());
        r
    }

    /// Records a new object whose factory call handed out one owned
    /// reference, and returns that reference.
    pub fn create(&mut self) -> (r: IUnknown)
        ensures
            final(self)@ == old(self)@.push(1),
            r.object() == old(self)@.len(),
    {
        let id = self.counts.len();
        self.counts.push(1);
        assert(self@ =~= old(self)@.push(1));
        IUnknown { id }
    }

    /// Turns a raw result that already carries an owned reference into a
    /// handle: no count changes, and a null result (`None`) or a freed
    /// object gives no handle.
    pub fn adopt(&self, raw: Option<usize>) -> (r: Option<IUnknown>)
        ensures
            match r {
                Some(h) => raw == Some(h.object()) && h.object() < self@.len() && self@[h.object() as int] > 0,
                None => raw is None || raw->0 >= self@.len() || self@[raw->0 as int] == 0,
            },
    {
        match raw {
            Some(id) => if self.is_alive(id) {
                Some(IUnknown { id })
            } else {
                None
            },
            None => None,
        }
    }

    /// Turns a raw result that does not carry a reference of its own (a
    /// borrowed pointer) into a handle by taking one more reference; a null
    /// result or a freed object gives no handle and changes nothing.
    pub fn retain(&mut self, raw: Option<usize>) -> (r: Option<IUnknown>)
        requires
            raw is Some && raw->0 < old(self)@.len() ==> old(self)@[raw->0 as int] < u64::MAX,
        ensures
            match r {
                Some(h) => raw == Some(h.object()) && h.object() < old(self)@.len()
                    && old(self)@[h.object() as int] > 0
                    && final(self)@ == counts_after_add_ref(old(self)@, h.object() as int),
                None => (raw is None || raw->0 >= old(self)@.len() || old(self)@[raw->0 as int] == 0)
                    && final(self)@ == old(self)@,
            },
    {
        match raw {
            Some(id) => if self.is_alive(id) {
                let c = self.counts[id];
                self.counts.set(id, c + 1);
                assert(self@ =~= counts_after_add_ref(old(self)@, id as int));
                Some(IUnknown { id })
            } else {
                None
            },
            None => None,
        }
    }

    /// Whether object `id` has been handed out and not yet freed.
    pub fn is_alive(&self, id: usize) -> (r: bool)
        ensures
            r == (id < self@.len() && self@[id as int] > 0),
    {
        id < self.counts.len() && self.counts[id] > 0
    }

    /// The number of live references to the object `h` refers to.
    pub fn ref_count(&self, h: &IUnknown) -> (r: u64)
        requires
            h.object() < self@.len(),
        ensures
            r == self@[h.object() as int],
    {
        self.counts[h.id]
    }

    /// Duplicates `h`, taking one more reference to its object.
    pub fn add_ref(&mut self, h: &IUnknown) -> (r: IUnknown)
        requires
            h.object() < old(self)@.len(),
            old(self)@[h.object() as int] < u64::MAX,
        ensures
            r.object() == h.object(),
            final(self)@ == counts_after_add_ref(old(self)@, h.object() as int),
    {
        let c = self.counts[h.id];
        self.counts.set(h.id, c + 1);
        assert(self@ =~= counts_after_add_ref(old(self)@, h.object() as int));
        IUnknown { id: h.id }
    }

    /// Gives back the reference `h` holds; at zero the object is freed.
    pub fn release(&mut self, h: IUnknown)
        requires
            h.object() < old(self)@.len(),
            old(self)@[h.object() as int] > 0,
        ensures
            final(self)@ == counts_after_release(old(self)@, h.object() as int),
    {
        let c = self.counts[h.id];
        self.counts.set(h.id, c - 1);
        assert(self@ =~= counts_after_release(old(self)@, h.object() as int));
    }
}

proof fn lemma_add_refs(c: Seq<nat>, id: int, n: nat)
    requires
        0 <= id < c.len(),
    ensures
        counts_after_add_refs(c, id, n) == c.update(id, c[id] + n),
    decreases n,
{
    if n == 0 {
        assert(c.update(id, c[id] + 0) =~= c);
    } else {
        lemma_add_refs(c, id, (n - 1) as nat);
        assert(counts_after_add_refs(c, id, n) =~= c.update(id, c[id] + n));
    }
}

proof fn lemma_releases(c: Seq<nat>, id: int, n: nat)
    requires
        0 <= id < c.len(),
        c[id] >= n,
    ensures
        counts_after_releases(c, id, n) == c.update(id, (c[id] - n) as nat),
    decreases n,
{
    if n == 0 {
        assert(c.update(id, (c[id] - 0) as nat) =~= c);
    } else {
        lemma_releases(c, id, (n - 1) as nat);
        assert(counts_after_releases(c, id, n) =~= c.update(id, (c[id] - n) as nat));
    }
}

/// Starting from an object held by a single handle, taking `n` more
/// references and then releasing `n + 1` frees the object, and leaves every
/// other object's count as it was.
pub proof fn lemma_balanced_clones_free(c: Seq<nat>, id: int, n: nat)
    requires
        0 <= id < c.len(),
        c[id] == 1,
    ensures
        counts_after_releases(counts_after_add_refs(c, id, n), id, n + 1) == c.update(id, 0),
{
    lemma_add_refs(c, id, n);
    let d = counts_after_add_refs(c, id, n);
    lemma_releases(d, id, n + 1);
    assert(d.update(id, (d[id] - (n + 1)) as nat) =~= c.update(id, 0));
}

/// Each duplication adds exactly one reference and each release removes
/// exactly one, to the handle's own object only.
pub proof fn lemma_add_ref_release_one(c: Seq<nat>, id: int)
    requires
        0 <= id < c.len(),
    ensures
        counts_after_add_ref(c, id)[id] == c[id] + 1,
        counts_after_release(counts_after_add_ref(c, id), id) == c,
        forall|j: int| 0 <= j < c.len() && j != id ==> #[trigger] counts_after_add_ref(c, id)[j] == c[j],
{
    assert(counts_after_release(counts_after_add_ref(c, id), id) =~= c);
}

} // verus!
