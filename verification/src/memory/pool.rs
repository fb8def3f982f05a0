//! Object pool with stable handles and O(1) acquire and release.
//!
//! Slots are kept in a vector; released slots are reused most recently
//! released first, so a handle stays valid until its own release.
use vstd::prelude::*;

verus! {

/// Handle to an object in a pool; stable across other acquisitions and
/// releases.
#[derive(Debug, Clone, Copy, PartialEq, Eq, Hash)]
pub struct PoolHandle(usize);

impl PoolHandle {
    /// The slot index of the handle.
    pub closed spec fn key(&self) -> usize {
        self.0
    }

    /// The raw slot index (for parallel arrays).
    pub fn index(&self) -> (r: usize)
        ensures
            r == self.key(),
    {
        self.0
    }
}

/// Pool of objects with a fixed capacity.
pub struct ObjectPool<T> {
    entries: Vec<Option<T>>,
    vacant: Vec<usize>,
    capacity: usize,
}

impl<T> ObjectPool<T> {
    /// The live objects by slot index.
    pub closed spec fn contents(&self) -> Map<usize, T> {
        Map::new(
            |k: usize| k < self.entries@.len() && self.entries@[k as int] is Some,
            |k: usize| self.entries@[k as int]->0,
        )
    }

    /// The live `(slot, object)` pairs in increasing slot order.
    pub closed spec fn listing(&self) -> Seq<(usize, T)> {
        live_in(self.entries@, self.entries@.len() as int)
    }

    /// Number of live objects.
    pub closed spec fn active(&self) -> nat {
        (self.entries@.len() - self.vacant@.len()) as nat
    }

    /// Maximum number of live objects.
    pub closed spec fn limit(&self) -> nat {
        self.capacity as nat
    }

    /// The slot index the next acquisition uses: the most recently released
    /// free slot, or a fresh slot past all others.
    pub closed spec fn next_key(&self) -> usize {
        if self.vacant@.len() > 0 {
            self.vacant@.last()
        } else {
            self.entries@.len() as usize
        }
    }

    /// Free slots are distinct, in range, and exactly the empty slots; there
    /// are never more slots than the capacity.
    pub closed spec fn wf(&self) -> bool {
        &&& forall|a: int, b: int| 0 <= a < b < self.vacant@.len() ==> self.vacant@[a] != self.vacant@[b]
        &&& forall|a: int| 0 <= a < self.vacant@.len() ==> #[trigger] self.vacant@[a] < self.entries@.len()
        &&& forall|k: int| 0 <= k < self.entries@.len() ==> (#[trigger] self.entries@[k] is None <==> self.vacant@.contains(k as usize))
        &&& self.vacant@.len() <= self.entries@.len()
        &&& self.entries@.len() <= self.capacity
    }

    /// Every live object's slot index is below the capacity.
    pub proof fn lemma_keys_below_capacity(&self)
        requires
            self.wf(),
        ensures
            forall|k: usize| #[trigger] self.contents().contains_key(k) ==> k < self.limit(),
    {
    }

    /// An empty pool that holds up to `capacity` objects.
    pub fn with_capacity(capacity: usize) -> (r: Self)
        ensures
            r.wf(),
            r.contents() == Map::<usize, T>::empty(),
            r.active() == 0,
            r.limit() == capacity,
            r.next_key() == 0,
    {
        let r = ObjectPool { entries: Vec::with_capacity(capacity), vacant: Vec::new(), capacity };
        assert(r.contents() =~= Map::<usize, T>::empty());
        r
    }

    /// Stores `value` in the slot `next_key()` and returns its handle; the
    /// pool must not be full.
    pub fn acquire(&mut self, value: T) -> (h: PoolHandle)
        requires
            old(self).wf(),
            old(self).active() < old(self).limit(),
        ensures
            final(self).wf(),
            h.key() == old(self).next_key(),
            h.key() < old(self).limit(),
            !old(self).contents().contains_key(h.key()),
            final(self).contents() == old(self).contents().insert(h.key(), value),
            final(self).active() == old(self).active() + 1,
            final(self).limit() == old(self).limit(),
    {
        if self.vacant.len() > 0 {
            let ghost old_vacant = self.vacant@;
            let key = self.vacant.pop().unwrap();
            proof {
                assert(old_vacant.contains(key));
                assert(self.vacant@ =~= old_vacant.drop_last());
                assert forall|k: int| 0 <= k < self.vacant@.len() implies self.vacant@[k] != key by {
                    assert(old_vacant[k] != old_vacant[old_vacant.len() - 1]);
                }
            }
            let mut slot = Some(value);
            std::mem::swap(&mut self.entries.as_mut_slice()[key], &mut slot);
            proof {
                assert forall|k: int| 0 <= k < self.entries@.len() implies (#[trigger] self.entries@[k] is None <==> self.vacant@.contains(k as usize)) by {
                    if k != key as int {
                        assert(old(self).entries@[k] == self.entries@[k]);
                        if old_vacant.contains(k as usize) {
                            let j = choose|j: int| 0 <= j < old_vacant.len() && old_vacant[j] == k as usize;
                            assert(j != old_vacant.len() - 1);
                            assert(self.vacant@[j] == k as usize);
                        }
                    } else {
                        assert(!self.vacant@.contains(key));
                    }
                }
                assert(self.contents() =~= old(self).contents().insert(key, value));
            }
            PoolHandle(key)
        } else {
            let key = self.entries.len();
            self.entries.push(Some(value));
            proof {
                assert forall|k: int| 0 <= k < self.entries@.len() implies (#[trigger] self.entries@[k] is None <==> self.vacant@.contains(k as usize)) by {
                    if k < key as int {
                        assert(old(self).entries@[k] == self.entries@[k]);
                    }
                }
                assert(self.contents() =~= old(self).contents().insert(key, value));
            }
            PoolHandle(key)
        }
    }

    /// Releases the slot of `handle` and returns its object; the handle
    /// must name a live object.  The slot becomes the next one reused.
    pub fn release(&mut self, handle: PoolHandle) -> (r: T)
        requires
            old(self).wf(),
            old(self).contents().contains_key(handle.key()),
        ensures
            final(self).wf(),
            r == old(self).contents()[handle.key()],
            final(self).contents() == old(self).contents().remove(handle.key()),
            final(self).active() == old(self).active() - 1,
            final(self).limit() == old(self).limit(),
            final(self).next_key() == handle.key(),
    {
        let key = handle.0;
        let mut slot: Option<T> = None;
        std::mem::swap(&mut self.entries.as_mut_slice()[key], &mut slot);
        let ghost old_vacant = self.vacant@;
        proof {
            assert(!old_vacant.contains(key));
            // `key` holds an object, so fewer slots are free than exist
            lemma_distinct_in_range_smaller(old_vacant, old(self).entries@.len(), key);
        }
        self.vacant.push(key);
        proof {
            assert forall|a: int, b: int| 0 <= a < b < self.vacant@.len() implies self.vacant@[a] != self.vacant@[b] by {
                if b == self.vacant@.len() - 1 {
                    assert(old_vacant[a] != key);
                }
            }
            assert forall|k: int| 0 <= k < self.entries@.len() implies (#[trigger] self.entries@[k] is None <==> self.vacant@.contains(k as usize)) by {
                if k != key as int {
                    assert(old(self).entries@[k] == self.entries@[k]);
                    if old_vacant.contains(k as usize) {
                        let j = choose|j: int| 0 <= j < old_vacant.len() && old_vacant[j] == k as usize;
                        assert(self.vacant@[j] == k as usize);
                    }
                    if self.vacant@.contains(k as usize) {
                        let j = choose|j: int| 0 <= j < self.vacant@.len() && self.vacant@[j] == k as usize;
                        assert(j < old_vacant.len());
                        assert(old_vacant[j] == k as usize);
                    }
                } else {
                    assert(self.vacant@[self.vacant@.len() - 1] == key);
                }
            }
            assert(self.contents() =~= old(self).contents().remove(key));
        }
        slot.unwrap()
    }

    /// The object of `handle`, if it is live.
    pub fn get(&self, handle: PoolHandle) -> (r: Option<&T>)
        requires
            self.wf(),
        ensures
            r == (if self.contents().contains_key(handle.key()) {
                Some(&self.contents()[handle.key()])
            } else {
                None
            }),
    {
        if handle.0 < self.entries.len() {
            self.entries[handle.0].as_ref()
        } else {
            None
        }
    }

    /// Mutable access to the object of `handle`, if it is live.
    pub fn get_mut(&mut self, handle: PoolHandle) -> (r: Option<&mut T>)
        requires
            old(self).wf(),
        ensures
            old(self).contents().contains_key(handle.key()) ==> {
                &&& r matches Some(v)
                &&& *v == old(self).contents()[handle.key()]
                &&& final(self).contents() == old(self).contents().insert(handle.key(), *final(v))
            },
            !old(self).contents().contains_key(handle.key()) ==> r is None && final(self).contents() == old(self).contents(),
            final(self).wf(),
            final(self).active() == old(self).active(),
            final(self).limit() == old(self).limit(),
            final(self).next_key() == old(self).next_key(),
    {
        if handle.0 < self.entries.len() {
            self.entries.as_mut_slice()[handle.0].as_mut()
        } else {
            None
        }
    }

    /// The live objects with their handles, in increasing slot order.
    pub fn iter(&self) -> (r: Vec<(PoolHandle, &T)>)
        requires
            self.wf(),
        ensures
            r@.map_values(|p: (PoolHandle, &T)| (p.0.key(), *p.1)) == self.listing(),
    {
        let mut out: Vec<(PoolHandle, &T)> = Vec::new();
        let mut k: usize = 0;
        while k < self.entries.len()
            invariant
                k <= self.entries@.len(),
                out@.map_values(|p: (PoolHandle, &T)| (p.0.key(), *p.1)) == live_in(self.entries@, k as int),
            decreases self.entries@.len() - k,
        {
            match &self.entries[k] {
                Some(v) => {
                    out.push((PoolHandle(k), v));
                },
                None => {},
            }
            k = k + 1;
            assert(out@.map_values(|p: (PoolHandle, &T)| (p.0.key(), *p.1)) =~= live_in(self.entries@, k as int));
        }
        out
    }

    /// The live objects with their handles and mutable access, in
    /// increasing slot order.  The same slots stay live; each object ends
    /// with the value last written through its reference.
    pub fn iter_mut(&mut self) -> (r: Vec<(PoolHandle, &mut T)>)
        requires
            old(self).wf(),
        ensures
            r@.map_values(|p: (PoolHandle, &mut T)| (p.0.key(), *p.1)) == old(self).listing(),
            final(self).wf(),
            final(self).contents().dom() == old(self).contents().dom(),
            forall|j: int| 0 <= j < r@.len() ==> final(self).contents()[#[trigger] r@[j].0.key()] == *final(r@[j].1),
            final(self).active() == old(self).active(),
            final(self).limit() == old(self).limit(),
            final(self).next_key() == old(self).next_key(),
    {
        let ghost entries0 = self.entries@;
        let ghost listing0 = self.listing();
        let mut out: Vec<(PoolHandle, &mut T)> = Vec::new();
        collect_live_mut(self.entries.as_mut_slice(), 0, &mut out);
        proof {
            lemma_live_from_is_live_in(entries0, entries0.len() as int);
            assert(entries0.take(entries0.len() as int) =~= entries0);
            assert(out@.map_values(|p: (PoolHandle, &mut T)| (p.0.key(), *p.1)) =~= listing0);
        }
        out
    }

    /// Number of live objects.
    pub fn active_count(&self) -> (r: usize)
        requires
            self.wf(),
        ensures
            r == self.active(),
    {
        self.entries.len() - self.vacant.len()
    }

    /// Maximum number of live objects.
    pub fn capacity(&self) -> (r: usize)
        ensures
            r == self.limit(),
    {
        self.capacity
    }

    /// Whether no object is live.
    pub fn is_empty(&self) -> (r: bool)
        requires
            self.wf(),
        ensures
            r == (self.active() == 0),
    {
        self.entries.len() == self.vacant.len()
    }
}

/// The live `(slot, object)` pairs among the first `n` slots, in slot order.
pub open spec fn live_in<T>(entries: Seq<Option<T>>, n: int) -> Seq<(usize, T)>
    decreases n,
{
    if n <= 0 {
        Seq::empty()
    } else {
        match entries[n - 1] {
            Some(v) => live_in(entries, n - 1).push(((n - 1) as usize, v)),
            None => live_in(entries, n - 1),
        }
    }
}

/// `live_in(entries, n)` lists, in increasing slot order, exactly the
/// occupied slots below `n` with their objects.
proof fn lemma_live_in<T>(entries: Seq<Option<T>>, n: int)
    requires
        0 <= n <= entries.len(),
        entries.len() <= usize::MAX,
    ensures
        forall|j: int| 0 <= j < live_in(entries, n).len() ==> {
            let (k, v) = #[trigger] live_in(entries, n)[j];
            &&& k < n
            &&& entries[k as int] == Some(v)
        },
        forall|a: int, b: int| 0 <= a < b < live_in(entries, n).len() ==> live_in(entries, n)[a].0 < live_in(entries, n)[b].0,
        forall|k: int| 0 <= k < n && #[trigger] entries[k] is Some ==> exists|j: int| 0 <= j < live_in(entries, n).len() && live_in(entries, n)[j].0 == k,
    decreases n,
{
    if n > 0 {
        lemma_live_in(entries, n - 1);
        let prev = live_in(entries, n - 1);
        let cur = live_in(entries, n);
        assert forall|k: int| 0 <= k < n && #[trigger] entries[k] is Some implies exists|j: int| 0 <= j < cur.len() && cur[j].0 == k by {
            if k == n - 1 {
                let v = entries[n - 1]->0;
                assert(cur == prev.push(((n - 1) as usize, v)));
                assert(cur[prev.len() as int].0 == k);
            } else {
                assert(entries[k] is Some);
                let j = choose|j: int| 0 <= j < prev.len() && prev[j].0 == k;
                assert(cur[j] == prev[j]);
                assert(cur[j].0 == k);
            }
        }
    }
}

impl<T> ObjectPool<T> {
    /// Iteration lists every live object exactly once, with its handle's
    /// slot, in increasing slot order.
    pub proof fn lemma_listing_is_contents(&self)
        requires
            self.wf(),
        ensures
            forall|j: int| 0 <= j < self.listing().len() ==> {
                let (k, v) = #[trigger] self.listing()[j];
                self.contents().contains_key(k) && self.contents()[k] == v
            },
            forall|a: int, b: int| 0 <= a < b < self.listing().len() ==> self.listing()[a].0 < self.listing()[b].0,
            forall|k: usize| #[trigger] self.contents().contains_key(k) ==> exists|j: int| 0 <= j < self.listing().len() && self.listing()[j].0 == k,
    {
        lemma_live_in(self.entries@, self.entries@.len() as int);
        assert forall|k: usize| #[trigger] self.contents().contains_key(k) implies exists|j: int| 0 <= j < self.listing().len() && self.listing()[j].0 == k by {
            let kk = k as int;
            let l = live_in(self.entries@, self.entries@.len() as int);
            assert(self.entries@[kk] is Some);
            assert(exists|j: int| 0 <= j < l.len() && l[j].0 == kk);
            let j = choose|j: int| 0 <= j < l.len() && l[j].0 == kk;
            assert(self.listing()[j].0 == k);
        }
    }
}

/// Distinct values that are all below `n` number fewer than `n + 1`; and when
/// one value below `n` is missing, fewer than `n`.
proof fn lemma_distinct_in_range_smaller(s: Seq<usize>, n: nat, missing: usize)
    requires
        forall|a: int, b: int| 0 <= a < b < s.len() ==> s[a] != s[b],
        forall|a: int| 0 <= a < s.len() ==> #[trigger] s[a] < n,
        missing < n,
        !s.contains(missing),
    ensures
        s.len() < n,
{
    let t = s.map_values(|x: usize| x as int);
    assert(t.no_duplicates()) by {
        assert forall|a: int, b: int| 0 <= a < t.len() && 0 <= b < t.len() && a != b implies t[a] != t[b] by {
            if a < b {
                assert(s[a] != s[b]);
            } else {
                assert(s[b] != s[a]);
            }
        }
    }
    t.unique_seq_to_set();
    let range = vstd::set_lib::set_int_range(0, n as int).remove(missing as int);
    vstd::set_lib::lemma_int_range(0, n as int);
    assert(t.to_set().subset_of(range)) by {
        assert forall|v: int| t.to_set().contains(v) implies range.contains(v) by {
            let j = choose|j: int| 0 <= j < t.len() && t[j] == v;
            assert(s[j] < n);
            if v == missing as int {
                assert(s[j] == missing);
                assert(s.contains(missing));
            }
        }
    }
    vstd::set_lib::lemma_len_subset(t.to_set(), range);
}

/// Releasing the handle just acquired gives back the stored object and
/// the previous contents; the other live objects are untouched by both.
pub proof fn lemma_acquire_release_roundtrip<T>(contents: Map<usize, T>, key: usize, value: T)
    requires
        !contents.contains_key(key),
    ensures
        contents.insert(key, value)[key] == value,
        contents.insert(key, value).remove(key) == contents,
        forall|k: usize| k != key && contents.contains_key(k) ==> #[trigger] contents.insert(key, value)[k] == contents[k],
{
    assert(contents.insert(key, value).remove(key) =~= contents);
}

/// The live objects of `s`, whose first slot is slot `base`, as
/// `(slot, object)` pairs in increasing slot order.
pub open spec fn live_from<T>(s: Seq<Option<T>>, base: int) -> Seq<(usize, T)>
    decreases s.len(),
{
    if s.len() == 0 {
        Seq::empty()
    } else {
        let rest = live_from(s.skip(1), base + 1);
        match s[0] {
            Some(v) => seq![(base as usize, v)] + rest,
            None => rest,
        }
    }
}

/// Appends to `out` the handles and mutable references of the live objects
/// among `slots`, whose first slot is slot `base`, in slot order.
fn collect_live_mut<'a, T>(slots: &'a mut [Option<T>], base: usize, out: &mut Vec<(PoolHandle, &'a mut T)>)
    requires
        base + old(slots)@.len() <= usize::MAX,
    ensures
        final(out)@.map_values(|p: (PoolHandle, &'a mut T)| (p.0.key(), *p.1))
            == old(out)@.map_values(|p: (PoolHandle, &'a mut T)| (p.0.key(), *p.1)) + live_from(old(slots)@, base as int),
        final(slots)@.len() == old(slots)@.len(),
        forall|k: int| 0 <= k < old(slots)@.len() ==> (#[trigger] final(slots)@[k] is Some <==> old(slots)@[k] is Some),
        final(out)@.len() >= old(out)@.len(),
        forall|j: int| 0 <= j < old(out)@.len() ==> #[trigger] final(out)@[j] == old(out)@[j],
        forall|j: int| old(out)@.len() <= j < final(out)@.len() ==>
            base <= #[trigger] final(out)@[j].0.key() < base + old(slots)@.len(),
        forall|j: int| old(out)@.len() <= j < final(out)@.len() ==>
            final(slots)@[#[trigger] final(out)@[j].0.key() - base] == Some(*final(final(out)@[j].1)),
    decreases old(slots)@.len(),
{
    if slots.len() == 0 {
        return;
    }
    let ghost out0 = out@;
    let (head, tail) = slots.split_at_mut(1);
    match head.first_mut() {
        Some(slot) => match slot {
            Some(v) => {
                out.push((PoolHandle(base), v));
            },
            None => {},
        },
        None => {},
    }
    let ghost out1 = out@;
    collect_live_mut(tail, base + 1, out);
    proof {
        assert forall|j: int| 0 <= j < out1.len() implies #[trigger] out@[j] == out1[j] by {}
    }
}

/// Appending a slot at the end of `t` appends its pair, if it is live, at
/// the end of the listing.
proof fn lemma_live_from_push<T>(t: Seq<Option<T>>, x: Option<T>, base: int)
    ensures
        live_from(t.push(x), base) == live_from(t, base) + match x {
            Some(v) => seq![((base + t.len()) as usize, v)],
            None => Seq::<(usize, T)>::empty(),
        },
    decreases t.len(),
{
    if t.len() == 0 {
        assert(t.push(x).skip(1) =~= Seq::<Option<T>>::empty());
        assert(live_from(t.push(x).skip(1), base + 1) =~= Seq::<(usize, T)>::empty());
        assert(live_from(t, base) =~= Seq::<(usize, T)>::empty());
        assert(t.push(x)[0] == x);
        match x {
            Some(v) => {
                assert(live_from(t.push(x), base) =~= seq![(base as usize, v)]);
            },
            None => {
                assert(live_from(t.push(x), base) =~= Seq::<(usize, T)>::empty());
            },
        }
    } else {
        assert(t.push(x).skip(1) =~= t.skip(1).push(x));
        lemma_live_from_push(t.skip(1), x, base + 1);
        let tail = match x {
            Some(v) => seq![((base + t.len()) as usize, v)],
            None => Seq::<(usize, T)>::empty(),
        };
        assert(base + 1 + t.skip(1).len() == base + t.len());
        match t[0] {
            Some(v) => {
                assert(seq![(base as usize, v)] + (live_from(t.skip(1), base + 1) + tail) =~= (seq![(base as usize, v)]
                    + live_from(t.skip(1), base + 1)) + tail);
            },
            None => {},
        }
    }
}

/// Listing the slots front to back from slot zero gives the same pairs as
/// `live_in`.
proof fn lemma_live_from_is_live_in<T>(s: Seq<Option<T>>, n: int)
    requires
        0 <= n <= s.len(),
    ensures
        live_from(s.take(n), 0) == live_in(s, n),
    decreases n,
{
    if n == 0 {
        assert(live_from(s.take(0), 0) =~= Seq::<(usize, T)>::empty());
    } else {
        lemma_live_from_is_live_in(s, n - 1);
        assert(s.take(n) =~= s.take(n - 1).push(s[n - 1]));
        lemma_live_from_push(s.take(n - 1), s[n - 1], 0);
        match s[n - 1] {
            Some(v) => {
                assert(live_in(s, n) == live_in(s, n - 1).push(((n - 1) as usize, v)));
                assert(live_in(s, n - 1).push(((n - 1) as usize, v)) =~= live_in(s, n - 1) + seq![((n - 1) as usize, v)]);
            },
            None => {
                assert(live_in(s, n - 1) + Seq::<(usize, T)>::empty() =~= live_in(s, n - 1));
            },
        }
    }
}

} // verus!
