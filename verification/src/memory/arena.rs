//! Arena allocator: bump allocation for simulation buffers.
//!
//! Buffers are allocated during initialisation and released together by
//! [`SimArena::reset`]; there is no individual deallocation.
use bumpalo::Bump;
use std::cell::Cell;
use vstd::prelude::*;

verus! {

#[verifier::external_type_specification]
#[verifier::external_body]
pub struct ExBump<const MIN_ALIGN: usize>(bumpalo::Bump<MIN_ALIGN>);

#[verifier::external_type_specification]
#[verifier::external_body]
#[verifier::reject_recursive_types(T)]
pub struct ExCell<T: ?Sized>(std::cell::Cell<T>);

/// `bumpalo::Bump::with_capacity`: an arena with room for `capacity` bytes
/// in its first chunk.  Nothing is claimed of the arena's internal state.
#[verifier::external_body]
fn bump_with_capacity(capacity: usize) -> Bump {
    Bump::with_capacity(capacity)
}

/// `bumpalo::Bump::alloc_slice_fill_copy`: a fresh slice of `len` copies of
/// `value` in the arena.  The source builds it from `Layout::array::<T>(len)`,
/// which fails (and the call panics) when the slice would exceed
/// `isize::MAX` bytes; that input is excluded.  The call also panics when
/// the system allocator refuses memory, which no precondition can exclude.
#[verifier::external_body]
fn bump_alloc_fill<'a, T: Copy>(bump: &'a Bump, len: usize, value: T) -> (r: &'a mut [T])
    requires
        len * vstd::layout::size_of::<T>() <= isize::MAX,
    ensures
        r@ == Seq::new(len as nat, |k: int| value),
{
    bump.alloc_slice_fill_copy(len, value)
}

/// `bumpalo::Bump::reset`: releases every allocation of the arena.
#[verifier::external_body]
fn bump_reset(bump: &mut Bump) {
    bump.reset()
}

/// `std::cell::Cell::new`.  The cell's content is not modelled.
#[verifier::external_body]
fn counter_new(v: usize) -> Cell<usize> {
    Cell::new(v)
}

/// `std::cell::Cell::get`.  The content of a cell behind a shared
/// reference can change between calls, so nothing is claimed of the value.
#[verifier::external_body]
fn counter_get(c: &Cell<usize>) -> usize {
    c.get()
}

/// `std::cell::Cell::set`.  The content is not modelled.
#[verifier::external_body]
fn counter_set(c: &Cell<usize>, v: usize) {
    c.set(v)
}

/// Bytes of a slice of `count` elements of `T`.
pub open spec fn slice_bytes<T>(count: usize) -> int {
    count * vstd::layout::size_of::<T>()
}

/// Whether a slice of `size` bytes fits in an arena of `capacity` bytes of
/// which `used` are already taken.
pub open spec fn fits(used: int, capacity: int, size: int) -> bool {
    used <= capacity && size <= capacity - used
}

/// Decides whether a slice of `size` bytes fits in an arena of `capacity`
/// bytes of which `used` are already taken.
pub fn slice_fits(used: usize, capacity: usize, size: usize) -> (r: bool)
    ensures
        r == fits(used as int, capacity as int, size as int),
{
    used <= capacity && size <= capacity - used
}

/// Arena allocator for simulation data, with a byte counter.
pub struct SimArena {
    inner: Bump,
    bytes_allocated: Cell<usize>,
    capacity_bytes: usize,
}

impl SimArena {
    /// Configured capacity in bytes.
    pub closed spec fn capacity_view(&self) -> usize {
        self.capacity_bytes
    }

    /// An arena with `capacity_bytes` bytes pre-allocated.
    pub fn new(capacity_bytes: usize) -> (r: Self)
        ensures
            r.capacity_view() == capacity_bytes,
    {
        SimArena {
            inner: bump_with_capacity(capacity_bytes),
            bytes_allocated: counter_new(0),
            capacity_bytes,
        }
    }

    /// Adds `size` to the byte counter (saturating at `usize::MAX`).
    fn count_bytes(&self, size: usize) {
        let used = counter_get(&self.bytes_allocated);
        counter_set(&self.bytes_allocated, used.saturating_add(size));
    }

    /// A fresh slice of `count` copies of `value`, and the byte counter grows
    /// by `count * size_of::<T>()`; or `None`, with nothing allocated, when
    /// the slice does not fit in what is left of the capacity (the capacity
    /// less the bytes counted so far).  The decision is [`slice_fits`] on the
    /// counter as read when the call starts; the counter sits in a `Cell`,
    /// whose content is not modelled, so the contract states the decision
    /// only where the counter does not matter: a slice larger than the whole
    /// capacity is always refused.
    pub fn alloc_slice<T: Copy>(&self, count: usize, value: T) -> (r: Option<&mut [T]>)
        requires
            slice_bytes::<T>(count) <= isize::MAX,
        ensures
            r matches Some(s) ==> s@ == Seq::new(count as nat, |k: int| value),
            slice_bytes::<T>(count) > self.capacity_view() ==> r is None,
    {
        let size = count * std::mem::size_of::<T>();
        let used = counter_get(&self.bytes_allocated);
        if !slice_fits(used, self.capacity_bytes, size) {
            return None;
        }
        self.count_bytes(size);
        Some(bump_alloc_fill(&self.inner, count, value))
    }

    /// A fresh slice of `count` copies of `value` for field arrays iterated
    /// in tight loops; the byte counter grows by `count * size_of::<T>()`.
    /// The slice has the natural alignment of `T`; it is not padded out to a
    /// cache line.
    pub fn alloc_aligned_slice<T: Copy>(&self, count: usize, value: T) -> (r: &mut [T])
        requires
            slice_bytes::<T>(count) <= isize::MAX,
        ensures
            r@ == Seq::new(count as nat, |k: int| value),
    {
        let size = count * std::mem::size_of::<T>();
        let r = bump_alloc_fill(&self.inner, count, value);
        self.count_bytes(size);
        r
    }

    /// Bytes allocated since creation or the last reset.
    pub fn bytes_used(&self) -> usize {
        counter_get(&self.bytes_allocated)
    }

    /// Configured capacity in bytes.
    pub fn capacity(&self) -> (r: usize)
        ensures
            r == self.capacity_view(),
    {
        self.capacity_bytes
    }

    /// Releases every allocation and sets the byte counter to zero.
    pub fn reset(&mut self)
        ensures
            final(self).capacity_view() == old(self).capacity_view(),
    {
        bump_reset(&mut self.inner);
        counter_set(&self.bytes_allocated, 0);
    }
}

} // verus!
