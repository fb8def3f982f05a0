//! Vector storage with a declared alignment for cache-line friendly field
//! arrays.
use std::ops::Deref;
use vstd::prelude::*;

verus! {

/// Default cache line size on modern x86/ARM processors.
pub const CACHE_LINE_SIZE: usize = 64;

/// `n` is a power of two.
pub open spec fn is_power_of_two(n: nat) -> bool {
    exists|k: nat| vstd::arithmetic::power2::pow2(k) == n
}

/// Vector of elements declared with alignment `ALIGN` (a power of two, at
/// least the natural alignment of `T`).  `ALIGN` is checked and recorded in
/// the type only: the storage is a `Vec<T>` with `T`'s natural alignment and
/// is not aligned to `ALIGN`.
pub struct AlignedVec<T, const ALIGN: usize> {
    data: Vec<T>,
}

impl<T, const ALIGN: usize> AlignedVec<T, ALIGN> {
    /// The elements.
    pub closed spec fn elements(&self) -> Seq<T> {
        self.data@
    }
}

impl<T: Copy, const ALIGN: usize> AlignedVec<T, ALIGN> {
    /// A vector of `capacity` copies of `value`.
    pub fn new(capacity: usize, value: T) -> (r: Self)
        requires
            is_power_of_two(ALIGN as nat),
            ALIGN >= vstd::layout::align_of::<T>(),
        ensures
            r.elements() == Seq::new(capacity as nat, |k: int| value),
    {
        let mut data: Vec<T> = Vec::with_capacity(capacity);
        let mut k: usize = 0;
        while k < capacity
            invariant
                k <= capacity,
                data@ == Seq::new(k as nat, |j: int| value),
            decreases capacity - k,
        {
            data.push(value);
            k = k + 1;
            assert(data@ =~= Seq::new(k as nat, |j: int| value));
        }
        AlignedVec { data }
    }

    /// A vector holding a copy of `data`.
    pub fn from_slice(data: &[T]) -> (r: Self)
        requires
            is_power_of_two(ALIGN as nat),
            ALIGN >= vstd::layout::align_of::<T>(),
        ensures
            r.elements() == data@,
    {
        let mut out: Vec<T> = Vec::with_capacity(data.len());
        let mut k: usize = 0;
        while k < data.len()
            invariant
                k <= data@.len(),
                out@ == data@.take(k as int),
            decreases data@.len() - k,
        {
            out.push(data[k]);
            k = k + 1;
            assert(out@ =~= data@.take(k as int));
        }
        assert(out@ =~= data@);
        AlignedVec { data: out }
    }

    /// Number of elements.
    pub fn len(&self) -> (r: usize)
        ensures
            r == self.elements().len(),
    {
        self.data.len()
    }

    /// Whether the vector has no elements.
    pub fn is_empty(&self) -> (r: bool)
        ensures
            r == (self.elements().len() == 0),
    {
        self.data.len() == 0
    }

    /// The declared alignment in bytes.
    pub fn alignment(&self) -> (r: usize)
        ensures
            r == ALIGN,
    {
        ALIGN
    }

    /// Sets every element to `value`; the length is unchanged.
    pub fn fill(&mut self, value: T)
        ensures
            final(self).elements() == Seq::new(old(self).elements().len(), |k: int| value),
    {
        let n = self.data.len();
        let mut k: usize = 0;
        while k < n
            invariant
                k <= n,
                n == self.data@.len(),
                forall|j: int| 0 <= j < k ==> self.data@[j] == value,
            decreases n - k,
        {
            self.data.set(k, value);
            k = k + 1;
        }
        assert(self.data@ =~= Seq::new(old(self).elements().len(), |k: int| value));
    }

    /// The elements as a slice.
    pub fn as_slice(&self) -> (r: &[T])
        ensures
            r@ == self.elements(),
    {
        self.data.as_slice()
    }

    /// The elements as a mutable slice.
    pub fn as_mut_slice(&mut self) -> (r: &mut [T])
        ensures
            r@ == old(self).elements(),
            final(self).elements() == final(r)@,
    {
        self.data.as_mut_slice()
    }

    /// Element `i`.
    pub fn get(&self, i: usize) -> (r: T)
        requires
            i < self.elements().len(),
        ensures
            r == self.elements()[i as int],
    {
        self.data[i]
    }

    /// Sets element `i` to `value`.
    pub fn set(&mut self, i: usize, value: T)
        requires
            i < old(self).elements().len(),
        ensures
            final(self).elements() == old(self).elements().update(i as int, value),
    {
        self.data.set(i, value);
    }
}

impl<T, const ALIGN: usize> Deref for AlignedVec<T, ALIGN> {
    type Target = [T];

    /// The stored elements as a slice.
    fn deref(&self) -> (r: &[T])
        ensures
            r@ == self.elements(),
    {
        self.data.as_slice()
    }
}

} // verus!
