//! A fixed-length array allocated on the heap, whose element type and length
//! are both chosen at run time.
//!
//! A [`Caja`] sits between a language-level array (whose length must be known
//! at compile time) and a growable vector (which carries capacity and growth
//! machinery): it is allocated once, holds exactly the requested number of
//! elements, and its length never changes afterwards.
//!
//! Construction follows a recoverable policy: every constructor returns either
//! the new buffer or a [`CajaError`] saying why no buffer could be made.

use vstd::prelude::*;

mod fill;
mod text;

pub use fill::Zeroable;
pub use text::Render;
pub use text::comma_joined;
pub use text::dec_digits;
pub use text::display_of;
pub use text::render_u64;

verus! {

/// Why a constructor could not produce a buffer.
#[derive(Clone, Copy, Debug, PartialEq, Eq, Structural)]
pub enum CajaError {
    /// A buffer of zero elements was requested.
    ZeroSized,
    /// The requested element count would make the allocation larger than the
    /// allocator can address.
    LayoutOverflow,
    /// The allocator could not provide the memory.
    AllocationFailed,
}

/// A fixed-length array of `T` on the heap. The length is chosen at
/// construction and never changes afterwards. The derived `Debug` rendering
/// is diagnostic only; [`Caja::to_display_string`] is the specified one.
#[derive(Debug)]
pub struct Caja<T> {
    data: Vec<T>,
}

impl<T> View for Caja<T> {
    type V = Seq<T>;

    closed spec fn view(&self) -> Seq<T> {
        self.data@
    }
}

/// True when `size` elements of `T` take more bytes than one allocation may
/// hold (`isize::MAX` bytes, the limit a layout computation enforces).
pub open spec fn layout_overflows<T>(size: nat) -> bool {
    size * vstd::layout::size_of::<T>() > isize::MAX as nat
}

impl<T> Caja<T> {
    /// The number of elements the buffer was constructed with.
    pub fn len(&self) -> (n: usize)
        ensures
            n == self@.len(),
    {
        self.data.len()
    }

    /// A read-only reference to the element at `index`. The bound is a
    /// precondition, as it is for a raw array: callers prove `index` is in
    /// range instead of paying for a run-time check.
    pub fn index(&self, index: usize) -> (r: &T)
        requires
            index < self@.len(),
        ensures
            *r == self@[index as int],
    {
        &self.data[index]
    }

    /// A mutable reference to the element at `index`, under the same
    /// precondition as [`Caja::index`]. The buffer afterwards holds whatever
    /// the caller left behind the reference, at that index alone.
    pub fn index_mut(&mut self, index: usize) -> (r: &mut T)
        requires
            index < old(self)@.len(),
        ensures
            *r == old(self)@[index as int],
            final(self)@ == old(self)@.update(index as int, *final(r)),
    {
        &mut self.data[index]
    }

    /// A read-only view of all elements.
    pub fn as_slice(&self) -> (r: &[T])
        ensures
            r@ == self@,
    {
        self.data.as_slice()
    }

    /// A mutable view of all elements. The buffer afterwards holds whatever
    /// the caller left in the view; its length cannot change through it.
    pub fn as_mut_slice(&mut self) -> (r: &mut [T])
        ensures
            r@ == old(self)@,
            final(self)@ == final(r)@,
    {
        self.data.as_mut_slice()
    }

    /// True when a buffer of `size` elements fits the allocator's layout
    /// limit.
    fn layout_fits(size: usize) -> (b: bool)
        ensures
            b == !layout_overflows::<T>(size as nat),
    {
        let elem: usize = core::mem::size_of::<T>();
        match size.checked_mul(elem) {
            Some(bytes) => bytes <= (isize::MAX as usize),
            None => false,
        }
    }
}

impl<T: Copy> Caja<T> {
    /// Allocates a buffer of `size` elements and writes `default` into every
    /// slot. Fails with `ZeroSized` when `size == 0`, with `LayoutOverflow`
    /// when `size` elements of `T` exceed the allocator's layout limit, and
    /// with `AllocationFailed` when the allocator refuses the memory.
    pub fn new(size: usize, default: T) -> (r: Result<Self, CajaError>)
        ensures
            size == 0 ==> r == Err::<Self, CajaError>(CajaError::ZeroSized),
            size > 0 && layout_overflows::<T>(size as nat) ==> r == Err::<Self, CajaError>(
                CajaError::LayoutOverflow,
            ),
            size > 0 && !layout_overflows::<T>(size as nat) ==> match r {
                Ok(c) => c@ == Seq::new(size as nat, |i: int| default),
                Err(e) => e == CajaError::AllocationFailed,
            },
    {
        if size == 0 {
            return Err(CajaError::ZeroSized);
        }
        if !Self::layout_fits(size) {
            return Err(CajaError::LayoutOverflow);
        }
        let mut data: Vec<T> = Vec::new();
        if data.try_reserve(size).is_err() {
            return Err(CajaError::AllocationFailed);
        }
        let mut i: usize = 0;
        while i < size
            invariant
                i <= size,
                data@ == Seq::new(i as nat, |j: int| default),
            decreases size - i,
        {
            data.push(default);
            proof {
                assert(data@ =~= Seq::new((i + 1) as nat, |j: int| default));
            }
            i = i + 1;
        }
        Ok(Caja { data })
    }

    /// Allocates a buffer of `source.len()` elements and copies every element
    /// of `source` across, leaving the new buffer fully independent of the
    /// source. Fails exactly as [`Caja::new`] does for that size.
    pub fn try_from(source: &[T]) -> (r: Result<Self, CajaError>)
        ensures
            source@.len() == 0 ==> r == Err::<Self, CajaError>(CajaError::ZeroSized),
            source@.len() > 0 && layout_overflows::<T>(source@.len()) ==> r == Err::<
                Self,
                CajaError,
            >(CajaError::LayoutOverflow),
            source@.len() > 0 && !layout_overflows::<T>(source@.len()) ==> match r {
                Ok(c) => c@ == source@,
                Err(e) => e == CajaError::AllocationFailed,
            },
    {
        let n = source.len();
        if n == 0 {
            return Err(CajaError::ZeroSized);
        }
        if !Self::layout_fits(n) {
            return Err(CajaError::LayoutOverflow);
        }
        let mut data: Vec<T> = Vec::new();
        if data.try_reserve(n).is_err() {
            return Err(CajaError::AllocationFailed);
        }
        let mut i: usize = 0;
        while i < n
            invariant
                i <= n,
                n == source@.len(),
                data@ == source@.subrange(0, i as int),
            decreases n - i,
        {
            data.push(source[i]);
            proof {
                assert(data@ =~= source@.subrange(0, i + 1));
            }
            i = i + 1;
        }
        proof {
            assert(data@ =~= source@);
        }
        Ok(Caja { data })
    }
}

impl<T: Copy> Clone for Caja<T> {
    /// Duplicates the buffer: allocates a new backing store of the same
    /// length and copies every element's current value across. The two
    /// buffers never share storage, so writes to one are invisible to the
    /// other. Exhaustion of the allocator aborts, as cloning a vector does.
    fn clone(&self) -> (r: Self)
        ensures
            r@ == self@,
    {
        let n = self.data.len();
        let mut data: Vec<T> = Vec::new();
        let mut i: usize = 0;
        while i < n
            invariant
                i <= n,
                n == self.data@.len(),
                data@ == self.data@.subrange(0, i as int),
            decreases n - i,
        {
            data.push(self.data[i]);
            proof {
                assert(data@ =~= self.data@.subrange(0, i + 1));
            }
            i = i + 1;
        }
        proof {
            assert(data@ =~= self.data@);
        }
        Caja { data }
    }
}

/// Duplication law: a duplicate is element-wise equal to its original, and a
/// write through the duplicate, which [`Caja::index_mut`] says leaves the
/// duplicate holding `duplicated@.update(i, v)`, changes the written index
/// alone and no element of the original — the two buffers are independent.
pub proof fn lemma_duplicate_independent<T>(original: Caja<T>, duplicated: Caja<T>, i: int, v: T)
    requires
        duplicated@ == original@,
        0 <= i < duplicated@.len(),
    ensures
        duplicated@.update(i, v)[i] == v,
        forall|j: int|
            0 <= j < original@.len() && j != i ==> duplicated@.update(i, v)[j] == original@[j],
{
}

impl<T: Zeroable> Caja<T> {
    /// Allocates a buffer of `size` elements without promising anything about
    /// their contents: callers must write an element before they rely on what
    /// it holds. Fails exactly as [`Caja::new`] does.
    pub fn new_uninitialized(size: usize) -> (r: Result<Self, CajaError>)
        ensures
            size == 0 ==> r == Err::<Self, CajaError>(CajaError::ZeroSized),
            size > 0 && layout_overflows::<T>(size as nat) ==> r == Err::<Self, CajaError>(
                CajaError::LayoutOverflow,
            ),
            size > 0 && !layout_overflows::<T>(size as nat) ==> match r {
                Ok(c) => c@.len() == size,
                Err(e) => e == CajaError::AllocationFailed,
            },
    {
        Self::new(size, T::zeroed())
    }

    /// Allocates a buffer of `size` elements and sets every one to the
    /// element type's zero value, so the whole backing store is zero bits.
    /// Fails exactly as [`Caja::new`] does.
    pub fn new_zeroed(size: usize) -> (r: Result<Self, CajaError>)
        ensures
            size == 0 ==> r == Err::<Self, CajaError>(CajaError::ZeroSized),
            size > 0 && layout_overflows::<T>(size as nat) ==> r == Err::<Self, CajaError>(
                CajaError::LayoutOverflow,
            ),
            size > 0 && !layout_overflows::<T>(size as nat) ==> match r {
                Ok(c) => c@ == Seq::new(size as nat, |i: int| T::zero_spec()),
                Err(e) => e == CajaError::AllocationFailed,
            },
    {
        Self::new(size, T::zeroed())
    }
}

} // verus!
