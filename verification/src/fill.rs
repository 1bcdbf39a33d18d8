//! Element types whose buffers can be created without a caller-supplied
//! value: types with an all-zero-bits value that is safe to materialize.

use vstd::prelude::*;

verus! {

/// An element type with a distinguished zero value, used to fill buffers that
/// are created from a size alone. For the integer impls below the zero value
/// is the number zero, whose byte representation is all-zero bits; for `bool`
/// it is `false`, likewise all-zero bits.
pub trait Zeroable: Copy + Sized {
    /// The type's zero value.
    spec fn zero_spec() -> Self;

    /// Produces the zero value.
    fn zeroed() -> (r: Self)
        ensures
            r == Self::zero_spec(),
    ;
}

impl Zeroable for u8 {
    open spec fn zero_spec() -> u8 {
        0u8
    }

    fn zeroed() -> u8 {
        0u8
    }
}

impl Zeroable for u16 {
    open spec fn zero_spec() -> u16 {
        0u16
    }

    fn zeroed() -> u16 {
        0u16
    }
}

impl Zeroable for u32 {
    open spec fn zero_spec() -> u32 {
        0u32
    }

    fn zeroed() -> u32 {
        0u32
    }
}

impl Zeroable for u64 {
    open spec fn zero_spec() -> u64 {
        0u64
    }

    fn zeroed() -> u64 {
        0u64
    }
}

impl Zeroable for usize {
    open spec fn zero_spec() -> usize {
        0usize
    }

    fn zeroed() -> usize {
        0usize
    }
}

impl Zeroable for i32 {
    open spec fn zero_spec() -> i32 {
        0i32
    }

    fn zeroed() -> i32 {
        0i32
    }
}

impl Zeroable for i64 {
    open spec fn zero_spec() -> i64 {
        0i64
    }

    fn zeroed() -> i64 {
        0i64
    }
}

impl Zeroable for bool {
    open spec fn zero_spec() -> bool {
        false
    }

    fn zeroed() -> bool {
        false
    }
}

} // verus!
