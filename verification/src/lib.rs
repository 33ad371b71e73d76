//! Typed memory primitives.
//!
//! This crate gives callers unit-tagged representations of raw memory
//! addresses ([`Address`]), item-counted pointer offsets ([`Offset`]) and
//! fixed-size memory pages ([`Page`], [`Pages`]), so that low-level code
//! cannot accidentally mix addresses of incompatible alignment or confuse
//! byte counts with item counts.
//!
//! Every operation carries a contract: alignment-checking constructors say
//! exactly when they succeed, the rounding casts `raise` and `lower` are
//! proved to return the nearest suitably aligned value, and the page-buffer
//! builder is proved to place every byte where it belongs.

use vstd::prelude::*;

mod address;
mod alignment;
mod offset;
mod page;
mod pages;

pub use address::Address;
pub use address::AlignmentError;
pub use address::lemma_sub_then_add_restores;
pub use alignment::lemma_round_down_is_greatest_aligned;
pub use alignment::lemma_round_trip_restores_address;
pub use alignment::lemma_round_up_is_least_aligned;
pub use alignment::round_down;
pub use alignment::round_up;
pub use offset::Offset;
pub use page::Page;
pub use pages::Pages;
pub use pages::byte_of;
pub use pages::expected_byte;

verus! {

/// Defines the additive identity value of a numeric type.
pub trait Zero: Sized {
    /// The additive identity, at the specification level.
    spec fn spec_zero() -> Self;

    /// Returns the additive identity.
    fn zero() -> (r: Self)
        ensures
            r == Self::spec_zero(),
    ;
}

/// Defines the multiplicative identity value of a numeric type.
pub trait One: Sized {
    /// The multiplicative identity, at the specification level.
    spec fn spec_one() -> Self;

    /// Returns the multiplicative identity.
    fn one() -> (r: Self)
        ensures
            r == Self::spec_one(),
    ;
}

impl Zero for u8 {
    open spec fn spec_zero() -> u8 {
        0u8
    }

    fn zero() -> u8 {
        0u8
    }
}

impl One for u8 {
    open spec fn spec_one() -> u8 {
        1u8
    }

    fn one() -> u8 {
        1u8
    }
}

impl Zero for u16 {
    open spec fn spec_zero() -> u16 {
        0u16
    }

    fn zero() -> u16 {
        0u16
    }
}

impl One for u16 {
    open spec fn spec_one() -> u16 {
        1u16
    }

    fn one() -> u16 {
        1u16
    }
}

impl Zero for u32 {
    open spec fn spec_zero() -> u32 {
        0u32
    }

    fn zero() -> u32 {
        0u32
    }
}

impl One for u32 {
    open spec fn spec_one() -> u32 {
        1u32
    }

    fn one() -> u32 {
        1u32
    }
}

impl Zero for u64 {
    open spec fn spec_zero() -> u64 {
        0u64
    }

    fn zero() -> u64 {
        0u64
    }
}

impl One for u64 {
    open spec fn spec_one() -> u64 {
        1u64
    }

    fn one() -> u64 {
        1u64
    }
}

impl Zero for u128 {
    open spec fn spec_zero() -> u128 {
        0u128
    }

    fn zero() -> u128 {
        0u128
    }
}

impl One for u128 {
    open spec fn spec_one() -> u128 {
        1u128
    }

    fn one() -> u128 {
        1u128
    }
}

impl Zero for usize {
    open spec fn spec_zero() -> usize {
        0usize
    }

    fn zero() -> usize {
        0usize
    }
}

impl One for usize {
    open spec fn spec_one() -> usize {
        1usize
    }

    fn one() -> usize {
        1usize
    }
}

impl Zero for i8 {
    open spec fn spec_zero() -> i8 {
        0i8
    }

    fn zero() -> i8 {
        0i8
    }
}

impl One for i8 {
    open spec fn spec_one() -> i8 {
        1i8
    }

    fn one() -> i8 {
        1i8
    }
}

impl Zero for i16 {
    open spec fn spec_zero() -> i16 {
        0i16
    }

    fn zero() -> i16 {
        0i16
    }
}

impl One for i16 {
    open spec fn spec_one() -> i16 {
        1i16
    }

    fn one() -> i16 {
        1i16
    }
}

impl Zero for i32 {
    open spec fn spec_zero() -> i32 {
        0i32
    }

    fn zero() -> i32 {
        0i32
    }
}

impl One for i32 {
    open spec fn spec_one() -> i32 {
        1i32
    }

    fn one() -> i32 {
        1i32
    }
}

impl Zero for i64 {
    open spec fn spec_zero() -> i64 {
        0i64
    }

    fn zero() -> i64 {
        0i64
    }
}

impl One for i64 {
    open spec fn spec_one() -> i64 {
        1i64
    }

    fn one() -> i64 {
        1i64
    }
}

impl Zero for i128 {
    open spec fn spec_zero() -> i128 {
        0i128
    }

    fn zero() -> i128 {
        0i128
    }
}

impl One for i128 {
    open spec fn spec_one() -> i128 {
        1i128
    }

    fn one() -> i128 {
        1i128
    }
}

impl Zero for isize {
    open spec fn spec_zero() -> isize {
        0isize
    }

    fn zero() -> isize {
        0isize
    }
}

impl One for isize {
    open spec fn spec_one() -> isize {
        1isize
    }

    fn one() -> isize {
        1isize
    }
}

} // verus!
