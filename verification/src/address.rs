//! A unit-tagged memory address with an alignment discipline.

use crate::Offset;
use crate::Zero;
use crate::alignment::round_down;
use crate::alignment::round_up;
use core::marker::PhantomData;
use vstd::arithmetic::div_mod::lemma_fundamental_div_mod;
use vstd::arithmetic::div_mod::lemma_mod_division_less_than_divisor;
use vstd::arithmetic::mul::lemma_mul_is_commutative;
use vstd::layout::align_of;
use vstd::layout::layout_for_type_is_valid;
use vstd::layout::size_of;
use vstd::prelude::*;
use vstd::std_specs::cmp::PartialEqSpec;
use vstd::std_specs::cmp::PartialEqSpecImpl;
use vstd::std_specs::cmp::PartialOrdSpec;
use vstd::std_specs::cmp::PartialOrdSpecImpl;
use vstd::std_specs::convert::FromSpecImpl;
use vstd::std_specs::ops::AddSpec;
use vstd::std_specs::ops::AddSpecImpl;
use vstd::std_specs::ops::SubSpec;
use vstd::std_specs::ops::SubSpecImpl;

verus! {

/// An address
///
/// This newtype is used to represent addresses of a given type.
/// The most important guarantee of this type is that every checked
/// constructor (`new`, `raise`, `lower`, `try_cast`) returns an address
/// that is properly aligned for the given type `U`; each of them says so
/// in its contract. The only way to convert between addresses of
/// different types is to choose a new alignment (raise or lower) or to
/// check the current one (`try_cast`).
///
/// This type does *not*, however, track lifetime. You're on your own.
///
/// Unlike the naked underlying types, you can infallibly convert between,
/// for example, an `Address<usize, ()>` and an `Address<u64, ()>` wherever
/// such a conversion is lossless given the target CPU architecture.
pub struct Address<T, U> {
    /// The raw numeric value.
    pub value: T,
    /// The unit tag: the type this address is expected to point to.
    pub unit: PhantomData<U>,
}

impl<T: Copy, U> Clone for Address<T, U> {
    /// An address is a plain value: the copy is the value itself.
    fn clone(&self) -> (r: Self)
        ensures
            r == *self,
    {
        *self
    }
}

impl<T: Copy, U> Copy for Address<T, U> {

}

impl<T: PartialEq, U> PartialEq for Address<T, U> {
    /// Two addresses are equal exactly when their raw values are.
    fn eq(&self, other: &Self) -> bool {
        self.value == other.value
    }
}

impl<T: PartialEq, U> PartialEqSpecImpl for Address<T, U> {
    open spec fn obeys_eq_spec() -> bool {
        T::obeys_eq_spec()
    }

    open spec fn eq_spec(&self, other: &Self) -> bool {
        T::eq_spec(&self.value, &other.value)
    }
}

impl<T: Eq, U> Eq for Address<T, U> {

}

impl<T: PartialOrd, U> PartialOrd for Address<T, U> {
    /// Addresses are ordered by their raw values.
    fn partial_cmp(&self, other: &Self) -> Option<core::cmp::Ordering> {
        self.value.partial_cmp(&other.value)
    }
}

impl<T: PartialOrd, U> PartialOrdSpecImpl for Address<T, U> {
    open spec fn obeys_partial_cmp_spec() -> bool {
        T::obeys_partial_cmp_spec()
    }

    open spec fn partial_cmp_spec(&self, other: &Self) -> Option<core::cmp::Ordering> {
        T::partial_cmp_spec(&self.value, &other.value)
    }
}

impl<T: Zero, U> Default for Address<T, U> {
    /// The default address is the additive identity: the NULL address.
    fn default() -> (r: Self)
        ensures
            r.value == T::spec_zero(),
    {
        Address { value: T::zero(), unit: PhantomData }
    }
}

/// The error returned when a checked conversion meets a raw value that is
/// not a multiple of the required alignment.
pub struct AlignmentError;

impl<U> Address<usize, U> {
    /// Creates a new address
    ///
    /// The value must be a multiple of the alignment of `U`.
    pub fn new(value: usize) -> (r: Self)
        requires
            value as int % align_of::<U>() as int == 0,
        ensures
            r.value == value,
    {
        Self { value, unit: PhantomData }
    }
}

impl<T, U> Address<T, U> {
    /// Converts an `Address` to its raw inner type
    pub fn raw(self) -> (r: T)
        ensures
            r == self.value,
    {
        self.value
    }
}

impl<U> Address<usize, U> {
    /// Try casting an existing `Address` into an `Address` of a different type
    ///
    /// Succeeds only, if they have compatible alignment; the raw value is
    /// returned unchanged.
    pub fn try_cast<V>(self) -> (r: Result<Address<usize, V>, AlignmentError>)
        ensures
            self.value as int % align_of::<V>() as int == 0 ==> (r matches Ok(a) && a.value
                == self.value),
            self.value as int % align_of::<V>() as int != 0 ==> (r matches Err(_)),
    {
        layout_for_type_is_valid::<V>();
        if self.value % core::mem::align_of::<V>() != 0 {
            return Err(AlignmentError);
        }
        Ok(Address { value: self.value, unit: PhantomData })
    }

    /// Cast an existing `Address` into an `Address` of a different type by
    /// aligning up: the raw value is rounded up to the next multiple of the
    /// alignment of `V` (a no-op if it is already such a multiple)
    pub fn raise<V>(self) -> (r: Address<usize, V>)
        requires
            self.value + align_of::<V>() <= usize::MAX,
        ensures
            r.value == round_up(self.value as int, align_of::<V>() as int),
            r.value as int % align_of::<V>() as int == 0,
            self.value <= r.value < self.value + align_of::<V>(),
    {
        layout_for_type_is_valid::<V>();
        let align: usize = core::mem::align_of::<V>();
        proof {
            let x = self.value + align - 1;
            lemma_fundamental_div_mod(x, align as int);
            lemma_mod_division_less_than_divisor(x, align as int);
            lemma_mul_is_commutative(x / (align as int), align as int);
            crate::alignment::lemma_round_up_is_least_aligned(self.value as int, align as int);
        }
        Address { value: (self.value + align - 1) / align * align, unit: PhantomData }
    }

    /// Cast an existing `Address` into an `Address` of a different type by
    /// aligning down: the raw value is rounded down to the previous multiple
    /// of the alignment of `V` (a no-op if it is already such a multiple)
    pub fn lower<V>(self) -> (r: Address<usize, V>)
        ensures
            r.value == round_down(self.value as int, align_of::<V>() as int),
            r.value as int % align_of::<V>() as int == 0,
            self.value - align_of::<V>() < r.value <= self.value,
    {
        layout_for_type_is_valid::<V>();
        let align: usize = core::mem::align_of::<V>();
        proof {
            lemma_fundamental_div_mod(self.value as int, align as int);
            lemma_mod_division_less_than_divisor(self.value as int, align as int);
            lemma_mul_is_commutative(self.value as int / align as int, align as int);
            crate::alignment::lemma_round_down_is_greatest_aligned(self.value as int, align as int);
        }
        Address { value: self.value / align * align, unit: PhantomData }
    }
}

/// Convert a raw address value to an untyped `Address`
impl<T> From<T> for Address<T, ()> {
    fn from(value: T) -> (r: Self) {
        Self { value, unit: PhantomData }
    }
}

impl<T> FromSpecImpl<T> for Address<T, ()> {
    open spec fn obeys_from_spec() -> bool {
        true
    }

    open spec fn from_spec(t: T) -> Self {
        Address { value: t, unit: PhantomData }
    }
}

impl<U> From<Address<u64, U>> for Address<usize, U> {
    /// Lossless on a 64-bit word: the raw value is preserved exactly
    /// whenever it fits the native word.
    fn from(value: Address<u64, U>) -> (r: Self)
        ensures
            value.value <= usize::MAX ==> r.value == value.value,
    {
        Self { value: value.value as usize, unit: PhantomData }
    }
}

impl<U> FromSpecImpl<Address<u64, U>> for Address<usize, U> {
    open spec fn obeys_from_spec() -> bool {
        true
    }

    open spec fn from_spec(t: Address<u64, U>) -> Self {
        Address { value: t.value as usize, unit: PhantomData }
    }
}

impl<U> From<Address<usize, U>> for Address<u64, U> {
    /// Lossless on every word of at most 64 bits: the raw value is
    /// preserved exactly.
    fn from(value: Address<usize, U>) -> (r: Self)
        ensures
            r.value == value.value,
    {
        Self { value: value.value as u64, unit: PhantomData }
    }
}

impl<U> FromSpecImpl<Address<usize, U>> for Address<u64, U> {
    open spec fn obeys_from_spec() -> bool {
        true
    }

    open spec fn from_spec(t: Address<usize, U>) -> Self {
        Address { value: t.value as u64, unit: PhantomData }
    }
}

impl<U> From<Address<u32, U>> for Address<usize, U> {
    /// Lossless on every word of at least 32 bits: the raw value is
    /// preserved exactly.
    fn from(value: Address<u32, U>) -> (r: Self)
        ensures
            r.value == value.value,
    {
        Self { value: value.value as usize, unit: PhantomData }
    }
}

impl<U> FromSpecImpl<Address<u32, U>> for Address<usize, U> {
    open spec fn obeys_from_spec() -> bool {
        true
    }

    open spec fn from_spec(t: Address<u32, U>) -> Self {
        Address { value: t.value as usize, unit: PhantomData }
    }
}

impl<U> core::ops::Add<Offset<usize, U>> for Address<usize, U> {
    type Output = Address<usize, U>;

    /// Move the address forward by the byte value of the offset
    fn add(self, rhs: Offset<usize, U>) -> (r: Self) {
        Self { value: self.value + rhs.bytes(), unit: PhantomData }
    }
}

impl<U> AddSpecImpl<Offset<usize, U>> for Address<usize, U> {
    open spec fn obeys_add_spec() -> bool {
        true
    }

    open spec fn add_req(self, rhs: Offset<usize, U>) -> bool {
        self.value + rhs.value * size_of::<U>() <= usize::MAX
    }

    open spec fn add_spec(self, rhs: Offset<usize, U>) -> Address<usize, U> {
        Address { value: (self.value + rhs.value * size_of::<U>()) as usize, unit: PhantomData }
    }
}

impl<U> core::ops::Sub<Offset<usize, U>> for Address<usize, U> {
    type Output = Address<usize, U>;

    /// Move the address backward by the byte value of the offset
    fn sub(self, rhs: Offset<usize, U>) -> (r: Self) {
        Self { value: self.value - rhs.bytes(), unit: PhantomData }
    }
}

impl<U> SubSpecImpl<Offset<usize, U>> for Address<usize, U> {
    open spec fn obeys_sub_spec() -> bool {
        true
    }

    open spec fn sub_req(self, rhs: Offset<usize, U>) -> bool {
        rhs.value * size_of::<U>() <= self.value
    }

    open spec fn sub_spec(self, rhs: Offset<usize, U>) -> Address<usize, U> {
        Address { value: (self.value - rhs.value * size_of::<U>()) as usize, unit: PhantomData }
    }
}

impl<U> core::ops::Sub<Address<usize, U>> for Address<usize, U> {
    type Output = Offset<usize, U>;

    /// The distance between two addresses, in whole items of `U`
    fn sub(self, rhs: Address<usize, U>) -> (r: Offset<usize, U>) {
        let size: usize = core::mem::size_of::<U>();
        Offset { value: (self.value - rhs.value) / size, unit: PhantomData }
    }
}

impl<U> SubSpecImpl<Address<usize, U>> for Address<usize, U> {
    open spec fn obeys_sub_spec() -> bool {
        true
    }

    open spec fn sub_req(self, rhs: Address<usize, U>) -> bool {
        rhs.value <= self.value && size_of::<U>() > 0
    }

    open spec fn sub_spec(self, rhs: Address<usize, U>) -> Offset<usize, U> {
        Offset {
            value: ((self.value - rhs.value) as int / size_of::<U>() as int) as usize,
            unit: PhantomData,
        }
    }
}

impl<U> Address<usize, U> {
    /// Move this address forward, in place, by the byte value of the offset
    pub fn add_assign(&mut self, rhs: Offset<usize, U>)
        requires
            old(self).value + rhs.value * size_of::<U>() <= usize::MAX,
        ensures
            final(self).value == old(self).value + rhs.value * size_of::<U>(),
    {
        self.value = self.value + rhs.bytes();
    }

    /// Move this address backward, in place, by the byte value of the offset
    pub fn sub_assign(&mut self, rhs: Offset<usize, U>)
        requires
            rhs.value * size_of::<U>() <= old(self).value,
        ensures
            final(self).value == old(self).value - rhs.value * size_of::<U>(),
    {
        self.value = self.value - rhs.bytes();
    }
}

impl<U> Address<u64, U> {
    /// Try casting an existing `Address` into an `Address` of a different type
    ///
    /// Succeeds only, if they have compatible alignment; the raw value is
    /// returned unchanged.
    pub fn try_cast<V>(self) -> (r: Result<Address<u64, V>, AlignmentError>)
        ensures
            self.value as int % align_of::<V>() as int == 0 ==> (r matches Ok(a) && a.value
                == self.value),
            self.value as int % align_of::<V>() as int != 0 ==> (r matches Err(_)),
    {
        layout_for_type_is_valid::<V>();
        if self.value % (core::mem::align_of::<V>() as u64) != 0 {
            return Err(AlignmentError);
        }
        Ok(Address { value: self.value, unit: PhantomData })
    }

    /// Cast an existing `Address` into an `Address` of a different type by
    /// aligning up: the raw value is rounded up to the next multiple of the
    /// alignment of `V` (a no-op if it is already such a multiple)
    pub fn raise<V>(self) -> (r: Address<u64, V>)
        requires
            self.value + align_of::<V>() <= u64::MAX,
        ensures
            r.value == round_up(self.value as int, align_of::<V>() as int),
            r.value as int % align_of::<V>() as int == 0,
            self.value <= r.value < self.value + align_of::<V>(),
    {
        layout_for_type_is_valid::<V>();
        let align: u64 = core::mem::align_of::<V>() as u64;
        proof {
            let x = self.value + align - 1;
            lemma_fundamental_div_mod(x, align as int);
            lemma_mod_division_less_than_divisor(x, align as int);
            lemma_mul_is_commutative(x / (align as int), align as int);
            crate::alignment::lemma_round_up_is_least_aligned(self.value as int, align as int);
        }
        Address { value: (self.value + align - 1) / align * align, unit: PhantomData }
    }

    /// Cast an existing `Address` into an `Address` of a different type by
    /// aligning down: the raw value is rounded down to the previous multiple
    /// of the alignment of `V` (a no-op if it is already such a multiple)
    pub fn lower<V>(self) -> (r: Address<u64, V>)
        ensures
            r.value == round_down(self.value as int, align_of::<V>() as int),
            r.value as int % align_of::<V>() as int == 0,
            self.value - align_of::<V>() < r.value <= self.value,
    {
        layout_for_type_is_valid::<V>();
        let align: u64 = core::mem::align_of::<V>() as u64;
        proof {
            lemma_fundamental_div_mod(self.value as int, align as int);
            lemma_mod_division_less_than_divisor(self.value as int, align as int);
            lemma_mul_is_commutative(self.value as int / align as int, align as int);
            crate::alignment::lemma_round_down_is_greatest_aligned(self.value as int, align as int);
        }
        Address { value: self.value / align * align, unit: PhantomData }
    }
}

impl<U> core::ops::Add<Offset<u64, U>> for Address<u64, U> {
    type Output = Address<u64, U>;

    /// Move the address forward by the byte value of the offset
    fn add(self, rhs: Offset<u64, U>) -> (r: Self) {
        Self { value: self.value + rhs.bytes(), unit: PhantomData }
    }
}

impl<U> AddSpecImpl<Offset<u64, U>> for Address<u64, U> {
    open spec fn obeys_add_spec() -> bool {
        true
    }

    open spec fn add_req(self, rhs: Offset<u64, U>) -> bool {
        self.value + rhs.value * size_of::<U>() <= u64::MAX
    }

    open spec fn add_spec(self, rhs: Offset<u64, U>) -> Address<u64, U> {
        Address { value: (self.value + rhs.value * size_of::<U>()) as u64, unit: PhantomData }
    }
}

impl<U> core::ops::Sub<Offset<u64, U>> for Address<u64, U> {
    type Output = Address<u64, U>;

    /// Move the address backward by the byte value of the offset
    fn sub(self, rhs: Offset<u64, U>) -> (r: Self) {
        Self { value: self.value - rhs.bytes(), unit: PhantomData }
    }
}

impl<U> SubSpecImpl<Offset<u64, U>> for Address<u64, U> {
    open spec fn obeys_sub_spec() -> bool {
        true
    }

    open spec fn sub_req(self, rhs: Offset<u64, U>) -> bool {
        rhs.value * size_of::<U>() <= self.value
    }

    open spec fn sub_spec(self, rhs: Offset<u64, U>) -> Address<u64, U> {
        Address { value: (self.value - rhs.value * size_of::<U>()) as u64, unit: PhantomData }
    }
}

impl<U> core::ops::Sub<Address<u64, U>> for Address<u64, U> {
    type Output = Offset<u64, U>;

    /// The distance between two addresses, in whole items of `U`
    fn sub(self, rhs: Address<u64, U>) -> (r: Offset<u64, U>) {
        let size: u64 = core::mem::size_of::<U>() as u64;
        Offset { value: (self.value - rhs.value) / size, unit: PhantomData }
    }
}

impl<U> SubSpecImpl<Address<u64, U>> for Address<u64, U> {
    open spec fn obeys_sub_spec() -> bool {
        true
    }

    open spec fn sub_req(self, rhs: Address<u64, U>) -> bool {
        rhs.value <= self.value && size_of::<U>() > 0
    }

    open spec fn sub_spec(self, rhs: Address<u64, U>) -> Offset<u64, U> {
        Offset {
            value: ((self.value - rhs.value) as int / size_of::<U>() as int) as u64,
            unit: PhantomData,
        }
    }
}

/// Law: for any two addresses `a`, `b` of the same tag and width whose
/// distance is an exact number of items, `b + (a - b) == a`.
pub proof fn lemma_sub_then_add_restores<U>(a: Address<usize, U>, b: Address<usize, U>)
    requires
        size_of::<U>() > 0,
        b.value <= a.value,
        (a.value - b.value) % (size_of::<U>() as int) == 0,
    ensures
        AddSpec::add_spec(b, SubSpec::sub_spec(a, b)) == a,
{
    crate::alignment::lemma_round_trip_restores_address(
        a.value as int,
        b.value as int,
        size_of::<U>() as int,
    );
}

} // verus!
