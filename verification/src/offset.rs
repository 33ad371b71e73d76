//! An item-counted, unit-tagged pointer offset.

use crate::One;
use crate::Zero;
use core::marker::PhantomData;
use vstd::layout::size_of;
use vstd::prelude::*;
use vstd::std_specs::cmp::PartialEqSpec;
use vstd::std_specs::cmp::PartialEqSpecImpl;
use vstd::std_specs::cmp::PartialOrdSpec;
use vstd::std_specs::cmp::PartialOrdSpecImpl;
use vstd::std_specs::convert::FromSpecImpl;
use vstd::std_specs::ops::AddSpecImpl;
use vstd::std_specs::ops::DivSpecImpl;
use vstd::std_specs::ops::MulSpecImpl;
use vstd::std_specs::ops::RemSpecImpl;
use vstd::std_specs::ops::SubSpecImpl;

verus! {

/// An offset of a number of items of type `U` from a base
///
/// Note well that this is NOT stored in memory as the number of bytes,
/// but rather the number of items. The byte distance is derived on demand
/// by [`Offset::bytes`], which scales the count by the size of one `U`.
///
/// Offsets can be converted between underlying widths so long as the
/// conversion is lossless for the target CPU architecture: on a machine
/// whose word is at least 32 and at most 64 bits wide, `Offset<u32, U>`
/// converts into `Offset<usize, U>` and `Offset<usize, U>` into
/// `Offset<u64, U>` with the count preserved exactly, while no conversion
/// to `u32` is offered.
pub struct Offset<T, U> {
    /// The number of items (not bytes).
    pub value: T,
    /// The unit tag: one item of this offset is one `U`.
    pub unit: PhantomData<U>,
}

impl<T: PartialEq, U> PartialEq for Offset<T, U> {
    /// Two offsets are equal exactly when their item counts are.
    fn eq(&self, other: &Self) -> bool {
        self.value == other.value
    }
}

impl<T: PartialEq, U> PartialEqSpecImpl for Offset<T, U> {
    open spec fn obeys_eq_spec() -> bool {
        T::obeys_eq_spec()
    }

    open spec fn eq_spec(&self, other: &Self) -> bool {
        T::eq_spec(&self.value, &other.value)
    }
}

impl<T: Eq, U> Eq for Offset<T, U> {

}

impl<T: PartialOrd, U> PartialOrd for Offset<T, U> {
    /// Offsets are ordered by their item counts.
    fn partial_cmp(&self, other: &Self) -> Option<core::cmp::Ordering> {
        self.value.partial_cmp(&other.value)
    }
}

impl<T: PartialOrd, U> PartialOrdSpecImpl for Offset<T, U> {
    open spec fn obeys_partial_cmp_spec() -> bool {
        T::obeys_partial_cmp_spec()
    }

    open spec fn partial_cmp_spec(&self, other: &Self) -> Option<core::cmp::Ordering> {
        T::partial_cmp_spec(&self.value, &other.value)
    }
}

impl<T: Copy, U> Clone for Offset<T, U> {
    /// An offset is a plain value: the copy is the value itself.
    fn clone(&self) -> (r: Self)
        ensures
            r == *self,
    {
        *self
    }
}

impl<T: Copy, U> Copy for Offset<T, U> {

}

impl<T, U> Offset<T, U> {
    /// Create an offset value from the number of items
    pub fn from_items(items: T) -> (r: Self)
        ensures
            r.value == items,
    {
        Self { value: items, unit: PhantomData }
    }

    /// Get the number of items
    pub fn items(self) -> (r: T)
        ensures
            r == self.value,
    {
        self.value
    }
}

impl<U> Offset<usize, U> {
    /// Get the number of bytes: the item count scaled by the size of one `U`
    pub fn bytes(self) -> (r: usize)
        requires
            self.value * size_of::<U>() <= usize::MAX,
        ensures
            r == self.value * size_of::<U>(),
    {
        self.value * core::mem::size_of::<U>()
    }
}

impl<U> Offset<u64, U> {
    /// Get the number of bytes: the item count scaled by the size of one `U`
    pub fn bytes(self) -> (r: u64)
        requires
            self.value * size_of::<U>() <= u64::MAX,
        ensures
            r == self.value * size_of::<U>(),
    {
        self.value * (core::mem::size_of::<U>() as u64)
    }
}

impl<U> core::ops::Add for Offset<usize, U> {
    type Output = Offset<usize, U>;

    fn add(self, rhs: Self) -> (r: Self) {
        Self { value: self.value + rhs.value, unit: PhantomData }
    }
}

impl<U> AddSpecImpl for Offset<usize, U> {
    open spec fn obeys_add_spec() -> bool {
        true
    }

    open spec fn add_req(self, rhs: Self) -> bool {
        self.value + rhs.value <= usize::MAX
    }

    open spec fn add_spec(self, rhs: Self) -> Self {
        Offset { value: (self.value + rhs.value) as usize, unit: PhantomData }
    }
}

impl<U> core::ops::Sub for Offset<usize, U> {
    type Output = Offset<usize, U>;

    fn sub(self, rhs: Self) -> (r: Self) {
        Self { value: self.value - rhs.value, unit: PhantomData }
    }
}

impl<U> SubSpecImpl for Offset<usize, U> {
    open spec fn obeys_sub_spec() -> bool {
        true
    }

    open spec fn sub_req(self, rhs: Self) -> bool {
        rhs.value <= self.value
    }

    open spec fn sub_spec(self, rhs: Self) -> Self {
        Offset { value: (self.value - rhs.value) as usize, unit: PhantomData }
    }
}

impl<U> core::ops::Mul for Offset<usize, U> {
    type Output = Offset<usize, U>;

    fn mul(self, rhs: Self) -> (r: Self) {
        Self { value: self.value * rhs.value, unit: PhantomData }
    }
}

impl<U> MulSpecImpl for Offset<usize, U> {
    open spec fn obeys_mul_spec() -> bool {
        true
    }

    open spec fn mul_req(self, rhs: Self) -> bool {
        self.value * rhs.value <= usize::MAX
    }

    open spec fn mul_spec(self, rhs: Self) -> Self {
        Offset { value: (self.value * rhs.value) as usize, unit: PhantomData }
    }
}

impl<U> core::ops::Div for Offset<usize, U> {
    type Output = Offset<usize, U>;

    fn div(self, rhs: Self) -> (r: Self) {
        Self { value: self.value / rhs.value, unit: PhantomData }
    }
}

impl<U> DivSpecImpl for Offset<usize, U> {
    open spec fn obeys_div_spec() -> bool {
        true
    }

    open spec fn div_req(self, rhs: Self) -> bool {
        rhs.value != 0
    }

    open spec fn div_spec(self, rhs: Self) -> Self {
        Offset { value: (self.value as int / rhs.value as int) as usize, unit: PhantomData }
    }
}

impl<U> core::ops::Rem for Offset<usize, U> {
    type Output = Offset<usize, U>;

    fn rem(self, rhs: Self) -> (r: Self) {
        Self { value: self.value % rhs.value, unit: PhantomData }
    }
}

impl<U> RemSpecImpl for Offset<usize, U> {
    open spec fn obeys_rem_spec() -> bool {
        true
    }

    open spec fn rem_req(self, rhs: Self) -> bool {
        rhs.value != 0
    }

    open spec fn rem_spec(self, rhs: Self) -> Self {
        Offset { value: (self.value as int % rhs.value as int) as usize, unit: PhantomData }
    }
}

impl<U> Offset<usize, U> {
    /// Add another offset to this one in place
    pub fn add_assign(&mut self, rhs: Self)
        requires
            old(self).value + rhs.value <= usize::MAX,
        ensures
            final(self).value == old(self).value + rhs.value,
    {
        self.value = self.value + rhs.value;
    }

    /// Subtract another offset from this one in place
    pub fn sub_assign(&mut self, rhs: Self)
        requires
            rhs.value <= old(self).value,
        ensures
            final(self).value == old(self).value - rhs.value,
    {
        self.value = self.value - rhs.value;
    }

    /// Multiply this offset by another in place
    pub fn mul_assign(&mut self, rhs: Self)
        requires
            old(self).value * rhs.value <= usize::MAX,
        ensures
            final(self).value == old(self).value * rhs.value,
    {
        self.value = self.value * rhs.value;
    }

    /// Divide this offset by another in place
    pub fn div_assign(&mut self, rhs: Self)
        requires
            rhs.value != 0,
        ensures
            final(self).value == old(self).value as int / rhs.value as int,
    {
        self.value = self.value / rhs.value;
    }

    /// Reduce this offset modulo another in place
    pub fn rem_assign(&mut self, rhs: Self)
        requires
            rhs.value != 0,
        ensures
            final(self).value == old(self).value as int % rhs.value as int,
    {
        self.value = self.value % rhs.value;
    }
}

impl<U> core::ops::Add for Offset<u32, U> {
    type Output = Offset<u32, U>;

    fn add(self, rhs: Self) -> (r: Self) {
        Self { value: self.value + rhs.value, unit: PhantomData }
    }
}

impl<U> AddSpecImpl for Offset<u32, U> {
    open spec fn obeys_add_spec() -> bool {
        true
    }

    open spec fn add_req(self, rhs: Self) -> bool {
        self.value + rhs.value <= u32::MAX
    }

    open spec fn add_spec(self, rhs: Self) -> Self {
        Offset { value: (self.value + rhs.value) as u32, unit: PhantomData }
    }
}

impl<U> core::ops::Sub for Offset<u32, U> {
    type Output = Offset<u32, U>;

    fn sub(self, rhs: Self) -> (r: Self) {
        Self { value: self.value - rhs.value, unit: PhantomData }
    }
}

impl<U> SubSpecImpl for Offset<u32, U> {
    open spec fn obeys_sub_spec() -> bool {
        true
    }

    open spec fn sub_req(self, rhs: Self) -> bool {
        rhs.value <= self.value
    }

    open spec fn sub_spec(self, rhs: Self) -> Self {
        Offset { value: (self.value - rhs.value) as u32, unit: PhantomData }
    }
}

impl<U> core::ops::Mul for Offset<u32, U> {
    type Output = Offset<u32, U>;

    fn mul(self, rhs: Self) -> (r: Self) {
        Self { value: self.value * rhs.value, unit: PhantomData }
    }
}

impl<U> MulSpecImpl for Offset<u32, U> {
    open spec fn obeys_mul_spec() -> bool {
        true
    }

    open spec fn mul_req(self, rhs: Self) -> bool {
        self.value * rhs.value <= u32::MAX
    }

    open spec fn mul_spec(self, rhs: Self) -> Self {
        Offset { value: (self.value * rhs.value) as u32, unit: PhantomData }
    }
}

impl<U> core::ops::Div for Offset<u32, U> {
    type Output = Offset<u32, U>;

    fn div(self, rhs: Self) -> (r: Self) {
        Self { value: self.value / rhs.value, unit: PhantomData }
    }
}

impl<U> DivSpecImpl for Offset<u32, U> {
    open spec fn obeys_div_spec() -> bool {
        true
    }

    open spec fn div_req(self, rhs: Self) -> bool {
        rhs.value != 0
    }

    open spec fn div_spec(self, rhs: Self) -> Self {
        Offset { value: (self.value as int / rhs.value as int) as u32, unit: PhantomData }
    }
}

impl<U> core::ops::Rem for Offset<u32, U> {
    type Output = Offset<u32, U>;

    fn rem(self, rhs: Self) -> (r: Self) {
        Self { value: self.value % rhs.value, unit: PhantomData }
    }
}

impl<U> RemSpecImpl for Offset<u32, U> {
    open spec fn obeys_rem_spec() -> bool {
        true
    }

    open spec fn rem_req(self, rhs: Self) -> bool {
        rhs.value != 0
    }

    open spec fn rem_spec(self, rhs: Self) -> Self {
        Offset { value: (self.value as int % rhs.value as int) as u32, unit: PhantomData }
    }
}

impl<T: Zero, U> Default for Offset<T, U> {
    /// The default offset counts zero items.
    fn default() -> (r: Self)
        ensures
            r.value == T::spec_zero(),
    {
        Offset { value: T::zero(), unit: PhantomData }
    }
}

impl<T: Zero + Copy, U> Zero for Offset<T, U> {
    open spec fn spec_zero() -> Self {
        Offset { value: T::spec_zero(), unit: PhantomData }
    }

    fn zero() -> (r: Self) {
        Offset { value: T::zero(), unit: PhantomData }
    }
}

impl<T: One + Copy, U> One for Offset<T, U> {
    open spec fn spec_one() -> Self {
        Offset { value: T::spec_one(), unit: PhantomData }
    }

    fn one() -> (r: Self) {
        Offset { value: T::one(), unit: PhantomData }
    }
}

impl<U> From<Offset<u64, U>> for Offset<usize, U> {
    /// Lossless on a 64-bit word: the item count is preserved exactly
    /// whenever it fits the native word.
    fn from(value: Offset<u64, U>) -> (r: Self)
        ensures
            value.value <= usize::MAX ==> r.value == value.value,
    {
        Self { value: value.value as usize, unit: PhantomData }
    }
}

impl<U> FromSpecImpl<Offset<u64, U>> for Offset<usize, U> {
    open spec fn obeys_from_spec() -> bool {
        true
    }

    open spec fn from_spec(t: Offset<u64, U>) -> Self {
        Offset { value: t.value as usize, unit: PhantomData }
    }
}

impl<U> From<Offset<usize, U>> for Offset<u64, U> {
    /// Lossless on every word of at most 64 bits: the item count is
    /// preserved exactly.
    fn from(value: Offset<usize, U>) -> (r: Self)
        ensures
            r.value == value.value,
    {
        Self { value: value.value as u64, unit: PhantomData }
    }
}

impl<U> FromSpecImpl<Offset<usize, U>> for Offset<u64, U> {
    open spec fn obeys_from_spec() -> bool {
        true
    }

    open spec fn from_spec(t: Offset<usize, U>) -> Self {
        Offset { value: t.value as u64, unit: PhantomData }
    }
}

impl<U> From<Offset<u32, U>> for Offset<usize, U> {
    /// Lossless on every word of at least 32 bits: the item count is
    /// preserved exactly.
    fn from(value: Offset<u32, U>) -> (r: Self)
        ensures
            r.value == value.value,
    {
        Self { value: value.value as usize, unit: PhantomData }
    }
}

impl<U> FromSpecImpl<Offset<u32, U>> for Offset<usize, U> {
    open spec fn obeys_from_spec() -> bool {
        true
    }

    open spec fn from_spec(t: Offset<u32, U>) -> Self {
        Offset { value: t.value as usize, unit: PhantomData }
    }
}

} // verus!
