//! A single page of memory.

use vstd::prelude::*;

verus! {

/// A single page of memory
///
/// This type is page-sized: it holds exactly [`Page::SIZE`] bytes.
#[derive(Clone, Copy)]
pub struct Page {
    /// The contents of the page.
    pub bytes: [u8; 4096],
}

impl View for Page {
    type V = Seq<u8>;

    open spec fn view(&self) -> Seq<u8> {
        self.bytes@
    }
}

impl Page {
    /// The page size on the platform
    pub const SIZE: usize = 4096;

    /// Creates a new page from its bytes
    pub fn new(value: [u8; 4096]) -> (r: Self)
        ensures
            r@ == value@,
    {
        Self { bytes: value }
    }

    /// Returns a Page full of zeroes
    pub fn zeroed() -> (r: Self)
        ensures
            r@.len() == 4096,
            forall|i: int| 0 <= i < 4096 ==> r@[i] == 0u8,
    {
        Self { bytes: [0u8; 4096] }
    }

    /// Borrows the contents of the page as a byte slice
    pub fn as_bytes(&self) -> (r: &[u8])
        ensures
            r@ == self@,
    {
        self.bytes.as_slice()
    }
}

impl Default for Page {
    /// The default page is all zeroes
    fn default() -> (r: Self)
        ensures
            r@.len() == 4096,
            forall|i: int| 0 <= i < 4096 ==> r@[i] == 0u8,
    {
        Self::zeroed()
    }
}

} // verus!
