//! A wrapper around containers of whole pages, with a page-aligned
//! allocation helper.

use crate::Page;
use vstd::arithmetic::div_mod::lemma_fundamental_div_mod;
use vstd::prelude::*;
use vstd::std_specs::convert::FromSpecImpl;

verus! {

/// A wrapper type around types that provide page slices
pub struct Pages<T> {
    /// The wrapped container of pages.
    pub value: T,
}

impl<T> Pages<T> {
    /// Wraps the specified value
    pub fn new(value: T) -> (r: Self)
        ensures
            r.value == value,
    {
        Self { value }
    }
}

impl<T> From<T> for Pages<T> {
    fn from(value: T) -> (r: Self) {
        Self { value }
    }
}

impl<T> FromSpecImpl<T> for Pages<T> {
    open spec fn obeys_from_spec() -> bool {
        true
    }

    open spec fn from_spec(t: T) -> Self {
        Pages { value: t }
    }
}

/// The byte at position `i` of a sequence of whole pages.
pub open spec fn byte_of(pages: Seq<Page>, i: int) -> u8 {
    pages[i / 4096]@[i % 4096]
}

/// The byte a buffer built by [`Pages::copy_into`] must hold at position
/// `i`: bytes of `data` (at most `size` of them) shifted up by `offset`,
/// zero everywhere else.
pub open spec fn expected_byte(data: Seq<u8>, size: int, offset: int, i: int) -> u8 {
    let copied = if size <= data.len() {
        size
    } else {
        data.len() as int
    };
    if offset <= i < offset + copied {
        data[i - offset]
    } else {
        0u8
    }
}

impl Pages<Vec<Page>> {
    /// Copies all specified bytes into a page-aligned vector
    pub fn copy(data: &[u8]) -> (r: Self)
        requires
            data@.len() + 4095 <= usize::MAX,
        ensures
            r.value@.len() == (data@.len() + 4095) / 4096,
            forall|i: int|
                0 <= i < r.value@.len() * 4096 ==> byte_of(r.value@, i) == expected_byte(
                    data@,
                    data@.len() as int,
                    0,
                    i,
                ),
    {
        Self::copy_into(data, data.len(), 0)
    }

    /// Copies some bytes into a page-aligned vector at an offset
    ///
    /// This function builds a zeroed page buffer big enough to hold
    /// `offset + size` bytes. Then up to `size` bytes of `data` are copied
    /// into the buffer at the specified `offset`. Note that `size` may be
    /// larger than `data.len()` in order to allocate a bigger buffer.
    pub fn copy_into(data: &[u8], size: usize, offset: usize) -> (r: Self)
        requires
            offset + size + 4095 <= usize::MAX,
        ensures
            r.value@.len() == (offset + size + 4095) / 4096,
            forall|i: int|
                0 <= i < r.value@.len() * 4096 ==> byte_of(r.value@, i) == expected_byte(
                    data@,
                    size as int,
                    offset as int,
                    i,
                ),
    {
        let len: usize = data.len();
        let copied: usize = if size < len {
            size
        } else {
            len
        };
        let count: usize = (offset + size + 4095) / 4096;
        proof {
            lemma_fundamental_div_mod(offset + size + 4095, 4096);
        }
        let mut pages: Vec<Page> = Vec::new();
        let mut p: usize = 0;
        while p < count
            invariant
                p <= count,
                pages@.len() == p,
                count == (offset + size + 4095) / 4096,
                count * 4096 <= offset + size + 4095 <= usize::MAX,
                copied <= size,
                copied <= data@.len(),
                size <= data@.len() ==> copied == size,
                data@.len() <= size ==> copied == data@.len(),
                forall|j: int, k: int|
                    0 <= j < p && 0 <= k < 4096 ==> pages@[j]@[k] == expected_byte(
                        data@,
                        size as int,
                        offset as int,
                        j * 4096 + k,
                    ),
            decreases count - p,
        {
            proof {
                assert(p * 4096 + 4096 <= count * 4096) by (nonlinear_arith)
                    requires
                        p < count,
                ;
            }
            let mut bytes: [u8; 4096] = [0u8; 4096];
            let mut k: usize = 0;
            while k < 4096
                invariant
                    k <= 4096,
                    p * 4096 + 4096 <= count * 4096 <= offset + size + 4095 <= usize::MAX,
                    copied <= size,
                    copied <= data@.len(),
                    size <= data@.len() ==> copied == size,
                    data@.len() <= size ==> copied == data@.len(),
                    forall|t: int|
                        0 <= t < k ==> bytes@[t] == expected_byte(
                            data@,
                            size as int,
                            offset as int,
                            p * 4096 + t,
                        ),
                    forall|t: int| k <= t < 4096 ==> bytes@[t] == 0u8,
                decreases 4096 - k,
            {
                let g: usize = p * 4096 + k;
                if g >= offset && g < offset + copied {
                    bytes[k] = data[g - offset];
                }
                k = k + 1;
            }
            pages.push(Page { bytes });
            p = p + 1;
        }
        proof {
            assert forall|i: int| 0 <= i < pages@.len() * 4096 implies byte_of(pages@, i)
                == expected_byte(data@, size as int, offset as int, i) by {
                lemma_fundamental_div_mod(i, 4096);
                let j = i / 4096;
                let k = i % 4096;
                assert(0 <= j < count) by (nonlinear_arith)
                    requires
                        0 <= i < count * 4096,
                        i == 4096 * j + k,
                        0 <= k < 4096,
                ;
                assert(pages@[j]@[k] == expected_byte(data@, size as int, offset as int, j * 4096 + k));
            }
        }
        Self { value: pages }
    }
}

} // verus!
