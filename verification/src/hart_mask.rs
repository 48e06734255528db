//! Selector bitmasks over hart IDs.
//!
//! A [`HartMask`] names a sparse subset of hart IDs in the two-word `(mask,
//! base)` encoding the calling convention expects: the set of IDs `base + i`
//! for every bit `i` set in `mask`. One mask word can only span
//! `usize::BITS` contiguous IDs from its base, so selecting an ID outside
//! `[base, base + usize::BITS)` is a silent no-op, not an error — the
//! encoding simply has no bit for it. Two masks are equal exactly when base
//! and mask are both equal; overlapping selections anchored at different
//! bases are distinct values.

use vstd::prelude::*;

verus! {

/// A hart mask: the `(base, mask)` pair naming the hart IDs a call applies
/// to.
#[derive(Debug, Clone, Copy, PartialEq, Eq, Structural)]
pub struct HartMask {
    pub(crate) base: usize,
    pub(crate) mask: usize,
}

impl HartMask {
    /// The base hart ID: bit `i` of the mask selects hart `base + i`.
    pub closed spec fn spec_base(self) -> usize {
        self.base
    }

    /// The raw mask word.
    pub closed spec fn spec_mask(self) -> usize {
        self.mask
    }

    /// Whether `hart_id` can be expressed by a mask anchored at this base:
    /// one mask word spans `usize::BITS` contiguous IDs from the base.
    pub open spec fn spec_in_range(self, hart_id: usize) -> bool {
        self.spec_base() <= hart_id < self.spec_base() + usize::BITS
    }

    /// Whether this mask selects `hart_id`.
    pub open spec fn spec_selects(self, hart_id: usize) -> bool {
        self.spec_in_range(hart_id) && (self.spec_mask() >> (
        (hart_id - self.spec_base()) as usize)) & 1 == 1
    }

    /// The mask that [`Self::with`] returns: the bit for `hart_id` set when
    /// the base can express it, the mask unchanged otherwise.
    pub closed spec fn spec_with(self, hart_id: usize) -> HartMask {
        if self.spec_in_range(hart_id) {
            HartMask {
                base: self.base,
                mask: self.mask | (1usize << ((hart_id - self.base) as usize)),
            }
        } else {
            self
        }
    }

    /// Create a new [`HartMask`] with the given base and no hart IDs
    /// selected.
    pub fn new(base: usize) -> (r: Self)
        ensures
            r.spec_base() == base,
            r.spec_mask() == 0,
            forall|id: usize| !r.spec_selects(id),
    {
        let r = Self { base, mask: 0 };
        proof {
            assert forall|id: usize| !r.spec_selects(id) by {
                assert((0usize >> ((id - base) as usize)) & 1 == 0) by (bit_vector);
            }
        }
        r
    }

    /// Create a new [`HartMask`] from the given hart ID, making it the base
    /// and selecting it — the common single-target case. Unlike [`Self::with`],
    /// this can anchor the mask at any ID.
    pub fn from(hart_id: usize) -> (r: Self)
        ensures
            r.spec_base() == hart_id,
            r.spec_mask() == 1,
            forall|id: usize| r.spec_selects(id) <==> id == hart_id,
    {
        let r = Self { base: hart_id, mask: 1 };
        proof {
            assert forall|id: usize| r.spec_selects(id) <==> id == hart_id by {
                if id == hart_id {
                    assert((1usize >> 0) & 1 == 1) by (bit_vector);
                } else if r.spec_in_range(id) {
                    let sh = (id - hart_id) as usize;
                    assert(sh >= 1 ==> (1usize >> sh) & 1 == 0) by (bit_vector);
                }
            }
        }
        r
    }

    /// Select the given hart ID. If `hart_id` is outside the range this
    /// mask's base can express, the mask is returned unchanged: such an ID
    /// has no bit in the encoding, so dropping it mirrors what the wire can
    /// carry.
    #[must_use]
    pub fn with(self, hart_id: usize) -> (r: Self)
        ensures
            r == self.spec_with(hart_id),
            r.spec_base() == self.spec_base(),
            self.spec_in_range(hart_id) ==> r.spec_mask() == self.spec_mask() | (1usize << (
            (hart_id - self.spec_base()) as usize)),
            !self.spec_in_range(hart_id) ==> r.spec_mask() == self.spec_mask(),
            forall|id: usize|
                r.spec_selects(id) <==> self.spec_selects(id) || (id == hart_id
                    && self.spec_in_range(hart_id)),
    {
        let r = if hart_id >= self.base && hart_id - self.base < (usize::BITS as usize) {
            Self { base: self.base, mask: self.mask | (1usize << (hart_id - self.base)) }
        } else {
            self
        };
        proof {
            if self.spec_in_range(hart_id) {
                let k = (hart_id - self.base) as usize;
                assert forall|id: usize|
                    r.spec_selects(id) <==> self.spec_selects(id) || id == hart_id by {
                    if r.spec_in_range(id) {
                        let j = (id - self.base) as usize;
                        let m = self.mask;
                        assert(j < usize::BITS && k < usize::BITS ==> (((m | (1usize << k)) >> j)
                            & 1 == 1 <==> ((m >> j) & 1 == 1 || j == k))) by (bit_vector);
                    }
                }
            }
        }
        r
    }

    /// The base hart ID word, as it goes on the wire.
    pub fn raw_base(&self) -> (r: usize)
        ensures
            r == self.spec_base(),
    {
        self.base
    }

    /// The raw mask word, as it goes on the wire.
    pub fn raw_mask(&self) -> (r: usize)
        ensures
            r == self.spec_mask(),
    {
        self.mask
    }

    /// Whether this mask selects the given hart ID.
    pub fn selects(&self, hart_id: usize) -> (r: bool)
        ensures
            r == self.spec_selects(hart_id),
    {
        hart_id >= self.base && hart_id - self.base < (usize::BITS as usize) && (self.mask >> (
        hart_id - self.base)) & 1 == 1
    }
}

/// Selecting an ID is idempotent: selecting it a second time yields the very
/// same mask as selecting it once.
pub proof fn lemma_with_is_idempotent(m: HartMask, hart_id: usize)
    ensures
        m.spec_with(hart_id).spec_with(hart_id) == m.spec_with(hart_id),
{
    if m.spec_in_range(hart_id) {
        let k = (hart_id - m.spec_base()) as usize;
        let w = m.spec_mask();
        assert((w | (1usize << k)) | (1usize << k) == w | (1usize << k)) by (bit_vector);
    }
}

/// Selecting an ID below the base, or at or past `base + usize::BITS`,
/// changes nothing: in particular a fresh mask stays all zero.
pub proof fn lemma_with_out_of_range_is_noop(m: HartMask, hart_id: usize)
    requires
        !m.spec_in_range(hart_id),
    ensures
        m.spec_with(hart_id) == m,
{
}

} // verus!
