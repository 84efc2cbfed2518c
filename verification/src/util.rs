//! Small utilities shared by the rest of the library.

use vstd::prelude::*;
use vstd::std_specs::bits::{u32_trailing_zeros, axiom_u32_trailing_zeros};

verus! {

/// Whether bit `i` of `v` is one.
pub open spec fn bit_of(v: u32, i: u32) -> bool {
    (v >> i) & 1u32 == 1u32
}

proof fn lemma_bit_not(v: u32, j: u32)
    requires
        j < 32,
    ensures
        bit_of(!v, j) == !bit_of(v, j),
{
    assert(((!v) >> j) & 1u32 == 1u32 <==> !((v >> j) & 1u32 == 1u32)) by (bit_vector)
        requires
            j < 32u32,
    ;
}

proof fn lemma_bit_or_single(v: u32, k: u32, j: u32)
    requires
        k < 32,
        j < 32,
    ensures
        bit_of(v | (1u32 << k), j) == (j == k || bit_of(v, j)),
{
    assert(((v | (1u32 << k)) >> j) & 1u32 == 1u32 <==> (j == k || (v >> j) & 1u32 == 1u32))
        by (bit_vector)
        requires
            k < 32u32,
            j < 32u32,
    ;
}

proof fn lemma_bit_and_not_single(v: u32, k: u32, j: u32)
    requires
        k < 32,
        j < 32,
    ensures
        bit_of(v & !(1u32 << k), j) == (j != k && bit_of(v, j)),
{
    assert(((v & !(1u32 << k)) >> j) & 1u32 == 1u32 <==> (j != k && (v >> j) & 1u32 == 1u32))
        by (bit_vector)
        requires
            k < 32u32,
            j < 32u32,
    ;
}

proof fn lemma_and_single(v: u32, k: u32)
    requires
        k < 32,
    ensures
        (v & (1u32 << k) != 0u32) == bit_of(v, k),
{
    assert((v & (1u32 << k) != 0u32) <==> ((v >> k) & 1u32 == 1u32)) by (bit_vector)
        requires
            k < 32u32,
    ;
}

proof fn lemma_not_zero_iff_some_clear(v: u32)
    ensures
        (!v == 0u32) <==> (forall|j: u32| j < 32 ==> #[trigger] bit_of(v, j)),
{
    if !v == 0u32 {
        assert forall|j: u32| j < 32 implies #[trigger] bit_of(v, j) by {
            lemma_bit_not(v, j);
            assert((0u32 >> j) & 1u32 == 0u32) by (bit_vector);
        }
    } else {
        let w = !v;
        broadcast use axiom_u32_trailing_zeros;
        let tz = u32_trailing_zeros(w);
        assert(tz < 32);
        lemma_bit_not(v, tz);
        assert(!bit_of(v, tz));
    }
}

proof fn lemma_zero_has_no_bits(j: u32)
    ensures
        !bit_of(0u32, j),
{
    assert((0u32 >> j) & 1u32 == 0u32) by (bit_vector);
}

/// A set of 32 flags, used to track which of 32 slots are occupied.
pub struct BitMap32(u32);

impl BitMap32 {
    /// The number of flags in the map.
    pub const MAX_BITS: u32 = 32;

    /// Whether flag `i` is set.
    pub closed spec fn spec_is_set(&self, i: u32) -> bool {
        bit_of(self.0, i)
    }

    /// Whether every one of the 32 flags is set.
    pub open spec fn is_full(&self) -> bool {
        forall|j: u32| j < 32 ==> #[trigger] self.spec_is_set(j)
    }

    /// Creates a map with every flag clear.
    pub fn new() -> (r: Self)
        ensures
            forall|j: u32| !#[trigger] r.spec_is_set(j),
    {
        proof {
            assert forall|j: u32| !#[trigger] bit_of(0u32, j) by {
                lemma_zero_has_no_bits(j);
            }
        }
        BitMap32(0)
    }

    /// Returns whether flag `index` is set.
    pub fn is_set(&self, index: u32) -> (r: bool)
        requires
            index < 32,
        ensures
            r == self.spec_is_set(index),
    {
        proof {
            lemma_and_single(self.0, index);
        }
        self.0 & (1u32 << index) != 0
    }

    /// Sets the lowest clear flag and returns its index, or returns `None`
    /// when every flag is already set.
    pub fn next_unset(&mut self) -> (r: Option<u32>)
        ensures
            old(self).is_full() ==> r is None && *final(self) == *old(self),
            !old(self).is_full() ==> r is Some,
            r matches Some(i) ==> {
                &&& i < 32
                &&& !old(self).spec_is_set(i)
                &&& forall|j: u32| j < i ==> #[trigger] old(self).spec_is_set(j)
                &&& forall|j: u32| j < 32 ==> #[trigger] final(self).spec_is_set(j) == (j == i
                    || old(self).spec_is_set(j))
            },
    {
        let inverted = !self.0;
        proof {
            lemma_not_zero_iff_some_clear(self.0);
        }
        if inverted != 0 {
            let index = inverted.trailing_zeros();
            let ghost before = self.0;
            proof {
                broadcast use axiom_u32_trailing_zeros;
                assert(index < 32);
                lemma_bit_not(before, index);
                assert(!old(self).spec_is_set(index));
                assert forall|j: u32| j < index implies #[trigger] bit_of(before, j) by {
                    lemma_bit_not(before, j);
                }
            }
            self.0 = self.0 | (1u32 << index);
            proof {
                assert forall|j: u32| j < 32 implies #[trigger] bit_of(self.0, j) == (j == index
                    || bit_of(before, j)) by {
                    lemma_bit_or_single(before, index, j);
                }
            }
            Some(index)
        } else {
            proof {
                assert forall|j: u32| j < 32 implies #[trigger] old(self).spec_is_set(j) by {
                    assert(bit_of(self.0, j));
                }
            }
            None
        }
    }

    /// Sets flag `index` to `value`, leaving every other flag as it was.
    pub fn set(&mut self, index: u32, value: bool)
        requires
            index < 32,
        ensures
            forall|j: u32| j < 32 ==> #[trigger] final(self).spec_is_set(j) == (if j == index {
                value
            } else {
                old(self).spec_is_set(j)
            }),
    {
        let ghost before = self.0;
        if value {
            self.0 = self.0 | (1u32 << index);
            proof {
                assert forall|j: u32| j < 32 implies #[trigger] bit_of(self.0, j) == (j == index
                    || bit_of(before, j)) by {
                    lemma_bit_or_single(before, index, j);
                }
            }
        } else {
            self.0 = self.0 & !(1u32 << index);
            proof {
                assert forall|j: u32| j < 32 implies #[trigger] bit_of(self.0, j) == (j != index
                    && bit_of(before, j)) by {
                    lemma_bit_and_not_single(before, index, j);
                }
            }
        }
    }
}

} // verus!
