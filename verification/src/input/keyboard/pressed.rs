//! The table of pressed keys, kept in a fixed-size bit array.

use bitvec::array::BitArray;
use bitvec::order::Lsb0;
use vstd::prelude::*;

verus! {

/// Number of slots in the table: one for every value of a byte.
pub const PRESSED_SLOTS: usize = 256;

/// A fixed table of `PRESSED_SLOTS` bits, one per key slot.
///
/// The bits live in a `bitvec::array::BitArray` over eight 32-bit words.
/// Nothing is proved of that type: what the table holds is named by
/// [`pressed_bits`], and the three functions below state what the calls
/// into `bitvec` do to it.
#[verifier::external_body]
pub struct PressedKeys {
    bits: BitArray<[u32; 8], Lsb0>,
}

/// The bits of a table, slot by slot.
pub uninterp spec fn pressed_bits(keys: PressedKeys) -> Seq<bool>;

impl PressedKeys {
    /// Makes a table from `BitArray::ZERO`, the array with all bits
    /// initialized to zero. Assumed: it has `PRESSED_SLOTS` bits, which is
    /// what eight words of 32 bits hold, and each of them is clear.
    #[verifier::external_body]
    pub(crate) fn cleared() -> (keys: PressedKeys)
        ensures
            pressed_bits(keys) == Seq::new(PRESSED_SLOTS as nat, |i: int| false),
    {
        PressedKeys { bits: BitArray::ZERO }
    }

    /// Reads one bit with `BitSlice::get`. Assumed: it returns the bit at
    /// `slot`, and `None` where `slot` lies beyond the end of the table.
    #[verifier::external_body]
    pub(crate) fn get(&self, slot: usize) -> (bit: Option<bool>)
        ensures
            bit == if slot < pressed_bits(*self).len() {
                Some(pressed_bits(*self)[slot as int])
            } else {
                None
            },
    {
        self.bits.get(slot).as_deref().copied()
    }

    /// Writes one bit with `BitSlice::set`. Assumed: the bit at `slot` takes
    /// the new value and every other bit stays as it was. `BitSlice::set`
    /// panics on a slot beyond the end of the table, and only then; the
    /// precondition rules such a slot out.
    #[verifier::external_body]
    pub(crate) fn set(&mut self, slot: usize, value: bool)
        requires
            slot < pressed_bits(*old(self)).len(),
        ensures
            pressed_bits(*final(self)) == pressed_bits(*old(self)).update(slot as int, value),
        no_unwind
    {
        self.bits.set(slot, value);
    }
}

} // verus!
