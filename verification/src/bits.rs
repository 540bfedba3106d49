use vstd::prelude::*;
use bitvec::array::BitArray;
use bitvec::order::Lsb0;
use bitvec::vec::BitVec;

verus! {

/// A `bitvec::vec::BitVec` in its default layout. Nothing is known of it but what the
/// functions below state of its bits.
#[verifier::external_body]
pub struct BitGrid {
    bits: BitVec<usize, Lsb0>,
}

/// A `bitvec::array::BitArray` over one byte in `Lsb0` order. Nothing is known of it but what
/// the functions below state of its bits.
#[verifier::external_body]
pub struct BitMask {
    bits: BitArray<[u8; 1], Lsb0>,
}

/// The bits that the bit vector holds, from index 0 on.
pub uninterp spec fn grid_bits(g: BitGrid) -> Seq<bool>;

/// The bits that the bit array holds, from index 0 on.
pub uninterp spec fn mask_bits(m: BitMask) -> Seq<bool>;

/// `BitVec::repeat` with `false`: a vector of `len` bits, all of them clear. The length must
/// be one that a bit vector can have, which is at most an eighth of the largest `usize`.
#[verifier::external_body]
pub(crate) fn zeroed_bits(len: usize) -> (g: BitGrid)
    requires
        len <= usize::MAX / 8,
    ensures
        grid_bits(g) == Seq::new(len as nat, |i: int| false),
{
    BitGrid { bits: BitVec::repeat(false, len) }
}

/// `Index<usize>` of `BitSlice`, on the vector's bits: the bit at `index`, which must be below
/// the length.
#[verifier::external_body]
pub(crate) fn read_bit(g: &BitGrid, index: usize) -> (b: bool)
    requires
        index < grid_bits(*g).len(),
    ensures
        b == grid_bits(*g)[index as int],
{
    g.bits[index]
}

/// `BitSlice::set`, on the vector's bits: the bit at `index`, which must be below the length,
/// becomes `value`, and the others stay.
#[verifier::external_body]
pub(crate) fn write_bit(g: &mut BitGrid, index: usize, value: bool)
    requires
        index < grid_bits(*old(g)).len(),
    ensures
        grid_bits(*final(g)) == grid_bits(*old(g)).update(index as int, value),
{
    g.bits.set(index, value);
}

/// Whether bit `index` of `byte` is set, counting from the least significant bit.
pub open spec fn bit_of_byte(byte: u8, index: int) -> bool {
    if index == 0 {
        byte % 2 == 1
    } else if index == 1 {
        (byte / 2) % 2 == 1
    } else if index == 2 {
        (byte / 4) % 2 == 1
    } else if index == 3 {
        (byte / 8) % 2 == 1
    } else if index == 4 {
        (byte / 16) % 2 == 1
    } else if index == 5 {
        (byte / 32) % 2 == 1
    } else if index == 6 {
        (byte / 64) % 2 == 1
    } else {
        index == 7 && byte / 128 == 1
    }
}

/// `BitArray::new` over a buffer of one byte in `Lsb0` order: the array has eight bits, and
/// its bit `i` is bit `i` of the byte, the least significant bit first.
#[verifier::external_body]
pub(crate) fn mask_from_byte(byte: u8) -> (m: BitMask)
    ensures
        mask_bits(m) == Seq::new(8, |i: int| bit_of_byte(byte, i)),
{
    BitMask { bits: BitArray::new([byte]) }
}

/// `Index<usize>` of `BitArray`: the bit at `index`, which must be below the length.
#[verifier::external_body]
pub(crate) fn read_mask_bit(m: &BitMask, index: usize) -> (b: bool)
    requires
        index < mask_bits(*m).len(),
    ensures
        b == mask_bits(*m)[index as int],
{
    m.bits[index]
}

} // verus!
