//! The validity bitmap: one bit per logical slot, least-significant bit first
//! within each byte; a set bit marks a valid slot, a clear bit a null one.
use vstd::prelude::*;

verus! {

/// Bit `i` of a bit-packed byte sequence: bit `i % 8` (LSB first) of byte `i / 8`.
pub open spec fn bit_at(bits: Seq<u8>, i: int) -> bool
    recommends
        0 <= i,
        i / 8 < bits.len(),
{
    (bits[i / 8] >> ((i % 8) as u8)) & 1 == 1
}

/// Reads bit `i` of a bit-packed byte.
pub fn get_bit(byte: u8, k: usize) -> (r: bool)
    requires
        k < 8,
    ensures
        r == ((byte >> (k as u8)) & 1 == 1),
{
    (byte >> (k as u8)) & 1 == 1
}

/// Setting bit `k` of a byte leaves every other bit as it was.
proof fn lemma_set_bit(b: u8, k: u8, j: u8)
    requires
        k < 8,
        j < 8,
    ensures
        j == k ==> ((b | (1u8 << k)) >> j) & 1 == 1,
        j != k ==> ((b | (1u8 << k)) >> j) & 1 == (b >> j) & 1,
{
    assert(k < 8 && j < 8 && j == k ==> ((b | (1u8 << k)) >> j) & 1 == 1) by (bit_vector);
    assert(k < 8 && j < 8 && j != k ==> ((b | (1u8 << k)) >> j) & 1 == (b >> j) & 1)
        by (bit_vector);
}

/// Builds a validity bitmap one bit at a time, LSB first within each byte.
pub struct BooleanBufferBuilder {
    bits: Vec<u8>,
    len: usize,
}

impl View for BooleanBufferBuilder {
    type V = Seq<bool>;

    closed spec fn view(&self) -> Seq<bool> {
        Seq::new(self.len as nat, |i: int| bit_at(self.bits@, i))
    }
}

impl BooleanBufferBuilder {
    pub closed spec fn well_formed(&self) -> bool {
        &&& self.bits@.len() == (self.len + 7) / 8
        &&& forall|j: int| self.len <= j < 8 * self.bits@.len() ==> !bit_at(self.bits@, j)
    }

    /// A fresh, empty builder; the capacity is a size hint only.
    pub fn new(capacity: usize) -> (r: Self)
        ensures
            r@ == Seq::<bool>::empty(),
            r.well_formed(),
    {
        let r = BooleanBufferBuilder { bits: Vec::new(), len: 0 };
        assert(r@ =~= Seq::<bool>::empty());
        r
    }

    pub fn len(&self) -> (r: usize)
        ensures
            r == self@.len(),
    {
        self.len
    }

    /// Appends one bit at the end.
    pub fn append(&mut self, v: bool)
        requires
            old(self).well_formed(),
            old(self)@.len() < usize::MAX,
        ensures
            final(self).well_formed(),
            final(self)@ == old(self)@.push(v),
    {
        if self.len % 8 == 0 {
            self.bits.push(0u8);
            proof {
                let bits = self.bits@;
                let n = self.len as int;
                assert forall|j: int| n <= j < 8 * bits.len() implies !bit_at(bits, j) by {
                    if j / 8 < bits.len() - 1 {
                        assert(!bit_at(old(self).bits@, j));
                        assert(bits[j / 8] == old(self).bits@[j / 8]);
                    } else {
                        assert(bits[j / 8] == 0u8);
                        let jb = (j % 8) as u8;
                        assert((0u8 >> jb) & 1 != 1) by (bit_vector);
                    }
                }
            }
        }
        let ghost before = self.bits@;
        let ghost n = self.len as int;
        let byte_index = self.len / 8;
        let k = (self.len % 8) as u8;
        let old_byte = self.bits[byte_index];
        if v {
            self.bits.set(byte_index, old_byte | (1u8 << k));
        }
        self.len = self.len + 1;
        proof {
            let nb = self.bits@;
            assert(n < 8 * before.len());
            if v {
                lemma_set_bit(old_byte, k, k);
                assert(nb[n / 8] == old_byte | (1u8 << k));
                assert(bit_at(nb, n));
            } else {
                assert(!bit_at(before, n));
            }
            assert forall|j: int|
                0 <= j < 8 * nb.len() && j != n implies bit_at(nb, j) == bit_at(before, j) by {
                if v && j / 8 == n / 8 {
                    let jb = (j % 8) as u8;
                    assert(j == 8 * (j / 8) + (j % 8)) by {
                        vstd::arithmetic::div_mod::lemma_fundamental_div_mod(j, 8);
                    }
                    assert(n == 8 * (n / 8) + (n % 8)) by {
                        vstd::arithmetic::div_mod::lemma_fundamental_div_mod(n, 8);
                    }
                    lemma_set_bit(old_byte, k, jb);
                    assert(nb[j / 8] == old_byte | (1u8 << k));
                }
            }
            assert(final(self)@ =~= old(self)@.push(v));
            assert forall|j: int| n + 1 <= j < 8 * nb.len() implies !bit_at(nb, j) by {
                assert(bit_at(nb, j) == bit_at(before, j));
                assert(!bit_at(before, j));
            }
        }
    }

    /// Hands out the packed bytes; bit `i` of them is the `i`-th appended bit.
    pub fn finish(self) -> (r: Vec<u8>)
        requires
            self.well_formed(),
        ensures
            r@.len() == (self@.len() + 7) / 8,
            8 * r@.len() >= self@.len(),
            forall|i: int| 0 <= i < self@.len() ==> bit_at(r@, i) == self@[i],
    {
        self.bits
    }
}

} // verus!
