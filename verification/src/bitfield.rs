//! Byte-packed bit vectors, addressed by committee position.

use vstd::prelude::*;

verus! {

/// Whether bit `i` of a byte is set, counting from the least significant.
pub open spec fn byte_has_bit(byte: u8, i: int) -> bool {
    0 <= i < 8 && (byte >> (i as u8)) & 1u8 == 1u8
}

/// Whether position `i` is set in a byte-packed bit vector: position `i`
/// lives in byte `i / 8`, at bit `i % 8` of it.
pub open spec fn has_bit(bytes: Seq<u8>, i: int) -> bool {
    0 <= i < 8 * bytes.len() && byte_has_bit(bytes[i / 8], i % 8)
}

/// `len` is one more than the highest set position of the bit vector, or zero
/// where no position is set.
pub open spec fn is_logical_length(bytes: Seq<u8>, len: int) -> bool {
    &&& 0 <= len <= 8 * bytes.len()
    &&& len > 0 ==> has_bit(bytes, len - 1)
    &&& forall|i: int| len <= i ==> !has_bit(bytes, i)
}

/// The logical length of a bit vector: the number of positions it declares.
/// Every position from there on is clear.
pub open spec fn logical_length(bytes: Seq<u8>) -> int {
    choose|len: int| is_logical_length(bytes, len)
}

/// A bit vector has one logical length only.
pub proof fn lemma_logical_length_is_unique(bytes: Seq<u8>, a: int, b: int)
    requires
        is_logical_length(bytes, a),
        is_logical_length(bytes, b),
    ensures
        a == b,
{
    if a < b {
        assert(!has_bit(bytes, b - 1));
    } else if b < a {
        assert(!has_bit(bytes, a - 1));
    }
}

/// A number that is one past the highest set position is the logical length.
pub proof fn lemma_logical_length_found(bytes: Seq<u8>, len: int)
    requires
        is_logical_length(bytes, len),
    ensures
        logical_length(bytes) == len,
{
    lemma_logical_length_is_unique(bytes, logical_length(bytes), len);
}

/// One more than the highest set bit of a byte, or zero for a zero byte.
pub open spec fn byte_width(byte: u8) -> int {
    if byte_has_bit(byte, 7) {
        8
    } else if byte_has_bit(byte, 6) {
        7
    } else if byte_has_bit(byte, 5) {
        6
    } else if byte_has_bit(byte, 4) {
        5
    } else if byte_has_bit(byte, 3) {
        4
    } else if byte_has_bit(byte, 2) {
        3
    } else if byte_has_bit(byte, 1) {
        2
    } else if byte_has_bit(byte, 0) {
        1
    } else {
        0
    }
}

/// Every bit vector has a logical length: dropping the zero bytes at its end,
/// it is read off the highest set bit of the last byte that is left.
pub proof fn lemma_logical_length_exists(bytes: Seq<u8>)
    ensures
        is_logical_length(bytes, logical_length(bytes)),
    decreases bytes.len(),
{
    let n = bytes.len() as int;
    if n == 0 {
        assert(is_logical_length(bytes, 0));
    } else if bytes.last() == 0 {
        let front = bytes.drop_last();
        lemma_logical_length_exists(front);
        let len = logical_length(front);
        assert forall|i: int| len <= i implies !has_bit(bytes, i) by {
            if 0 <= i < 8 * n {
                if i / 8 == n - 1 {
                    lemma_zero_byte_has_no_bit(i % 8);
                } else {
                    assert(front[i / 8] == bytes[i / 8]);
                    assert(!has_bit(front, i));
                }
            }
        }
        if len > 0 {
            assert(has_bit(front, len - 1));
            assert(front[(len - 1) / 8] == bytes[(len - 1) / 8]);
        }
        assert(is_logical_length(bytes, len));
    } else {
        let last = bytes.last();
        lemma_nonzero_byte_has_bit(last);
        let width = byte_width(last);
        let len = 8 * (n - 1) + width;
        assert((len - 1) / 8 == n - 1 && (len - 1) % 8 == width - 1);
        assert forall|i: int| len <= i implies !has_bit(bytes, i) by {
            if 0 <= i < 8 * n {
                assert(i / 8 == n - 1 && i % 8 == i - 8 * (n - 1));
            }
        }
        assert(is_logical_length(bytes, len));
    }
}

/// No position from the logical length on is set.
pub proof fn lemma_no_bit_past_logical_length(bytes: Seq<u8>, i: int)
    requires
        logical_length(bytes) <= i,
    ensures
        !has_bit(bytes, i),
{
    lemma_logical_length_exists(bytes);
}

proof fn lemma_zero_byte_has_no_bit(i: int)
    ensures
        !byte_has_bit(0u8, i),
{
    if 0 <= i < 8 {
        let s = i as u8;
        assert((0u8 >> s) & 1u8 == 0u8) by (bit_vector);
    }
}

/// A bit vector packed into bytes, together with its logical length.
#[derive(Debug, PartialEq, Eq)]
pub struct Bitfield {
    bytes: Vec<u8>,
    len: usize,
}

impl View for Bitfield {
    type V = Seq<u8>;

    closed spec fn view(&self) -> Seq<u8> {
        self.bytes@
    }
}

proof fn lemma_nonzero_byte_has_bit(byte: u8)
    requires
        byte != 0,
    ensures
        exists|i: int| byte_has_bit(byte, i),
{
    assert(byte != 0u8 ==> (byte >> 0u8) & 1u8 == 1u8 || (byte >> 1u8) & 1u8 == 1u8 || (byte >> 2u8)
        & 1u8 == 1u8 || (byte >> 3u8) & 1u8 == 1u8 || (byte >> 4u8) & 1u8 == 1u8 || (byte >> 5u8)
        & 1u8 == 1u8 || (byte >> 6u8) & 1u8 == 1u8 || (byte >> 7u8) & 1u8 == 1u8) by (bit_vector);
    assert(byte_has_bit(byte, 0) || byte_has_bit(byte, 1) || byte_has_bit(byte, 2) || byte_has_bit(
        byte,
        3,
    ) || byte_has_bit(byte, 4) || byte_has_bit(byte, 5) || byte_has_bit(byte, 6) || byte_has_bit(
        byte,
        7,
    ));
}

/// One more than the highest set bit of a byte, or zero for a zero byte.
fn bit_width(byte: u8) -> (width: usize)
    ensures
        width == byte_width(byte),
        width <= 8,
        width > 0 ==> byte_has_bit(byte, width - 1),
        forall|i: int| width <= i ==> !byte_has_bit(byte, i),
        byte != 0 ==> width > 0,
{
    let mut width: usize = 8;
    while width > 0 && (byte >> ((width - 1) as u8)) & 1u8 != 1u8
        invariant
            width <= 8,
            forall|i: int| width <= i ==> !byte_has_bit(byte, i),
        decreases width,
    {
        width = width - 1;
    }
    proof {
        if byte != 0 {
            lemma_nonzero_byte_has_bit(byte);
        }
    }
    width
}

impl Clone for Bitfield {
    fn clone(&self) -> (copy: Self)
        ensures
            copy@ == self@,
    {
        proof {
            use_type_invariant(self);
        }
        let bytes = self.bytes.clone();
        assert(bytes@ =~= self.bytes@);
        Bitfield { bytes, len: self.len }
    }
}

impl Bitfield {
    #[verifier::type_invariant]
    spec fn well_formed(&self) -> bool {
        is_logical_length(self.bytes@, self.len as int)
    }

    /// The bit vector that these bytes pack. Its logical length is read off
    /// its highest set bit.
    pub fn from_bytes(bytes: Vec<u8>) -> (bitfield: Bitfield)
        requires
            8 * bytes@.len() <= usize::MAX,
        ensures
            bitfield@ == bytes@,
    {
        let mut used: usize = bytes.len();
        while used > 0 && bytes[used - 1] == 0
            invariant
                used <= bytes@.len(),
                forall|j: int| used <= j < bytes@.len() ==> bytes@[j] == 0,
            decreases used,
        {
            used = used - 1;
        }
        let len: usize = if used == 0 {
            0
        } else {
            8 * (used - 1) + bit_width(bytes[used - 1])
        };
        proof {
            if used > 0 {
                assert((len - 1) / 8 == used - 1 && (len - 1) % 8 == len - 1 - 8 * (used - 1));
                assert(has_bit(bytes@, len - 1));
            }
            assert forall|i: int| len <= i implies !has_bit(bytes@, i) by {
                if 0 <= i < 8 * bytes@.len() {
                    if i / 8 >= used {
                        lemma_zero_byte_has_no_bit(i % 8);
                    } else {
                        assert(i / 8 == used - 1 && i % 8 == i - 8 * (used - 1));
                    }
                }
            }
        }
        Bitfield { bytes, len }
    }

    /// The number of bytes that the bit vector is packed into.
    pub fn num_bytes(&self) -> (n: usize)
        ensures
            n == self@.len(),
    {
        self.bytes.len()
    }

    /// The logical length of the bit vector.
    pub fn len(&self) -> (len: usize)
        ensures
            len == logical_length(self@),
    {
        proof {
            use_type_invariant(self);
            lemma_logical_length_found(self.bytes@, self.len as int);
        }
        self.len
    }

    /// Whether position `i` is set. Positions past the last byte are clear.
    pub fn get_bit(&self, i: usize) -> (set: bool)
        ensures
            set == has_bit(self@, i as int),
    {
        if i / 8 >= self.bytes.len() {
            false
        } else {
            (self.bytes[i / 8] >> ((i % 8) as u8)) & 1u8 == 1u8
        }
    }

    /// The bytes that the bit vector is packed into.
    pub fn as_bytes(&self) -> (bytes: &Vec<u8>)
        ensures
            bytes@ == self@,
    {
        &self.bytes
    }
}

} // verus!
