use vstd::prelude::*;

verus! {

/// Bit offset of cell `i` inside its byte: 0 for an even cell, 4 for an odd one.
pub open spec fn nibble_shift(i: int) -> u8 {
    if i % 2 == 0 {
        0u8
    } else {
        4u8
    }
}

/// The nibble of `byte` that belongs to cell `i`.
pub open spec fn nibble_of(byte: u8, i: int) -> u8 {
    (byte >> nibble_shift(i)) & 0x0Fu8
}

/// `byte` with the nibble of cell `i` replaced by the low four bits of `value`
/// and the other nibble kept.
pub open spec fn with_nibble(byte: u8, i: int, value: u8) -> u8 {
    let shift = nibble_shift(i);
    (byte & !(0x0Fu8 << shift)) | ((value & 0x0Fu8) << shift)
}

/// Why [`VecU4::set`] refused a write.
#[derive(Clone, Copy, Debug, PartialEq, Eq, Structural)]
pub enum VecU4Error {
    /// The index is not below the length.
    OutOfBounds,
    /// The value does not fit in four bits.
    ValueTooLarge,
}

impl VecU4Error {
    /// The error in words.
    pub fn message(&self) -> (r: &'static str)
        ensures
            r@ == (match self {
                VecU4Error::OutOfBounds => "Index out of bounds"@,
                VecU4Error::ValueTooLarge => "Value must be 4 bits (0-15)"@,
            }),
    {
        match self {
            VecU4Error::OutOfBounds => "Index out of bounds",
            VecU4Error::ValueTooLarge => "Value must be 4 bits (0-15)",
        }
    }
}

/// A dense vector of 4-bit values, two to a byte: cell `i` lives in byte
/// `i / 2`, in the low nibble when `i` is even and in the high nibble when
/// `i` is odd.
#[derive(Debug, PartialEq, Eq)]
pub struct VecU4 {
    inner: Vec<u8>,
    len: usize,
}

impl Clone for VecU4 {
    /// A copy with the same cells in the same bytes.
    fn clone(&self) -> (r: Self)
        ensures
            r@ == self@,
            r.bytes() == self.bytes(),
            r.wf() == self.wf(),
    {
        VecU4 { inner: self.inner.clone(), len: self.len }
    }
}

impl View for VecU4 {
    type V = Seq<u8>;

    /// The cells in order, one `u8` in `0..=15` for each.
    open spec fn view(&self) -> Seq<u8> {
        Seq::new(self.spec_len(), |i: int| nibble_of(self.bytes()[i / 2], i))
    }
}

impl VecU4 {
    /// The bytes of the backing buffer.
    pub closed spec fn bytes(&self) -> Seq<u8> {
        self.inner@
    }

    /// The number of cells.
    pub closed spec fn spec_len(&self) -> nat {
        self.len as nat
    }

    /// The buffer holds exactly the bytes that the cells need, and where the
    /// number of cells is odd the spare high nibble of the last byte is zero.
    pub open spec fn wf(&self) -> bool {
        &&& self.bytes().len() == (self.spec_len() + 1) / 2
        &&& self.spec_len() % 2 == 1 ==> self.bytes().last() >> 4u8 == 0u8
    }

    /// An empty vector.
    pub fn new() -> (r: Self)
        ensures
            r.wf(),
            r@ == Seq::<u8>::empty(),
    {
        VecU4 { inner: Vec::new(), len: 0 }
    }

    /// A vector of `len` cells, all zero.
    pub fn zeroed(len: usize) -> (r: Self)
        requires
            len % 2 == 0,
        ensures
            r.wf(),
            r@ == Seq::new(len as nat, |i: int| 0u8),
            r.bytes() == Seq::new(len as nat / 2, |k: int| 0u8),
    {
        let inner = vec![0u8; len / 2];
        let r = VecU4 { inner, len };
        proof {
            assert(0u8 >> 0u8 & 0x0Fu8 == 0u8 && 0u8 >> 4u8 & 0x0Fu8 == 0u8) by (bit_vector);
        }
        r
    }

    /// An empty vector whose buffer has room for `capacity` cells.
    pub fn with_capacity(capacity: usize) -> (r: Self)
        ensures
            r.wf(),
            r@ == Seq::<u8>::empty(),
    {
        VecU4 { inner: Vec::with_capacity(capacity / 2 + capacity % 2), len: 0 }
    }

    /// The bytes of the backing buffer, two cells to each.
    pub fn as_bytes(&self) -> (r: &[u8])
        ensures
            r@ == self.bytes(),
    {
        self.inner.as_slice()
    }

    /// The number of bytes that the buffer can hold before it has to grow.
    pub fn byte_capacity(&self) -> (n: usize)
        ensures
            n >= self.bytes().len(),
    {
        vec_capacity(&self.inner)
    }

    /// All cells in order, the low nibble of each byte before its high one.
    pub fn iter(&self) -> (r: Vec<u8>)
        requires
            self.wf(),
        ensures
            r@ == self@,
    {
        let mut cells: Vec<u8> = Vec::new();
        let mut i: usize = 0;
        while i < self.len
            invariant
                self.wf(),
                i <= self.len,
                cells@ == self@.take(i as int),
            decreases self.len - i,
        {
            cells.push(self.get_unchecked(i));
            i = i + 1;
        }
        cells
    }

    /// Appends `value` as a new last cell.
    pub fn push(&mut self, value: u8)
        requires
            old(self).wf(),
            value <= 0x0F,
            old(self)@.len() < usize::MAX,
        ensures
            final(self).wf(),
            final(self)@ == old(self)@.push(value),
    {
        if self.len % 2 == 0 {
            proof {
                lemma_nibble_start(value);
            }
            self.inner.push(value);
        } else {
            let byte_index = self.len / 2;
            let byte = self.inner[byte_index];
            proof {
                lemma_nibble_fill(byte, value);
            }
            self.inner[byte_index] = byte | (value << 4);
        }
        self.len = self.len + 1;
    }

    /// Removes the last cell and returns its value, or returns `None` and
    /// changes nothing where there is no cell.
    pub fn pop(&mut self) -> (r: Option<u8>)
        requires
            old(self).wf(),
        ensures
            final(self).wf(),
            old(self)@.len() == 0 ==> r is None && *final(self) == *old(self),
            old(self)@.len() > 0 ==> r == Some(old(self)@.last()) && final(self)@ == old(
                self,
            )@.drop_last(),
    {
        if self.len == 0 {
            return None;
        }
        let byte_index = (self.len - 1) / 2;
        let byte = self.inner[byte_index];
        proof {
            lemma_nibble_read(byte);
            lemma_nibble_drop(byte);
        }
        let value = if self.len % 2 == 0 {
            self.inner[byte_index] = byte & 0x0F;
            byte >> 4
        } else {
            self.inner.pop();
            byte & 0x0F
        };
        self.len = self.len - 1;
        Some(value)
    }

    /// Whether there is no cell.
    pub fn is_empty(&self) -> (r: bool)
        ensures
            r == (self@.len() == 0),
    {
        self.len == 0
    }

    /// Removes all cells.
    pub fn clear(&mut self)
        ensures
            final(self).wf(),
            final(self)@ == Seq::<u8>::empty(),
    {
        self.inner.clear();
        self.len = 0;
    }

    /// The number of cells.
    pub fn len(&self) -> (n: usize)
        ensures
            n == self@.len(),
    {
        self.len
    }

    /// The value of cell `index`, or `None` where `index` is not below the
    /// length.
    pub fn get(&self, index: usize) -> (r: Option<u8>)
        requires
            self.wf(),
        ensures
            r == (if index < self@.len() {
                Some(self@[index as int])
            } else {
                None
            }),
    {
        if index >= self.len {
            None
        } else {
            Some(self.get_unchecked(index))
        }
    }

    /// The value of cell `index`, for an index that the caller knows to be
    /// below the length.
    pub fn get_unchecked(&self, index: usize) -> (r: u8)
        requires
            self.wf(),
            index < self@.len(),
        ensures
            r == self@[index as int],
            r <= 0x0F,
    {
        let byte = self.inner[index / 2];
        proof {
            lemma_nibble_read(byte);
        }
        if index % 2 == 0 {
            byte & 0x0F
        } else {
            (byte >> 4) & 0x0F
        }
    }

    /// Writes `value` to cell `index`. Nothing is written where the index is
    /// not below the length, or where the value does not fit in four bits.
    pub fn set(&mut self, index: usize, value: u8) -> (r: Result<(), VecU4Error>)
        requires
            old(self).wf(),
        ensures
            final(self).wf(),
            index >= old(self)@.len() ==> r == Err::<(), VecU4Error>(VecU4Error::OutOfBounds),
            index < old(self)@.len() && value > 0x0F ==> r == Err::<(), VecU4Error>(
                VecU4Error::ValueTooLarge,
            ),
            index < old(self)@.len() && value <= 0x0F ==> r == Ok::<(), VecU4Error>(()),
            r is Ok ==> final(self)@ == old(self)@.update(index as int, value),
            r is Ok ==> final(self).bytes() == old(self).bytes().update(
                index as int / 2,
                with_nibble(old(self).bytes()[index as int / 2], index as int, value),
            ),
            r is Err ==> *final(self) == *old(self),
    {
        if index >= self.len {
            return Err(VecU4Error::OutOfBounds);
        }
        if value > 0x0F {
            return Err(VecU4Error::ValueTooLarge);
        }
        self.set_unchecked(index, value);
        Ok(())
    }

    /// Writes `value` to cell `index`, for an index that the caller knows to
    /// be below the length and a value that it knows to fit in four bits.
    pub fn set_unchecked(&mut self, index: usize, value: u8)
        requires
            old(self).wf(),
            index < old(self)@.len(),
            value <= 0x0F,
        ensures
            final(self).wf(),
            final(self)@ == old(self)@.update(index as int, value),
            final(self).bytes() == old(self).bytes().update(
                index as int / 2,
                with_nibble(old(self).bytes()[index as int / 2], index as int, value),
            ),
    {
        let byte_index = index / 2;
        let byte = self.inner[byte_index];
        proof {
            lemma_nibble_write(byte, value);
        }
        let updated = if index % 2 == 0 {
            (byte & 0xF0) | value
        } else {
            (byte & 0x0F) | (value << 4)
        };
        self.inner[byte_index] = updated;
    }
}

/// Every cell holds a value that fits in four bits.
pub proof fn lemma_cells_are_nibbles(v: VecU4, i: int)
    requires
        0 <= i < v@.len(),
    ensures
        v@[i] <= 0x0F,
{
    lemma_nibble_read(v.bytes()[i / 2]);
}

/// The packed layout: every byte of the buffer is the cell in its low nibble
/// or'ed with the cell in its high nibble shifted left by four, each of the
/// two in `0..=15`; where the number of cells is odd, zero stands for the
/// missing high cell of the last byte.
pub proof fn lemma_packed_layout(v: VecU4, k: int)
    requires
        v.wf(),
        0 <= k < v.bytes().len(),
    ensures
        ({
            let low = v@[2 * k];
            let high = if 2 * k + 1 < v@.len() {
                v@[2 * k + 1]
            } else {
                0u8
            };
            &&& 2 * k < v@.len()
            &&& low <= 0x0F
            &&& high <= 0x0F
            &&& v.bytes()[k] == low | (high << 4u8)
        }),
{
    let byte = v.bytes()[k];
    lemma_nibble_read(byte);
    assert(byte == ((byte >> 0u8) & 0x0Fu8) | (((byte >> 4u8) & 0x0Fu8) << 4u8)) by (bit_vector);
    assert(byte >> 4u8 == 0u8 ==> byte == ((byte >> 0u8) & 0x0Fu8) | (0u8 << 4u8))
        by (bit_vector);
}

/// `Vec::capacity`: the number of elements that the vector can hold without
/// allocating again, which is never below its length.
#[verifier::external_body]
fn vec_capacity(v: &Vec<u8>) -> (n: usize)
    ensures
        n >= v@.len(),
{
    v.capacity()
}

/// A byte that holds `value` in its low nibble and nothing above it.
proof fn lemma_nibble_start(value: u8)
    requires
        value <= 0x0F,
    ensures
        (value >> 0u8) & 0x0Fu8 == value,
        value >> 4u8 == 0u8,
{
    assert((value >> 0u8) & 0x0Fu8 == value) by (bit_vector)
        requires
            value <= 0x0Fu8,
    ;
    assert(value >> 4u8 == 0u8) by (bit_vector)
        requires
            value <= 0x0Fu8,
    ;
}

/// Filling the empty high nibble of a byte keeps its low nibble.
proof fn lemma_nibble_fill(byte: u8, value: u8)
    requires
        value <= 0x0F,
        byte >> 4u8 == 0u8,
    ensures
        ((byte | (value << 4u8)) >> 0u8) & 0x0Fu8 == (byte >> 0u8) & 0x0Fu8,
        ((byte | (value << 4u8)) >> 4u8) & 0x0Fu8 == value,
{
    assert(((byte | (value << 4u8)) >> 0u8) & 0x0Fu8 == (byte >> 0u8) & 0x0Fu8) by (bit_vector)
        requires
            value <= 0x0Fu8,
    ;
    assert(((byte | (value << 4u8)) >> 4u8) & 0x0Fu8 == value) by (bit_vector)
        requires
            value <= 0x0Fu8,
            byte >> 4u8 == 0u8,
    ;
}

/// Clearing the high nibble of a byte keeps its low nibble.
proof fn lemma_nibble_drop(byte: u8)
    ensures
        ((byte & 0x0Fu8) >> 0u8) & 0x0Fu8 == (byte >> 0u8) & 0x0Fu8,
        (byte & 0x0Fu8) >> 4u8 == 0u8,
{
    assert(((byte & 0x0Fu8) >> 0u8) & 0x0Fu8 == (byte >> 0u8) & 0x0Fu8) by (bit_vector);
    assert((byte & 0x0Fu8) >> 4u8 == 0u8) by (bit_vector);
}

/// What reading either nibble of a byte gives.
proof fn lemma_nibble_read(byte: u8)
    ensures
        (byte >> 0u8) & 0x0Fu8 == byte & 0x0Fu8,
        byte & 0x0Fu8 <= 0x0Fu8,
        (byte >> 4u8) & 0x0Fu8 == byte >> 4u8,
        byte >> 4u8 <= 0x0Fu8,
{
    assert((byte >> 0u8) & 0x0Fu8 == byte & 0x0Fu8) by (bit_vector);
    assert(byte & 0x0Fu8 <= 0x0Fu8) by (bit_vector);
    assert((byte >> 4u8) & 0x0Fu8 == byte >> 4u8) by (bit_vector);
    assert(byte >> 4u8 <= 0x0Fu8) by (bit_vector);
}

/// Writing one nibble of a byte stores the value there and keeps the other
/// nibble.
proof fn lemma_nibble_write(byte: u8, value: u8)
    requires
        value <= 0x0F,
    ensures
        with_nibble(byte, 0, value) == (byte & 0xF0u8) | value,
        with_nibble(byte, 1, value) == (byte & 0x0Fu8) | (value << 4u8),
        nibble_of(with_nibble(byte, 0, value), 0) == value,
        nibble_of(with_nibble(byte, 0, value), 1) == nibble_of(byte, 1),
        nibble_of(with_nibble(byte, 1, value), 1) == value,
        nibble_of(with_nibble(byte, 1, value), 0) == nibble_of(byte, 0),
        with_nibble(byte, 0, value) >> 4u8 == byte >> 4u8,
{
    assert((byte & !(0x0Fu8 << 0u8)) | ((value & 0x0Fu8) << 0u8) == (byte & 0xF0u8) | value)
        by (bit_vector)
        requires
            value <= 0x0Fu8,
    ;
    assert((byte & !(0x0Fu8 << 4u8)) | ((value & 0x0Fu8) << 4u8) == (byte & 0x0Fu8) | (value
        << 4u8)) by (bit_vector)
        requires
            value <= 0x0Fu8,
    ;
    assert((((byte & 0xF0u8) | value) >> 0u8) & 0x0Fu8 == value) by (bit_vector)
        requires
            value <= 0x0Fu8,
    ;
    assert((((byte & 0xF0u8) | value) >> 4u8) & 0x0Fu8 == (byte >> 4u8) & 0x0Fu8)
        by (bit_vector)
        requires
            value <= 0x0Fu8,
    ;
    assert((((byte & 0x0Fu8) | (value << 4u8)) >> 4u8) & 0x0Fu8 == value) by (bit_vector)
        requires
            value <= 0x0Fu8,
    ;
    assert((((byte & 0x0Fu8) | (value << 4u8)) >> 0u8) & 0x0Fu8 == (byte >> 0u8) & 0x0Fu8)
        by (bit_vector)
        requires
            value <= 0x0Fu8,
    ;
    assert(((byte & 0xF0u8) | value) >> 4u8 == byte >> 4u8) by (bit_vector)
        requires
            value <= 0x0Fu8,
    ;
}

} // verus!
