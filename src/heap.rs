//! An address space held in local memory, laid out by hand: it stands in
//! for a foreign process wherever the object model is exercised offline.
use vstd::prelude::*;

use crate::memory::{address_space, bytes_at, readable, MemoryImage, ReadError, ReadMemory};
use crate::containers::{lemma_string_round_trip, spec_string_text, MAX_STRING_UNITS, STRING_DATA_OFFSET, STRING_LENGTH_OFFSET};
use crate::object::HEADER_SIZE;
use crate::text::{encode_utf16, utf16_of};
use crate::scalar::{encode_u16, encode_u32, encode_u64, le_u16, spec_read, spec_read_u32, spec_read_u64};

verus! {

/// `after` differs from `before` at most in `[address, address + len)`.
pub open spec fn same_outside(before: Map<int, u8>, after: Map<int, u8>, address: int, len: int) -> bool {
    &&& after.dom() == before.dom()
    &&& forall|a: int| #[trigger] after.contains_key(a) && !(address <= a < address + len) ==> after[a] == before[a]
}

/// Bytes that a write leaves alone read as before.
pub proof fn lemma_unchanged_bytes(before: Map<int, u8>, after: Map<int, u8>, written: int, written_len: int, a: int, n: int)
    requires
        same_outside(before, after, written, written_len),
        readable(before, a, n),
        a + n <= written || written + written_len <= a,
    ensures
        readable(after, a, n),
        bytes_at(after, a, n as nat) == bytes_at(before, a, n as nat),
{
    assert forall|j: int| 0 <= j < n implies #[trigger] after.contains_key(a + j) && after[a + j] == before[a + j] by {
        assert(before.contains_key(a + j));
        assert(after.dom().contains(a + j));
    }
    assert forall|j: int| 0 <= j < n implies #[trigger] bytes_at(after, a, n as nat)[j] == bytes_at(before, a, n as nat)[j] by {
        assert(after.contains_key(a + j) && after[a + j] == before[a + j]);
    }
    assert(bytes_at(after, a, n as nat) =~= bytes_at(before, a, n as nat));
}

/// One contiguous block of bytes placed at `base`. Each read hands back at
/// most `chunk` bytes (any number when `chunk` is 0), as a foreign process
/// may when a range straddles pages.
pub struct SyntheticHeap {
    pub base: u64,
    pub bytes: Vec<u8>,
    pub chunk: usize,
}

impl ReadMemory for SyntheticHeap {
    open spec fn image(&self) -> MemoryImage {
        MemoryImage {
            bytes: Ghost(
                Map::new(
                    |a: int| self.base <= a < self.base + self.bytes@.len() && a < address_space(),
                    |a: int| self.bytes@[a - self.base],
                ),
            ),
        }
    }

    fn read_bytes(&self, address: u64, len: usize) -> (r: Result<Vec<u8>, ReadError>) {
        if address < self.base || (address - self.base) as u128 >= self.bytes.len() as u128 {
            assert(!self.image().bytes@.contains_key(address + 0));
            return Err(ReadError::MemoryRead);
        }
        let total = self.bytes.len();
        assert(total == self.bytes@.len());
        let start = (address - self.base) as usize;
        let mut n = len;
        if self.chunk > 0 && self.chunk < n {
            n = self.chunk;
        }
        if self.bytes.len() - start < n {
            n = self.bytes.len() - start;
        }
        if (u64::MAX - address) as u128 + 1 < n as u128 {
            n = (u64::MAX - address) as usize + 1;
        }
        let total = self.bytes.len();
        assert(total == self.bytes@.len());
        let mut out: Vec<u8> = Vec::new();
        let mut i: usize = 0;
        while i < n
            invariant
                i <= n,
                start + n <= self.bytes@.len(),
                self.bytes@.len() <= usize::MAX,
                n <= len,
                out@ == self.bytes@.subrange(start as int, start + i),
            decreases n - i,
        {
            out.push(self.bytes[start + i]);
            i = i + 1;
            assert(out@ =~= self.bytes@.subrange(start as int, start + i));
        }
        assert(out@ =~= bytes_at(self.image().bytes@, address as int, n as nat));
        Ok(out)
    }
}

impl SyntheticHeap {
    /// A heap of `size` zero bytes at `base`.
    pub fn new(base: u64, size: usize, chunk: usize) -> (r: SyntheticHeap)
        ensures
            r.base == base,
            r.bytes@.len() == size,
            r.chunk == chunk,
            forall|i: int| 0 <= i < size ==> r.bytes@[i] == 0,
    {
        let mut bytes: Vec<u8> = Vec::new();
        let mut i: usize = 0;
        while i < size
            invariant
                i <= size,
                bytes@.len() == i,
                forall|k: int| 0 <= k < i ==> bytes@[k] == 0,
            decreases size - i,
        {
            bytes.push(0);
            i = i + 1;
        }
        SyntheticHeap { base, bytes, chunk }
    }

    /// `len` bytes from `address` on lie inside the heap.
    pub open spec fn holds(&self, address: int, len: int) -> bool {
        &&& self.base <= address
        &&& address + len <= self.base + self.bytes@.len()
        &&& address + len <= address_space()
    }

    /// Stores `data` from `address` on.
    pub fn write_bytes(&mut self, address: u64, data: &[u8])
        requires
            old(self).holds(address as int, data@.len() as int),
        ensures
            final(self).base == old(self).base,
            final(self).chunk == old(self).chunk,
            final(self).bytes@.len() == old(self).bytes@.len(),
            spec_read(final(self).image().bytes@, address as int, data@.len()) == Ok::<Seq<u8>, ReadError>(data@),
            same_outside(old(self).image().bytes@, final(self).image().bytes@, address as int, data@.len() as int),
    {
        let total = self.bytes.len();
        assert(total == self.bytes@.len());
        let start = (address - self.base) as usize;
        let mut i: usize = 0;
        while i < data.len()
            invariant
                start == address - self.base,
                start + data@.len() <= self.bytes@.len(),
                self.bytes@.len() <= usize::MAX,
                old(self).holds(address as int, data@.len() as int),
                self.base == old(self).base,
                self.chunk == old(self).chunk,
                self.bytes@.len() == old(self).bytes@.len(),
                i <= data@.len(),
                forall|k: int| 0 <= k < i ==> self.bytes@[start + k] == data@[k],
                forall|k: int| 0 <= k < self.bytes@.len() && !(start <= k < start + i)
                    ==> self.bytes@[k] == old(self).bytes@[k],
            decreases data@.len() - i,
        {
            self.bytes.set(start + i, data[i]);
            i = i + 1;
        }
        assert(readable(self.image().bytes@, address as int, data@.len() as int));
        assert(self.image().bytes@.dom() =~= old(self).image().bytes@.dom());
        assert(bytes_at(self.image().bytes@, address as int, data@.len()) =~= data@);
    }

    /// Stores `n` as two bytes at `address`.
    pub fn write_u16(&mut self, address: u64, n: u16)
        requires
            old(self).holds(address as int, 2),
        ensures
            final(self).base == old(self).base,
            final(self).chunk == old(self).chunk,
            final(self).bytes@.len() == old(self).bytes@.len(),
            readable(final(self).image().bytes@, address as int, 2),
            le_u16(bytes_at(final(self).image().bytes@, address as int, 2)) == n,
            same_outside(old(self).image().bytes@, final(self).image().bytes@, address as int, 2 as int),
    {
        let total = self.bytes.len();
        assert(total == self.bytes@.len());
        let start = (address - self.base) as usize;
        encode_u16(&mut self.bytes, start, n);
        assert(self.image().bytes@.dom() =~= old(self).image().bytes@.dom());
        assert(bytes_at(self.image().bytes@, address as int, 2) =~= self.bytes@.subrange(start as int, start + 2));
    }

    /// Stores `n` as four bytes at `address`.
    pub fn write_u32(&mut self, address: u64, n: u32)
        requires
            old(self).holds(address as int, 4),
        ensures
            final(self).base == old(self).base,
            final(self).chunk == old(self).chunk,
            final(self).bytes@.len() == old(self).bytes@.len(),
            spec_read_u32(final(self).image().bytes@, address as int) == Ok::<u32, ReadError>(n),
            same_outside(old(self).image().bytes@, final(self).image().bytes@, address as int, 4 as int),
    {
        let total = self.bytes.len();
        assert(total == self.bytes@.len());
        let start = (address - self.base) as usize;
        encode_u32(&mut self.bytes, start, n);
        assert(self.image().bytes@.dom() =~= old(self).image().bytes@.dom());
        assert(bytes_at(self.image().bytes@, address as int, 4) =~= self.bytes@.subrange(start as int, start + 4));
    }

    /// Stores `n` as eight bytes at `address`.
    pub fn write_u64(&mut self, address: u64, n: u64)
        requires
            old(self).holds(address as int, 8),
        ensures
            final(self).base == old(self).base,
            final(self).chunk == old(self).chunk,
            final(self).bytes@.len() == old(self).bytes@.len(),
            spec_read_u64(final(self).image().bytes@, address as int) == Ok::<u64, ReadError>(n),
            same_outside(old(self).image().bytes@, final(self).image().bytes@, address as int, 8 as int),
    {
        let total = self.bytes.len();
        assert(total == self.bytes@.len());
        let start = (address - self.base) as usize;
        encode_u64(&mut self.bytes, start, n);
        assert(self.image().bytes@.dom() =~= old(self).image().bytes@.dom());
        let ghost b = bytes_at(self.image().bytes@, address as int, 8);
        assert(b =~= self.bytes@.subrange(start as int, start + 8));
        assert(b.subrange(4, 8) =~= self.bytes@.subrange(start + 4, start + 8));
        assert(self.bytes@.subrange(start as int, start + 8).subrange(4, 8) =~= self.bytes@.subrange(start + 4, start + 8));
    }

    /// Lays out at `address` the body of a string object holding `text`: its
    /// length in UTF-16 code units, then the units. Fails with `TooLong` past
    /// the length a string may have, and with `MemoryRead` when the body does
    /// not fit in the heap.
    pub fn write_string_object(&mut self, address: u64, text: &str) -> (r: Result<(), ReadError>)
        ensures
            final(self).base == old(self).base,
            final(self).chunk == old(self).chunk,
            final(self).bytes@.len() == old(self).bytes@.len(),
            utf16_of(text@).len() > MAX_STRING_UNITS ==> r == Err::<(), ReadError>(ReadError::TooLong),
            utf16_of(text@).len() <= MAX_STRING_UNITS ==> (r is Ok <==> old(self).holds(
                address as int, (HEADER_SIZE + STRING_DATA_OFFSET) + 2 * utf16_of(text@).len())),
            r is Ok ==> spec_string_text(final(self).image().bytes@, address as int) == Ok::<Seq<char>, ReadError>(text@),
            r is Ok ==> same_outside(old(self).image().bytes@, final(self).image().bytes@, address + HEADER_SIZE,
                STRING_DATA_OFFSET + 2 * utf16_of(text@).len()),
            r is Err ==> final(self).image().bytes@ == old(self).image().bytes@,
    {
        let units = encode_utf16(text);
        if units.len() > MAX_STRING_UNITS as usize {
            return Err(ReadError::TooLong);
        }
        let n = units.len() as u64;
        if address < self.base || (address - self.base) as u128 + (HEADER_SIZE + STRING_DATA_OFFSET) as u128 + 2 * n as u128
            > self.bytes.len() as u128 || address as u128 + (HEADER_SIZE + STRING_DATA_OFFSET) as u128 + 2 * n as u128
            > 0x1_0000_0000_0000_0000u128 {
            return Err(ReadError::MemoryRead);
        }
        let ghost image0 = self.image().bytes@;
        let ghost start = address + HEADER_SIZE + STRING_DATA_OFFSET;
        self.write_u32(address + HEADER_SIZE + STRING_LENGTH_OFFSET, n as u32);
        let mut i: u64 = 0;
        while i < n
            invariant
                self.base == old(self).base,
                self.chunk == old(self).chunk,
                self.bytes@.len() == old(self).bytes@.len(),
                image0 == old(self).image().bytes@,
                n == units@.len(),
                units@ == utf16_of(text@),
                n <= MAX_STRING_UNITS,
                start == address + HEADER_SIZE + STRING_DATA_OFFSET,
                address + HEADER_SIZE + STRING_DATA_OFFSET + 2 * n <= 0x1_0000_0000_0000_0000,
                self.holds(address as int, (HEADER_SIZE + STRING_DATA_OFFSET) + 2 * n),
                i <= n,
                spec_read_u32(self.image().bytes@, address + HEADER_SIZE + STRING_LENGTH_OFFSET) == Ok::<u32, ReadError>(n as u32),
                forall|k: int| 0 <= k < i ==> readable(self.image().bytes@, start + 2 * k, 2)
                    && le_u16(#[trigger] bytes_at(self.image().bytes@, start + 2 * k, 2)) == units@[k],
                same_outside(image0, self.image().bytes@, address + HEADER_SIZE, STRING_DATA_OFFSET + 2 * n),
            decreases n - i,
        {
            let ghost before = self.image().bytes@;
            self.write_u16(address + (HEADER_SIZE + STRING_DATA_OFFSET) + 2 * i, units[i as usize]);
            proof {
                let w = start + 2 * i;
                assert forall|k: int| 0 <= k < i + 1 implies readable(self.image().bytes@, start + 2 * k, 2)
                    && le_u16(#[trigger] bytes_at(self.image().bytes@, start + 2 * k, 2)) == units@[k] by {
                    if k < i {
                        lemma_unchanged_bytes(before, self.image().bytes@, w, 2, start + 2 * k, 2);
                    }
                }
                lemma_unchanged_bytes(before, self.image().bytes@, w, 2, address + HEADER_SIZE + STRING_LENGTH_OFFSET, 4);
            }
            i = i + 1;
        }
        proof {
            assert(readable(self.image().bytes@, start as int, 2 * n)) by {
                assert forall|j: int| 0 <= j < 2 * n implies #[trigger] self.image().bytes@.contains_key(start + j) by {
                    let k = j / 2;
                    assert(readable(self.image().bytes@, start + 2 * k, 2));
                    assert(self.image().bytes@.contains_key(start + 2 * k + (j - 2 * k)));
                }
            }
            lemma_string_round_trip(self.image().bytes@, address as int, text@);
        }
        Ok(())
    }
}

} // verus!
