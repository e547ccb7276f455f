//! The remote memory channel: byte-range reads against a foreign address space.
use vstd::prelude::*;

verus! {

/// Number of distinct 64-bit addresses.
pub open spec fn address_space() -> int {
    0x1_0000_0000_0000_0000
}

/// Every address in `[address, address + len)` lies in the address space and can be read.
pub open spec fn readable(image: Map<int, u8>, address: int, len: int) -> bool {
    &&& 0 <= address
    &&& 0 <= len
    &&& address + len <= address_space()
    &&& forall|i: int| 0 <= i < len ==> #[trigger] image.contains_key(address + i)
}

/// The `len` bytes stored from `address` on.
pub open spec fn bytes_at(image: Map<int, u8>, address: int, len: nat) -> Seq<u8> {
    Seq::new(len, |i: int| image[address + i])
}

/// Why a read of the foreign heap failed.
#[derive(Debug, Clone, Copy, PartialEq, Eq, Structural)]
pub enum ReadError {
    /// Some byte of a requested range could not be read.
    MemoryRead,
    /// A pointer that had to name an object was null.
    NullPointer,
    /// The object at `address` reports a runtime type other than the expected one.
    TypeMismatch { address: u64 },
    /// An index at or past the length of a container.
    IndexOutOfRange { index: u64, len: u64 },
    /// Text that is not valid in its declared encoding, or a name without terminator.
    Encoding,
    /// A length read from the heap is past what is accepted for it.
    TooLong,
    /// A number read from the heap does not fit the range it stands for.
    ValueOutOfRange,
    /// Values read in one pass do not agree with each other.
    Inconsistent,
}

/// What a reader's contracts say its reads return: each readable address
/// mapped to the byte stored there.
pub struct MemoryImage {
    pub bytes: Ghost<Map<int, u8>>,
}

impl MemoryImage {
    /// A placeholder image for a reader whose contents do not stay fixed,
    /// such as a live process. The contracts of this library assume that
    /// reads agree with one fixed image, so they are not claimed for such a
    /// reader: its reads are taken as they come.
    pub fn unknown() -> (r: MemoryImage) {
        MemoryImage { bytes: Ghost(Map::empty()) }
    }
}

/// A view of a foreign address space.
///
/// The contracts assume that space is one fixed image: `image().bytes` maps
/// each readable address to the byte every read of it returns.
pub trait ReadMemory {
    spec fn image(&self) -> MemoryImage;

    /// Reads at most `len` bytes from `address`, and at least one.
    fn read_bytes(&self, address: u64, len: usize) -> (r: Result<Vec<u8>, ReadError>)
        requires
            0 < len,
        ensures
            r matches Ok(b) ==> {
                &&& 0 < b@.len() <= len
                &&& readable(self.image().bytes@, address as int, b@.len() as int)
                &&& b@ == bytes_at(self.image().bytes@, address as int, b@.len())
            },
            r is Err ==> !readable(self.image().bytes@, address as int, len as int),
    ;
}

/// Reads exactly `len` bytes from `address`, asking again for what is still
/// missing after each partial read.
pub fn read_exact<M: ReadMemory>(mem: &M, address: u64, len: usize) -> (r: Result<Vec<u8>, ReadError>)
    ensures
        r is Ok <==> readable(mem.image().bytes@, address as int, len as int),
        r matches Ok(b) ==> b@ == bytes_at(mem.image().bytes@, address as int, len as nat),
        r matches Err(e) ==> e == ReadError::MemoryRead,
{
    let ghost image = mem.image().bytes@;
    if address as u128 + len as u128 > 0x1_0000_0000_0000_0000u128 {
        return Err(ReadError::MemoryRead);
    }
    let mut out: Vec<u8> = Vec::new();
    while out.len() < len
        invariant
            image == mem.image().bytes@,
            out.len() <= len,
            address as int + len <= address_space(),
            readable(image, address as int, out.len() as int),
            out@ == bytes_at(image, address as int, out.len() as nat),
        decreases len - out.len(),
    {
        let index = out.len();
        let chunk = match mem.read_bytes(address + index as u64, len - index) {
            Ok(c) => c,
            Err(_) => {
                assert(!readable(image, address as int, len as int)) by {
                    if readable(image, address as int, len as int) {
                        assert forall|i: int| 0 <= i < (len - index) implies
                            #[trigger] image.contains_key(address + index + i) by {
                            assert(image.contains_key(address + (index + i)));
                        }
                    }
                }
                return Err(ReadError::MemoryRead);
            },
        };
        let ghost before = out@;
        let mut j: usize = 0;
        let n = if chunk.len() <= len - index { chunk.len() } else { len - index };
        while j < n
            invariant
                image == mem.image().bytes@,
                index + n <= len,
                n <= chunk@.len(),
                j <= n,
                out@ == before + chunk@.subrange(0, j as int),
                before == bytes_at(image, address as int, index as nat),
                chunk@ == bytes_at(image, (address + index) as int, chunk@.len()),
            decreases n - j,
        {
            out.push(chunk[j]);
            j = j + 1;
        }
        assert(out@ =~= bytes_at(image, address as int, out.len() as nat));
        assert(readable(image, address as int, out.len() as int)) by {
            assert forall|i: int| 0 <= i < out.len() implies #[trigger] image.contains_key(address + i) by {
                if i >= index {
                    assert(image.contains_key((address + index) + (i - index)));
                }
            }
        }
    }
    Ok(out)
}

} // verus!
