//! Strings, arrays, lists and dictionaries of the foreign runtime, read in
//! place with the runtime's own layout.
use core::marker::PhantomData;
use vstd::prelude::*;

use crate::memory::{bytes_at, readable, ReadError, ReadMemory};
use crate::object::{field, MemoryRead, NameCheck, RemoteObject, HEADER_SIZE};
use crate::scalar::{le_u16, read_u16, spec_read, spec_read_u32};
use crate::text::{decode_utf16, lemma_decode_utf16, spec_decode_utf16, utf16_of};

verus! {

/// Offset of a string's length field, after the header.
pub const STRING_LENGTH_OFFSET: u64 = 0x0;

/// Offset of a string's first code unit, after the header.
pub const STRING_DATA_OFFSET: u64 = 0x4;

/// The most code units a string may report before it is taken for corrupt.
pub const MAX_STRING_UNITS: u32 = 0x10_0000;

/// Offset of an array's length field, after the header.
pub const ARRAY_LENGTH_OFFSET: u64 = 0x8;

/// Offset of an array's first element, after the header.
pub const ARRAY_DATA_OFFSET: u64 = 0x10;

/// Offset of a list's backing array, after the header.
pub const LIST_ITEMS_OFFSET: u64 = 0x0;

/// Offset of a list's length field, after the header.
pub const LIST_LENGTH_OFFSET: u64 = 0x8;

/// Offset of a dictionary's entry array, after the header.
pub const DICTIONARY_ENTRIES_OFFSET: u64 = 0x8;

/// Offset of a dictionary's entry count, after the header.
pub const DICTIONARY_COUNT_OFFSET: u64 = 0x10;

/// Bytes taken by one entry of a dictionary's entry array.
pub const ENTRY_STRIDE: u64 = 0x18;

/// Offset of the key of entry 0, after the header of the entry array.
pub const ENTRY_KEY_OFFSET: u64 = 0x18;

/// Offset of the value of entry 0, after the header of the entry array.
pub const ENTRY_VALUE_OFFSET: u64 = 0x20;

/// Offset of a locked list's inner list, after the header.
pub const LOCK_LIST_INNER_OFFSET: u64 = 0x0;

/// The code units of `len` bytes read two at a time.
pub open spec fn units_of(b: Seq<u8>) -> Seq<u16> {
    Seq::new(b.len() / 2, |i: int| le_u16(b.subrange(2 * i, 2 * i + 2)))
}

/// The code units of the string object at `object`.
pub open spec fn spec_string_units(image: Map<int, u8>, object: int) -> Result<Seq<u16>, ReadError> {
    match spec_read_u32(image, object + HEADER_SIZE + STRING_LENGTH_OFFSET) {
        Err(e) => Err(e),
        Ok(n) => if n > MAX_STRING_UNITS {
            Err(ReadError::TooLong)
        } else {
            match spec_read(image, object + HEADER_SIZE + STRING_DATA_OFFSET, 2 * n as nat) {
                Err(e) => Err(e),
                Ok(b) => Ok(units_of(b)),
            }
        },
    }
}

/// The text of the string object at `object`.
pub open spec fn spec_string_text(image: Map<int, u8>, object: int) -> Result<Seq<char>, ReadError> {
    match spec_string_units(image, object) {
        Err(e) => Err(e),
        Ok(u) => spec_decode_utf16(u),
    }
}

/// `r` holds the text, or the error, that `s` gives.
pub open spec fn text_agrees(r: Result<String, ReadError>, s: Result<Seq<char>, ReadError>) -> bool {
    match r {
        Ok(v) => s == Ok::<Seq<char>, ReadError>(v@),
        Err(e) => s == Err::<Seq<char>, ReadError>(e),
    }
}

/// A string object of the foreign runtime.
#[derive(Debug, Clone, Copy, PartialEq, Eq)]
pub struct CSharpString {
    pub address: u64,
}

impl RemoteObject for CSharpString {
    open spec fn spec_address(&self) -> u64 {
        self.address
    }

    open spec fn at(address: u64) -> CSharpString {
        CSharpString { address }
    }

    open spec fn spec_expected_name() -> Seq<char> {
        "String"@
    }

    open spec fn spec_check() -> NameCheck {
        NameCheck::Exact
    }

    fn address(&self) -> (r: u64) {
        self.address
    }

    fn from_address(address: u64) -> (r: CSharpString) {
        CSharpString { address }
    }

    fn expected_name() -> (r: &'static str) {
        "String"
    }

    fn check() -> (r: NameCheck) {
        NameCheck::Exact
    }
}

impl CSharpString {
    /// The number of UTF-16 code units that the string reports.
    pub fn len<M: ReadMemory>(&self, mem: &M) -> (r: Result<u32, ReadError>)
        ensures
            r == spec_read_u32(mem.image().bytes@, self.address + HEADER_SIZE + STRING_LENGTH_OFFSET),
    {
        field(self, mem, STRING_LENGTH_OFFSET)
    }

    /// The code units of the string.
    pub fn units<M: ReadMemory>(&self, mem: &M) -> (r: Result<Vec<u16>, ReadError>)
        ensures
            r matches Ok(u) ==> spec_string_units(mem.image().bytes@, self.address as int) == Ok::<Seq<u16>, ReadError>(u@),
            r matches Err(e) ==> spec_string_units(mem.image().bytes@, self.address as int) == Err::<Seq<u16>, ReadError>(e),
    {
        let n = self.len(mem)?;
        if n > MAX_STRING_UNITS {
            return Err(ReadError::TooLong);
        }
        let ghost image = mem.image().bytes@;
        if n == 0 {
            let empty: Vec<u16> = Vec::new();
            assert(empty@ =~= units_of(bytes_at(image, self.address + HEADER_SIZE + STRING_DATA_OFFSET, 0)));
            return Ok(empty);
        }
        let start = self.address as u128 + (HEADER_SIZE + STRING_DATA_OFFSET) as u128;
        if start + 2 * n as u128 > 0x1_0000_0000_0000_0000u128 {
            return Err(ReadError::MemoryRead);
        }
        let start = start as u64;
        let mut units: Vec<u16> = Vec::new();
        let mut i: u32 = 0;
        while i < n
            invariant
                image == mem.image().bytes@,
                spec_read_u32(image, self.address + HEADER_SIZE + STRING_LENGTH_OFFSET) == Ok::<u32, ReadError>(n),
                n <= MAX_STRING_UNITS,
                start as int == self.address + HEADER_SIZE + STRING_DATA_OFFSET,
                i <= n,
                start as int + 2 * n <= 0x1_0000_0000_0000_0000,
                readable(image, start as int, 2 * i),
                units@.len() == i,
                forall|k: int| 0 <= k < i ==> units@[k] == le_u16(bytes_at(image, start + 2 * k, 2)),
            decreases n - i,
        {
            let u = match read_u16(mem, start + 2 * i as u64) {
                Ok(u) => u,
                Err(e) => {
                    assert(!readable(image, start as int, 2 * n)) by {
                        if readable(image, start as int, 2 * n) {
                            assert forall|k: int| 0 <= k < 2 implies #[trigger] image.contains_key(start + 2 * i + k) by {
                                assert(image.contains_key(start + (2 * i + k)));
                            }
                        }
                    }
                    return Err(e);
                },
            };
            units.push(u);
            proof {
                assert forall|k: int| 0 <= k < 2 * (i + 1) implies #[trigger] image.contains_key(start + k) by {
                    if k >= 2 * i {
                        assert(image.contains_key((start + 2 * i) + (k - 2 * i)));
                    }
                }
            }
            i = i + 1;
        }
        proof {
            let b = bytes_at(image, start as int, 2 * n as nat);
            assert forall|k: int| 0 <= k < n implies bytes_at(image, start + 2 * k, 2) =~= #[trigger] b.subrange(2 * k, 2 * k + 2) by {
            }
            assert(units@ =~= units_of(b));
        }
        Ok(units)
    }

    /// The text of the string; fails on code units that are not valid UTF-16.
    pub fn text<M: ReadMemory>(&self, mem: &M) -> (r: Result<String, ReadError>)
        ensures
            text_agrees(r, spec_string_text(mem.image().bytes@, self.address as int)),
    {
        let units = self.units(mem)?;
        match decode_utf16(units.as_slice()) {
            Some(s) => {
                proof { lemma_decode_utf16(units@, s@); }
                Ok(s)
            },
            None => Err(ReadError::Encoding),
        }
    }
}

/// The length that the array object at `array` reports.
pub open spec fn spec_array_len(image: Map<int, u8>, array: int) -> Result<u32, ReadError> {
    spec_read_u32(image, array + HEADER_SIZE + ARRAY_LENGTH_OFFSET)
}

/// Where element `index` of the array object at `array` is stored.
pub open spec fn array_element_address<T: MemoryRead>(array: int, index: int) -> int {
    array + HEADER_SIZE + ARRAY_DATA_OFFSET + T::spec_size() * index
}

/// What reading element `index` of the array object at `array` gives.
pub open spec fn spec_array_get<T: MemoryRead>(image: Map<int, u8>, array: int, index: int) -> Result<T, ReadError> {
    match spec_array_len(image, array) {
        Err(e) => Err(e),
        Ok(n) => if index < n {
            T::decode(image, array_element_address::<T>(array, index))
        } else {
            Err(ReadError::IndexOutOfRange { index: index as u64, len: n as u64 })
        },
    }
}

/// A fixed-length array object of the foreign runtime.
#[derive(Debug)]
pub struct Array<T> {
    pub address: u64,
    pub element: PhantomData<T>,
}

impl<T: MemoryRead> RemoteObject for Array<T> {
    open spec fn spec_address(&self) -> u64 {
        self.address
    }

    open spec fn at(address: u64) -> Array<T> {
        Array { address, element: PhantomData }
    }

    open spec fn spec_expected_name() -> Seq<char> {
        "Array"@
    }

    open spec fn spec_check() -> NameCheck {
        NameCheck::ArrayType
    }

    fn address(&self) -> (r: u64) {
        self.address
    }

    fn from_address(address: u64) -> (r: Array<T>) {
        Array { address, element: PhantomData }
    }

    fn expected_name() -> (r: &'static str) {
        "Array"
    }

    fn check() -> (r: NameCheck) {
        NameCheck::ArrayType
    }
}

impl<T: MemoryRead> Array<T> {
    /// The number of elements the array reports.
    pub fn len<M: ReadMemory>(&self, mem: &M) -> (r: Result<u32, ReadError>)
        ensures
            r == spec_array_len(mem.image().bytes@, self.address as int),
    {
        field(self, mem, ARRAY_LENGTH_OFFSET)
    }

    /// Element `index`, read from where the runtime stores it; an index at or
    /// past the length fails with `IndexOutOfRange`.
    pub fn get<M: ReadMemory>(&self, mem: &M, index: usize) -> (r: Result<T, ReadError>)
        ensures
            r == spec_array_get::<T>(mem.image().bytes@, self.address as int, index as int),
    {
        let n = self.len(mem)?;
        if index as u64 >= n as u64 {
            return Err(ReadError::IndexOutOfRange { index: index as u64, len: n as u64 });
        }
        let size = T::size();
        let i = index as u64;
        assert(size * i <= 16 * 0xffff_ffff) by (nonlinear_arith)
            requires
                size <= 16,
                i < 0x1_0000_0000,
        ;
        let offset = ARRAY_DATA_OFFSET + size * i;
        field(self, mem, offset)
    }

    /// A cursor over the elements, the length read once now.
    pub fn iter<M: ReadMemory>(&self, mem: &M) -> (r: Result<ArrayIter<T>, ReadError>)
        ensures
            match spec_array_len(mem.image().bytes@, self.address as int) {
                Ok(n) => r matches Ok(it) && it.array.address == self.address && it.index == 0 && it.len == n,
                Err(e) => r matches Err(f) && f == e,
            },
    {
        let len = self.len(mem)?;
        Ok(ArrayIter { array: Array { address: self.address, element: PhantomData }, index: 0, len })
    }
}

/// A cursor over the elements of an array, each read when it is reached.
pub struct ArrayIter<T> {
    pub array: Array<T>,
    pub index: u32,
    pub len: u32,
}

impl<T: MemoryRead> ArrayIter<T> {
    /// The next element, or `None` once `len` elements have been given.
    pub fn next<M: ReadMemory>(&mut self, mem: &M) -> (r: Option<Result<T, ReadError>>)
        ensures
            final(self).array.address == old(self).array.address,
            final(self).len == old(self).len,
            old(self).index < old(self).len ==> {
                &&& final(self).index == old(self).index + 1
                &&& r == Some(spec_array_get::<T>(mem.image().bytes@, old(self).array.address as int, old(self).index as int))
            },
            old(self).index >= old(self).len ==> final(self).index == old(self).index && r is None,
    {
        if self.index >= self.len {
            return None;
        }
        let item = self.array.get(mem, self.index as usize);
        self.index = self.index + 1;
        Some(item)
    }
}

/// The length that the list object at `list` reports.
pub open spec fn spec_list_len(image: Map<int, u8>, list: int) -> Result<u32, ReadError> {
    spec_read_u32(image, list + HEADER_SIZE + LIST_LENGTH_OFFSET)
}

/// What reading item `index` of the list object at `list` gives: the list's own
/// length bounds it, then the backing array's.
pub open spec fn spec_list_get<T: MemoryRead>(image: Map<int, u8>, list: int, index: int) -> Result<T, ReadError> {
    match spec_list_len(image, list) {
        Err(e) => Err(e),
        Ok(n) => if index >= n {
            Err(ReadError::IndexOutOfRange { index: index as u64, len: n as u64 })
        } else {
            match Array::<T>::decode(image, list + HEADER_SIZE + LIST_ITEMS_OFFSET) {
                Err(e) => Err(e),
                Ok(items) => spec_array_get::<T>(image, items.address as int, index),
            }
        },
    }
}

/// A growable list object of the foreign runtime, backed by an array.
#[derive(Debug)]
pub struct List<T> {
    pub address: u64,
    pub element: PhantomData<T>,
}

impl<T: MemoryRead> RemoteObject for List<T> {
    open spec fn spec_address(&self) -> u64 {
        self.address
    }

    open spec fn at(address: u64) -> List<T> {
        List { address, element: PhantomData }
    }

    open spec fn spec_expected_name() -> Seq<char> {
        "List`1"@
    }

    open spec fn spec_check() -> NameCheck {
        NameCheck::Exact
    }

    fn address(&self) -> (r: u64) {
        self.address
    }

    fn from_address(address: u64) -> (r: List<T>) {
        List { address, element: PhantomData }
    }

    fn expected_name() -> (r: &'static str) {
        "List`1"
    }

    fn check() -> (r: NameCheck) {
        NameCheck::Exact
    }
}

impl<T: MemoryRead> List<T> {
    /// The number of items the list reports; its backing array may be longer.
    pub fn len<M: ReadMemory>(&self, mem: &M) -> (r: Result<u32, ReadError>)
        ensures
            r == spec_list_len(mem.image().bytes@, self.address as int),
    {
        field(self, mem, LIST_LENGTH_OFFSET)
    }

    /// The backing array.
    pub fn items<M: ReadMemory>(&self, mem: &M) -> (r: Result<Array<T>, ReadError>)
        ensures
            r == Array::<T>::decode(mem.image().bytes@, self.address + HEADER_SIZE + LIST_ITEMS_OFFSET),
    {
        field(self, mem, LIST_ITEMS_OFFSET)
    }

    /// Item `index`: checked against the list's own length, then read from the
    /// backing array, which checks its own.
    pub fn get<M: ReadMemory>(&self, mem: &M, index: usize) -> (r: Result<T, ReadError>)
        ensures
            r == spec_list_get::<T>(mem.image().bytes@, self.address as int, index as int),
    {
        let n = self.len(mem)?;
        if index as u64 >= n as u64 {
            return Err(ReadError::IndexOutOfRange { index: index as u64, len: n as u64 });
        }
        let items = self.items(mem)?;
        items.get(mem, index)
    }

    /// A cursor over the items, the length read once now.
    pub fn iter<M: ReadMemory>(&self, mem: &M) -> (r: Result<ListIter<T>, ReadError>)
        ensures
            match spec_list_len(mem.image().bytes@, self.address as int) {
                Ok(n) => r matches Ok(it) && it.list.address == self.address && it.index == 0 && it.len == n,
                Err(e) => r matches Err(f) && f == e,
            },
    {
        let len = self.len(mem)?;
        Ok(ListIter { list: List { address: self.address, element: PhantomData }, index: 0, len })
    }
}

/// A cursor over the items of a list, each read when it is reached.
pub struct ListIter<T> {
    pub list: List<T>,
    pub index: u32,
    pub len: u32,
}

impl<T: MemoryRead> ListIter<T> {
    /// The next item, or `None` once `len` items have been given.
    pub fn next<M: ReadMemory>(&mut self, mem: &M) -> (r: Option<Result<T, ReadError>>)
        ensures
            final(self).list.address == old(self).list.address,
            final(self).len == old(self).len,
            old(self).index < old(self).len ==> {
                &&& final(self).index == old(self).index + 1
                &&& r == Some(spec_list_get::<T>(mem.image().bytes@, old(self).list.address as int, old(self).index as int))
            },
            old(self).index >= old(self).len ==> final(self).index == old(self).index && r is None,
    {
        if self.index >= self.len {
            return None;
        }
        let item = self.list.get(mem, self.index as usize);
        self.index = self.index + 1;
        Some(item)
    }
}

/// The entry array of a dictionary.
#[derive(Debug, Clone, Copy, PartialEq, Eq)]
pub struct EntryArray {
    pub address: u64,
}

impl RemoteObject for EntryArray {
    open spec fn spec_address(&self) -> u64 {
        self.address
    }

    open spec fn at(address: u64) -> EntryArray {
        EntryArray { address }
    }

    open spec fn spec_expected_name() -> Seq<char> {
        "Entry[]"@
    }

    open spec fn spec_check() -> NameCheck {
        NameCheck::Exact
    }

    fn address(&self) -> (r: u64) {
        self.address
    }

    fn from_address(address: u64) -> (r: EntryArray) {
        EntryArray { address }
    }

    fn expected_name() -> (r: &'static str) {
        "Entry[]"
    }

    fn check() -> (r: NameCheck) {
        NameCheck::Exact
    }
}

/// The entry count that the dictionary object at `dict` reports.
pub open spec fn spec_dictionary_len(image: Map<int, u8>, dict: int) -> Result<u32, ReadError> {
    spec_read_u32(image, dict + HEADER_SIZE + DICTIONARY_COUNT_OFFSET)
}

/// The key and value stored in entry slot `index` of the entry array at `entries`.
pub open spec fn spec_entry<K: MemoryRead, V: MemoryRead>(image: Map<int, u8>, entries: int, index: int) -> Result<(K, V), ReadError> {
    match K::decode(image, entries + HEADER_SIZE + ENTRY_KEY_OFFSET + ENTRY_STRIDE * index) {
        Err(e) => Err(e),
        Ok(k) => match V::decode(image, entries + HEADER_SIZE + ENTRY_VALUE_OFFSET + ENTRY_STRIDE * index) {
            Err(e) => Err(e),
            Ok(v) => Ok((k, v)),
        },
    }
}

/// What reading entry slot `index` of the dictionary object at `dict` gives.
pub open spec fn spec_dictionary_get<K: MemoryRead, V: MemoryRead>(image: Map<int, u8>, dict: int, index: int) -> Result<(K, V), ReadError> {
    match spec_dictionary_len(image, dict) {
        Err(e) => Err(e),
        Ok(n) => if index >= n {
            Err(ReadError::IndexOutOfRange { index: index as u64, len: n as u64 })
        } else {
            match EntryArray::decode(image, dict + HEADER_SIZE + DICTIONARY_ENTRIES_OFFSET) {
                Err(e) => Err(e),
                Ok(entries) => spec_entry::<K, V>(image, entries.address as int, index),
            }
        },
    }
}

/// A hash dictionary object of the foreign runtime, read through its entry
/// array.
///
/// Entries are taken to be packed from slot 0 on, as they are while nothing
/// has been removed; after removals a slot may hold a stale entry, which is
/// read like any other.
#[derive(Debug)]
pub struct Dictionary<K, V> {
    pub address: u64,
    pub entry: PhantomData<(K, V)>,
}

impl<K: MemoryRead, V: MemoryRead> RemoteObject for Dictionary<K, V> {
    open spec fn spec_address(&self) -> u64 {
        self.address
    }

    open spec fn at(address: u64) -> Dictionary<K, V> {
        Dictionary { address, entry: PhantomData }
    }

    open spec fn spec_expected_name() -> Seq<char> {
        "Dictionary`2"@
    }

    open spec fn spec_check() -> NameCheck {
        NameCheck::Exact
    }

    fn address(&self) -> (r: u64) {
        self.address
    }

    fn from_address(address: u64) -> (r: Dictionary<K, V>) {
        Dictionary { address, entry: PhantomData }
    }

    fn expected_name() -> (r: &'static str) {
        "Dictionary`2"
    }

    fn check() -> (r: NameCheck) {
        NameCheck::Exact
    }
}

impl<K: MemoryRead, V: MemoryRead> Dictionary<K, V> {
    /// The number of entries the dictionary reports.
    pub fn len<M: ReadMemory>(&self, mem: &M) -> (r: Result<u32, ReadError>)
        ensures
            r == spec_dictionary_len(mem.image().bytes@, self.address as int),
    {
        field(self, mem, DICTIONARY_COUNT_OFFSET)
    }

    /// The key and value in entry slot `index`; an index at or past the count
    /// fails with `IndexOutOfRange`.
    pub fn get<M: ReadMemory>(&self, mem: &M, index: usize) -> (r: Result<(K, V), ReadError>)
        ensures
            r == spec_dictionary_get::<K, V>(mem.image().bytes@, self.address as int, index as int),
    {
        let n = self.len(mem)?;
        if index as u64 >= n as u64 {
            return Err(ReadError::IndexOutOfRange { index: index as u64, len: n as u64 });
        }
        let entries: EntryArray = field(self, mem, DICTIONARY_ENTRIES_OFFSET)?;
        let slot = ENTRY_STRIDE * index as u64;
        let key: K = field(&entries, mem, ENTRY_KEY_OFFSET + slot)?;
        let value: V = field(&entries, mem, ENTRY_VALUE_OFFSET + slot)?;
        Ok((key, value))
    }

    /// A cursor over the entries, the count read once now.
    pub fn iter<M: ReadMemory>(&self, mem: &M) -> (r: Result<DictionaryIter<K, V>, ReadError>)
        ensures
            match spec_dictionary_len(mem.image().bytes@, self.address as int) {
                Ok(n) => r matches Ok(it) && it.dictionary.address == self.address && it.index == 0 && it.len == n,
                Err(e) => r matches Err(f) && f == e,
            },
    {
        let len = self.len(mem)?;
        Ok(DictionaryIter { dictionary: Dictionary { address: self.address, entry: PhantomData }, index: 0, len })
    }
}

/// A cursor over the entries of a dictionary in slot order, each read when it
/// is reached.
pub struct DictionaryIter<K, V> {
    pub dictionary: Dictionary<K, V>,
    pub index: u32,
    pub len: u32,
}

impl<K: MemoryRead, V: MemoryRead> DictionaryIter<K, V> {
    /// The next entry, or `None` once `len` entries have been given.
    pub fn next<M: ReadMemory>(&mut self, mem: &M) -> (r: Option<Result<(K, V), ReadError>>)
        ensures
            final(self).dictionary.address == old(self).dictionary.address,
            final(self).len == old(self).len,
            old(self).index < old(self).len ==> {
                &&& final(self).index == old(self).index + 1
                &&& r == Some(spec_dictionary_get::<K, V>(mem.image().bytes@, old(self).dictionary.address as int, old(self).index as int))
            },
            old(self).index >= old(self).len ==> final(self).index == old(self).index && r is None,
    {
        if self.index >= self.len {
            return None;
        }
        let item = self.dictionary.get(mem, self.index as usize);
        self.index = self.index + 1;
        Some(item)
    }
}

/// The inner list of the locked list object at `lock_list`.
pub open spec fn spec_lock_list_inner<T: MemoryRead>(image: Map<int, u8>, lock_list: int) -> Result<List<T>, ReadError> {
    List::<T>::decode(image, lock_list + HEADER_SIZE + LOCK_LIST_INNER_OFFSET)
}

/// A list behind a lock in the foreign runtime: a wrapper whose one field is
/// the list.
#[derive(Debug)]
pub struct LockList<T> {
    pub address: u64,
    pub element: PhantomData<T>,
}

impl<T: MemoryRead> RemoteObject for LockList<T> {
    open spec fn spec_address(&self) -> u64 {
        self.address
    }

    open spec fn at(address: u64) -> LockList<T> {
        LockList { address, element: PhantomData }
    }

    open spec fn spec_expected_name() -> Seq<char> {
        "LockList`1"@
    }

    open spec fn spec_check() -> NameCheck {
        NameCheck::Exact
    }

    fn address(&self) -> (r: u64) {
        self.address
    }

    fn from_address(address: u64) -> (r: LockList<T>) {
        LockList { address, element: PhantomData }
    }

    fn expected_name() -> (r: &'static str) {
        "LockList`1"
    }

    fn check() -> (r: NameCheck) {
        NameCheck::Exact
    }
}

impl<T: MemoryRead> LockList<T> {
    /// The wrapped list.
    pub fn list<M: ReadMemory>(&self, mem: &M) -> (r: Result<List<T>, ReadError>)
        ensures
            r == spec_lock_list_inner::<T>(mem.image().bytes@, self.address as int),
    {
        field(self, mem, LOCK_LIST_INNER_OFFSET)
    }

    /// The length of the wrapped list.
    pub fn len<M: ReadMemory>(&self, mem: &M) -> (r: Result<u32, ReadError>)
        ensures
            r == match spec_lock_list_inner::<T>(mem.image().bytes@, self.address as int) {
                Ok(l) => spec_list_len(mem.image().bytes@, l.address as int),
                Err(e) => Err(e),
            },
    {
        let list = self.list(mem)?;
        list.len(mem)
    }

    /// Item `index` of the wrapped list.
    pub fn get<M: ReadMemory>(&self, mem: &M, index: usize) -> (r: Result<T, ReadError>)
        ensures
            r == match spec_lock_list_inner::<T>(mem.image().bytes@, self.address as int) {
                Ok(l) => spec_list_get::<T>(mem.image().bytes@, l.address as int, index as int),
                Err(e) => Err(e),
            },
    {
        let list = self.list(mem)?;
        list.get(mem, index)
    }

    /// A cursor over the wrapped list.
    pub fn iter<M: ReadMemory>(&self, mem: &M) -> (r: Result<ListIter<T>, ReadError>)
        ensures
            match spec_lock_list_inner::<T>(mem.image().bytes@, self.address as int) {
                Ok(l) => match spec_list_len(mem.image().bytes@, l.address as int) {
                    Ok(n) => r matches Ok(it) && it.list.address == l.address && it.index == 0 && it.len == n,
                    Err(e) => r matches Err(f) && f == e,
                },
                Err(e) => r matches Err(f) && f == e,
            },
    {
        let list = self.list(mem)?;
        list.iter(mem)
    }
}

/// A string object whose length field holds the number of UTF-16 code units
/// of `s`, followed by those units, decodes to `s`.
pub proof fn lemma_string_round_trip(image: Map<int, u8>, object: int, s: Seq<char>)
    requires
        utf16_of(s).len() <= MAX_STRING_UNITS,
        spec_read_u32(image, object + HEADER_SIZE + STRING_LENGTH_OFFSET) == Ok::<u32, ReadError>(utf16_of(s).len() as u32),
        readable(image, object + HEADER_SIZE + STRING_DATA_OFFSET, 2 * utf16_of(s).len() as int),
        forall|i: int| 0 <= i < utf16_of(s).len()
            ==> le_u16(#[trigger] bytes_at(image, object + HEADER_SIZE + STRING_DATA_OFFSET + 2 * i, 2)) == utf16_of(s)[i],
    ensures
        spec_string_text(image, object) == Ok::<Seq<char>, ReadError>(s),
{
    let u = utf16_of(s);
    let start = object + HEADER_SIZE + STRING_DATA_OFFSET;
    let b = bytes_at(image, start, 2 * u.len() as nat);
    assert forall|i: int| 0 <= i < u.len() implies #[trigger] b.subrange(2 * i, 2 * i + 2) =~= bytes_at(image, start + 2 * i, 2) by {
    }
    assert(units_of(b) =~= u);
    lemma_decode_utf16(u, s);
}

/// A list that reports more items than its backing array holds fails, for
/// each index past the array's length, with the array's `IndexOutOfRange`.
pub proof fn lemma_list_past_backing_array<T: MemoryRead>(image: Map<int, u8>, list: int, index: int)
    requires
        0 <= index,
        spec_list_len(image, list) matches Ok(n) && index < n,
        Array::<T>::decode(image, list + HEADER_SIZE + LIST_ITEMS_OFFSET) matches Ok(items)
            && spec_array_len(image, items.address as int) matches Ok(m) && m <= index,
    ensures
        spec_list_get::<T>(image, list, index) == Err::<T, ReadError>(ReadError::IndexOutOfRange {
            index: index as u64,
            len: spec_array_len(image, Array::<T>::decode(image, list + HEADER_SIZE + LIST_ITEMS_OFFSET)->Ok_0.address as int)->Ok_0 as u64,
        }),
{
}

/// A list whose backing array is not an array object fails, for each index
/// below its own length, with the error of checking that array.
pub proof fn lemma_list_bad_backing_array<T: MemoryRead>(image: Map<int, u8>, list: int, index: int)
    requires
        0 <= index,
        spec_list_len(image, list) matches Ok(n) && index < n,
        Array::<T>::decode(image, list + HEADER_SIZE + LIST_ITEMS_OFFSET) is Err,
    ensures
        spec_list_get::<T>(image, list, index) == Err::<T, ReadError>(
            Array::<T>::decode(image, list + HEADER_SIZE + LIST_ITEMS_OFFSET)->Err_0,
        ),
{
}

} // verus!
