//! Typed pointers into the foreign heap, checked against the runtime type
//! that each object reports.
use vstd::prelude::*;
use vstd::utf8::encode_utf8;

use crate::memory::{address_space, read_exact, ReadError, ReadMemory};
use crate::scalar::{
    read_bool, read_i32, read_i64, read_u32, read_u64, spec_read, spec_read_bool, spec_read_i32,
    spec_read_i64, spec_read_u32, spec_read_u64,
};

verus! {

/// Size of the header that precedes the fields of every object.
pub const HEADER_SIZE: u64 = 0x10;

/// Offset, within a runtime type descriptor, of the pointer to its name.
pub const TYPE_NAME_OFFSET: u64 = 0x10;

/// Offset, within a runtime type descriptor, of the pointer to its static fields.
pub const TYPE_STATICS_OFFSET: u64 = 0xb8;

/// How many bytes of a type name are read while looking for its terminator.
pub const NAME_LIMIT: usize = 1024;

/// A value that can be read from a place in the foreign heap.
pub trait MemoryRead: Sized {
    /// What reading a value at `address` gives.
    spec fn decode(image: Map<int, u8>, address: int) -> Result<Self, ReadError>;

    spec fn spec_size() -> nat;

    /// The number of bytes the value takes where it is stored.
    fn size() -> (r: u64)
        ensures
            r == Self::spec_size(),
            0 < r <= 16,
    ;

    fn read<M: ReadMemory>(mem: &M, address: u64) -> (r: Result<Self, ReadError>)
        ensures
            r == Self::decode(mem.image().bytes@, address as int),
    ;

    /// Places past the end of the address space cannot be read.
    proof fn lemma_past_end(image: Map<int, u8>, address: int)
        requires
            address >= address_space(),
        ensures
            Self::decode(image, address) == Err::<Self, ReadError>(ReadError::MemoryRead),
    ;
}

/// Reads the value stored `offset` bytes after `base`.
pub fn read_at<T: MemoryRead, M: ReadMemory>(mem: &M, base: u64, offset: u64) -> (r: Result<T, ReadError>)
    ensures
        r == T::decode(mem.image().bytes@, base + offset),
{
    match base.checked_add(offset) {
        Some(a) => T::read(mem, a),
        None => {
            proof { T::lemma_past_end(mem.image().bytes@, base + offset); }
            Err(ReadError::MemoryRead)
        },
    }
}

impl MemoryRead for bool {
    open spec fn decode(image: Map<int, u8>, address: int) -> Result<bool, ReadError> {
        spec_read_bool(image, address)
    }

    open spec fn spec_size() -> nat {
        1
    }

    fn size() -> (r: u64) {
        1
    }

    fn read<M: ReadMemory>(mem: &M, address: u64) -> (r: Result<bool, ReadError>) {
        read_bool(mem, address)
    }

    proof fn lemma_past_end(image: Map<int, u8>, address: int) {
    }
}

impl MemoryRead for u32 {
    open spec fn decode(image: Map<int, u8>, address: int) -> Result<u32, ReadError> {
        spec_read_u32(image, address)
    }

    open spec fn spec_size() -> nat {
        4
    }

    fn size() -> (r: u64) {
        4
    }

    fn read<M: ReadMemory>(mem: &M, address: u64) -> (r: Result<u32, ReadError>) {
        read_u32(mem, address)
    }

    proof fn lemma_past_end(image: Map<int, u8>, address: int) {
    }
}

impl MemoryRead for i32 {
    open spec fn decode(image: Map<int, u8>, address: int) -> Result<i32, ReadError> {
        spec_read_i32(image, address)
    }

    open spec fn spec_size() -> nat {
        4
    }

    fn size() -> (r: u64) {
        4
    }

    fn read<M: ReadMemory>(mem: &M, address: u64) -> (r: Result<i32, ReadError>) {
        read_i32(mem, address)
    }

    proof fn lemma_past_end(image: Map<int, u8>, address: int) {
    }
}

impl MemoryRead for u64 {
    open spec fn decode(image: Map<int, u8>, address: int) -> Result<u64, ReadError> {
        spec_read_u64(image, address)
    }

    open spec fn spec_size() -> nat {
        8
    }

    fn size() -> (r: u64) {
        8
    }

    fn read<M: ReadMemory>(mem: &M, address: u64) -> (r: Result<u64, ReadError>) {
        read_u64(mem, address)
    }

    proof fn lemma_past_end(image: Map<int, u8>, address: int) {
    }
}

impl MemoryRead for i64 {
    open spec fn decode(image: Map<int, u8>, address: int) -> Result<i64, ReadError> {
        spec_read_i64(image, address)
    }

    open spec fn spec_size() -> nat {
        8
    }

    fn size() -> (r: u64) {
        8
    }

    fn read<M: ReadMemory>(mem: &M, address: u64) -> (r: Result<i64, ReadError>) {
        read_i64(mem, address)
    }

    proof fn lemma_past_end(image: Map<int, u8>, address: int) {
    }
}

/// How the runtime name of an object's type is checked.
#[derive(Debug, Clone, Copy, PartialEq, Eq, Structural)]
pub enum NameCheck {
    /// The name equals the expected one.
    Exact,
    /// The name ends in `[]`: the runtime writes an array's element type before it.
    ArrayType,
    /// Any name is accepted.
    Any,
}

/// Whether `actual` is a runtime type name that the check accepts.
pub open spec fn name_accepted(check: NameCheck, expected: Seq<u8>, actual: Seq<u8>) -> bool {
    match check {
        NameCheck::Exact => actual == expected,
        NameCheck::ArrayType => actual.len() >= 2 && actual[actual.len() - 2] == 91u8
            && actual[actual.len() - 1] == 93u8,
        NameCheck::Any => true,
    }
}

fn is_name_accepted(check: NameCheck, expected: &[u8], actual: &[u8]) -> (r: bool)
    ensures
        r == name_accepted(check, expected@, actual@),
{
    match check {
        NameCheck::Exact => {
            if expected.len() != actual.len() {
                return false;
            }
            let mut i: usize = 0;
            while i < actual.len()
                invariant
                    check == NameCheck::Exact,
                    expected@.len() == actual@.len(),
                    i <= actual@.len(),
                    forall|j: int| 0 <= j < i ==> expected@[j] == actual@[j],
                decreases actual@.len() - i,
            {
                if expected[i] != actual[i] {
                    assert(actual@[i as int] != expected@[i as int]);
                    return false;
                }
                i = i + 1;
            }
            assert(actual@ =~= expected@);
            true
        },
        NameCheck::ArrayType => {
            let n = actual.len();
            n >= 2 && actual[n - 2] == 91u8 && actual[n - 1] == 93u8
        },
        NameCheck::Any => true,
    }
}

/// `i` is the first zero byte of `b`.
pub open spec fn is_first_nul(b: Seq<u8>, i: int) -> bool {
    0 <= i < b.len() && b[i] == 0 && forall|j: int| 0 <= j < i ==> b[j] != 0
}

/// The bytes of `b` before its first zero byte; `None` where it has none.
pub open spec fn terminated(b: Seq<u8>) -> Option<Seq<u8>> {
    if exists|i: int| is_first_nul(b, i) {
        Some(b.take(choose|i: int| is_first_nul(b, i)))
    } else {
        None
    }
}

/// The zero-terminated name stored at `address`, looked for in its first
/// `NAME_LIMIT` bytes.
pub open spec fn spec_c_string(image: Map<int, u8>, address: int) -> Result<Seq<u8>, ReadError> {
    match spec_read(image, address, NAME_LIMIT as nat) {
        Err(e) => Err(e),
        Ok(b) => match terminated(b) {
            Some(s) => Ok(s),
            None => Err(ReadError::Encoding),
        },
    }
}

/// Reads the zero-terminated name stored at `address`.
pub fn read_c_string<M: ReadMemory>(mem: &M, address: u64) -> (r: Result<Vec<u8>, ReadError>)
    ensures
        r matches Ok(s) ==> spec_c_string(mem.image().bytes@, address as int) == Ok::<Seq<u8>, ReadError>(s@),
        r matches Err(e) ==> spec_c_string(mem.image().bytes@, address as int) == Err::<Seq<u8>, ReadError>(e),
{
    let b = read_exact(mem, address, NAME_LIMIT)?;
    let mut i: usize = 0;
    while i < b.len()
        invariant
            i <= b@.len(),
            forall|j: int| 0 <= j < i ==> b@[j] != 0,
            spec_read(mem.image().bytes@, address as int, NAME_LIMIT as nat) == Ok::<Seq<u8>, ReadError>(b@),
        decreases b@.len() - i,
    {
        if b[i] == 0 {
            let mut name: Vec<u8> = Vec::new();
            let mut k: usize = 0;
            while k < i
                invariant
                    k <= i,
                    i < b@.len(),
                    name@ == b@.take(k as int),
                decreases i - k,
            {
                name.push(b[k]);
                k = k + 1;
                assert(name@ =~= b@.take(k as int));
            }
            assert(is_first_nul(b@, i as int));
            assert(terminated(b@) == Some(b@.take(i as int))) by {
                let c = choose|c: int| is_first_nul(b@, c);
                assert(is_first_nul(b@, c));
                if c < i {
                    assert(b@[c] != 0);
                } else if c > i {
                    assert(b@[i as int] != 0);
                }
            }
            return Ok(name);
        }
        i = i + 1;
    }
    assert(!exists|j: int| is_first_nul(b@, j));
    Err(ReadError::Encoding)
}

/// A pointer read from the heap, with no check of what it points at.
#[derive(Debug, Clone, Copy, PartialEq, Eq)]
pub struct Pointer {
    pub address: u64,
}

impl MemoryRead for Pointer {
    open spec fn decode(image: Map<int, u8>, address: int) -> Result<Pointer, ReadError> {
        match spec_read_u64(image, address) {
            Ok(a) => Ok(Pointer { address: a }),
            Err(e) => Err(e),
        }
    }

    open spec fn spec_size() -> nat {
        8
    }

    fn size() -> (r: u64) {
        8
    }

    fn read<M: ReadMemory>(mem: &M, address: u64) -> (r: Result<Pointer, ReadError>) {
        let a = read_u64(mem, address)?;
        Ok(Pointer { address: a })
    }

    proof fn lemma_past_end(image: Map<int, u8>, address: int) {
    }
}

/// A pointer to an object of the foreign runtime whose type is known.
///
/// A value of such a type is only made by `from_pointer`, which checks the
/// runtime type that the object reports.
pub trait RemoteObject: Sized {
    spec fn spec_address(&self) -> u64;

    /// The handle for the object at `address`.
    spec fn at(address: u64) -> Self;

    /// The runtime type name that objects of this type report.
    spec fn spec_expected_name() -> Seq<char>;

    spec fn spec_check() -> NameCheck;

    fn address(&self) -> (r: u64)
        ensures
            r == self.spec_address(),
    ;

    /// The handle for the object at `address`, without any check.
    fn from_address(address: u64) -> (r: Self)
        ensures
            r == Self::at(address),
            r.spec_address() == address,
    ;

    fn expected_name() -> (r: &'static str)
        ensures
            r@ == Self::spec_expected_name(),
    ;

    fn check() -> (r: NameCheck)
        ensures
            r == Self::spec_check(),
    ;
}

/// The name of the runtime type of the object at `object`: the descriptor
/// pointer is its first word, and the descriptor points at the name.
pub open spec fn spec_runtime_name(image: Map<int, u8>, object: int) -> Result<Seq<u8>, ReadError> {
    match spec_read_u64(image, object) {
        Err(e) => Err(e),
        Ok(t) => match spec_read_u64(image, t + TYPE_NAME_OFFSET) {
            Err(e) => Err(e),
            Ok(n) => spec_c_string(image, n as int),
        },
    }
}

/// What checking the object at `address` as a `T` gives.
pub open spec fn spec_verify<T: RemoteObject>(image: Map<int, u8>, address: u64) -> Result<T, ReadError> {
    if address == 0 {
        Err(ReadError::NullPointer)
    } else if T::spec_check() == NameCheck::Any {
        Ok(T::at(address))
    } else {
        match spec_runtime_name(image, address as int) {
            Err(e) => Err(e),
            Ok(name) => if name_accepted(T::spec_check(), encode_utf8(T::spec_expected_name()), name) {
                Ok(T::at(address))
            } else {
                Err(ReadError::TypeMismatch { address })
            },
        }
    }
}

/// Reads the field stored `offset` bytes after the header of `obj`.
pub fn field<O: RemoteObject, U: MemoryRead, M: ReadMemory>(obj: &O, mem: &M, offset: u64) -> (r: Result<U, ReadError>)
    ensures
        r == U::decode(mem.image().bytes@, obj.spec_address() + HEADER_SIZE + offset),
{
    let a = obj.address();
    if offset > u64::MAX - HEADER_SIZE {
        proof { U::lemma_past_end(mem.image().bytes@, a + HEADER_SIZE + offset); }
        return Err(ReadError::MemoryRead);
    }
    read_at(mem, a, HEADER_SIZE + offset)
}

/// The runtime type descriptor of `obj`.
pub fn get_type<O: RemoteObject, M: ReadMemory>(obj: &O, mem: &M) -> (r: Result<TypeInfo, ReadError>)
    ensures
        r == TypeInfo::decode(mem.image().bytes@, obj.spec_address() as int),
{
    TypeInfo::read(mem, obj.address())
}

/// The object of `obj` seen as another type, checked as `from_pointer` checks it.
pub fn cast<O: RemoteObject, U: RemoteObject, M: ReadMemory>(obj: &O, mem: &M) -> (r: Result<U, ReadError>)
    ensures
        r == spec_verify::<U>(mem.image().bytes@, obj.spec_address()),
{
    from_pointer(mem, obj.address())
}

/// Reads the name of the runtime type of the object at `object`.
pub fn read_runtime_name<M: ReadMemory>(mem: &M, object: u64) -> (r: Result<Vec<u8>, ReadError>)
    ensures
        r matches Ok(s) ==> spec_runtime_name(mem.image().bytes@, object as int) == Ok::<Seq<u8>, ReadError>(s@),
        r matches Err(e) ==> spec_runtime_name(mem.image().bytes@, object as int) == Err::<Seq<u8>, ReadError>(e),
{
    let t = read_u64(mem, object)?;
    let n = read_at::<u64, M>(mem, t, TYPE_NAME_OFFSET)?;
    read_c_string(mem, n)
}

/// Makes a typed pointer to the object at `address`, after checking the
/// runtime type that the object reports against the one `T` expects.
pub fn from_pointer<T: RemoteObject, M: ReadMemory>(mem: &M, address: u64) -> (r: Result<T, ReadError>)
    ensures
        r == spec_verify::<T>(mem.image().bytes@, address),
{
    if address == 0 {
        return Err(ReadError::NullPointer);
    }
    let check = T::check();
    if check == NameCheck::Any {
        return Ok(T::from_address(address));
    }
    let name = read_runtime_name(mem, address)?;
    let expected = T::expected_name().as_bytes();
    if is_name_accepted(check, expected, name.as_slice()) {
        Ok(T::from_address(address))
    } else {
        Err(ReadError::TypeMismatch { address })
    }
}

impl<T: RemoteObject> MemoryRead for T {
    open spec fn decode(image: Map<int, u8>, address: int) -> Result<T, ReadError> {
        match spec_read_u64(image, address) {
            Err(e) => Err(e),
            Ok(p) => spec_verify::<T>(image, p),
        }
    }

    open spec fn spec_size() -> nat {
        8
    }

    fn size() -> (r: u64) {
        8
    }

    fn read<M: ReadMemory>(mem: &M, address: u64) -> (r: Result<T, ReadError>) {
        let p = read_u64(mem, address)?;
        from_pointer(mem, p)
    }

    proof fn lemma_past_end(image: Map<int, u8>, address: int) {
    }
}

impl<T: RemoteObject> MemoryRead for Option<T> {
    open spec fn decode(image: Map<int, u8>, address: int) -> Result<Option<T>, ReadError> {
        match spec_read_u64(image, address) {
            Err(e) => Err(e),
            Ok(p) => if p == 0 {
                Ok(None)
            } else {
                match spec_verify::<T>(image, p) {
                    Ok(v) => Ok(Some(v)),
                    Err(e) => Err(e),
                }
            },
        }
    }

    open spec fn spec_size() -> nat {
        8
    }

    fn size() -> (r: u64) {
        8
    }

    fn read<M: ReadMemory>(mem: &M, address: u64) -> (r: Result<Option<T>, ReadError>) {
        let p = read_u64(mem, address)?;
        if p == 0 {
            Ok(None)
        } else {
            let v = from_pointer(mem, p)?;
            Ok(Some(v))
        }
    }

    proof fn lemma_past_end(image: Map<int, u8>, address: int) {
    }
}

/// A runtime type descriptor.
#[derive(Debug, Clone, Copy, PartialEq, Eq)]
pub struct TypeInfo {
    pub address: u64,
}

impl RemoteObject for TypeInfo {
    open spec fn spec_address(&self) -> u64 {
        self.address
    }

    open spec fn at(address: u64) -> TypeInfo {
        TypeInfo { address }
    }

    open spec fn spec_expected_name() -> Seq<char> {
        "Il2CppClass"@
    }

    open spec fn spec_check() -> NameCheck {
        NameCheck::Any
    }

    fn address(&self) -> (r: u64) {
        self.address
    }

    fn from_address(address: u64) -> (r: TypeInfo) {
        TypeInfo { address }
    }

    fn expected_name() -> (r: &'static str) {
        "Il2CppClass"
    }

    fn check() -> (r: NameCheck) {
        NameCheck::Any
    }
}

impl TypeInfo {
    /// The bytes of the type's name, up to its terminator.
    pub fn get_name<M: ReadMemory>(&self, mem: &M) -> (r: Result<Vec<u8>, ReadError>)
        ensures
            r matches Ok(s) ==> spec_runtime_name_of_type(mem.image().bytes@, self.address) == Ok::<Seq<u8>, ReadError>(s@),
            r matches Err(e) ==> spec_runtime_name_of_type(mem.image().bytes@, self.address) == Err::<Seq<u8>, ReadError>(e),
    {
        let n = read_at::<u64, M>(mem, self.address, TYPE_NAME_OFFSET)?;
        read_c_string(mem, n)
    }

    /// The block that holds the static fields of the type.
    pub fn get_statics<M: ReadMemory>(&self, mem: &M) -> (r: Result<TypeStatics, ReadError>)
        ensures
            r == TypeStatics::decode(mem.image().bytes@, self.address + TYPE_STATICS_OFFSET),
    {
        read_at(mem, self.address, TYPE_STATICS_OFFSET)
    }
}

/// The name stored for the type descriptor at `address`.
pub open spec fn spec_runtime_name_of_type(image: Map<int, u8>, address: u64) -> Result<Seq<u8>, ReadError> {
    match spec_read_u64(image, address + TYPE_NAME_OFFSET) {
        Err(e) => Err(e),
        Ok(n) => spec_c_string(image, n as int),
    }
}

/// The static fields of a runtime type.
#[derive(Debug, Clone, Copy, PartialEq, Eq)]
pub struct TypeStatics {
    pub address: u64,
}

impl RemoteObject for TypeStatics {
    open spec fn spec_address(&self) -> u64 {
        self.address
    }

    open spec fn at(address: u64) -> TypeStatics {
        TypeStatics { address }
    }

    open spec fn spec_expected_name() -> Seq<char> {
        "Il2CppStatics"@
    }

    open spec fn spec_check() -> NameCheck {
        NameCheck::Any
    }

    fn address(&self) -> (r: u64) {
        self.address
    }

    fn from_address(address: u64) -> (r: TypeStatics) {
        TypeStatics { address }
    }

    fn expected_name() -> (r: &'static str) {
        "Il2CppStatics"
    }

    fn check() -> (r: NameCheck) {
        NameCheck::Any
    }
}

impl TypeStatics {
    /// Reads the static field stored `offset` bytes into the block.
    pub fn static_field<T: MemoryRead, M: ReadMemory>(&self, mem: &M, offset: u64) -> (r: Result<T, ReadError>)
        ensures
            r == T::decode(mem.image().bytes@, self.address + offset),
    {
        read_at(mem, self.address, offset)
    }
}

/// An object of any runtime type.
#[derive(Debug, Clone, Copy, PartialEq, Eq)]
pub struct Object {
    pub address: u64,
}

impl RemoteObject for Object {
    open spec fn spec_address(&self) -> u64 {
        self.address
    }

    open spec fn at(address: u64) -> Object {
        Object { address }
    }

    open spec fn spec_expected_name() -> Seq<char> {
        "Object"@
    }

    open spec fn spec_check() -> NameCheck {
        NameCheck::Any
    }

    fn address(&self) -> (r: u64) {
        self.address
    }

    fn from_address(address: u64) -> (r: Object) {
        Object { address }
    }

    fn expected_name() -> (r: &'static str) {
        "Object"
    }

    fn check() -> (r: NameCheck) {
        NameCheck::Any
    }
}

/// A non-null object whose runtime type name `T`'s check refuses (for most
/// types, any name but the expected one; for arrays, one not ending in `[]`)
/// is never taken for a `T`: checking it fails with `TypeMismatch`.
pub proof fn lemma_wrong_name_is_mismatch<T: RemoteObject>(image: Map<int, u8>, address: u64)
    requires
        address != 0,
        T::spec_check() != NameCheck::Any,
        spec_runtime_name(image, address as int) matches Ok(name)
            && !name_accepted(T::spec_check(), encode_utf8(T::spec_expected_name()), name),
    ensures
        spec_verify::<T>(image, address) == Err::<T, ReadError>(ReadError::TypeMismatch { address }),
{
}

} // verus!
