use btd6_tool::containers::{Array, CSharpString, Dictionary, List, LockList};
use btd6_tool::heap::SyntheticHeap;
use btd6_tool::memory::{read_exact, ReadError};
use btd6_tool::object::{from_pointer, get_type, Object, RemoteObject};
use btd6_tool::scalar::{read_i32, read_u32, read_u64};
use btd6_tool::schema::{GameModel, ObjectId, Tower};

const BASE: u64 = 0x10_0000;
const SIZE: usize = 0x4_0000;

fn new_heap() -> SyntheticHeap {
    SyntheticHeap::new(BASE, SIZE, 7)
}

/// Places a runtime type descriptor at `info` whose name is `name`.
fn define_type(heap: &mut SyntheticHeap, info: u64, name: &str) {
    let name_at = info + 0x100;
    heap.write_bytes(name_at, name.as_bytes());
    heap.write_bytes(name_at + name.len() as u64, &[0]);
    heap.write_u64(info + 0x10, name_at);
}

fn type_slot(k: u64) -> u64 {
    BASE + k * 0x600
}

fn object_at(k: u64) -> u64 {
    BASE + 0x2_0000 + k * 0x400
}

/// An array of `u32` values at `at`, reporting `len` elements.
fn write_u32_array(heap: &mut SyntheticHeap, at: u64, info: u64, len: u32, values: &[u32]) {
    heap.write_u64(at, info);
    heap.write_u32(at + 0x18, len);
    for (i, v) in values.iter().enumerate() {
        heap.write_u32(at + 0x20 + 4 * i as u64, *v);
    }
}

#[test]
fn read_exact_gathers_partial_reads() {
    let mut heap = new_heap();
    let data: Vec<u8> = (0..40u8).collect();
    heap.write_bytes(BASE + 100, &data);
    assert_eq!(read_exact(&heap, BASE + 100, 40), Ok(data));
}

#[test]
fn read_exact_fails_past_the_heap() {
    let heap = new_heap();
    assert_eq!(read_exact(&heap, BASE + SIZE as u64 - 4, 8), Err(ReadError::MemoryRead));
    assert_eq!(read_exact(&heap, BASE - 1, 2), Err(ReadError::MemoryRead));
    assert_eq!(read_exact(&heap, u64::MAX, 2), Err(ReadError::MemoryRead));
}

#[test]
fn scalars_are_little_endian() {
    let mut heap = new_heap();
    heap.write_bytes(BASE, &[0x78, 0x56, 0x34, 0x12, 0xff, 0xff, 0xff, 0xff]);
    assert_eq!(read_u32(&heap, BASE), Ok(0x1234_5678));
    assert_eq!(read_i32(&heap, BASE + 4), Ok(-1));
    assert_eq!(read_u64(&heap, BASE), Ok(0xffff_ffff_1234_5678));
    heap.write_u64(BASE + 16, 0x0102_0304_0506_0708);
    assert_eq!(read_exact(&heap, BASE + 16, 8), Ok(vec![8, 7, 6, 5, 4, 3, 2, 1]));
}

#[test]
fn array_get_within_and_past_length() {
    let mut heap = new_heap();
    let info = type_slot(0);
    define_type(&mut heap, info, "UInt32[]");
    let at = object_at(0);
    let values = [10u32, 20, 30, 40];
    write_u32_array(&mut heap, at, info, 4, &values);
    let array: Array<u32> = from_pointer(&heap, at).unwrap();
    assert_eq!(array.len(&heap), Ok(4));
    for (i, v) in values.iter().enumerate() {
        assert_eq!(array.get(&heap, i), Ok(*v));
    }
    for i in 4..=6usize {
        assert_eq!(array.get(&heap, i), Err(ReadError::IndexOutOfRange { index: i as u64, len: 4 }));
    }
}

#[test]
fn array_iter_gives_each_element_once() {
    let mut heap = new_heap();
    let info = type_slot(0);
    define_type(&mut heap, info, "UInt32[]");
    let at = object_at(0);
    write_u32_array(&mut heap, at, info, 3, &[7, 8, 9]);
    let array: Array<u32> = from_pointer(&heap, at).unwrap();
    let mut it = array.iter(&heap).unwrap();
    let mut seen = vec![];
    while let Some(v) = it.next(&heap) {
        seen.push(v.unwrap());
    }
    assert_eq!(seen, vec![7, 8, 9]);
    assert!(it.next(&heap).is_none());
}

#[test]
fn empty_array_has_no_elements() {
    let mut heap = new_heap();
    let info = type_slot(0);
    define_type(&mut heap, info, "Int32[]");
    let at = object_at(0);
    write_u32_array(&mut heap, at, info, 0, &[]);
    let array: Array<u32> = from_pointer(&heap, at).unwrap();
    assert_eq!(array.get(&heap, 0), Err(ReadError::IndexOutOfRange { index: 0, len: 0 }));
    assert!(array.iter(&heap).unwrap().next(&heap).is_none());
}

fn list_fixture(list_len: u32, array_len: u32) -> (SyntheticHeap, u64) {
    let mut heap = new_heap();
    let array_info = type_slot(0);
    let list_info = type_slot(1);
    define_type(&mut heap, array_info, "UInt32[]");
    define_type(&mut heap, list_info, "List`1");
    let array_at = object_at(0);
    let values: Vec<u32> = (0..array_len).map(|i| 100 + i).collect();
    write_u32_array(&mut heap, array_at, array_info, array_len, &values);
    let list_at = object_at(1);
    heap.write_u64(list_at, list_info);
    heap.write_u64(list_at + 0x10, array_at);
    heap.write_u32(list_at + 0x18, list_len);
    (heap, list_at)
}

#[test]
fn list_is_bounded_by_its_own_length() {
    let (heap, at) = list_fixture(2, 5);
    let list: List<u32> = from_pointer(&heap, at).unwrap();
    assert_eq!(list.len(&heap), Ok(2));
    assert_eq!(list.get(&heap, 1), Ok(101));
    assert_eq!(list.get(&heap, 2), Err(ReadError::IndexOutOfRange { index: 2, len: 2 }));
    let array = list.items(&heap).unwrap();
    assert_eq!(array.len(&heap), Ok(5));
}

#[test]
fn list_longer_than_its_array_fails_without_panic() {
    let (heap, at) = list_fixture(5, 3);
    let list: List<u32> = from_pointer(&heap, at).unwrap();
    assert_eq!(list.get(&heap, 2), Ok(102));
    assert_eq!(list.get(&heap, 3), Err(ReadError::IndexOutOfRange { index: 3, len: 3 }));
    let mut it = list.iter(&heap).unwrap();
    let mut results = vec![];
    while let Some(r) = it.next(&heap) {
        results.push(r);
    }
    assert_eq!(results.len(), 5);
    assert_eq!(results[0], Ok(100));
    assert_eq!(results[4], Err(ReadError::IndexOutOfRange { index: 4, len: 3 }));
}

#[test]
fn lock_list_forwards_to_its_list() {
    let (mut heap, list_at) = list_fixture(3, 3);
    let lock_info = type_slot(2);
    define_type(&mut heap, lock_info, "LockList`1");
    let lock_at = object_at(2);
    heap.write_u64(lock_at, lock_info);
    heap.write_u64(lock_at + 0x10, list_at);
    let lock: LockList<u32> = from_pointer(&heap, lock_at).unwrap();
    assert_eq!(lock.len(&heap), Ok(3));
    assert_eq!(lock.get(&heap, 2), Ok(102));
    assert_eq!(lock.get(&heap, 3), Err(ReadError::IndexOutOfRange { index: 3, len: 3 }));
    let mut it = lock.iter(&heap).unwrap();
    assert_eq!(it.next(&heap), Some(Ok(100)));
}

fn dictionary_fixture(entries: &[(u32, u32)]) -> (SyntheticHeap, u64) {
    let mut heap = new_heap();
    let dict_info = type_slot(0);
    let entry_info = type_slot(1);
    define_type(&mut heap, dict_info, "Dictionary`2");
    define_type(&mut heap, entry_info, "Entry[]");
    let entries_at = object_at(0);
    heap.write_u64(entries_at, entry_info);
    heap.write_u32(entries_at + 0x18, entries.len() as u32);
    for (i, (k, v)) in entries.iter().enumerate() {
        let slot = entries_at + 0x20 + 0x18 * i as u64;
        heap.write_u32(slot, 0x5555);
        heap.write_u32(slot + 8, *k);
        heap.write_u32(slot + 16, *v);
    }
    let dict_at = object_at(4);
    heap.write_u64(dict_at, dict_info);
    heap.write_u64(dict_at + 0x18, entries_at);
    heap.write_u32(dict_at + 0x20, entries.len() as u32);
    (heap, dict_at)
}

fn enumerate(entries: &[(u32, u32)]) -> Vec<(u32, u32)> {
    let (heap, at) = dictionary_fixture(entries);
    let dict: Dictionary<u32, u32> = from_pointer(&heap, at).unwrap();
    assert_eq!(dict.len(&heap), Ok(entries.len() as u32));
    let mut it = dict.iter(&heap).unwrap();
    let mut out = vec![];
    while let Some(e) = it.next(&heap) {
        out.push(e.unwrap());
    }
    out
}

#[test]
fn dictionary_enumerates_empty() {
    assert_eq!(enumerate(&[]), vec![]);
}

#[test]
fn dictionary_enumerates_one_entry() {
    assert_eq!(enumerate(&[(3, 30)]), vec![(3, 30)]);
}

#[test]
fn dictionary_enumerates_entries_in_slot_order() {
    let entries = [(9, 1), (2, 2), (7, 3), (1, 4), (5, 5)];
    assert_eq!(enumerate(&entries), entries.to_vec());
}

#[test]
fn dictionary_get_past_count_is_out_of_range() {
    let (heap, at) = dictionary_fixture(&[(1, 2), (3, 4)]);
    let dict: Dictionary<u32, u32> = from_pointer(&heap, at).unwrap();
    assert_eq!(dict.get(&heap, 1), Ok((3, 4)));
    assert_eq!(dict.get(&heap, 2), Err(ReadError::IndexOutOfRange { index: 2, len: 2 }));
}

#[test]
fn dictionary_with_wrong_entry_array_is_a_type_mismatch() {
    let (mut heap, at) = dictionary_fixture(&[(1, 2)]);
    define_type(&mut heap, type_slot(1), "Entry");
    let dict: Dictionary<u32, u32> = from_pointer(&heap, at).unwrap();
    assert_eq!(dict.get(&heap, 0), Err(ReadError::TypeMismatch { address: object_at(0) }));
}

/// An object of runtime type `name` at `object_at(0)`.
fn typed_object(name: &str) -> SyntheticHeap {
    let mut heap = new_heap();
    define_type(&mut heap, type_slot(0), name);
    heap.write_u64(object_at(0), type_slot(0));
    heap
}

#[test]
fn corrupted_type_names_are_mismatches() {
    let at = object_at(0);
    let mismatch = Err(ReadError::TypeMismatch { address: at });
    let heap = typed_object("UInt32");
    assert_eq!(from_pointer::<Array<u32>, _>(&heap, at).map(|a| a.address), mismatch);
    let heap = typed_object("UInt32[");
    assert_eq!(from_pointer::<Array<u32>, _>(&heap, at).map(|a| a.address), mismatch);
    let heap = typed_object("List`2");
    assert_eq!(from_pointer::<List<u32>, _>(&heap, at).map(|a| a.address), mismatch);
    let heap = typed_object("Dictionary`1");
    assert_eq!(from_pointer::<Dictionary<u32, u32>, _>(&heap, at).map(|a| a.address), mismatch);
    let heap = typed_object("LockList");
    assert_eq!(from_pointer::<LockList<u32>, _>(&heap, at).map(|a| a.address), mismatch);
    let heap = typed_object("Strinf");
    assert_eq!(from_pointer::<CSharpString, _>(&heap, at).map(|a| a.address), mismatch);
    let heap = typed_object("Towers");
    assert_eq!(from_pointer::<Tower, _>(&heap, at).map(|a| a.address), mismatch);
    let heap = typed_object("gameModel");
    assert_eq!(from_pointer::<GameModel, _>(&heap, at).map(|a| a.address), mismatch);
}

#[test]
fn matching_type_names_are_accepted() {
    let at = object_at(0);
    let heap = typed_object("Tower");
    assert_eq!(from_pointer::<Tower, _>(&heap, at).map(|t| t.address), Ok(at));
    let heap = typed_object("Tower[]");
    assert_eq!(from_pointer::<Array<Tower>, _>(&heap, at).map(|a| a.address), Ok(at));
    let heap = typed_object("anything");
    assert_eq!(from_pointer::<Object, _>(&heap, at).map(|o| o.address), Ok(at));
    let ty = get_type(&Object::from_address(at), &heap).unwrap();
    assert_eq!(ty.get_name(&heap), Ok(b"anything".to_vec()));
}

#[test]
fn null_and_unterminated_names_fail() {
    let heap = new_heap();
    assert_eq!(from_pointer::<Tower, _>(&heap, 0).map(|t| t.address), Err(ReadError::NullPointer));
    let mut heap = new_heap();
    let info = type_slot(0);
    let name_at = info + 0x100;
    heap.write_bytes(name_at, &[b'x'; 1024]);
    heap.write_u64(info + 0x10, name_at);
    heap.write_u64(object_at(0), info);
    assert_eq!(from_pointer::<Tower, _>(&heap, object_at(0)).map(|t| t.address), Err(ReadError::Encoding));
}

#[test]
fn object_id_validity() {
    assert!(ObjectId(3).is_valid());
    assert!(!ObjectId(u32::MAX).is_valid());
}
