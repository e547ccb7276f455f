use btd6_tool::containers::CSharpString;
use btd6_tool::heap::SyntheticHeap;
use btd6_tool::memory::ReadError;
use btd6_tool::object::from_pointer;

const BASE: u64 = 0x20_0000;

fn string_heap(text: &str) -> (SyntheticHeap, u64) {
    let mut heap = SyntheticHeap::new(BASE, 0x2_0000, 5);
    let info = BASE;
    let name_at = info + 0x100;
    heap.write_bytes(name_at, b"String\0");
    heap.write_u64(info + 0x10, name_at);
    let at = BASE + 0x1000;
    heap.write_u64(at, info);
    assert_eq!(heap.write_string_object(at, text), Ok(()));
    (heap, at)
}

fn round_trip(text: &str) {
    let (heap, at) = string_heap(text);
    let s: CSharpString = from_pointer(&heap, at).unwrap();
    assert_eq!(s.len(&heap), Ok(text.encode_utf16().count() as u32));
    assert_eq!(s.text(&heap), Ok(text.to_string()));
}

#[test]
fn string_round_trip_empty() {
    round_trip("");
}

#[test]
fn string_round_trip_one_unit() {
    round_trip("a");
}

#[test]
fn string_round_trip_1023_units() {
    let text: String = (0..1023).map(|i| (b'a' + (i % 26) as u8) as char).collect();
    round_trip(&text);
}

#[test]
fn string_round_trip_outside_basic_plane() {
    round_trip("D\u{e9}j\u{e0} \u{1F388}!");
}

#[test]
fn string_units_are_little_endian() {
    let (heap, at) = string_heap("AB");
    let s: CSharpString = from_pointer(&heap, at).unwrap();
    assert_eq!(s.units(&heap), Ok(vec![0x41, 0x42]));
    let (heap, at) = string_heap("\u{1F388}");
    let s: CSharpString = from_pointer(&heap, at).unwrap();
    assert_eq!(s.units(&heap), Ok(vec![0xD83C, 0xDF88]));
}

#[test]
fn lone_surrogate_is_an_encoding_error() {
    let (mut heap, at) = string_heap("xy");
    heap.write_u16(at + 0x14, 0xD800);
    let s: CSharpString = from_pointer(&heap, at).unwrap();
    assert_eq!(s.text(&heap), Err(ReadError::Encoding));
}

#[test]
fn corrupt_length_is_refused() {
    let (mut heap, at) = string_heap("xy");
    heap.write_u32(at + 0x10, 0xffff_ffff);
    let s: CSharpString = from_pointer(&heap, at).unwrap();
    assert_eq!(s.text(&heap), Err(ReadError::TooLong));
    heap.write_u32(at + 0x10, 0x8_0000);
    assert_eq!(s.text(&heap), Err(ReadError::MemoryRead));
}

#[test]
fn string_that_does_not_fit_is_not_written() {
    let mut heap = SyntheticHeap::new(BASE, 0x30, 0);
    assert_eq!(heap.write_string_object(BASE, "0123456789abcdef"), Err(ReadError::MemoryRead));
    assert!(heap.bytes.iter().all(|b| *b == 0));
}
