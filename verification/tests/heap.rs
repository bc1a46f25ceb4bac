use grower_jsni::arena::Arena;
use grower_jsni::arena::alloc_bytes;
use grower_jsni::payload::FIELD_LIMIT;
use grower_jsni::payload::pack_buffer_payload;
use grower_jsni::payload::unpack_pair;
use grower_jsni::value::JSNIKind;
use grower_jsni::value::JSNIValue;

#[test]
fn buffer_encode_decode() {
    let mut arena = Arena::new();
    let original = vec![1u8, 2, 3];
    let t = JSNIValue::from_vec(&mut arena, original.clone());
    assert_eq!(t.kind, JSNIKind::VecU8);
    let (count, addr) = unpack_pair(t.value);
    assert_eq!(count, 3);
    assert_eq!(addr, 0);
    // the encoded bytes sit in the arena unmodified
    let back = t.to_vec(&mut arena);
    assert_eq!(back, original);
}

#[test]
fn text_encode_decode() {
    let mut arena = Arena::new();
    let t = JSNIValue::from_string(&mut arena, String::from("héllo"));
    assert_eq!(t.kind, JSNIKind::String);
    let (count, addr) = unpack_pair(t.value);
    assert_eq!(count, 6); // UTF-8 byte count, not character count
    assert_eq!(addr, 0);
    assert_eq!(t.to_string(&mut arena), "héllo");
}

#[test]
fn empty_buffer_is_not_null() {
    let mut arena = Arena::new();
    let t = JSNIValue::from_vec(&mut arena, Vec::new());
    let (count, _) = unpack_pair(t.value);
    assert_eq!(count, 0);
    assert_eq!(t.kind, JSNIKind::VecU8);
    assert_ne!(t.kind, JSNIKind::Null);
    assert_eq!(t.to_vec(&mut arena), Vec::<u8>::new());
}

#[test]
fn second_reclaim_is_refused() {
    let mut arena = Arena::new();
    let t = JSNIValue::from_vec(&mut arena, vec![9u8, 8]);
    assert_eq!(t.try_to_vec(&mut arena), Some(vec![9u8, 8]));
    // the region is gone; reclaiming the same value again yields nothing
    assert_eq!(t.try_to_vec(&mut arena), None);

    let s = JSNIValue::from_string(&mut arena, String::from("once"));
    assert_eq!(s.try_to_string(&mut arena), Some(String::from("once")));
    assert_eq!(s.try_to_string(&mut arena), None);
}

#[test]
fn type_mismatch_is_refused() {
    let mut arena = Arena::new();
    let text = JSNIValue::from_string(&mut arena, String::from("abc"));
    // a buffer decode of a text-tagged value fails and touches nothing
    assert_eq!(text.try_to_vec(&mut arena), None);
    let buf = JSNIValue::from_vec(&mut arena, vec![1u8]);
    assert_eq!(buf.try_to_string(&mut arena), None);
    // both regions are still live and decode correctly afterwards
    assert_eq!(text.try_to_string(&mut arena), Some(String::from("abc")));
    assert_eq!(buf.try_to_vec(&mut arena), Some(vec![1u8]));
}

#[test]
fn alloc_bytes_region_zeroed() {
    let mut arena = Arena::new();
    let pair = alloc_bytes(&mut arena, 4);
    let (handle, data) = unpack_pair(pair);
    assert_eq!(handle, 0);
    assert_eq!(data, 0);
    // the host writes into the region it was handed, then the module decodes
    arena.bytes.write(data, 0, 0xAB);
    arena.bytes.write(data, 3, 0xCD);
    let t = JSNIValue { kind: JSNIKind::VecU8, value: pack_buffer_payload(4, data) };
    assert_eq!(t.to_vec(&mut arena), vec![0xAB, 0, 0, 0xCD]);
}

#[test]
fn count_field_boundary() {
    // a count of exactly u32::MAX survives the packing intact
    let p = pack_buffer_payload(u32::MAX as u64, 7);
    let (count, addr) = unpack_pair(p);
    assert_eq!(count, u32::MAX as u64);
    assert_eq!(addr, 7);
    // one element beyond the 32-bit limit wraps to zero: the documented
    // silent truncation of the wire format, not a crash
    let p = pack_buffer_payload(FIELD_LIMIT, 7);
    let (count, addr) = unpack_pair(p);
    assert_eq!(count, 0);
    assert_eq!(addr, 7);
    let p = pack_buffer_payload(FIELD_LIMIT + 5, 7);
    let (count, _) = unpack_pair(p);
    assert_eq!(count, 5);
}
