use grower_jsni::arena::Arena;
use grower_jsni::arena::alloc_jsni_value;
use grower_jsni::bridge::JavaScriptNativeInterface;
use grower_jsni::payload::unpack_pair;
use grower_jsni::value::JSNIKind;
use grower_jsni::value::JSNIValue;

#[test]
fn sentinel_yields_empty_results() {
    let mut arena = Arena::new();
    let jsni = JavaScriptNativeInterface::new();
    let name = JSNIValue::from_string(&mut arena, String::from("getData"));
    let args = vec![JSNIValue::from_u32(42), name];
    // a host response of -1 collapses "error" and "nothing" into no results
    let results = jsni.complete_call(&mut arena, -1, args);
    assert!(results.is_empty());
}

#[test]
fn valid_address_yields_host_written_values_in_order() {
    let mut arena = Arena::new();
    let jsni = JavaScriptNativeInterface::new();
    // the host allocates a result array through the arena and writes into it
    let pair = alloc_jsni_value(&mut arena, 3);
    let (handle, data) = unpack_pair(pair);
    assert_eq!(handle, data);
    arena.values.write(data, 0, JSNIValue::from_i32(-7));
    arena.values.write(data, 1, JSNIValue::from_bool(true));
    arena.values.write(data, 2, JSNIValue::from_char('x'));
    let results = jsni.complete_call(&mut arena, handle as i64, Vec::new());
    assert_eq!(results.len(), 3);
    assert_eq!(results[0].as_i32(), -7);
    assert!(results[1].as_bool());
    assert_eq!(results[2].as_char(), Some('x'));
}

#[test]
fn arguments_are_reclaimed_exactly_once() {
    let mut arena = Arena::new();
    let jsni = JavaScriptNativeInterface::new();
    let buf = JSNIValue::from_vec(&mut arena, vec![1u8, 2]);
    let text = JSNIValue::from_string(&mut arena, String::from("arg"));
    let scalar = JSNIValue::from_u8(5);
    let null = JSNIValue::null();
    jsni.free_args(&mut arena, vec![buf, text, scalar, null]);
    // both heap regions are gone; scalar and null arguments needed no release
    assert_eq!(buf.try_to_vec(&mut arena), None);
    assert_eq!(text.try_to_string(&mut arena), None);
}

#[test]
fn unrelated_regions_survive_argument_reclaim() {
    let mut arena = Arena::new();
    let jsni = JavaScriptNativeInterface::new();
    let keep = JSNIValue::from_vec(&mut arena, vec![9u8]);
    let arg = JSNIValue::from_vec(&mut arena, vec![1u8]);
    let results = jsni.complete_call(&mut arena, -1, vec![arg]);
    assert!(results.is_empty());
    assert_eq!(keep.try_to_vec(&mut arena), Some(vec![9u8]));
}

#[test]
fn allocated_result_array_starts_null() {
    let mut arena = Arena::new();
    let pair = alloc_jsni_value(&mut arena, 2);
    let (handle, _) = unpack_pair(pair);
    let jsni = JavaScriptNativeInterface::new();
    let results = jsni.complete_call(&mut arena, handle as i64, Vec::new());
    assert_eq!(results.len(), 2);
    assert_eq!(results[0].kind, JSNIKind::Null);
    assert_eq!(results[0].value, 0);
    assert_eq!(results[1], JSNIValue::null());
}
