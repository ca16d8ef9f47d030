use sfml::string::{CppString, CppStringVector, SfStr};

#[test]
fn encode_decode_round_trip() {
    let text = "héllo wörld ✓ 𝄞";
    let buffer = SfStr::from_rust_str(text);
    assert_eq!(buffer.try_to_rust_string().unwrap(), text);
    assert_eq!(buffer.to_rust_string(), text);
    assert_eq!(buffer.to_rust_string_lossy(), text);
}

#[test]
fn encode_is_one_unit_per_character() {
    let buffer = SfStr::from_rust_str("A𝄞");
    assert_eq!(buffer.len(), 2);
    assert_eq!(buffer.as_units(), &[0x41, 0x1D11E]);
}

#[test]
fn empty_string_round_trip() {
    let buffer = SfStr::from_rust_str("");
    assert_eq!(buffer.len(), 0);
    assert_eq!(buffer.try_to_rust_string().unwrap(), "");
    assert_eq!(buffer.to_nul_terminated(), vec![0]);
}

#[test]
fn try_decode_reports_first_invalid_index() {
    // A surrogate value at position 2 is not a Unicode scalar value.
    let buffer = SfStr::from_units(vec![0x48, 0x69, 0xD800, 0x21]);
    let err = buffer.try_to_rust_string().unwrap_err();
    assert_eq!(err.index(), 2);
    assert_eq!(err.into_vec(), None);
}

#[test]
fn try_decode_reports_first_of_several_invalid_units() {
    let buffer = SfStr::from_units(vec![0x110000, 0x41, 0xDFFF]);
    let err = buffer.try_to_rust_string().unwrap_err();
    assert_eq!(err.index(), 0);
}

#[test]
fn lossy_decode_replaces_invalid_units() {
    let buffer = SfStr::from_units(vec![0x48, 0xD800, 0x69]);
    assert_eq!(buffer.to_rust_string_lossy(), "H\u{FFFD}i");
}

#[test]
fn decode_valid_units() {
    let buffer = SfStr::from_units(vec![0x48, 0x69]);
    assert_eq!(buffer.to_rust_string(), "Hi");
}

#[test]
fn nul_terminated_buffer_appends_one_zero() {
    let buffer = SfStr::from_rust_str("AB");
    assert_eq!(buffer.to_nul_terminated(), vec![0x41, 0x42, 0]);
}

#[test]
fn cpp_string_to_str_on_utf8() {
    let s = CppString::from_bytes(b"hello".to_vec());
    assert_eq!(s.to_str().unwrap(), "hello");
    assert_eq!(s.data(), b"hello");
}

#[test]
fn cpp_string_to_str_on_invalid_utf8() {
    let s = CppString::from_bytes(vec![0x66, 0x6F, 0xFF, 0x6F]);
    let err = s.to_str().unwrap_err();
    assert_eq!(err.valid_up_to(), 2);
}

#[test]
fn cpp_string_equality_is_by_bytes() {
    let a = CppString::from_bytes(b"abc".to_vec());
    let b = CppString::from_bytes(b"abc".to_vec());
    let c = CppString::from_bytes(b"abd".to_vec());
    let d = CppString::from_bytes(b"ab".to_vec());
    assert!(a == b);
    assert!(!(a == c));
    assert!(!(a == d));
}

#[test]
fn cpp_string_vector_cursor_walks_front_to_back() {
    let v = CppStringVector::from_items(vec![
        CppString::from_bytes(b"one".to_vec()),
        CppString::from_bytes(b"two".to_vec()),
    ]);
    let mut iter = v.iter();
    assert_eq!(iter.next().unwrap().to_str().unwrap(), "one");
    assert_eq!(iter.next().unwrap().to_str().unwrap(), "two");
    assert!(iter.next().is_none());
    // Past the end the cursor stays put.
    assert!(iter.next().is_none());
}

#[test]
fn cpp_string_vector_indexing() {
    let v = CppStringVector::from_items(vec![
        CppString::from_bytes(b"one".to_vec()),
        CppString::from_bytes(b"two".to_vec()),
    ]);
    assert_eq!(v.len(), 2);
    assert_eq!(v.get(0).to_str().unwrap(), "one");
    assert_eq!(v.get(1).to_str().unwrap(), "two");
}
