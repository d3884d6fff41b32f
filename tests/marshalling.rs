use blob_raylib::buffer::{
    collect_native_array, collect_native_text, copy_native_array, file_data, file_text,
    native_count, native_length, text_from_bytes, text_length,
};
use blob_raylib::marshal::{from_native_string, nul_offset, to_native_string, NativeString};

#[test]
fn round_trip_ascii() {
    let ns = to_native_string("hello").unwrap();
    assert_eq!(ns.as_bytes_with_nul(), b"hello\0");
    assert_eq!(ns.len(), 5);
    assert_eq!(from_native_string(Some(ns.as_bytes_with_nul())), "hello");
}

#[test]
fn round_trip_multibyte() {
    let s = "h\u{e9}llo \u{2713} \u{1F600}";
    let ns = NativeString::new(s).unwrap();
    assert_eq!(ns.as_bytes_with_nul().len(), s.len() + 1);
    assert_eq!(from_native_string(Some(ns.as_bytes_with_nul())), s);
}

#[test]
fn round_trip_empty() {
    let ns = to_native_string("").unwrap();
    assert_eq!(ns.as_bytes_with_nul(), b"\0");
    assert_eq!(from_native_string(Some(ns.as_bytes_with_nul())), "");
}

#[test]
fn embedded_nul_is_rejected() {
    let e = to_native_string("ab\0cd\0").unwrap_err();
    assert_eq!(e.position, 2);
    assert_eq!(e.bytes, b"ab\0cd\0".to_vec());
    assert!(to_native_string("\0").is_err());
}

#[test]
fn null_pointer_reads_empty() {
    assert_eq!(from_native_string(None), "");
}

#[test]
fn text_stops_at_first_nul() {
    assert_eq!(from_native_string(Some(b"abc\0def\0")), "abc");
    assert_eq!(from_native_string(Some(b"no terminator")), "no terminator");
    assert_eq!(nul_offset(b"abc\0def"), 3);
    assert_eq!(nul_offset(b"abc"), 3);
    assert_eq!(nul_offset(b""), 0);
}

#[test]
fn invalid_utf8_is_replaced_when_lossy() {
    assert_eq!(from_native_string(Some(b"a\xffb\0")), "a\u{FFFD}b");
}

#[test]
fn static_native_text_is_copied() {
    let mut buffer = b"/tmp/dir\0junk".to_vec();
    let copied = from_native_string(Some(&buffer));
    buffer[1] = b'X';
    assert_eq!(copied, "/tmp/dir");
}

#[test]
fn counts_from_native_side() {
    assert_eq!(native_count(-5), 0);
    assert_eq!(native_count(0), 0);
    assert_eq!(native_count(3), 3);
    assert_eq!(text_length(5), 4);
    assert_eq!(text_length(1), 0);
    assert_eq!(text_length(0), 0);
    assert_eq!(text_length(-2), 0);
    assert_eq!(native_length(7), Some(7));
    assert_eq!(native_length(i32::MAX as usize), Some(i32::MAX));
    assert_eq!(native_length(i32::MAX as usize + 1), None);
}

#[test]
fn buffer_length_fidelity() {
    let native: [i32; 5] = [9, -1, 4, 4, 0];
    let n: i32 = 5;
    let copied = collect_native_array(Some(&native[..native_count(n)]), n);
    assert_eq!(copied.len(), 5);
    assert_eq!(copied, native.to_vec());
    let none: Vec<i32> = collect_native_array(None, 5);
    assert!(none.is_empty());
    assert_eq!(copy_native_array(Some(&[1u8, 2, 3][..])), vec![1u8, 2, 3]);
    let empty: Vec<u8> = copy_native_array(None);
    assert!(empty.is_empty());
}

#[test]
fn file_loads() {
    assert_eq!(file_data(None), None);
    assert_eq!(file_data(Some(b"\x00\x01\x02")), Some(vec![0u8, 1, 2]));
    assert_eq!(file_text(None), None);
    assert_eq!(file_text(Some(b"line one\nline two\0")), Some("line one\nline two".to_string()));
}

#[test]
fn encoded_text_of_exact_length() {
    let out = b"aGk=\0";
    let len = text_length(out.len() as i32);
    assert_eq!(text_from_bytes(Some(&out[..len])), "aGk=");
    assert_eq!(text_from_bytes(None), "");
    assert_eq!(text_from_bytes(Some(b"\xc3(")), "\u{FFFD}(");
    assert_eq!(collect_native_text(Some(&out[..len]), out.len() as i32), "aGk=");
    assert_eq!(collect_native_text(Some(b""), 0), "");
    assert_eq!(collect_native_text(None, 9), "");
}
