use mbox::text::validate_utf8;
use mbox::Free;
use mbox::Heap;
use mbox::MSlice;
use mbox::MStr;

#[test]
fn test_string_from_bytes() {
    let mut heap = Heap::new();
    let bytes = MSlice::from_slice(&mut heap, b"abcdef\xe4\xb8\x80\xe4\xba\x8c\xe4\xb8\x89");
    let string = MStr::from_utf8(bytes).ok().unwrap();
    assert_eq!(string.as_str(), "abcdef\u{4e00}\u{4e8c}\u{4e09}");
    let other = MStr::from_str(&mut heap, "abcdef\u{4e00}\u{4e8c}\u{4e09}");
    assert_eq!(string.as_bytes(), other.as_bytes());
    let bytes = string.into_bytes();
    assert_eq!(bytes.as_slice(), b"abcdef\xe4\xb8\x80\xe4\xba\x8c\xe4\xb8\x89");
}

#[test]
fn test_non_utf8() {
    let mut heap = Heap::new();
    let bytes = MSlice::from_slice(&mut heap, b"\x88\x88\x88\x88");
    let string = MStr::from_utf8(bytes);
    assert!(string.is_err());
}

#[test]
fn test_default_str() {
    let mut heap = Heap::new();
    let empty = MStr::default();
    let from_empty = MStr::from_str(&mut heap, "");
    assert_eq!(empty.as_bytes(), from_empty.as_bytes());
    assert_eq!(empty.as_str(), "");
    assert_eq!(heap.allocations(), 0);
}

#[test]
fn test_round_trip_bytes_text_bytes() {
    let mut heap = Heap::new();
    let original: &[u8] = b"gr\xc3\xbc\xc3\x9fe";
    let bytes = MSlice::from_slice(&mut heap, original);
    let before = bytes.as_ptr();
    let text = MStr::from_utf8(bytes).ok().unwrap();
    assert_eq!(text.as_ptr(), before);
    let back = text.into_bytes();
    assert_eq!(back.as_ptr(), before);
    assert_eq!(back.as_slice(), original);
    // no copy was made: the whole trip cost no allocator call
    assert_eq!(heap.allocations(), 1);
    assert_eq!(heap.reallocations(), 0);
}

#[test]
fn test_invalid_bytes_returned_unmodified() {
    let mut heap = Heap::new();
    let original: &[u8] = b"ab\x88cd";
    let bytes = MSlice::from_slice(&mut heap, original);
    let before = bytes.as_ptr();
    match MStr::from_utf8(bytes) {
        Ok(_) => panic!("the bytes are not valid UTF-8"),
        Err(error) => {
            assert_eq!(error.valid_up_to(), 2);
            let back = error.into_bytes();
            assert_eq!(back.as_ptr(), before);
            assert_eq!(back.as_slice(), original);
            back.free(&mut heap);
            assert_eq!(heap.live_handles(), 0);
        },
    }
}

#[test]
fn test_validate_utf8_accepts() {
    assert!(validate_utf8(b"").is_ok());
    assert!(validate_utf8(b"plain ascii").is_ok());
    assert!(validate_utf8(b"\xc2\x80").is_ok()); // smallest two-byte scalar
    assert!(validate_utf8(b"\xdf\xbf").is_ok()); // largest two-byte scalar
    assert!(validate_utf8(b"\xe0\xa0\x80").is_ok()); // smallest three-byte scalar
    assert!(validate_utf8(b"\xed\x9f\xbf").is_ok()); // just below the surrogates
    assert!(validate_utf8(b"\xee\x80\x80").is_ok()); // just above the surrogates
    assert!(validate_utf8(b"\xf0\x90\x80\x80").is_ok()); // smallest four-byte scalar
    assert!(validate_utf8(b"\xf4\x8f\xbf\xbf").is_ok()); // the largest scalar
}

#[test]
fn test_validate_utf8_rejects() {
    assert_eq!(validate_utf8(b"\x80"), Err(0)); // stray continuation byte
    assert_eq!(validate_utf8(b"\xc0\xaf"), Err(0)); // overlong two-byte form
    assert_eq!(validate_utf8(b"\xc1\xbf"), Err(0)); // overlong two-byte form
    assert_eq!(validate_utf8(b"\xe0\x9f\xbf"), Err(0)); // overlong three-byte form
    assert_eq!(validate_utf8(b"\xed\xa0\x80"), Err(0)); // smallest surrogate
    assert_eq!(validate_utf8(b"\xed\xbf\xbf"), Err(0)); // largest surrogate
    assert_eq!(validate_utf8(b"\xf0\x8f\xbf\xbf"), Err(0)); // overlong four-byte form
    assert_eq!(validate_utf8(b"\xf4\x90\x80\x80"), Err(0)); // beyond the largest scalar
    assert_eq!(validate_utf8(b"\xf8\x88\x80\x80\x80"), Err(0)); // five-byte form
    assert_eq!(validate_utf8(b"\xc3"), Err(0)); // truncated two-byte form
    assert_eq!(validate_utf8(b"\xe2\x82"), Err(0)); // truncated three-byte form
    assert_eq!(validate_utf8(b"\xf0\x9f\x92"), Err(0)); // truncated four-byte form
    assert_eq!(validate_utf8(b"ok\xffno"), Err(2)); // the error position is reported
}

#[test]
fn test_unchecked_paths() {
    let mut heap = Heap::new();
    let bytes = MSlice::from_slice(&mut heap, b"safe");
    let text = MStr::from_utf8_unchecked(bytes);
    assert_eq!(text.as_str(), "safe");
    assert_eq!(text.len(), 4);

    let handle = text.as_ptr();
    let (h, items) = text.into_bytes().into_raw_parts();
    assert_eq!(h, handle);
    let again = MStr::from_raw_utf8_parts_unchecked(&heap, h, items);
    assert_eq!(again.as_str(), "safe");

    let (h, items) = again.into_bytes().into_raw_parts();
    let checked = MStr::from_raw_utf8_parts(&heap, h, items).ok().unwrap();
    assert_eq!(checked.as_str(), "safe");
    checked.free(&mut heap);
    assert_eq!(heap.live_handles(), 0);
    assert_eq!(heap.releases(), 1);
}

#[test]
fn test_text_clone_independence() {
    let mut heap = Heap::new();
    let original = MStr::from_str(&mut heap, "text");
    let copy = original.clone_in(&mut heap);
    assert_ne!(original.as_ptr(), copy.as_ptr());
    assert_eq!(original.as_str(), copy.as_str());
    original.free(&mut heap);
    assert_eq!(copy.as_str(), "text");
    assert_eq!(heap.live_handles(), 1);
}
