use vid_fetch_core::decode::{select_text, StreamDecoder};

#[test]
fn malformed_decoding_falls_back_to_lossy_utf8() {
    let raw: &[u8] = b"ok\xff!";
    let r = select_text("ignored".to_string(), true, raw);
    assert_eq!(r, "ok\u{fffd}!");
}

#[test]
fn clean_decoding_is_kept() {
    let r = select_text("caf\u{e9}".to_string(), false, b"caf\xe9");
    assert_eq!(r, "caf\u{e9}");
}

#[test]
fn decoded_frames_through_push_decoded() {
    let mut d = StreamDecoder::new();
    let frames = d.push_decoded("a\rb\n".to_string(), false, b"a\rb\n");
    assert_eq!(frames.len(), 2);
    assert_eq!(frames[0].content, "a");
    assert!(frames[0].overwrite);
    assert_eq!(frames[1].content, "b");
    assert!(!frames[1].overwrite);
}

#[test]
fn lossy_fallback_frames() {
    let mut d = StreamDecoder::new();
    let frames = d.push_decoded(String::new(), true, b"x\xfe\n");
    assert_eq!(frames.len(), 1);
    assert_eq!(frames[0].content, "x\u{fffd}");
}
