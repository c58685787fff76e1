use faster_rs::cstr::{c_str_text, c_str_text_at, c_string_bytes, session_ids, SESSION_ID_STRIDE};

#[test]
fn c_str_text_reads_up_to_first_nul() {
    assert_eq!(c_str_text(b"abc\0def\0").as_deref(), Some("abc"));
    assert_eq!(c_str_text(b"\0").as_deref(), Some(""));
    assert_eq!(c_str_text(b"abc"), None);
    assert_eq!(c_str_text(b""), None);
    assert_eq!(c_str_text(b"\xff\xfe\0"), None);
    assert_eq!(c_str_text("h\u{e9}llo\0".as_bytes()).as_deref(), Some("h\u{e9}llo"));
    assert_eq!(c_str_text_at(b"ab\0cd\0", 3).as_deref(), Some("cd"));
}

#[test]
fn checkpoint_token_buffer_decodes_to_36_characters() {
    let mut buf = b"c4ca4238-a0b9-3382-8dcc-509a6f75849b".to_vec();
    buf.push(0);
    assert_eq!(buf.len(), 37);
    let token = c_str_text(&buf).unwrap();
    assert_eq!(token.len(), 37 - 1);
}

#[test]
fn c_string_bytes_terminates_with_nul() {
    assert_eq!(c_string_bytes("ab"), Some(vec![b'a', b'b', 0]));
    assert_eq!(c_string_bytes(""), Some(vec![0]));
    assert_eq!(c_string_bytes("a\0b"), None);
    assert_eq!(c_string_bytes("\u{e9}"), Some(vec![0xc3, 0xa9, 0]));
}

#[test]
fn c_string_round_trip() {
    for text in ["", "token", "h\u{e9}llo w\u{f6}rld", "0123-4567"] {
        let bytes = c_string_bytes(text).unwrap();
        assert_eq!(c_str_text(&bytes).as_deref(), Some(text));
    }
}

#[test]
fn session_ids_are_read_at_fixed_stride() {
    let mut buf = vec![0u8; 2 * SESSION_ID_STRIDE];
    buf[..3].copy_from_slice(b"one");
    buf[SESSION_ID_STRIDE..SESSION_ID_STRIDE + 3].copy_from_slice(b"two");
    let ids = session_ids(&buf, 2).unwrap();
    assert_eq!(ids, vec!["one".to_owned(), "two".to_owned()]);
    assert_eq!(session_ids(&buf, 0), Some(vec![]));
    buf[SESSION_ID_STRIDE] = 0xff;
    assert_eq!(session_ids(&buf, 2), None);
}
