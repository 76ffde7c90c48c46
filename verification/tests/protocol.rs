use p2p_songs::protocol::CodecError;
use p2p_songs::text::{same_text, split_on_char, starts_with, strip_prefix};
use p2p_songs::{SongCodec, SongProtocol};

#[test]
fn protocol_name_is_song_1_0_0() {
    assert_eq!(SongProtocol.protocol_name(), b"/song/1.0.0");
}

#[test]
fn ok_acknowledgement_is_a_quoted_json_string() {
    let bytes = SongCodec.encode_response(&"OK".to_string()).unwrap();
    assert_eq!(bytes, b"\"OK\"".to_vec());
}

#[test]
fn acknowledgement_escapes() {
    let bytes = SongCodec.encode_response(&"a\"b\\c\nd\u{1}".to_string()).unwrap();
    assert_eq!(bytes, b"\"a\\\"b\\\\c\\nd\\u0001\"".to_vec());
    let bytes = SongCodec.encode_response(&"é".to_string()).unwrap();
    assert_eq!(bytes, "\"é\"".as_bytes().to_vec());
}

#[test]
fn acknowledgement_round_trips() {
    for text in [
        "OK",
        "",
        "hello world",
        "quote \" and \\ and \t tab",
        "ünïcödé",
        "\u{8}\u{c}\r\n\u{1f}\u{7f}/",
        "🎵 \u{2028}",
    ] {
        let bytes = SongCodec.encode_response(&text.to_string()).unwrap();
        assert_eq!(SongCodec.decode_response(&bytes).unwrap(), text);
    }
}

#[test]
fn decoding_rejects_non_strings() {
    assert!(matches!(SongCodec.decode_response(b"42"), Err(CodecError::InvalidJson)));
    assert!(matches!(SongCodec.decode_response(b"\"a\" x"), Err(CodecError::InvalidJson)));
    assert!(matches!(SongCodec.decode_response(b"\"a\\q\""), Err(CodecError::InvalidJson)));
}

#[test]
fn decoding_truncated_frames_is_unexpected_eof() {
    assert!(matches!(SongCodec.decode_response(b""), Err(CodecError::UnexpectedEof)));
    assert!(matches!(SongCodec.decode_response(b"  "), Err(CodecError::UnexpectedEof)));
    assert!(matches!(SongCodec.decode_response(b"\"open"), Err(CodecError::UnexpectedEof)));
    let full = SongCodec.encode_response(&"é\n\u{1}\"x".to_string()).unwrap();
    for k in 0..full.len() {
        assert!(
            matches!(SongCodec.decode_response(&full[..k]), Err(CodecError::UnexpectedEof)),
            "prefix of length {}",
            k
        );
    }
}

#[test]
fn decoding_accepts_whitespace_and_escapes() {
    assert_eq!(SongCodec.decode_response(b" \"OK\" \n").unwrap(), "OK");
    assert_eq!(SongCodec.decode_response(b"\"\\u0041\"").unwrap(), "A");
}

#[test]
fn text_helpers() {
    assert!(starts_with("create s x", "create s"));
    assert!(!starts_with("cre", "create"));
    assert!(starts_with("abc", ""));
    assert!(same_text("ls p", "ls p"));
    assert!(!same_text("ls p", "ls p "));
    assert_eq!(strip_prefix("ls s all", "ls s "), Some("all"));
    assert_eq!(strip_prefix("ls", "ls s "), None);
    assert_eq!(split_on_char("a|b||c", '|'), vec!["a", "b", "", "c"]);
    assert_eq!(split_on_char("", '|'), vec![""]);
    assert_eq!(split_on_char("|", '|'), vec!["", ""]);
}
