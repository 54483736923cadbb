use doh::codec::{base64_encode, hmac_sha1, sha256};
use doh::jsonx::{json_string, json_unquote};
use doh::strutil::{hex_lower, str_lex_le, u64_to_dec};

#[test]
fn base64_vectors() {
    assert_eq!(base64_encode(b""), "");
    assert_eq!(base64_encode(b"f"), "Zg==");
    assert_eq!(base64_encode(b"fo"), "Zm8=");
    assert_eq!(base64_encode(b"foo"), "Zm9v");
    assert_eq!(base64_encode(b"foob"), "Zm9vYg==");
    assert_eq!(base64_encode(b"fooba"), "Zm9vYmE=");
    assert_eq!(base64_encode(b"foobar"), "Zm9vYmFy");
    assert_eq!(base64_encode(&[0xfb, 0xef, 0xff]), "++//");
}

#[test]
fn sha256_known_digest() {
    let d = sha256(b"abc");
    assert_eq!(d.len(), 32);
    assert_eq!(
        hex_lower(&d),
        "ba7816bf8f01cfea414140de5dae2223b00361a396177a9cb410ff61f20015ad"
    );
}

#[test]
fn hmac_sha1_known_tag() {
    let key = [0x0bu8; 20];
    let tag = hmac_sha1(&key, b"Hi There");
    assert_eq!(tag.len(), 20);
    assert_eq!(hex_lower(&tag), "b617318655057264e28bc0b6fb378c8ef146be00");
}

#[test]
fn decimal_rendering() {
    assert_eq!(u64_to_dec(0), "0");
    assert_eq!(u64_to_dec(7), "7");
    assert_eq!(u64_to_dec(1318622958), "1318622958");
    assert_eq!(u64_to_dec(u64::MAX), "18446744073709551615");
}

#[test]
fn hex_rendering() {
    assert_eq!(hex_lower(&[]), "");
    assert_eq!(hex_lower(&[0x00, 0x0f, 0xa5, 0xff]), "000fa5ff");
}

#[test]
fn lexicographic_order() {
    assert!(str_lex_le("a", "ab"));
    assert!(!str_lex_le("ab", "a"));
    assert!(str_lex_le("abc", "abd"));
    assert!(str_lex_le("", ""));
    assert!(str_lex_le("A", "a"));
}

#[test]
fn json_string_escapes() {
    assert_eq!(json_string("plain"), "\"plain\"");
    assert_eq!(json_string("a\"b\\c"), "\"a\\\"b\\\\c\"");
    assert_eq!(json_string("line\nbreak\tand\r"), "\"line\\nbreak\\tand\\r\"");
    assert_eq!(json_string("\u{8}\u{c}"), "\"\\b\\f\"");
    assert_eq!(json_string("\u{1}\u{1f}"), "\"\\u0001\\u001f\"");
    assert_eq!(json_string("héllo🙂"), "\"héllo🙂\"");
}

#[test]
fn json_unquote_round_trip() {
    for s in ["", "plain", "a\"b\\c", "line\nbreak\tand\r", "héllo🙂", "\u{1}\u{1f}"] {
        let quoted = json_string(s);
        let back = json_unquote(&quoted).unwrap();
        assert_eq!(back, s);
    }
}

#[test]
fn json_unquote_named_escapes() {
    assert_eq!(json_unquote("\"a\\/b\""), Some("a/b".to_string()));
    assert_eq!(json_unquote("\"\\b\\f\\n\\r\\t\""), Some("\u{8}\u{c}\n\r\t".to_string()));
    assert_eq!(json_unquote("\"\\u0041\\u00e9\""), Some("Aé".to_string()));
}

#[test]
fn json_unquote_surrogate_pair() {
    assert_eq!(json_unquote("\"\\ud83d\\ude00\""), Some("😀".to_string()));
}

#[test]
fn json_unquote_rejects_invalid() {
    assert_eq!(json_unquote("plain"), None);
    assert_eq!(json_unquote("\"unterminated"), None);
    assert_eq!(json_unquote("\"bad\\q\""), None);
    assert_eq!(json_unquote("\"lone\\ud83d\""), None);
    assert_eq!(json_unquote("\"raw\ncontrol\""), None);
    assert_eq!(json_unquote("\"inner\"quote\""), None);
    assert_eq!(json_unquote("\"\\u12\""), None);
}
