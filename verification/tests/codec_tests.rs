use base64::Engine;
use sea_orm_pro_backend::codec::{hex_to_bytes, image_data_url, opt_bytes_from_str};

#[test]
fn hex_to_bytes_decodes_pairs() {
    assert_eq!(hex_to_bytes("48656c6c6f").unwrap(), b"Hello".to_vec());
    assert_eq!(hex_to_bytes("FFff00").unwrap(), vec![0xff, 0xff, 0x00]);
    assert_eq!(hex_to_bytes("").unwrap(), Vec::<u8>::new());
}

#[test]
fn hex_to_bytes_trailing_char_stands_alone() {
    assert_eq!(hex_to_bytes("f").unwrap(), vec![0x0f]);
    assert_eq!(hex_to_bytes("ab5").unwrap(), vec![0xab, 0x05]);
}

#[test]
fn hex_to_bytes_accepts_leading_plus_in_chunk() {
    // each two-character chunk is parsed as a base-16 u8, which takes a sign
    assert_eq!(hex_to_bytes("+f").unwrap(), vec![0x0f]);
}

#[test]
fn hex_to_bytes_reports_first_bad_chunk() {
    let err = hex_to_bytes("48zz65").unwrap_err();
    assert_eq!(err.chunk, "zz");
    let err = hex_to_bytes("+").unwrap_err();
    assert_eq!(err.chunk, "+");
}

#[test]
fn image_data_url_wraps_base64() {
    assert_eq!(
        image_data_url("48656c6c6f").unwrap(),
        "data:image;base64,SGVsbG8="
    );
    assert_eq!(image_data_url("").unwrap(), "data:image;base64,");
}

#[test]
fn image_data_url_matches_base64_crate() {
    let encoded = base64::engine::general_purpose::STANDARD.encode([0xde, 0xad, 0xbe, 0xef]);
    assert_eq!(
        image_data_url("deadbeef").unwrap(),
        format!("data:image;base64,{}", encoded)
    );
}

#[test]
fn opt_bytes_from_str_keeps_absent_absent() {
    assert_eq!(opt_bytes_from_str(None).unwrap(), None);
    assert_eq!(
        opt_bytes_from_str(Some("48656c6c6f".to_string())).unwrap(),
        Some("data:image;base64,SGVsbG8=".to_string())
    );
    assert!(opt_bytes_from_str(Some("xx".to_string())).is_err());
}
