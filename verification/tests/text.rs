use smart_shift::capture::{decode_utf16_lossy, file_name_of_path};
use smart_shift::text::{
    copy_wide_string_into_buffer, encode_utf16, eq_ignore_ascii_case, is_blank, is_cjk,
    str_equals, utf16_count, utf16_units_to_char_index, wide_null,
};

#[test]
fn utf16_offsets_match_ascii_char_count() {
    let data: Vec<u16> = "hello".encode_utf16().collect();
    assert_eq!(utf16_units_to_char_index(&data, 3), Some(3));
}

#[test]
fn utf16_offsets_handle_cjk_and_surrogates() {
    let text = "中a🙂";
    let data: Vec<u16> = text.encode_utf16().collect();
    assert_eq!(utf16_units_to_char_index(&data, 1), Some(1));
    assert_eq!(utf16_units_to_char_index(&data, 2), Some(2));
    assert_eq!(utf16_units_to_char_index(&data, 4), Some(3));
}

#[test]
fn utf16_offset_beyond_slice_is_none() {
    let data: Vec<u16> = "ab".encode_utf16().collect();
    assert_eq!(utf16_units_to_char_index(&data, 3), None);
    assert_eq!(utf16_units_to_char_index(&data, 0), Some(0));
}

#[test]
fn utf16_offset_inside_a_surrogate_pair_counts_a_replacement() {
    let data: Vec<u16> = "🙂".encode_utf16().collect();
    assert_eq!(utf16_units_to_char_index(&data, 1), Some(1));
    let lone = [0xDC00u16, 0x0041];
    assert_eq!(utf16_units_to_char_index(&lone, 2), Some(2));
}

#[test]
fn encoding_matches_std() {
    for s in ["", "hello", "中a🙂", "\u{FFFF}\u{10000}\u{10FFFF}"] {
        let expected: Vec<u16> = s.encode_utf16().collect();
        assert_eq!(encode_utf16(s), expected);
        assert_eq!(utf16_count(s), expected.len());
        let mut with_null = expected.clone();
        with_null.push(0);
        assert_eq!(wide_null(s), with_null);
    }
}

#[test]
fn decoding_matches_std_lossy() {
    let cases: Vec<Vec<u16>> = vec![
        "中a🙂".encode_utf16().collect(),
        vec![0xD800, 0x0041, 0xDC00, 0xD83D, 0xDE42, 0xD83D],
        vec![],
    ];
    for units in cases {
        assert_eq!(decode_utf16_lossy(&units), String::from_utf16_lossy(&units));
    }
}

#[test]
fn roundtrip_through_utf16() {
    let s = "混合 text 🙂 ok";
    let units = encode_utf16(s);
    assert_eq!(decode_utf16_lossy(&units), s);
}

#[test]
fn copies_wide_strings_into_fixed_buffers() {
    let mut big = [7u16; 8];
    copy_wide_string_into_buffer("hi", &mut big);
    assert_eq!(big, [0x68, 0x69, 0, 7, 7, 7, 7, 7]);

    let mut small = [7u16; 3];
    copy_wide_string_into_buffer("hello", &mut small);
    assert_eq!(small, [0x68, 0x65, 0]);
}

#[test]
fn character_helpers() {
    assert!(is_cjk('中'));
    assert!(!is_cjk('a'));
    assert!(eq_ignore_ascii_case("CODE.exe", "code.EXE"));
    assert!(!eq_ignore_ascii_case("Code.exe", "Code.ex"));
    assert!(str_equals("Edit", "Edit"));
    assert!(!str_equals("Edit", "edit"));
    assert!(is_blank(""));
    assert!(is_blank(" \t\u{3000}"));
    assert!(!is_blank(" a "));
}

#[test]
fn file_names_of_paths() {
    assert_eq!(file_name_of_path(r"C:\Program Files\Obsidian\Obsidian.exe"), "Obsidian.exe");
    assert_eq!(file_name_of_path("/usr/bin/code"), "code");
    assert_eq!(file_name_of_path("plain.exe"), "plain.exe");
    assert_eq!(file_name_of_path(r"C:\dir\"), "");
}

#[test]
fn whitespace_matches_std_for_every_char() {
    let mut buffer = [0u8; 4];
    for code in 0u32..=0x10FFFF {
        if let Some(c) = char::from_u32(code) {
            assert_eq!(is_blank(c.encode_utf8(&mut buffer)), c.is_whitespace(), "U+{code:04X}");
        }
    }
}
