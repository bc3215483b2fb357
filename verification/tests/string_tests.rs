use unity::system::string::{c_string_bytes, u8_to_u16_neon, utf16_to_utf8, Il2CppString, SystemString};

fn units(s: &str) -> Vec<u16> {
    s.encode_utf16().collect()
}

fn managed(s: &str) -> SystemString {
    let string = units(s);
    SystemString { len: string.len() as i32, string }
}

#[test]
fn widen_keeps_every_byte() {
    assert_eq!(u8_to_u16_neon(&[0x41, 0xFF, 0x00, 0x7F]), vec![0x41u16, 0xFF, 0x00, 0x7F]);
    let long: Vec<u8> = (0u8..40).collect();
    let wide = u8_to_u16_neon(&long);
    assert_eq!(wide.len(), 40);
    for (i, w) in wide.iter().enumerate() {
        assert_eq!(*w, i as u16);
    }
    assert_eq!(u8_to_u16_neon(&[]), Vec::<u16>::new());
}

#[test]
fn ascii_text_is_narrowed() {
    assert_eq!(utf16_to_utf8(&units("Hello, world")), Some(b"Hello, world".to_vec()));
    assert_eq!(utf16_to_utf8(&[]), Some(Vec::new()));
}

#[test]
fn ascii_text_stops_at_nul() {
    assert_eq!(utf16_to_utf8(&[0x48, 0x69, 0x00, 0x21]), Some(b"Hi".to_vec()));
    assert_eq!(utf16_to_utf8(&[0x00, 0x41]), Some(Vec::new()));
}

#[test]
fn non_ascii_text_is_transcoded_in_full() {
    assert_eq!(utf16_to_utf8(&units("héllo")), Some("héllo".as_bytes().to_vec()));
    // a NUL is kept once some unit is outside ASCII
    assert_eq!(utf16_to_utf8(&[0xE9, 0x00, 0x41]), Some("é\u{0}A".as_bytes().to_vec()));
}

#[test]
fn surrogate_pair_becomes_four_bytes() {
    assert_eq!(utf16_to_utf8(&[0xD83D, 0xDE00]), Some(vec![0xF0, 0x9F, 0x98, 0x80]));
}

#[test]
fn unpaired_surrogate_is_refused() {
    assert_eq!(utf16_to_utf8(&[0xD800, 0x41]), None);
    assert_eq!(utf16_to_utf8(&[0x41, 0xDC00]), None);
}

#[test]
fn ascii_round_trip() {
    let bytes = b"System.String".to_vec();
    assert_eq!(utf16_to_utf8(&u8_to_u16_neon(&bytes)), Some(bytes));
}

#[test]
fn transcoding_agrees_with_std_without_nul() {
    for s in ["plain", "naïve", "日本語", "a😀b"] {
        assert_eq!(utf16_to_utf8(&units(s)), Some(s.as_bytes().to_vec()));
    }
}

#[test]
fn to_string_decodes() {
    assert_eq!(managed("Marth").to_string(), "Marth");
    assert_eq!(managed("Ælfric 😀").to_string(), "Ælfric 😀");
    let empty: Il2CppString = SystemString { len: 0, string: vec![0x41] };
    assert_eq!(empty.to_string(), "");
}

#[test]
fn to_string_reads_only_len_units() {
    let s = SystemString { len: 2, string: vec![0x41, 0x42, 0x43, 0x00] };
    assert_eq!(s.to_string(), "AB");
}

#[test]
fn to_string_replaces_unpaired_surrogates() {
    let s = SystemString { len: 3, string: vec![0xD800, 0x41, 0xDC00] };
    assert_eq!(s.to_string(), "\u{FFFD}A\u{FFFD}");
}

#[test]
fn get_string_is_strict() {
    assert_eq!(managed("Lyn").get_string().unwrap(), "Lyn");
    let bad = SystemString { len: 2, string: vec![0xD800, 0x41] };
    assert!(bad.get_string().is_err());
    let empty = SystemString { len: 0, string: vec![] };
    assert_eq!(empty.get_string().unwrap(), "");
}

#[test]
fn lossy_agrees_with_strict_on_valid_text() {
    for s in ["Roy", "Éirika", "🗡️ sword"] {
        let m = managed(s);
        assert_eq!(m.get_string().unwrap(), m.to_string());
    }
}

#[test]
fn to_vec_gives_utf8() {
    assert_eq!(managed("Ike").to_vec(), b"Ike".to_vec());
    assert_eq!(managed("Ça va").to_vec(), "Ça va".as_bytes().to_vec());
    let empty = SystemString { len: 0, string: vec![] };
    assert_eq!(empty.to_vec(), Vec::<u8>::new());
    let with_nul = SystemString { len: 3, string: vec![0x41, 0x00, 0x42] };
    assert_eq!(with_nul.to_vec(), b"A".to_vec());
}

#[test]
fn to_vec_is_utf8_of_to_string() {
    for s in ["Chrom", "Lúcina", "騎士"] {
        let m = managed(s);
        assert_eq!(m.to_vec(), m.to_string().into_bytes());
    }
}

#[test]
fn c_string_bytes_end_in_nul() {
    assert_eq!(c_string_bytes("A new string"), Some(b"A new string\0".to_vec()));
    assert_eq!(c_string_bytes("é"), Some(vec![0xC3, 0xA9, 0x00]));
    assert_eq!(c_string_bytes(""), Some(vec![0x00]));
}

#[test]
fn c_string_bytes_refuse_inner_nul() {
    assert_eq!(c_string_bytes("a\0b"), None);
    assert_eq!(c_string_bytes("\0"), None);
}
