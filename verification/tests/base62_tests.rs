use librespot_core::spotify_id::SpotifyId;
use trackdl::base62::{alnum, decode_base62, decode_chars, CatalogId};

#[test]
fn digits_have_their_values() {
    assert_eq!(decode_base62("0"), Some(CatalogId { value: 0 }));
    assert_eq!(decode_base62("9"), Some(CatalogId { value: 9 }));
    assert_eq!(decode_base62("a"), Some(CatalogId { value: 10 }));
    assert_eq!(decode_base62("z"), Some(CatalogId { value: 35 }));
    assert_eq!(decode_base62("A"), Some(CatalogId { value: 36 }));
    assert_eq!(decode_base62("Z"), Some(CatalogId { value: 61 }));
}

#[test]
fn most_significant_digit_comes_first() {
    assert_eq!(decode_base62("10"), Some(CatalogId { value: 62 }));
    assert_eq!(decode_base62("1a"), Some(CatalogId { value: 72 }));
    assert_eq!(decode_base62("100"), Some(CatalogId { value: 3844 }));
    assert_eq!(decode_base62("0000000000000000000000"), Some(CatalogId { value: 0 }));
    assert_eq!(decode_base62("000000000000000000000Z"), Some(CatalogId { value: 61 }));
}

#[test]
fn empty_text_is_zero() {
    assert_eq!(decode_base62(""), Some(CatalogId { value: 0 }));
}

#[test]
fn other_characters_do_not_decode() {
    assert_eq!(decode_base62("-"), None);
    assert_eq!(decode_base62("4uLU6hMCjMI75M1A2tKU C"), None);
    assert_eq!(decode_base62("4uLU6hMCjMI75M1A2tKU\u{e9}C"), None);
    assert_eq!(decode_base62("12_"), None);
}

#[test]
fn alnum_is_ascii_letters_and_digits() {
    for c in ['0', '9', 'a', 'z', 'A', 'Z', 'm', 'M', '5'] {
        assert!(alnum(c));
    }
    for c in ['/', ':', '@', '[', '`', '{', ' ', '\u{e9}', '\u{0660}'] {
        assert!(!alnum(c));
    }
}

#[test]
fn the_largest_identifier_decodes_and_the_next_does_not() {
    assert_eq!(decode_base62("7N42dgm5tFLK9N8MT7fHC7"), Some(CatalogId { value: u128::MAX }));
    assert_eq!(decode_base62("7N42dgm5tFLK9N8MT7fHC8"), None);
    assert_eq!(decode_base62("7N42dgm5tFLK9N8MT7fHD0"), None);
    assert_eq!(decode_base62("zzzzzzzzzzzzzzzzzzzzzz"), None);
    assert_eq!(decode_base62("10000000000000000000000"), None);
}

#[test]
fn decoding_agrees_with_the_catalog_library() {
    for text in ["4uLU6hMCjMI75M1A2tKUQC", "0000000000000000000000", "5sWHDYs0csV6RS48xBl0tH", "7N42dgm5tFLK9N8MT7fHC7"] {
        let theirs = SpotifyId::from_base62(text).unwrap();
        assert_eq!(decode_base62(text), Some(CatalogId { value: theirs.id }));
        assert_eq!(theirs.to_base62().unwrap(), text);
    }
}

#[test]
fn decode_chars_reads_from_a_position_to_the_end() {
    let chars: Vec<char> = "xx:1a".chars().collect();
    assert_eq!(decode_chars(&chars, 3), Some(72));
    assert_eq!(decode_chars(&chars, 5), Some(0));
    assert_eq!(decode_chars(&chars, 2), None);
}
