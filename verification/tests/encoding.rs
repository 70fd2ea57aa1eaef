use std::collections::HashMap;
use svg_resolve::encoding::{
    glyphname_to_unicode, DifferenceForwardMap, Encoding, EncodingTables, Entry, ForwardMap,
    GlyphList, GlyphName, ReverseMap, Transcoder,
};

/// The characters of Adobe's standard encoding that lie above the ASCII range.
const STANDARD_HIGH: &[(u8, char)] = &[
    (0xA1, '\u{00A1}'),
    (0xA2, '\u{00A2}'),
    (0xA3, '\u{00A3}'),
    (0xA4, '\u{2044}'),
    (0xA5, '\u{00A5}'),
    (0xA6, '\u{0192}'),
    (0xA7, '\u{00A7}'),
    (0xA8, '\u{00A4}'),
    (0xA9, '\u{0027}'),
    (0xAA, '\u{201C}'),
    (0xAB, '\u{00AB}'),
    (0xAC, '\u{2039}'),
    (0xAD, '\u{203A}'),
    (0xAE, '\u{FB01}'),
    (0xAF, '\u{FB02}'),
    (0xB1, '\u{2013}'),
    (0xB2, '\u{2020}'),
    (0xB3, '\u{2021}'),
    (0xB4, '\u{00B7}'),
    (0xB6, '\u{00B6}'),
    (0xB7, '\u{2022}'),
    (0xB8, '\u{201A}'),
    (0xB9, '\u{201E}'),
    (0xBA, '\u{201D}'),
    (0xBB, '\u{00BB}'),
    (0xBC, '\u{2026}'),
    (0xBD, '\u{2030}'),
    (0xBF, '\u{00BF}'),
    (0xC1, '\u{0060}'),
    (0xC2, '\u{00B4}'),
    (0xC3, '\u{02C6}'),
    (0xC4, '\u{02DC}'),
    (0xC5, '\u{00AF}'),
    (0xC6, '\u{02D8}'),
    (0xC7, '\u{02D9}'),
    (0xC8, '\u{00A8}'),
    (0xCA, '\u{02DA}'),
    (0xCB, '\u{00B8}'),
    (0xCD, '\u{02DD}'),
    (0xCE, '\u{02DB}'),
    (0xCF, '\u{02C7}'),
    (0xD0, '\u{2014}'),
    (0xE1, '\u{00C6}'),
    (0xE3, '\u{00AA}'),
    (0xE8, '\u{0141}'),
    (0xE9, '\u{00D8}'),
    (0xEA, '\u{0152}'),
    (0xEB, '\u{00BA}'),
    (0xF1, '\u{00E6}'),
    (0xF5, '\u{0131}'),
    (0xF8, '\u{0142}'),
    (0xF9, '\u{00F8}'),
    (0xFA, '\u{0153}'),
    (0xFB, '\u{00DF}'),
];

fn standard_chars() -> Vec<char> {
    let mut chars = vec!['\0'; 256];
    for code in 0x20u8..0x7F {
        chars[code as usize] = code as char;
    }
    chars[0x27] = '\u{2019}';
    chars[0x60] = '\u{2018}';
    for &(code, c) in STANDARD_HIGH {
        chars[code as usize] = c;
    }
    chars
}

fn latin_chars() -> Vec<char> {
    let mut chars = vec!['\0'; 256];
    for code in 0x20u8..0x7F {
        chars[code as usize] = code as char;
    }
    for code in 0xA0u8..=0xFF {
        chars[code as usize] = code as char;
    }
    chars
}

fn tables() -> EncodingTables {
    EncodingTables::new(
        ForwardMap::new(&standard_chars()),
        ForwardMap::new(&[]),
        ForwardMap::new(&[]),
        ForwardMap::new(&[]),
        ForwardMap::new(&latin_chars()),
        ForwardMap::new(&[]),
    )
}

#[test]
fn test_forward() {
    let standard = ForwardMap::new(&standard_chars());
    assert_eq!(standard.get(0xD0), Some('\u{2014}'));
}

#[test]
fn test_reverse() {
    let standard = ForwardMap::new(&standard_chars());
    let unicode_to_standard = ReverseMap::new(&standard);
    assert_eq!(unicode_to_standard.get(0x2014), Some(0xD0));
}

fn glyph_list() -> GlyphList {
    let entries = [
        ("A", "A"),
        ("a", "a"),
        ("Alpha", "Α"),
        ("gamma", "γ"),
        ("qofhatafpatah", "קֲ"),
        ("space", " "),
    ];
    GlyphList {
        entries: entries
            .iter()
            .map(|&(name, unicode)| GlyphName { name: name.into(), unicode: unicode.into() })
            .collect(),
    }
}

#[test]
fn test_glyphname() {
    let list = glyph_list();
    let cases = [("a", "a"), ("Alpha", "Α"), ("gamma", "γ"), ("qofhatafpatah", "קֲ")];
    for &(glyph, unicode) in cases.iter() {
        assert_eq!(glyphname_to_unicode(&list, glyph), Some(unicode));
    }
}

#[test]
fn glyph_names_that_are_not_listed_are_not_found() {
    let list = glyph_list();
    assert_eq!(glyphname_to_unicode(&list, "alpha"), None);
    assert_eq!(glyphname_to_unicode(&list, ""), None);
}

#[test]
fn entry_is_never_zero() {
    assert!(Entry::new('\0').is_none());
    let e = Entry::new('A').unwrap();
    assert_eq!(e.as_char(), 'A');
    assert_eq!(e.as_u32(), 65);
}

#[test]
fn forward_map_has_no_entry_beyond_its_table() {
    let map = ForwardMap::new(&['x', '\0', 'z']);
    assert_eq!(map.get(0), Some('x'));
    assert_eq!(map.get(1), None);
    assert_eq!(map.get(2), Some('z'));
    assert_eq!(map.get(3), None);
    assert_eq!(map.get(255), None);
}

#[test]
fn reverse_map_finds_every_character_of_the_forward_map() {
    let standard = ForwardMap::new(&standard_chars());
    let reverse = ReverseMap::new(&standard);
    for code in 0u8..=255 {
        if let Some(c) = standard.get(code) {
            let back = reverse.get(c as u32).expect("a byte for the character");
            assert_eq!(standard.get(back), Some(c));
        }
    }
    assert_eq!(reverse.get(0x1F600), None);
    assert_eq!(reverse.get(0), None);
}

#[test]
fn transcoder_between_encodings() {
    let tables = tables();
    let id = Encoding::AdobeStandard.to(Encoding::AdobeStandard, &tables).unwrap();
    assert!(matches!(id, Transcoder::Id));
    assert_eq!(id.translate(12345), Some(12345));

    let to_unicode = Encoding::AdobeStandard.to(Encoding::Unicode, &tables).unwrap();
    assert_eq!(to_unicode.translate(0xD0), Some(0x2014));
    assert_eq!(to_unicode.translate(0x41), Some(0x41));
    assert_eq!(to_unicode.translate(0x100), None);
    assert_eq!(to_unicode.translate(0x01), None);

    let from_unicode = Encoding::Unicode.to(Encoding::AdobeStandard, &tables).unwrap();
    assert_eq!(from_unicode.translate(0x2014), Some(0xD0));
    assert_eq!(from_unicode.translate(0x4E2D), None);

    // the section sign sits at A7 in both, the florin only in the standard encoding
    let across = Encoding::AdobeStandard.to(Encoding::WinAnsiEncoding, &tables).unwrap();
    assert_eq!(across.translate(0xA7), Some(0xA7));
    assert_eq!(across.translate(0xA8), Some(0xA4));
    assert_eq!(across.translate(0xA6), None);
}

#[test]
fn unicode_has_no_table() {
    let tables = tables();
    assert!(Encoding::Unicode.forward_map(&tables).is_none());
    assert!(Encoding::Unicode.reverse_map(&tables).is_none());
    assert!(Encoding::AdobeSymbol.forward_map(&tables).is_some());
    assert!(Encoding::MacRomanEncoding.reverse_map(&tables).is_some());
}

#[test]
fn difference_map_prefers_glyph_names() {
    let standard = ForwardMap::new(&standard_chars());
    let list = glyph_list();
    let mut names: HashMap<u32, String> = HashMap::new();
    names.insert(0x41, "Alpha".into());
    names.insert(0x42, "nosuchglyph".into());
    names.insert(0x01, "gamma".into());
    names.insert(0x300, "a".into());
    let map = DifferenceForwardMap::new(Some(&standard), &names, &list);
    assert_eq!(map.get(0x41).map(String::as_str), Some("Α"));
    assert_eq!(map.get(0x42).map(String::as_str), Some("B"));
    assert_eq!(map.get(0x43).map(String::as_str), Some("C"));
    assert_eq!(map.get(0x01).map(String::as_str), Some("γ"));
    assert_eq!(map.get(0x02), None);

    let bare = DifferenceForwardMap::new(None, &names, &list);
    assert_eq!(bare.get(0x41).map(String::as_str), Some("Α"));
    assert_eq!(bare.get(0x42), None);
    assert_eq!(bare.get(0x43), None);
}
