use memhover::utf16::{decode_wide, encode_wide, encode_wide_with_null, REPLACEMENT};

const TEXTS: [&str; 6] = [
    "",
    "MemHover",
    "caf\u{e9} \u{20ac} \u{2014}",
    "\u{1F600}x\u{10FFFF}\u{10000}",
    "\u{D7FF}\u{E000}\u{FFFF}",
    "zero\0inside",
];

#[test]
fn encodes_as_std_does() {
    for s in TEXTS {
        let expected: Vec<u16> = s.encode_utf16().collect();
        assert_eq!(encode_wide(s), expected);
    }
    assert_eq!(encode_wide("\u{1F600}"), vec![0xD83D, 0xDE00]);
}

#[test]
fn terminated_encoding_adds_one_zero() {
    for s in TEXTS {
        let mut expected: Vec<u16> = s.encode_utf16().collect();
        expected.push(0);
        assert_eq!(encode_wide_with_null(s), expected);
    }
    assert_eq!(encode_wide_with_null("ab"), vec![97, 98, 0]);
}

#[test]
fn decoding_undoes_encoding() {
    for s in TEXTS {
        assert_eq!(decode_wide(&encode_wide(s)), s);
    }
}

#[test]
fn encoding_undoes_decoding_of_well_formed_units() {
    let units: Vec<u16> = vec![0x41, 0xD800, 0xDC00, 0xFFFF, 0xDBFF, 0xDFFF];
    assert_eq!(encode_wide(&decode_wide(&units)), units);
}

#[test]
fn lone_surrogates_are_replaced_one_by_one() {
    let cases: [&[u16]; 7] = [
        &[0xD800],
        &[0xDC00],
        &[0xD800, 0x41],
        &[0xDC00, 0xD800],
        &[0xD800, 0xD800, 0xDC00],
        &[0x41, 0xDFFF, 0x42, 0xDBFF],
        &[0xDBFF, 0xDBFF],
    ];
    for units in cases {
        assert_eq!(decode_wide(units), String::from_utf16_lossy(units));
    }
    assert_eq!(decode_wide(&[0xD800, 0x41]), "\u{FFFD}A");
    assert_eq!(REPLACEMENT, char::REPLACEMENT_CHARACTER);
}

#[test]
fn every_unit_decodes_as_std_does() {
    for unit in 0..=u16::MAX {
        let units = [0x61, unit, 0xDC37];
        assert_eq!(decode_wide(&units), String::from_utf16_lossy(&units));
    }
}

#[test]
fn encoding_without_zero_has_no_zero_inside() {
    let units = encode_wide_with_null("Segoe UI \u{1F4A1}");
    let first_zero = units.iter().position(|&u| u == 0);
    assert_eq!(first_zero, Some(units.len() - 1));
}

#[test]
fn concatenations_are_encoded_piece_by_piece() {
    let mut pieces = encode_wide("App: ");
    pieces.extend(encode_wide("\u{1F600}.exe"));
    assert_eq!(encode_wide("App: \u{1F600}.exe"), pieces);
}
