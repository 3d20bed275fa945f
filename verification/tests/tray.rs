use memhover::tray::{tip_field, tray_tip_field};

#[test]
fn program_tip_is_whole() {
    let field = tray_tip_field();
    let expected: Vec<u16> = "MemHover \u{2014} Memory Monitor".encode_utf16().collect();
    assert_eq!(field[..expected.len()], expected[..]);
    assert!(field[expected.len()..].iter().all(|&u| u == 0));
}

#[test]
fn long_tip_is_cut() {
    let text = "x".repeat(200);
    assert_eq!(tip_field(&text), [0x78u16; 128]);
    let fits = tip_field(&text[..127]);
    assert_eq!((fits[126], fits[127]), (0x78, 0));
}

#[test]
fn empty_tip_is_zeros() {
    assert_eq!(tip_field(""), [0u16; 128]);
}
