//! UTF-16 code units, as wide-character interfaces carry text.
use vstd::prelude::*;

verus! {

/// The character that stands for a code unit that is half of no surrogate pair.
pub const REPLACEMENT: char = '\u{FFFD}';

/// Whether `unit` is the first half of a surrogate pair.
pub open spec fn is_high(unit: u16) -> bool {
    0xD800 <= unit <= 0xDBFF
}

/// Whether `unit` is the second half of a surrogate pair.
pub open spec fn is_low(unit: u16) -> bool {
    0xDC00 <= unit <= 0xDFFF
}

/// The character that the surrogate pair `high`, `low` stands for.
pub open spec fn pair_char(high: u16, low: u16) -> char {
    (0x10000 + (high - 0xD800) * 0x400 + (low - 0xDC00)) as char
}

/// The code units of one character: itself below U+10000, else a surrogate pair.
pub open spec fn char_units(c: char) -> Seq<u16> {
    if (c as int) < 0x10000 {
        seq![c as u16]
    } else {
        seq![
            (0xD800 + (c as int - 0x10000) / 0x400) as u16,
            (0xDC00 + (c as int - 0x10000) % 0x400) as u16,
        ]
    }
}

/// The code units of a text, one character after the other.
pub open spec fn units_of(s: Seq<char>) -> Seq<u16>
    decreases s.len(),
{
    if s.len() == 0 {
        Seq::empty()
    } else {
        char_units(s[0]) + units_of(s.skip(1))
    }
}

/// The text that `units` stand for: each surrogate pair and each other unit gives one
/// character, and a surrogate without its other half gives [`REPLACEMENT`].
pub open spec fn text_of(units: Seq<u16>) -> Seq<char>
    decreases units.len(),
{
    if units.len() == 0 {
        Seq::empty()
    } else if is_high(units[0]) && units.len() >= 2 && is_low(units[1]) {
        seq![pair_char(units[0], units[1])] + text_of(units.skip(2))
    } else if is_high(units[0]) || is_low(units[0]) {
        seq![REPLACEMENT] + text_of(units.skip(1))
    } else {
        seq![units[0] as char] + text_of(units.skip(1))
    }
}

/// `char::from_u32` gives the character with that number, and `None` for a number that
/// no character has: a surrogate, or one above U+10FFFF.
pub assume_specification[ char::from_u32 ](i: u32) -> (c: Option<char>)
    ensures
        c is Some <==> (i <= 0xD7FF || 0xE000 <= i <= 0x10FFFF),
        c matches Some(ch) ==> ch as u32 == i,
;

/// Every character has a number that is no surrogate and at most U+10FFFF, and the number
/// determines the character.
pub proof fn lemma_char_number(c: char)
    ensures
        0 <= c as int <= 0xD7FF || 0xE000 <= c as int <= 0x10FFFF,
        c as u32 == c as int,
        (c as int) as char == c,
        (c as u32) as char == c,
{
}

/// The character with the number `code`.
fn char_at_code(code: u32) -> (c: char)
    requires
        code <= 0xD7FF || 0xE000 <= code <= 0x10FFFF,
    ensures
        c == code as char,
{
    match char::from_u32(code) {
        Some(c) => {
            proof {
                lemma_char_number(c);
            }
            c
        },
        None => REPLACEMENT,
    }
}

/// The UTF-16 code units of `s`.
pub fn encode_wide(s: &str) -> (units: Vec<u16>)
    ensures
        units@ == units_of(s@),
{
    let chars = crate::text::chars_of(s);
    let mut units: Vec<u16> = Vec::new();
    let mut i: usize = 0;
    assert(s@.skip(0) == s@);
    while i < chars.len()
        invariant
            i <= chars.len(),
            chars@ == s@,
            units@ + units_of(s@.skip(i as int)) == units_of(s@),
        decreases chars.len() - i,
    {
        proof {
            lemma_char_number(chars@[i as int]);
        }
        let code: u32 = chars[i] as u32;
        assert(s@.skip(i as int).skip(1) == s@.skip(i + 1));
        let ghost before = units@;
        if code < 0x10000 {
            units.push(code as u16);
        } else {
            units.push((0xD800 + (code - 0x10000) / 0x400) as u16);
            units.push((0xDC00 + (code - 0x10000) % 0x400) as u16);
        }
        assert(units@ == before + char_units(chars@[i as int]));
        i += 1;
    }
    assert(s@.skip(i as int).len() == 0);
    units
}

/// The UTF-16 code units of `s`, then a zero unit.
pub fn encode_wide_with_null(s: &str) -> (units: Vec<u16>)
    ensures
        units@ == units_of(s@).push(0),
{
    let mut units = encode_wide(s);
    units.push(0);
    units
}

/// The text that `units` stand for, with [`REPLACEMENT`] for each lone surrogate.
pub fn decode_wide(units: &[u16]) -> (s: String)
    ensures
        s@ == text_of(units@),
{
    let mut s = String::new();
    let mut i: usize = 0;
    assert(units@.skip(0) == units@);
    while i < units.len()
        invariant
            i <= units.len(),
            s@ + text_of(units@.skip(i as int)) == text_of(units@),
        decreases units.len() - i,
    {
        let ghost rest = units@.skip(i as int);
        assert(rest.skip(1) == units@.skip(i + 1));
        let first: u16 = units[i];
        let ghost before = s@;
        if 0xD800 <= first && first <= 0xDBFF && units.len() - i >= 2 && 0xDC00 <= units[i + 1]
            && units[i + 1] <= 0xDFFF {
            assert(rest.skip(2) == units@.skip(i + 2));
            let low: u16 = units[i + 1];
            s.push(
                char_at_code(0x10000 + (first as u32 - 0xD800) * 0x400 + (low as u32 - 0xDC00)),
            );
            assert(s@ == before + seq![pair_char(first, low)]);
            i += 2;
        } else if 0xD800 <= first && first <= 0xDFFF {
            s.push(REPLACEMENT);
            assert(s@ == before + seq![REPLACEMENT]);
            i += 1;
        } else {
            s.push(char_at_code(first as u32));
            assert(s@ == before + seq![first as char]);
            i += 1;
        }
    }
    assert(units@.skip(i as int).len() == 0);
    s
}

/// Decoding the code units of a text gives the text back.
pub proof fn law_decode_of_encode(s: Seq<char>)
    ensures
        text_of(units_of(s)) == s,
    decreases s.len(),
{
    if s.len() > 0 {
        let c = s[0];
        lemma_char_number(c);
        law_decode_of_encode(s.skip(1));
        let units = units_of(s);
        assert(units.skip(char_units(c).len() as int) == units_of(s.skip(1)));
        if c as int >= 0x10000 {
            assert(is_high(units[0]) && is_low(units[1]));
            assert(pair_char(units[0], units[1]) == c);
        } else {
            assert(units[0] as char == c);
        }
        assert(seq![c] + s.skip(1) == s);
    }
}

/// Whether every surrogate in `units` is half of a pair.
pub open spec fn well_formed(units: Seq<u16>) -> bool
    decreases units.len(),
{
    if units.len() == 0 {
        true
    } else if is_high(units[0]) {
        units.len() >= 2 && is_low(units[1]) && well_formed(units.skip(2))
    } else {
        !is_low(units[0]) && well_formed(units.skip(1))
    }
}

/// Code units without a lone surrogate survive decoding and encoding unchanged.
pub proof fn law_encode_of_decode(units: Seq<u16>)
    requires
        well_formed(units),
    ensures
        units_of(text_of(units)) == units,
    decreases units.len(),
{
    if units.len() > 0 {
        let s = text_of(units);
        if is_high(units[0]) {
            law_encode_of_decode(units.skip(2));
            assert(s.skip(1) == text_of(units.skip(2)));
            assert(char_units(s[0]) == seq![units[0], units[1]]);
            assert(seq![units[0], units[1]] + units.skip(2) == units);
        } else {
            law_encode_of_decode(units.skip(1));
            assert(s.skip(1) == text_of(units.skip(1)));
            assert(char_units(s[0]) == seq![units[0]]);
            assert(seq![units[0]] + units.skip(1) == units);
        }
    }
}

/// The code units of a text hold no lone surrogate.
pub proof fn law_encode_is_well_formed(s: Seq<char>)
    ensures
        well_formed(units_of(s)),
    decreases s.len(),
{
    if s.len() > 0 {
        lemma_char_number(s[0]);
        law_encode_is_well_formed(s.skip(1));
        let units = units_of(s);
        assert(units.skip(char_units(s[0]).len() as int) == units_of(s.skip(1)));
    }
}

/// A text without a zero character has no zero among its code units, so the unit that
/// [`encode_wide_with_null`] adds is the only one that ends it.
pub proof fn law_null_only_at_end(s: Seq<char>)
    requires
        !s.contains('\0'),
    ensures
        !units_of(s).contains(0u16),
    decreases s.len(),
{
    if s.len() > 0 {
        lemma_char_number(s[0]);
        assert(s.contains(s[0]));
        assert forall|i: int| 0 <= i < s.skip(1).len() implies s.skip(1)[i] != '\0' by {
            assert(s.contains(s[i + 1]));
        }
        law_null_only_at_end(s.skip(1));
        let head = char_units(s[0]);
        let tail = units_of(s.skip(1));
        assert('\0' as int == 0);
        assert forall|i: int| 0 <= i < units_of(s).len() implies units_of(s)[i] != 0u16 by {
            if i >= head.len() {
                assert(tail.contains(tail[i - head.len()]));
            }
        }
    }
}

/// Texts are encoded piece by piece.
pub proof fn law_encode_of_concat(a: Seq<char>, b: Seq<char>)
    ensures
        units_of(a + b) == units_of(a) + units_of(b),
    decreases a.len(),
{
    if a.len() == 0 {
        assert(a + b == b);
    } else {
        law_encode_of_concat(a.skip(1), b);
        assert((a + b).skip(1) == a.skip(1) + b);
    }
}

/// A text of characters below U+10000 has one code unit for each, with the character's number.
pub proof fn law_plain_characters_are_their_units(s: Seq<char>)
    requires
        forall|i: int| 0 <= i < s.len() ==> (#[trigger] s[i] as int) < 0x10000,
    ensures
        units_of(s).len() == s.len(),
        forall|i: int| 0 <= i < s.len() ==> #[trigger] units_of(s)[i] as int == s[i] as int,
    decreases s.len(),
{
    if s.len() > 0 {
        lemma_char_number(s[0]);
        law_plain_characters_are_their_units(s.skip(1));
        assert forall|i: int| 0 <= i < s.len() implies #[trigger] units_of(s)[i] as int
            == s[i] as int by {
            if i > 0 {
                assert(units_of(s)[i] == units_of(s.skip(1))[i - 1]);
                assert(s.skip(1)[i - 1] == s[i]);
            }
        }
    }
}

/// A character from U+10000 on has two code units: a high and a low surrogate that hold the
/// upper and the lower ten bits of its number less 0x10000.
pub proof fn law_large_characters_are_pairs(c: char)
    requires
        c as int >= 0x10000,
    ensures
        ({
            let units = units_of(seq![c]);
            &&& units.len() == 2
            &&& 0xD800 <= units[0] <= 0xDBFF
            &&& 0xDC00 <= units[1] <= 0xDFFF
            &&& c as int == 0x10000 + (units[0] - 0xD800) * 1024 + (units[1] - 0xDC00)
        }),
{
    lemma_char_number(c);
    assert(seq![c].skip(1).len() == 0);
    assert(units_of(seq![c].skip(1)).len() == 0);
}

/// A code unit that is no surrogate reads as the character with its number, wherever it
/// stands; a surrogate alone reads as U+FFFD.
pub proof fn law_single_units_read(unit: u16)
    ensures
        text_of(seq![unit]).len() == 1,
        unit < 0xD800 || unit > 0xDFFF ==> text_of(seq![unit])[0] as int == unit,
        0xD800 <= unit <= 0xDFFF ==> text_of(seq![unit])[0] == '\u{FFFD}',
{
    assert(seq![unit].skip(1).len() == 0);
    assert(text_of(seq![unit].skip(1)).len() == 0);
}

/// A high and a low surrogate read as one character.
pub proof fn law_surrogate_pairs_read(high: u16, low: u16)
    requires
        0xD800 <= high <= 0xDBFF,
        0xDC00 <= low <= 0xDFFF,
    ensures
        text_of(seq![high, low]).len() == 1,
        text_of(seq![high, low])[0] as int == 0x10000 + (high - 0xD800) * 1024 + (low - 0xDC00),
{
    assert(seq![high, low].skip(2).len() == 0);
    assert(text_of(seq![high, low].skip(2)).len() == 0);
}

/// Code units are read piece by piece, as long as no surrogate pair is torn apart.
pub proof fn law_decode_of_concat(a: Seq<u16>, b: Seq<u16>)
    requires
        a.len() > 0 && b.len() > 0 ==> !(0xD800 <= a.last() <= 0xDBFF && 0xDC00 <= b[0] <= 0xDFFF),
    ensures
        text_of(a + b) == text_of(a) + text_of(b),
    decreases a.len(),
{
    if a.len() == 0 {
        assert(a + b == b);
        assert(text_of(a) + text_of(b) == text_of(b));
    } else if is_high(a[0]) && a.len() >= 2 && is_low(a[1]) {
        law_decode_of_concat(a.skip(2), b);
        assert((a + b).skip(2) == a.skip(2) + b);
        assert(text_of(a + b) == seq![pair_char(a[0], a[1])] + (text_of(a.skip(2)) + text_of(b)));
        assert(text_of(a + b) == text_of(a) + text_of(b));
    } else {
        law_decode_of_concat(a.skip(1), b);
        assert((a + b).skip(1) == a.skip(1) + b);
        let c = if is_high(a[0]) || is_low(a[0]) { REPLACEMENT } else { a[0] as char };
        assert(text_of(a) == seq![c] + text_of(a.skip(1)));
        assert(text_of(a + b) == seq![c] + (text_of(a.skip(1)) + text_of(b)));
        assert(text_of(a + b) == text_of(a) + text_of(b));
    }
}

} // verus!
