//! The tip of the tray icon.
use vstd::prelude::*;

use crate::utf16::{encode_wide, law_decode_of_encode, text_of, units_of};

verus! {

/// The code units that a tray icon has room for in its tip.
pub const TIP_LEN: usize = 128;

/// The tip of the program's tray icon.
pub open spec fn tray_tip() -> Seq<char> {
    "MemHover \u{2014} Memory Monitor"@
}

/// A tip as a tray icon holds it: as many of the code units as there is room for, then zeros.
pub open spec fn tip_units(tip: Seq<char>) -> Seq<u16> {
    Seq::new(
        TIP_LEN as nat,
        |i: int|
            if i < units_of(tip).len() {
                units_of(tip)[i]
            } else {
                0
            },
    )
}

/// A tip as a tray icon holds it.
pub fn tip_field(tip: &str) -> (field: [u16; TIP_LEN])
    ensures
        field@ == tip_units(tip@),
{
    let units = encode_wide(tip);
    let mut field: [u16; TIP_LEN] = [0u16; TIP_LEN];
    let len: usize = if units.len() < TIP_LEN {
        units.len()
    } else {
        TIP_LEN
    };
    let mut i: usize = 0;
    while i < len
        invariant
            i <= len <= TIP_LEN,
            len <= units.len(),
            units@ == units_of(tip@),
            field@.len() == TIP_LEN,
            forall|j: int| 0 <= j < i ==> field@[j] == units@[j],
            forall|j: int| i <= j < TIP_LEN ==> field@[j] == 0,
        decreases len - i,
    {
        field[i] = units[i];
        i += 1;
    }
    field
}

/// The program's tip as its tray icon holds it: all of it, then at least one zero.
pub fn tray_tip_field() -> (field: [u16; TIP_LEN])
    ensures
        field@ == tip_units(tray_tip()),
        units_of(tray_tip()).len() < TIP_LEN,
        field@.take(units_of(tray_tip()).len() as int) == units_of(tray_tip()),
{
    proof {
        reveal_strlit("MemHover \u{2014} Memory Monitor");
        lemma_units_len(tray_tip());
    }
    tip_field("MemHover \u{2014} Memory Monitor")
}

/// A text has at most two code units for each of its characters.
proof fn lemma_units_len(s: Seq<char>)
    ensures
        units_of(s).len() <= 2 * s.len(),
    decreases s.len(),
{
    if s.len() > 0 {
        lemma_units_len(s.skip(1));
    }
}

/// A tip that fits with a zero after it is kept whole, and ends at that zero.
pub proof fn law_short_tip_is_whole(tip: Seq<char>)
    requires
        units_of(tip).len() < TIP_LEN,
    ensures
        tip_units(tip).take(units_of(tip).len() as int) == units_of(tip),
        tip_units(tip)[units_of(tip).len() as int] == 0,
{
}

/// A tip has 128 code units: as many of the text's as there is room for, each in its place, then
/// zeros.
pub proof fn law_tip_units(tip: Seq<char>, i: int)
    requires
        0 <= i < 128,
    ensures
        tip_units(tip).len() == 128,
        i < units_of(tip).len() ==> tip_units(tip)[i] == units_of(tip)[i],
        i >= units_of(tip).len() ==> tip_units(tip)[i] == 0,
{
}

/// A tip with room for all of its text reads as the text.
pub proof fn law_tip_reads_as_its_text(tip: Seq<char>, n: int)
    requires
        n == units_of(tip).len(),
        n <= 128,
    ensures
        text_of(tip_units(tip).take(n)) == tip,
{
    assert(tip_units(tip).take(n) =~= units_of(tip));
    law_decode_of_encode(tip);
}

/// The program's tip reads as the program's name, a dash and what it is.
pub proof fn law_tray_tip_text(n: int)
    requires
        n == units_of("MemHover \u{2014} Memory Monitor"@).len(),
    ensures
        text_of(tip_units(tray_tip()).take(n)) == "MemHover \u{2014} Memory Monitor"@,
{
    reveal_strlit("MemHover \u{2014} Memory Monitor");
    lemma_units_len(tray_tip());
    law_tip_reads_as_its_text(tray_tip(), n);
}

} // verus!
