//! The overlay: what it says, where it appears, and how it is painted.
use vstd::prelude::*;
use vstd::string::*;

use crate::mebibytes::{decimal, law_text_reads_as_mebibytes, law_whole_mebibytes, mebibytes};
use crate::mebibytes::{mebibytes_text, shows_bytes};
use crate::telemetry::Telemetry;
use crate::utf16::{encode_wide_with_null, law_decode_of_encode, law_encode_of_concat};
use crate::utf16::{text_of, units_of};

verus! {

/// The width of the overlay in pixels.
pub const TOOLTIP_WIDTH: i32 = 300;

/// The height of the overlay in pixels.
pub const TOOLTIP_HEIGHT: i32 = 70;

/// How far to the right of the cursor the overlay appears.
pub const CURSOR_OFFSET: i32 = 12;

/// The colour of the background, as `0x00BBGGRR`.
pub const BACKGROUND_COLOR: u32 = 0x001C_1C1C;

/// The colour of the border.
pub const BORDER_COLOR: u32 = 0x0033_3333;

/// The colour of the first line.
pub const NAME_COLOR: u32 = 0x00FF_FFFF;

/// The colour of the second line.
pub const STATS_COLOR: u32 = 0x00AA_AAAA;

/// The height of the bold font of the first line.
pub const NAME_FONT_HEIGHT: i32 = 16;

/// The height of the plain font of the second line.
pub const STATS_FONT_HEIGHT: i32 = 14;

/// A position on the screen.
#[derive(Clone, Copy, PartialEq, Eq, Structural, Debug)]
pub struct Point {
    pub x: i32,
    pub y: i32,
}

/// Where a window is put: its upper left corner and its size.
#[derive(Clone, Copy, PartialEq, Eq, Structural, Debug)]
pub struct Frame {
    pub x: i32,
    pub y: i32,
    pub width: i32,
    pub height: i32,
}

/// A rectangle inside a window.
#[derive(Clone, Copy, PartialEq, Eq, Structural, Debug)]
pub struct Rect {
    pub left: i32,
    pub top: i32,
    pub right: i32,
    pub bottom: i32,
}

/// One step of painting the overlay.
#[derive(Clone, Copy, PartialEq, Eq, Structural, Debug)]
pub enum PaintOp {
    /// Fill the rectangle with the colour.
    Fill { rect: Rect, color: u32 },
    /// Draw a border just inside the rectangle.
    Border { rect: Rect, color: u32 },
    /// Leave the background of text as it is.
    TransparentText,
    /// Draw a line of text, by its index, in a single line from the upper left corner of the
    /// rectangle.
    Text { line: usize, bold: bool, font_height: i32, color: u32, rect: Rect },
}

/// Whether the overlay for a cursor at `at` has a position.
pub open spec fn frame_fits(at: Point) -> bool {
    at.x + CURSOR_OFFSET <= i32::MAX && at.y - TOOLTIP_HEIGHT >= i32::MIN
}

/// Where the overlay appears for a cursor at `at`: above it and to the right.
pub open spec fn frame_for(at: Point) -> Frame {
    Frame {
        x: (at.x + CURSOR_OFFSET) as i32,
        y: (at.y - TOOLTIP_HEIGHT) as i32,
        width: TOOLTIP_WIDTH,
        height: TOOLTIP_HEIGHT,
    }
}

/// The first line for a program.
pub open spec fn name_line(name: Seq<char>) -> Seq<char> {
    "App: "@ + name
}

/// The second line for a program with these sums, in bytes.
pub open spec fn stats_line(total_ws: nat, total_commit: nat) -> Seq<char> {
    "Total WS: "@ + mebibytes(total_ws) + " MB | Commit: "@ + mebibytes(total_commit) + " MB"@
}

/// The code units of both lines for a program, each with a zero unit at its end.
pub open spec fn line_units(name: Seq<char>, total_ws: nat, total_commit: nat) -> Seq<Seq<u16>> {
    seq![
        units_of(name_line(name)).push(0),
        units_of(stats_line(total_ws, total_commit)).push(0),
    ]
}

/// The code units in each of `lines`.
pub open spec fn units_in(lines: Seq<Vec<u16>>) -> Seq<Seq<u16>> {
    lines.map_values(|line: Vec<u16>| line@)
}

/// The whole of the overlay.
pub open spec fn whole_overlay() -> Rect {
    Rect { left: 0, top: 0, right: TOOLTIP_WIDTH, bottom: TOOLTIP_HEIGHT }
}

/// The place of the first line.
pub open spec fn name_place() -> Rect {
    Rect { left: 15, top: 10, right: TOOLTIP_WIDTH, bottom: TOOLTIP_HEIGHT }
}

/// The place of the second line.
pub open spec fn stats_place() -> Rect {
    Rect { left: 15, top: 35, right: TOOLTIP_WIDTH, bottom: TOOLTIP_HEIGHT }
}

/// The background and the border of the overlay.
pub open spec fn backdrop() -> Seq<PaintOp> {
    seq![
        PaintOp::Fill { rect: whole_overlay(), color: BACKGROUND_COLOR },
        PaintOp::Border { rect: whole_overlay(), color: BORDER_COLOR },
        PaintOp::TransparentText,
    ]
}

/// The first line in bold, and the second below it.
pub open spec fn lettering() -> Seq<PaintOp> {
    seq![
        PaintOp::Text {
            line: 0,
            bold: true,
            font_height: NAME_FONT_HEIGHT,
            color: NAME_COLOR,
            rect: name_place(),
        },
        PaintOp::Text {
            line: 1,
            bold: false,
            font_height: STATS_FONT_HEIGHT,
            color: STATS_COLOR,
            rect: stats_place(),
        },
    ]
}

/// How the overlay is painted with `lines` lines to show: the backdrop, and the lettering if
/// both lines are there.
pub open spec fn painting(lines: nat) -> Seq<PaintOp> {
    if lines >= 2 {
        backdrop() + lettering()
    } else {
        backdrop()
    }
}

/// Whether the overlay for a cursor at `at` has a position.
pub fn has_frame(at: Point) -> (fits: bool)
    ensures
        fits == frame_fits(at),
{
    at.x <= i32::MAX - CURSOR_OFFSET && at.y >= i32::MIN + TOOLTIP_HEIGHT
}

/// Where the overlay appears for a cursor at `at`.
pub fn tooltip_frame(at: Point) -> (frame: Frame)
    requires
        frame_fits(at),
    ensures
        frame == frame_for(at),
{
    Frame {
        x: at.x + CURSOR_OFFSET,
        y: at.y - TOOLTIP_HEIGHT,
        width: TOOLTIP_WIDTH,
        height: TOOLTIP_HEIGHT,
    }
}

/// The code units of the two lines that the overlay shows for a program.
pub fn tooltip_lines(telemetry: &Telemetry) -> (lines: Vec<Vec<u16>>)
    ensures
        units_in(lines@) == line_units(
            telemetry.name@,
            telemetry.total_ws as nat,
            telemetry.total_commit as nat,
        ),
{
    let mut first = "App: ".to_owned();
    first.append(telemetry.name.as_str());
    let mut second = "Total WS: ".to_owned();
    second.append(mebibytes_text(telemetry.total_ws as u64).as_str());
    second.append(" MB | Commit: ");
    second.append(mebibytes_text(telemetry.total_commit as u64).as_str());
    second.append(" MB");
    let mut lines: Vec<Vec<u16>> = Vec::new();
    lines.push(encode_wide_with_null(first.as_str()));
    lines.push(encode_wide_with_null(second.as_str()));
    assert(units_in(lines@) =~= line_units(
        telemetry.name@,
        telemetry.total_ws as nat,
        telemetry.total_commit as nat,
    ));
    lines
}

/// The steps of painting the overlay with `lines` lines to show.
pub fn paint_plan(lines: usize) -> (ops: Vec<PaintOp>)
    ensures
        ops@ == painting(lines as nat),
{
    let whole = Rect { left: 0, top: 0, right: TOOLTIP_WIDTH, bottom: TOOLTIP_HEIGHT };
    let mut ops: Vec<PaintOp> = Vec::new();
    ops.push(PaintOp::Fill { rect: whole, color: BACKGROUND_COLOR });
    ops.push(PaintOp::Border { rect: whole, color: BORDER_COLOR });
    ops.push(PaintOp::TransparentText);
    if lines >= 2 {
        ops.push(
            PaintOp::Text {
                line: 0,
                bold: true,
                font_height: NAME_FONT_HEIGHT,
                color: NAME_COLOR,
                rect: Rect { left: 15, top: 10, ..whole },
            },
        );
        ops.push(
            PaintOp::Text {
                line: 1,
                bold: false,
                font_height: STATS_FONT_HEIGHT,
                color: STATS_COLOR,
                rect: Rect { left: 15, top: 35, ..whole },
            },
        );
    }
    ops
}

/// Whatever is painted as text is one of the lines that are there.
pub proof fn law_painting_shows_existing_lines(lines: nat, i: int)
    requires
        0 <= i < painting(lines).len(),
    ensures
        painting(lines)[i] matches PaintOp::Text { line, .. } ==> line < lines,
{
}

/// Everything is painted inside the overlay.
pub proof fn law_painting_stays_inside(lines: nat, i: int)
    requires
        0 <= i < painting(lines).len(),
    ensures
        match painting(lines)[i] {
            PaintOp::Fill { rect, .. } | PaintOp::Border { rect, .. } | PaintOp::Text {
                rect,
                ..
            } => 0 <= rect.left < rect.right <= TOOLTIP_WIDTH && 0 <= rect.top < rect.bottom
                <= TOOLTIP_HEIGHT,
            PaintOp::TransparentText => true,
        },
{
}

/// The overlay does not cover the cursor: it ends where the cursor is, or above.
pub proof fn law_overlay_is_off_the_cursor(at: Point)
    requires
        frame_fits(at),
    ensures
        frame_for(at).y + frame_for(at).height <= at.y,
        frame_for(at).x > at.x,
{
}

/// The lines read back, zero character included, as the texts they were made of.
pub proof fn law_lines_read_back(name: Seq<char>, total_ws: nat, total_commit: nat)
    ensures
        line_units(name, total_ws, total_commit).len() == 2,
        text_of(line_units(name, total_ws, total_commit)[0]) == name_line(name).push('\0'),
        text_of(line_units(name, total_ws, total_commit)[1]) == stats_line(
            total_ws,
            total_commit,
        ).push('\0'),
{
    lemma_terminated(name_line(name));
    lemma_terminated(stats_line(total_ws, total_commit));
}

/// A zero unit after the code units of a text is a zero character after the text.
proof fn lemma_terminated(s: Seq<char>)
    ensures
        text_of(units_of(s).push(0)) == s.push('\0'),
{
    let zero = seq!['\0'];
    assert(zero.skip(1).len() == 0);
    assert(units_of(zero.skip(1)).len() == 0);
    assert(units_of(zero) == seq![0u16]);
    law_encode_of_concat(s, zero);
    assert(s + zero == s.push('\0'));
    assert(units_of(s) + seq![0u16] == units_of(s).push(0));
    law_decode_of_encode(s.push('\0'));
}

/// Each line holds its own code units.
pub proof fn law_units_in(lines: Seq<Vec<u16>>, i: int)
    requires
        0 <= i < lines.len(),
    ensures
        units_in(lines).len() == lines.len(),
        units_in(lines)[i] == lines[i]@,
{
}

/// The first line names the program, and ends in a zero character.
pub proof fn law_first_line_names_the_program(name: Seq<char>, total_ws: nat, total_commit: nat)
    ensures
        text_of(line_units(name, total_ws, total_commit)[0]) == ("App: "@ + name).push('\0'),
{
    law_lines_read_back(name, total_ws, total_commit);
}

/// The second line gives both sums in mebibytes, the working sets first: the numbers in it read
/// as the sums, rounded to a tenth.
pub proof fn law_second_line_shows_both_sums(name: Seq<char>, total_ws: nat, total_commit: nat)
    requires
        total_ws <= u64::MAX,
        total_commit <= u64::MAX,
    ensures
        line_units(name, total_ws, total_commit).len() == 2,
        exists|x: Seq<char>, y: Seq<char>|
            {
                &&& text_of(line_units(name, total_ws, total_commit)[1])
                    == #[trigger] ("Total WS: "@ + x + " MB | Commit: "@ + y + " MB"@).push('\0')
                &&& shows_bytes(x, total_ws)
                &&& shows_bytes(y, total_commit)
            },
{
    law_lines_read_back(name, total_ws, total_commit);
    law_text_reads_as_mebibytes(total_ws);
    law_text_reads_as_mebibytes(total_commit);
    let x = mebibytes(total_ws);
    let y = mebibytes(total_commit);
    assert(text_of(line_units(name, total_ws, total_commit)[1]) == ("Total WS: "@ + x
        + " MB | Commit: "@ + y + " MB"@).push('\0'));
}

/// Sums of whole mebibytes are given as those numbers, with a zero after the point.
pub proof fn law_second_line_of_whole_mebibytes(name: Seq<char>, m: nat, k: nat)
    requires
        m * 1048576 <= u64::MAX,
        k * 1048576 <= u64::MAX,
    ensures
        text_of(line_units(name, m * 1048576, k * 1048576)[1]) == ("Total WS: "@ + decimal(m)
            + ".0 MB | Commit: "@ + decimal(k) + ".0 MB"@).push('\0'),
{
    law_lines_read_back(name, m * 1048576, k * 1048576);
    law_whole_mebibytes(m);
    law_whole_mebibytes(k);
    reveal_strlit(".0 MB | Commit: ");
    reveal_strlit(" MB | Commit: ");
    reveal_strlit(".0 MB");
    reveal_strlit(" MB");
    assert(seq!['.', '0'] + " MB | Commit: "@ =~= ".0 MB | Commit: "@);
    assert(seq!['.', '0'] + " MB"@ =~= ".0 MB"@);
    assert("Total WS: "@ + (decimal(m) + seq!['.', '0']) + " MB | Commit: "@ + (decimal(k) + seq![
        '.',
        '0',
    ]) + " MB"@ =~= "Total WS: "@ + decimal(m) + (seq!['.', '0'] + " MB | Commit: "@) + decimal(k)
        + (seq!['.', '0'] + " MB"@));
}

/// The overlay is 300 by 70 pixels, 12 to the right of the cursor and 70 above it, wherever that
/// is a position.
pub proof fn law_frame_by_numbers(at: Point)
    ensures
        frame_fits(at) <==> at.x <= 2147483635 && at.y >= -2147483578,
        frame_fits(at) ==> frame_for(at).x == at.x + 12 && frame_for(at).y == at.y - 70,
        frame_for(at).width == 300,
        frame_for(at).height == 70,
{
}

/// A move of the cursor moves the overlay as far.
pub proof fn law_overlay_follows_the_cursor(a: Point, b: Point)
    requires
        frame_fits(a),
        frame_fits(b),
    ensures
        frame_for(b).x - frame_for(a).x == b.x - a.x,
        frame_for(b).y - frame_for(a).y == b.y - a.y,
        frame_for(b).width == frame_for(a).width,
        frame_for(b).height == frame_for(a).height,
{
}

/// The painting by its numbers: the dark background and the border over all of the overlay, and,
/// if there are two lines or more, the first at (15, 10) in bold white and the second at (15, 35)
/// in gray.
pub proof fn law_painting_by_numbers(lines: nat)
    ensures
        painting(lines).len() == if lines < 2 {
            3int
        } else {
            5int
        },
        painting(lines)[0] == (PaintOp::Fill {
            rect: Rect { left: 0, top: 0, right: 300, bottom: 70 },
            color: 0x1C1C1C,
        }),
        painting(lines)[1] == (PaintOp::Border {
            rect: Rect { left: 0, top: 0, right: 300, bottom: 70 },
            color: 0x333333,
        }),
        painting(lines)[2] is TransparentText,
        lines >= 2 ==> painting(lines)[3] == (PaintOp::Text {
            line: 0,
            bold: true,
            font_height: 16,
            color: 0xFFFFFF,
            rect: Rect { left: 15, top: 10, right: 300, bottom: 70 },
        }),
        lines >= 2 ==> painting(lines)[4] == (PaintOp::Text {
            line: 1,
            bold: false,
            font_height: 14,
            color: 0xAAAAAA,
            rect: Rect { left: 15, top: 35, right: 300, bottom: 70 },
        }),
{
}

} // verus!
