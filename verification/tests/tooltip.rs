use memhover::telemetry::Telemetry;
use memhover::tooltip::{has_frame, paint_plan, tooltip_frame, tooltip_lines};
use memhover::tooltip::{Frame, PaintOp, Point, Rect};
use memhover::utf16::decode_wide;

fn whole() -> Rect {
    Rect { left: 0, top: 0, right: 300, bottom: 70 }
}

#[test]
fn lines_of_a_program() {
    let telemetry = Telemetry {
        name: "app.exe".to_string(),
        total_ws: 157_286_400,
        total_commit: 1_310_720,
    };
    let lines = tooltip_lines(&telemetry);
    assert_eq!(lines.len(), 2);
    assert_eq!(decode_wide(&lines[0]), "App: app.exe\0");
    assert_eq!(decode_wide(&lines[1]), "Total WS: 150.0 MB | Commit: 1.2 MB\0");
    let text = format!("Total WS: {:.1} MB | Commit: {:.1} MB", 150.0f64, 1.25f64);
    let mut expected: Vec<u16> = text.encode_utf16().collect();
    expected.push(0);
    assert_eq!(lines[1], expected);
}

#[test]
fn overlay_is_above_and_right_of_the_cursor() {
    let frame = tooltip_frame(Point { x: 100, y: 1060 });
    assert_eq!(frame, Frame { x: 112, y: 990, width: 300, height: 70 });
    let negative = tooltip_frame(Point { x: -5, y: 3 });
    assert_eq!(negative, Frame { x: 7, y: -67, width: 300, height: 70 });
}

#[test]
fn positions_that_fit() {
    assert!(has_frame(Point { x: i32::MAX - 12, y: i32::MIN + 70 }));
    assert!(!has_frame(Point { x: i32::MAX - 11, y: 0 }));
    assert!(!has_frame(Point { x: 0, y: i32::MIN + 69 }));
    assert!(has_frame(Point { x: i32::MIN, y: i32::MAX }));
}

#[test]
fn backdrop_only_without_lines() {
    let backdrop = vec![
        PaintOp::Fill { rect: whole(), color: 0x001C_1C1C },
        PaintOp::Border { rect: whole(), color: 0x0033_3333 },
        PaintOp::TransparentText,
    ];
    assert_eq!(paint_plan(0), backdrop);
    assert_eq!(paint_plan(1), backdrop);
}

#[test]
fn both_lines_are_painted() {
    let ops = paint_plan(2);
    assert_eq!(ops.len(), 5);
    assert_eq!(ops[..3], paint_plan(0)[..]);
    assert_eq!(
        ops[3],
        PaintOp::Text {
            line: 0,
            bold: true,
            font_height: 16,
            color: 0x00FF_FFFF,
            rect: Rect { left: 15, top: 10, right: 300, bottom: 70 },
        }
    );
    assert_eq!(
        ops[4],
        PaintOp::Text {
            line: 1,
            bold: false,
            font_height: 14,
            color: 0x00AA_AAAA,
            rect: Rect { left: 15, top: 35, right: 300, bottom: 70 },
        }
    );
    assert_eq!(paint_plan(3), ops);
}
