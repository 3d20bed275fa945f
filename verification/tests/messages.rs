use memhover::messages::{on_main_message, on_tooltip_message, MainAction, TooltipAction};
use memhover::messages::{WM_COMMAND, WM_DESTROY, WM_PAINT, WM_TIMER, WM_TRAYICON};

#[test]
fn timer_polls_the_cursor() {
    assert_eq!(on_main_message(WM_TIMER, 1, 0), MainAction::PollCursor);
    assert_eq!(on_main_message(WM_TIMER, 2, 0), MainAction::Nothing);
    assert_eq!(on_main_message(0x0113, 1, -1), MainAction::PollCursor);
}

#[test]
fn right_click_on_the_icon_shows_the_menu() {
    assert_eq!(on_main_message(WM_TRAYICON, 0, 0x0205), MainAction::ShowMenu);
    assert_eq!(on_main_message(WM_TRAYICON, 0, 0x0202), MainAction::Nothing);
    assert_eq!(on_main_message(0x8001, 7, 0x0205), MainAction::ShowMenu);
}

#[test]
fn only_the_lower_bits_of_the_icon_event_count() {
    for lparam in [0x1_0000_0205isize, -0xFFFF_FDFBisize, 0x7FFF_0000_0205, -1, -0x205] {
        let shown = on_main_message(WM_TRAYICON, 0, lparam) == MainAction::ShowMenu;
        assert_eq!(shown, lparam as u32 == 0x0205);
    }
    assert_eq!(on_main_message(WM_TRAYICON, 0, -0xFFFF_FDFB), MainAction::ShowMenu);
}

#[test]
fn exit_command_quits() {
    assert_eq!(on_main_message(WM_COMMAND, 1001, 0), MainAction::Quit);
    assert_eq!(on_main_message(WM_COMMAND, 0x5_0000 + 1001, 0), MainAction::Quit);
    assert_eq!(on_main_message(WM_COMMAND, 1002, 0), MainAction::Nothing);
}

#[test]
fn destroying_removes_the_icon() {
    assert_eq!(on_main_message(WM_DESTROY, 0, 0), MainAction::RemoveIconAndQuit);
}

#[test]
fn other_messages_are_left_to_the_system() {
    for msg in [0u32, 1, 3, 0x000F, 0x0112, 0x8000, 0x8002, u32::MAX] {
        assert_eq!(on_main_message(msg, 1001, 0x0205), MainAction::Default);
    }
}

#[test]
fn overlay_paints_on_request_only() {
    assert_eq!(on_tooltip_message(WM_PAINT), TooltipAction::Paint);
    assert_eq!(on_tooltip_message(WM_DESTROY), TooltipAction::Default);
    assert_eq!(on_tooltip_message(0x000F), TooltipAction::Paint);
}
