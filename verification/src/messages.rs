//! What the windows do on the messages they get.
use vstd::prelude::*;

verus! {

/// A window is being destroyed.
pub const WM_DESTROY: u32 = 0x0002;

/// A window has to be painted.
pub const WM_PAINT: u32 = 0x000F;

/// A menu item was chosen.
pub const WM_COMMAND: u32 = 0x0111;

/// A timer has run out.
pub const WM_TIMER: u32 = 0x0113;

/// The right mouse button was released.
pub const WM_RBUTTONUP: u32 = 0x0205;

/// The first message number that is free for applications.
pub const WM_APP: u32 = 0x8000;

/// Something happened on the tray icon.
pub const WM_TRAYICON: u32 = WM_APP + 1;

/// The timer at which the cursor is looked up.
pub const HOOK_CHECK_TIMER_ID: usize = 1;

/// The menu item that ends the program.
pub const EXIT_COMMAND_ID: u32 = 1001;

/// What the hidden main window does on a message.
#[derive(Clone, Copy, PartialEq, Eq, Structural, Debug)]
pub enum MainAction {
    /// Look up the cursor and update the overlay.
    PollCursor,
    /// Show the menu of the tray icon.
    ShowMenu,
    /// End the program.
    Quit,
    /// Take the tray icon away, then end the program.
    RemoveIconAndQuit,
    /// Nothing; the message is dealt with.
    Nothing,
    /// What windows do by default.
    Default,
}

/// What the overlay does on a message.
#[derive(Clone, Copy, PartialEq, Eq, Structural, Debug)]
pub enum TooltipAction {
    /// Paint itself.
    Paint,
    /// What windows do by default.
    Default,
}

/// What the main window does on the message `msg` with the parameters `wparam` and `lparam`.
/// Of `lparam` the lower 32 bits count for a message of the tray icon, and of `wparam` the
/// lower 16 bits for a command.
pub open spec fn main_action(msg: u32, wparam: int, lparam: int) -> MainAction {
    if msg == WM_TIMER {
        if wparam == HOOK_CHECK_TIMER_ID {
            MainAction::PollCursor
        } else {
            MainAction::Nothing
        }
    } else if msg == WM_TRAYICON {
        if lparam % 0x1_0000_0000 == WM_RBUTTONUP {
            MainAction::ShowMenu
        } else {
            MainAction::Nothing
        }
    } else if msg == WM_COMMAND {
        if wparam % 0x1_0000 == EXIT_COMMAND_ID {
            MainAction::Quit
        } else {
            MainAction::Nothing
        }
    } else if msg == WM_DESTROY {
        MainAction::RemoveIconAndQuit
    } else {
        MainAction::Default
    }
}

/// What the overlay does on the message `msg`.
pub open spec fn tooltip_action(msg: u32) -> TooltipAction {
    if msg == WM_PAINT {
        TooltipAction::Paint
    } else {
        TooltipAction::Default
    }
}

/// What the main window does on a message.
pub fn on_main_message(msg: u32, wparam: usize, lparam: isize) -> (action: MainAction)
    ensures
        action == main_action(msg, wparam as int, lparam as int),
{
    match msg {
        WM_TIMER => {
            if wparam == HOOK_CHECK_TIMER_ID {
                MainAction::PollCursor
            } else {
                MainAction::Nothing
            }
        },
        WM_TRAYICON => {
            let wide: i64 = lparam as i64;
            let event: u32 = #[verifier::truncate] (wide as u32);
            assert(wide as u32 == wide % 0x1_0000_0000) by (bit_vector);
            if event == WM_RBUTTONUP {
                MainAction::ShowMenu
            } else {
                MainAction::Nothing
            }
        },
        WM_COMMAND => {
            assert(wparam & 0xFFFF == wparam % 0x1_0000) by (bit_vector);
            if (wparam & 0xFFFF) as u32 == EXIT_COMMAND_ID {
                MainAction::Quit
            } else {
                MainAction::Nothing
            }
        },
        WM_DESTROY => MainAction::RemoveIconAndQuit,
        _ => MainAction::Default,
    }
}

/// What the overlay does on a message.
pub fn on_tooltip_message(msg: u32) -> (action: TooltipAction)
    ensures
        action == tooltip_action(msg),
        action == TooltipAction::Paint <==> msg == WM_PAINT,
{
    if msg == WM_PAINT {
        TooltipAction::Paint
    } else {
        TooltipAction::Default
    }
}

/// The program ends only on its menu command and when its window is destroyed, and only the
/// latter takes the tray icon away first.
pub proof fn law_quits_only_on_request(msg: u32, wparam: int, lparam: int)
    ensures
        main_action(msg, wparam, lparam) == MainAction::Quit <==> msg == WM_COMMAND && wparam
            % 0x1_0000 == EXIT_COMMAND_ID,
        main_action(msg, wparam, lparam) == MainAction::RemoveIconAndQuit <==> msg == WM_DESTROY,
{
}

/// Every message that is not one of the window's own gets the default treatment.
pub proof fn law_other_messages_get_default(msg: u32, wparam: int, lparam: int)
    ensures
        main_action(msg, wparam, lparam) == MainAction::Default <==> msg != WM_TIMER && msg
            != WM_TRAYICON && msg != WM_COMMAND && msg != WM_DESTROY,
{
}

/// The messages by their numbers: a timer polls if it is timer 1, an event of the tray icon shows
/// the menu if it is a right click, a command ends the program if it is number 1001, destruction
/// takes the icon away, and everything else gets the default treatment.
pub proof fn law_messages_by_number(msg: u32, wparam: int, lparam: int)
    ensures
        main_action(msg, wparam, lparam) == MainAction::PollCursor <==> msg == 275 && wparam == 1,
        main_action(msg, wparam, lparam) == MainAction::ShowMenu <==> msg == 32769 && lparam
            % 4294967296 == 517,
        main_action(msg, wparam, lparam) == MainAction::Quit <==> msg == 273 && wparam % 65536
            == 1001,
        main_action(msg, wparam, lparam) == MainAction::RemoveIconAndQuit <==> msg == 2,
        main_action(msg, wparam, lparam) == MainAction::Default <==> msg != 275 && msg != 32769
            && msg != 273 && msg != 2,
{
}

/// A message is treated the same whatever stands in the bits that do not count.
pub proof fn law_upper_bits_do_not_count(wparam: int, lparam: int, k: int)
    ensures
        main_action(32769, wparam, lparam) == main_action(32769, k, lparam + k * 4294967296),
        main_action(273, wparam, lparam) == main_action(273, wparam + k * 65536, k),
        main_action(275, wparam, lparam) == main_action(275, wparam, k),
{
    vstd::arithmetic::div_mod::lemma_mod_multiples_vanish(k, lparam, 4294967296);
    vstd::arithmetic::div_mod::lemma_mod_multiples_vanish(k, wparam, 65536);
}

/// Painting is asked for by message 15.
pub proof fn law_paint_message(msg: u32)
    ensures
        tooltip_action(msg) == TooltipAction::Paint <==> msg == 15,
{
}

} // verus!
