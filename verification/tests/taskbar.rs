use memhover::taskbar::is_taskbar_class;
use memhover::utf16::encode_wide;

#[test]
fn taskbar_and_tray_classes() {
    for name in [
        "Shell_TrayWnd",
        "Shell_SecondaryTrayWnd",
        "NotifyIconOverflowWindow",
        "XamlExplorerHostIslandWindow",
    ] {
        assert!(is_taskbar_class(&encode_wide(name)));
    }
}

#[test]
fn other_classes() {
    for name in ["", "Progman", "WorkerW", "shell_traywnd", "Shell_TrayWnd ", "Notepad"] {
        assert!(!is_taskbar_class(&encode_wide(name)));
    }
}
