use memhover::title_match::{
    find_pid_by_window_title, score_title, strip_suffix, EnumState, WindowInfo,
};
use memhover::utf16::encode_wide;

fn window(title: &str, visible: bool, pid: u32) -> WindowInfo {
    WindowInfo { title: encode_wide(title), visible, pid }
}

#[test]
fn taskbar_remark_is_stripped() {
    assert_eq!(strip_suffix("notepad - 1 running window"), "notepad");
    assert_eq!(strip_suffix("readme - notepad - 2 running windows"), "readme - notepad");
    assert_eq!(strip_suffix("  padded   - pinned"), "padded");
    assert_eq!(strip_suffix(" - pinned"), "");
}

#[test]
fn name_without_separator_is_kept() {
    assert_eq!(strip_suffix(" visual-studio -code "), " visual-studio -code ");
    assert_eq!(strip_suffix(""), "");
}

#[test]
fn scores_of_titles() {
    assert_eq!(score_title("notepad", "notepad"), 100);
    assert_eq!(score_title("notepad++", "notepad"), 80);
    assert_eq!(score_title("note", "notepad"), 80);
    assert_eq!(score_title(" note ", "notepad"), 80);
    assert_eq!(score_title("readme - notepad", "notepad"), 50);
    assert_eq!(score_title("pad", "notepad"), 50);
    assert_eq!(score_title(" pad ", "notepad"), 50);
    assert_eq!(score_title("firefox", "notepad"), 0);
    assert_eq!(score_title("firefox", ""), 80);
    assert_eq!(score_title("   ", "notepad"), 80);
}

#[test]
fn title_is_compared_in_lowercase() {
    let search = EnumState::new("N\u{c9}VTEL\u{c9}N - 1 running window");
    assert_eq!(search.on_title(&encode_wide("n\u{e9}vtel\u{e9}n")), Some(100));
    assert_eq!(search.on_title(&encode_wide("N\u{e9}VTel\u{c9}N")), Some(100));
    let ascii = EnumState::new("NotePad");
    assert_eq!(ascii.on_title(&encode_wide("NOTEPAD")), Some(100));
}

#[test]
fn short_titles_are_passed_over() {
    let search = EnumState::new("ab");
    assert_eq!(search.on_title(&encode_wide("ab")), None);
    assert_eq!(search.on_title(&encode_wide("")), None);
    assert_eq!(search.on_title(&encode_wide("abc")), Some(80));
    assert_eq!(search.on_title(&encode_wide("xyz")), None);
}

#[test]
fn search_goes_step_by_step() {
    let mut search = EnumState::new("editor");
    assert_eq!(search.on_visibility(80, true), Some(580));
    assert_eq!(search.on_visibility(80, false), Some(80));
    search.on_owner(580, 0);
    assert_eq!((search.best_pid, search.best_score), (0, 0));
    search.on_owner(580, 7);
    assert_eq!((search.best_pid, search.best_score), (7, 580));
    assert_eq!(search.on_visibility(80, true), None);
    assert_eq!(search.on_visibility(100, false), None);
    assert_eq!(search.on_visibility(100, true), Some(600));
    assert_eq!(search.target_name, "editor");
}

#[test]
fn visible_windows_go_first() {
    let windows = vec![window("editor", false, 1), window("my editor", true, 2)];
    assert_eq!(find_pid_by_window_title("Editor", &windows), 2);
}

#[test]
fn better_titles_go_first() {
    let windows = vec![
        window("my editor", true, 1),
        window("editor pro", true, 2),
        window("editor", true, 3),
        window("EDITOR", true, 4),
    ];
    assert_eq!(find_pid_by_window_title("Editor - 3 running windows", &windows), 3);
    assert_eq!(find_pid_by_window_title("editor", &windows[..2].iter().map(copy).collect()), 2);
}

fn copy(w: &WindowInfo) -> WindowInfo {
    WindowInfo { title: w.title.clone(), visible: w.visible, pid: w.pid }
}

#[test]
fn first_of_equals_is_picked() {
    let windows = vec![window("editor a", true, 5), window("editor b", true, 6)];
    assert_eq!(find_pid_by_window_title("editor", &windows), 5);
}

#[test]
fn unknown_processes_do_not_count() {
    let windows = vec![window("editor", true, 0), window("my editor", false, 9)];
    assert_eq!(find_pid_by_window_title("editor", &windows), 9);
}

#[test]
fn windows_that_do_not_fit_do_not_matter() {
    let fits = vec![window("editor", true, 3)];
    let more = vec![window("browser", true, 1), window("editor", true, 3), window("ed", true, 2)];
    assert_eq!(find_pid_by_window_title("editor", &fits), 3);
    assert_eq!(find_pid_by_window_title("editor", &more), 3);
}

#[test]
fn remark_does_not_change_the_pick() {
    let windows = vec![
        window("my editor", true, 1),
        window("\u{c9}diteur", true, 2),
        window("editor", false, 3),
        window("Editor - notes", true, 4),
        window("browser", true, 5),
    ];
    for (name, pid) in [("Editor", 4), ("\u{e9}DITEUR", 2), ("\u{39F}\u{394}\u{39F}\u{3A3}", 0)] {
        let full = format!("{} - 1 running window", name);
        assert_eq!(find_pid_by_window_title(name, &windows), pid);
        assert_eq!(find_pid_by_window_title(&full, &windows), pid);
    }
}

#[test]
fn no_window_fits() {
    assert_eq!(find_pid_by_window_title("editor", &vec![]), 0);
    assert_eq!(find_pid_by_window_title("editor", &vec![window("browser", true, 1)]), 0);
}

#[test]
fn observing_agrees_with_finding() {
    let windows = vec![
        window("browser", true, 1),
        window("my editor", false, 2),
        window("editor pro", false, 3),
        window("x editor", true, 4),
    ];
    let mut search = EnumState::new("editor");
    for w in &windows {
        search.observe(w);
    }
    assert_eq!((search.best_pid, search.best_score), (4, 550));
    assert_eq!(find_pid_by_window_title("editor", &windows), 4);
}
