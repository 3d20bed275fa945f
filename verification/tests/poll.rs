use memhover::poll::{Action, Poll, Reply, Stage};
use memhover::telemetry::Telemetry;
use memhover::tooltip::{Frame, Point};
use memhover::utf16::{decode_wide, encode_wide};

const OWN_PID: u32 = 77;

/// A desktop with fixed answers, and the questions it was asked.
struct FakeDesktop {
    cursor: Option<Point>,
    window: bool,
    root: bool,
    class_name: &'static str,
    automation: bool,
    element: bool,
    element_window: bool,
    window_owner: u32,
    element_process: Option<i32>,
    process_name: &'static str,
    element_name: Option<&'static str>,
    title_match: u32,
    measured: Option<&'static str>,
    asked: Vec<String>,
}

fn desktop() -> FakeDesktop {
    FakeDesktop {
        cursor: Some(Point { x: 500, y: 1060 }),
        window: true,
        root: true,
        class_name: "Shell_TrayWnd",
        automation: true,
        element: true,
        element_window: true,
        window_owner: 10,
        element_process: Some(20),
        process_name: "app.exe",
        element_name: Some("Editor - 1 running window"),
        title_match: 30,
        measured: Some("app.exe"),
        asked: vec![],
    }
}

fn run(d: &mut FakeDesktop) -> Action {
    let (mut poll, mut action) = Poll::start(OWN_PID);
    loop {
        let reply = match action {
            Action::ReadCursor => Reply::Cursor(d.cursor),
            Action::FindWindow(at) => {
                assert_eq!(Some(at), d.cursor);
                Reply::Window(d.window)
            }
            Action::FindRoot => Reply::Root(d.root),
            Action::ReadClassName => Reply::ClassName(encode_wide(d.class_name)),
            Action::GetAutomation => Reply::Automation(d.automation),
            Action::FindElement(at) => {
                assert_eq!(Some(at), d.cursor);
                Reply::Element(d.element)
            }
            Action::FindElementWindow => Reply::ElementWindow(d.element_window),
            Action::FindWindowOwner => Reply::WindowOwner(d.window_owner),
            Action::AskElementProcess => Reply::ElementProcess(d.element_process),
            Action::FindProcessName(pid) => {
                d.asked.push(format!("name {}", pid));
                Reply::ProcessName(d.process_name.to_string())
            }
            Action::ReadElementName => Reply::ElementName(d.element_name.map(|s| s.to_string())),
            Action::MatchTitle(name) => {
                d.asked.push(format!("match {}", name));
                Reply::TitleMatch(d.title_match)
            }
            Action::Measure(pid) => {
                d.asked.push(format!("measure {}", pid));
                Reply::Measured(d.measured.map(|name| Telemetry {
                    name: name.to_string(),
                    total_ws: 1_048_576,
                    total_commit: 2_097_152,
                }))
            }
            last => {
                assert_eq!(poll.stage, Stage::Done);
                return last;
            }
        };
        assert!(poll.accepts(&reply));
        action = poll.step(reply);
    }
}

fn ends_hidden(d: &mut FakeDesktop) -> bool {
    matches!(run(d), Action::Hide)
}

fn ends_with_nothing(d: &mut FakeDesktop) -> bool {
    matches!(run(d), Action::Nothing)
}

#[test]
fn overlay_is_shown_for_the_window_owner() {
    let mut d = desktop();
    match run(&mut d) {
        Action::Show { lines, frame } => {
            assert_eq!(frame, Frame { x: 512, y: 990, width: 300, height: 70 });
            assert_eq!(lines.len(), 2);
            assert_eq!(decode_wide(&lines[0]), "App: app.exe\0");
            assert_eq!(decode_wide(&lines[1]), "Total WS: 1.0 MB | Commit: 2.0 MB\0");
        }
        _ => panic!("the overlay is not shown"),
    }
    assert_eq!(d.asked, vec!["name 10", "measure 10"]);
}

#[test]
fn unknown_cursor_changes_nothing() {
    let mut d = desktop();
    d.cursor = None;
    assert!(ends_with_nothing(&mut d));
}

#[test]
fn away_from_the_taskbar_the_overlay_is_hidden() {
    let mut no_window = desktop();
    no_window.window = false;
    assert!(ends_hidden(&mut no_window));
    let mut no_root = desktop();
    no_root.root = false;
    assert!(ends_hidden(&mut no_root));
    for class_name in ["", "Progman", "WorkerW", "Notepad"] {
        let mut elsewhere = desktop();
        elsewhere.class_name = class_name;
        assert!(ends_hidden(&mut elsewhere));
        assert!(elsewhere.asked.is_empty());
    }
}

#[test]
fn without_automation_nothing_changes() {
    let mut d = desktop();
    d.automation = false;
    assert!(ends_with_nothing(&mut d));
}

#[test]
fn without_element_the_overlay_is_hidden() {
    let mut d = desktop();
    d.element = false;
    assert!(ends_hidden(&mut d));
}

#[test]
fn element_process_is_second_choice() {
    let mut no_window = desktop();
    no_window.element_window = false;
    assert!(matches!(run(&mut no_window), Action::Show { .. }));
    assert_eq!(no_window.asked, vec!["name 20", "measure 20"]);
    let mut no_owner = desktop();
    no_owner.window_owner = 0;
    assert!(matches!(run(&mut no_owner), Action::Show { .. }));
    assert_eq!(no_owner.asked, vec!["name 20", "measure 20"]);
}

#[test]
fn negative_process_numbers_wrap() {
    let mut d = desktop();
    d.element_window = false;
    d.element_process = Some(-2);
    assert!(matches!(run(&mut d), Action::Show { .. }));
    assert_eq!(d.asked, vec!["name 4294967294", "measure 4294967294"]);
}

#[test]
fn without_process_the_overlay_is_hidden() {
    for element_process in [None, Some(0)] {
        let mut d = desktop();
        d.window_owner = 0;
        d.element_process = element_process;
        assert!(ends_hidden(&mut d));
        assert!(d.asked.is_empty());
    }
}

#[test]
fn taskbar_host_is_resolved_by_title() {
    let mut d = desktop();
    d.process_name = "Explorer.EXE";
    assert!(matches!(run(&mut d), Action::Show { .. }));
    assert_eq!(d.asked, vec!["name 10", "match Editor - 1 running window", "measure 30"]);
}

#[test]
fn taskbar_host_stays_where_nothing_better_is_found() {
    let mut no_match = desktop();
    no_match.process_name = "explorer.exe";
    no_match.title_match = 0;
    assert!(matches!(run(&mut no_match), Action::Show { .. }));
    assert_eq!(
        no_match.asked,
        vec!["name 10", "match Editor - 1 running window", "measure 10"]
    );
    for element_name in [None, Some("")] {
        let mut d = desktop();
        d.process_name = "explorer.exe";
        d.element_name = element_name;
        assert!(matches!(run(&mut d), Action::Show { .. }));
        assert_eq!(d.asked, vec!["name 10", "measure 10"]);
    }
}

#[test]
fn overlay_is_not_shown_for_the_program_itself() {
    let mut direct = desktop();
    direct.window_owner = OWN_PID;
    assert!(ends_hidden(&mut direct));
    assert_eq!(direct.asked, vec!["name 77"]);
    let mut resolved = desktop();
    resolved.process_name = "explorer.exe";
    resolved.title_match = OWN_PID;
    assert!(ends_hidden(&mut resolved));
}

#[test]
fn overlay_is_not_shown_for_the_taskbar_host() {
    let mut d = desktop();
    d.measured = Some("EXPLORER.exe");
    assert!(ends_hidden(&mut d));
    let mut unknown = desktop();
    unknown.measured = None;
    assert!(ends_hidden(&mut unknown));
}

#[test]
fn only_expected_answers_are_accepted() {
    let (mut poll, _) = Poll::start(OWN_PID);
    assert!(!poll.accepts(&Reply::Window(true)));
    assert!(poll.accepts(&Reply::Cursor(None)));
    assert!(matches!(poll.step(Reply::Cursor(None)), Action::Nothing));
    assert!(!poll.accepts(&Reply::Cursor(None)));
}

#[test]
fn overlay_without_position_is_not_accepted() {
    let measured = |name: &str| {
        Reply::Measured(Some(Telemetry { name: name.to_string(), total_ws: 0, total_commit: 0 }))
    };
    let (mut poll, _) = Poll::start(OWN_PID);
    poll.stage = Stage::Measured;
    poll.at = Point { x: i32::MAX, y: 0 };
    assert!(!poll.accepts(&measured("app.exe")));
    assert!(poll.accepts(&measured("explorer.exe")));
    assert!(poll.accepts(&Reply::Measured(None)));
    poll.at = Point { x: 0, y: 0 };
    assert!(poll.accepts(&measured("app.exe")));
}
