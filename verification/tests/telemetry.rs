use memhover::telemetry::{
    file_name_of, get_process_memory_telemetry, list_is_whole, listed_pids, process_name,
    MemoryUse, ProcessInfo, Telemetry,
};
use memhover::utf16::encode_wide;

fn path(s: &str) -> Option<Vec<u16>> {
    Some(encode_wide(s))
}

fn process(pid: u32, image: &str, working_set: usize, commit: usize) -> ProcessInfo {
    ProcessInfo {
        pid,
        opened: true,
        image_path: path(image),
        memory: Some(MemoryUse { working_set, commit }),
    }
}

fn totals(image: &str, processes: Vec<ProcessInfo>) -> (usize, usize) {
    let t = get_process_memory_telemetry(&path(image), &processes).unwrap();
    (t.total_ws, t.total_commit)
}

#[test]
fn file_name_follows_last_backslash() {
    for s in ["", "a.exe", "C:\\a.exe", "C:\\b\\", "\\\\host\\share\\x", "a/b"] {
        assert_eq!(file_name_of(s), s.rsplit('\\').next().unwrap_or(""));
    }
    assert_eq!(file_name_of("C:\\Program Files\\App\\app.exe"), "app.exe");
}

#[test]
fn unknown_path_gives_empty_name() {
    assert_eq!(process_name(&None), "");
    assert_eq!(process_name(&path("C:\\x\\y.exe")), "y.exe");
    assert_eq!(process_name(&Some(vec![0x5C, 0xD800])), "\u{FFFD}");
}

#[test]
fn process_list_is_counted_in_bytes() {
    let pids = [4u32, 8, 15, 16];
    assert_eq!(listed_pids(&pids, 0), &[] as &[u32]);
    assert_eq!(listed_pids(&pids, 12), &[4, 8, 15]);
    assert_eq!(listed_pids(&pids, 15), &[4, 8, 15]);
    assert_eq!(listed_pids(&pids, 16), &pids);
}

#[test]
fn list_that_fills_the_buffer_may_be_cut_off() {
    assert!(list_is_whole(2048, 0));
    assert!(list_is_whole(2048, 2047 * 4));
    assert!(!list_is_whole(2048, 2048 * 4));
    assert!(list_is_whole(4096, 2048 * 4));
    assert!(!list_is_whole(0, 0));
}

#[test]
fn long_process_lists_are_summed_whole() {
    let list: Vec<ProcessInfo> = (1..=5000).map(|n| process(n, "app.exe", 2, 3)).collect();
    assert_eq!(totals("app.exe", list), (10_000, 15_000));
}

#[test]
fn sums_all_processes_of_the_program() {
    let processes = vec![
        process(1, "C:\\x\\app.exe", 100, 10),
        process(2, "C:\\x\\other.exe", 1000, 1000),
        process(3, "D:\\y\\APP.EXE", 200, 20),
    ];
    let t = get_process_memory_telemetry(&path("C:\\x\\App.exe"), &processes).unwrap();
    assert_eq!(t.name, "App.exe");
    assert_eq!((t.total_ws, t.total_commit), (300, 30));
}

#[test]
fn unreadable_processes_add_nothing() {
    let mut closed = process(2, "app.exe", 1, 1);
    closed.opened = false;
    let mut nameless = process(3, "app.exe", 2, 2);
    nameless.image_path = None;
    let mut silent = process(4, "app.exe", 4, 4);
    silent.memory = None;
    let idle = process(0, "app.exe", 8, 8);
    let good = process(5, "app.exe", 16, 32);
    assert_eq!(totals("app.exe", vec![closed, nameless, silent, idle, good]), (16, 32));
}

#[test]
fn program_without_name_has_no_telemetry() {
    assert!(get_process_memory_telemetry(&None, &vec![]).is_none());
    assert!(get_process_memory_telemetry(&path("C:\\dir\\"), &vec![]).is_none());
    assert!(Telemetry::start(&path("")).is_none());
}

#[test]
fn empty_list_gives_zero_sums() {
    assert_eq!(totals("app.exe", vec![]), (0, 0));
}

#[test]
fn order_of_processes_does_not_matter() {
    let list = |order: [u32; 3]| -> Vec<ProcessInfo> {
        order.iter().map(|&n| process(n, "app.exe", n as usize * 7, n as usize * 3)).collect()
    };
    assert_eq!(totals("app.exe", list([1, 2, 3])), (42, 18));
    assert_eq!(totals("app.exe", list([3, 1, 2])), (42, 18));
}

#[test]
fn any_process_of_a_program_gives_the_same_sums() {
    let list = || vec![process(1, "a\\app.exe", 5, 6), process(2, "b\\App.exe", 7, 8)];
    assert_eq!(totals("a\\app.exe", list()), totals("b\\App.exe", list()));
}

#[test]
fn groups_add_up() {
    let a = || process(1, "app.exe", 5, 6);
    let b = || process(2, "app.exe", 7, 8);
    assert_eq!(totals("app.exe", vec![a()]), (5, 6));
    assert_eq!(totals("app.exe", vec![b()]), (7, 8));
    assert_eq!(totals("app.exe", vec![a(), b()]), (12, 14));
}

#[test]
fn telemetry_goes_step_by_step() {
    let mut t = Telemetry::start(&path("C:\\app.exe")).unwrap();
    assert!(!Telemetry::wants_process(0));
    assert!(Telemetry::wants_process(4));
    assert!(t.wants_memory(&path("E:\\APP.exe")));
    assert!(!t.wants_memory(&path("E:\\app.ex")));
    assert!(!t.wants_memory(&None));
    t.add_memory(MemoryUse { working_set: 3, commit: 4 });
    t.observe(&process(9, "app.exe", 1, 1));
    assert_eq!((t.total_ws, t.total_commit), (4, 5));
    assert!(t.accepts(MemoryUse { working_set: usize::MAX - 4, commit: usize::MAX - 5 }));
    assert!(!t.accepts(MemoryUse { working_set: usize::MAX - 3, commit: 0 }));
    assert!(!t.accepts(MemoryUse { working_set: 0, commit: usize::MAX - 4 }));
}
