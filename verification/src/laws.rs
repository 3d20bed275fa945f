//! Laws of the library's functions, stated of whatever their calls return.
use vstd::prelude::*;

use crate::mebibytes::{decimal, decimal_text, is_number, law_decimal_reads_back};
use crate::mebibytes::{law_shown_value_is_nearest, law_text_reads_as_mebibytes};
use crate::mebibytes::{law_text_reads_as_tenths, law_whole_mebibytes, mebibytes_text};
use crate::mebibytes::nearest_double;
use crate::mebibytes::{read_decimal, read_tenths, shows_bytes};
use crate::messages::{law_messages_by_number, on_main_message, on_tooltip_message, MainAction};
use crate::messages::TooltipAction;
use crate::poll::{law_taskbar_host, law_unsigned_pid, Action, Poll, Reply};
use crate::taskbar::{is_taskbar_class, law_taskbar_classes};
use crate::telemetry::{file_name_of, get_process_memory_telemetry, law_file_name_of_parts};
use crate::telemetry::{law_one_process_is_the_sums, law_order_does_not_matter};
use crate::telemetry::{law_same_program_same_sums, law_sums_are_over_the_matching, list_is_whole};
use crate::telemetry::{listed_pids, name_of_image, process_name, MemoryUse, ProcessInfo};
use crate::telemetry::Telemetry;
use crate::text::{all_ascii, chars_of, contains, eq_ignore_ascii_case, is_space, is_whitespace};
use crate::text::{last_index_of, law_last_position, law_occurs_at_start, law_occurs_in};
use crate::text::{law_same_but_for_case, law_trimmed, law_whitespace_characters, lower_ascii};
use crate::text::{lowercase_of, occurs_at, occurs_in, same_but_for_case, starts_with, string_of};
use crate::text::{trim, trimmed};
use crate::title_match::{application_name, find_pid_by_window_title, is_candidate, is_first_best};
use crate::title_match::{is_pick, law_ascii_remark_keeps_pick, law_others_do_not_matter};
use crate::title_match::{law_picked_process_is_unique, law_picked_window_goes_first};
use crate::title_match::{law_plain_name_is_kept, law_remark_is_dropped, law_same_ranks_same_pick};
use crate::title_match::{law_title_score, law_window_with_name_is_found};
use crate::title_match::{law_window_within_name_is_found, lowered_plainly, none_fits, score_title};
use crate::title_match::{separator, strip_suffix, title_score, window_rank, EnumState, WindowInfo};
use crate::tooltip::{frame_fits, has_frame, law_first_line_names_the_program};
use crate::tooltip::{law_frame_by_numbers, law_painting_by_numbers};
use crate::tooltip::{law_second_line_of_whole_mebibytes, law_second_line_shows_both_sums};
use crate::tooltip::{law_units_in, paint_plan, tooltip_frame, tooltip_lines, Frame, PaintOp};
use crate::tooltip::{Point, Rect};
use crate::tray::{law_tip_reads_as_its_text, law_tip_units, tip_field, tray_tip_field, TIP_LEN};
use crate::utf16::{decode_wide, encode_wide, encode_wide_with_null, law_decode_of_encode};
use crate::utf16::{law_encode_of_decode, text_of, units_of, well_formed};

verus! {

// Code units.

/// Encoding and then decoding gives the text back.
pub proof fn law_encode_then_decode(s: &str, units: Vec<u16>, taken: &[u16], text: String)
    requires
        call_ensures(encode_wide, (s,), units),
        taken@ == units@,
        call_ensures(decode_wide, (taken,), text),
    ensures
        text@ == s@,
{
    law_decode_of_encode(s@);
}

/// Decoding and then encoding gives code units without lone surrogates back.
pub proof fn law_decode_then_encode(units: &[u16], text: String, s: &str, again: Vec<u16>)
    requires
        well_formed(units@),
        call_ensures(decode_wide, (units,), text),
        s@ == text@,
        call_ensures(encode_wide, (s,), again),
    ensures
        again@ == units@,
{
    law_encode_of_decode(units@);
}

/// The terminated code units are the code units and a zero.
pub proof fn law_terminated_is_encoded_and_zero(s: &str, plain: Vec<u16>, terminated: Vec<u16>)
    requires
        call_ensures(encode_wide, (s,), plain),
        call_ensures(encode_wide_with_null, (s,), terminated),
    ensures
        terminated@.len() == plain@.len() + 1,
        terminated@.last() == 0,
        terminated@.drop_last() == plain@,
{
}

// Strings.

/// The characters of a string make the string again.
pub proof fn law_characters_make_the_string(
    s: &str,
    chars: Vec<char>,
    taken: &[char],
    again: String,
)
    requires
        call_ensures(chars_of, (s,), chars),
        taken@ == chars@,
        call_ensures(string_of, (taken,), again),
    ensures
        chars@ == s@,
        again@ == s@,
{
}

/// A text is found at the start of another, or in it, or last in it, exactly where it stands.
pub proof fn law_finding(
    s: &[char],
    part: &[char],
    first: bool,
    anywhere: bool,
    last: Option<usize>,
)
    requires
        call_ensures(starts_with, (s, part), first),
        call_ensures(contains, (s, part), anywhere),
        call_ensures(last_index_of, (s, part), last),
    ensures
        first <==> exists|b: Seq<char>| s@ == #[trigger] (part@ + b),
        anywhere <==> exists|a: Seq<char>, b: Seq<char>| s@ == #[trigger] (a + part@ + b),
        anywhere <==> last is Some,
        first ==> anywhere,
        last matches Some(i) ==> occurs_at(s@, part@, i as int) && forall|j: int|
            i < j ==> !occurs_at(s@, part@, j),
{
    law_occurs_at_start(s@, part@);
    law_occurs_in(s@, part@);
    law_last_position(s@, part@);
    if first {
        assert(occurs_at(s@, part@, 0));
    }
}

/// What is left of a text without the whitespace at both ends is in it between whitespace only,
/// and neither begins nor ends with any.
pub proof fn law_trimming(s: &[char], rest: &[char])
    requires
        call_ensures(trim, (s,), rest),
    ensures
        exists|l: Seq<char>, r: Seq<char>|
            {
                &&& s@ == #[trigger] (l + rest@ + r)
                &&& forall|i: int| 0 <= i < l.len() ==> is_space(#[trigger] l[i])
                &&& forall|i: int| 0 <= i < r.len() ==> is_space(#[trigger] r[i])
            },
        rest@.len() > 0 ==> !is_space(rest@.first()) && !is_space(rest@.last()),
{
    law_trimmed(s@);
}

/// A blank, a tab and a line break are whitespace, and nothing visible in ASCII is.
pub proof fn law_whitespace_of_ascii(c: char, space: bool)
    requires
        call_ensures(is_whitespace, (c,), space),
        (c as int) < 128,
    ensures
        space <==> c == ' ' || 9 <= c as int <= 13,
{
    law_whitespace_characters(c);
}

/// Texts are equal but for case exactly when each character is the same or the same ASCII letter
/// in the other case; it does not matter which text comes first.
pub proof fn law_case_is_ignored(a: &str, b: &str, same: bool, turned: bool)
    requires
        call_ensures(eq_ignore_ascii_case, (a, b), same),
        call_ensures(eq_ignore_ascii_case, (b, a), turned),
    ensures
        same == turned,
        a@ == b@ ==> same,
        same <==> {
            &&& a@.len() == b@.len()
            &&& forall|i: int|
                #![trigger a@[i], b@[i]]
                0 <= i < a@.len() ==> {
                    ||| a@[i] == b@[i]
                    ||| 65 <= a@[i] as int <= 90 && b@[i] as int == a@[i] as int + 32
                    ||| 65 <= b@[i] as int <= 90 && a@[i] as int == b@[i] as int + 32
                }
        },
{
    law_same_but_for_case(a@, b@);
}

// The taskbar.

/// A class is one of the taskbar exactly when its name is one of these four.
pub proof fn law_taskbar_class(class_name: &[u16], taskbar: bool)
    requires
        call_ensures(is_taskbar_class, (class_name,), taskbar),
    ensures
        taskbar <==> {
            let text = text_of(class_name@);
            ||| text == "Shell_TrayWnd"@
            ||| text == "Shell_SecondaryTrayWnd"@
            ||| text == "NotifyIconOverflowWindow"@
            ||| text == "XamlExplorerHostIslandWindow"@
        },
{
    law_taskbar_classes(text_of(class_name@));
}

// Window titles.

/// A remark behind the last dash between blanks goes, and with it the whitespace round the rest;
/// a name without such a dash stays.
pub proof fn law_stripping(name: Seq<char>, remark: Seq<char>, icon_name: &str, stripped: String)
    requires
        call_ensures(strip_suffix, (icon_name,), stripped),
    ensures
        icon_name@ == name + seq![' ', '-', ' '] + remark && !occurs_in(
            seq![' '] + remark,
            seq![' ', '-', ' '],
        ) ==> stripped@ == trimmed(name),
        !occurs_in(icon_name@, seq![' ', '-', ' ']) ==> stripped@ == icon_name@,
{
    reveal_strlit(" - ");
    assert(separator() =~= seq![' ', '-', ' ']);
    if !occurs_in(seq![' '] + remark, separator()) {
        law_remark_is_dropped(name, remark);
    }
    if !occurs_in(icon_name@, separator()) {
        law_plain_name_is_kept(icon_name@);
    }
}

/// A title and a name of any length have the score 100 exactly if they are the same, at least 80
/// exactly if one begins with the other, at least 50 exactly if one holds the other, and else 0,
/// where a title within a name counts without the whitespace at its ends.
pub proof fn law_scoring(title: &str, target: &str, score: u32)
    requires
        call_ensures(score_title, (title, target), score),
    ensures
        score == 100 <==> title@ == target@,
        score >= 80 <==> {
            ||| exists|b: Seq<char>| title@ == #[trigger] (target@ + b)
            ||| exists|b: Seq<char>| target@ == #[trigger] (trimmed(title@) + b)
        },
        score >= 50 <==> {
            ||| exists|a: Seq<char>, b: Seq<char>| title@ == #[trigger] (a + target@ + b)
            ||| exists|a: Seq<char>, b: Seq<char>| target@ == #[trigger] (a + trimmed(title@) + b)
        },
        score == 0 || score == 50 || score == 80 || score == 100,
{
    law_title_score(title@, target@);
}

/// The score of a window's title is that of the lowercase title against the lowercase name of
/// the application; there is none for titles of less than three code units, and none of zero.
pub proof fn law_title_is_scored_in_lowercase(
    state: &EnumState,
    title: &[u16],
    score: Option<u32>,
)
    requires
        call_ensures(EnumState::on_title, (state, title), score),
    ensures
        title@.len() < 3 ==> score is None,
        title@.len() >= 3 ==> {
            let value = title_score(
                lowercase_of(text_of(title@)),
                application_name(lowercase_of(state.target_name@)),
            );
            &&& value > 0 ==> score == Some(value)
            &&& value == 0 ==> score is None
        },
{
}

/// A visible window ranks 500 above its score, and a rank is given exactly if it is above the
/// best so far.
pub proof fn law_rank_is_above_the_best(
    state: &EnumState,
    score: u32,
    visible: bool,
    rank: Option<u32>,
)
    requires
        call_ensures(EnumState::on_visibility, (state, score, visible), rank),
        0 < score <= 100,
    ensures
        visible && score + 500 > state.best_score ==> rank is Some && rank->0 == score + 500,
        visible && score + 500 <= state.best_score ==> rank is None,
        !visible && score > state.best_score ==> rank == Some(score),
        !visible && score <= state.best_score ==> rank is None,
{
}

/// A known process is kept with its rank, an unknown one is not.
pub proof fn law_known_process_is_kept(state: &mut EnumState, rank: u32, pid: u32)
    requires
        call_ensures(EnumState::on_owner, (state, rank, pid), ()),
    ensures
        pid != 0 ==> final(state).best_pid == pid && final(state).best_score == rank,
        pid == 0 ==> final(state).best_pid == old(state).best_pid && final(state).best_score
            == old(state).best_score,
        final(state).target_name == old(state).target_name,
{
}

/// A search begins with the name it is given and with nothing found.
pub proof fn law_search_begins_empty(name: &str, state: EnumState)
    requires
        call_ensures(EnumState::new, (name,), state),
    ensures
        state.target_name@ == name@,
        state.best_pid == 0,
        state.best_score == 0,
{
}

/// A window is kept exactly if its process is known, its title of three code units or more has a
/// score, and it ranks above the best so far, a visible window 500 above its score.
pub proof fn law_better_window_is_kept(state: &mut EnumState, w: &WindowInfo)
    requires
        call_ensures(EnumState::observe, (state, w), ()),
    ensures
        final(state).target_name == old(state).target_name,
        ({
            let score = title_score(
                lowercase_of(text_of(w.title@)),
                application_name(lowercase_of(old(state).target_name@)),
            );
            let rank: int = if w.visible {
                score + 500
            } else {
                score as int
            };
            if w.pid != 0 && w.title@.len() >= 3 && score > 0 && rank > old(state).best_score {
                final(state).best_pid == w.pid && final(state).best_score == rank
            } else {
                final(state).best_pid == old(state).best_pid && final(state).best_score
                    == old(state).best_score
            }
        }),
{
}

/// If some window has a known process and a title of three code units or more whose lowercase
/// text holds the lowercase name of the application, or is held by it but for whitespace at its
/// ends, a process is found.
pub proof fn law_fitting_window_is_found(
    name: &str,
    windows: &Vec<WindowInfo>,
    pid: u32,
    k: int,
    a: Seq<char>,
    b: Seq<char>,
)
    requires
        call_ensures(find_pid_by_window_title, (name, windows), pid),
        0 <= k < windows@.len(),
        windows@[k].pid != 0,
        windows@[k].title@.len() >= 3,
        ({
            let title = lowercase_of(text_of(windows@[k].title@));
            let wanted = application_name(lowercase_of(name@));
            title == a + wanted + b || wanted == a + trimmed(title) + b
        }),
    ensures
        pid != 0,
{
    let title = lowercase_of(text_of(windows@[k].title@));
    let wanted = application_name(lowercase_of(name@));
    if title == a + wanted + b {
        law_window_with_name_is_found(name@, windows@, k, a, b, pid);
    } else {
        law_window_within_name_is_found(name@, windows@, k, a, b, pid);
    }
}

/// A process that is found is that of a window with a title of three code units or more that
/// holds the name of the application or is held by it, and this window goes before every other
/// such window: a visible one before a hidden one, then the better title, then the first.
pub proof fn law_found_window_goes_first(
    name: &str,
    windows: &Vec<WindowInfo>,
    pid: u32,
) -> (i: int)
    requires
        call_ensures(find_pid_by_window_title, (name, windows), pid),
        pid != 0,
    ensures
        0 <= i < windows@.len(),
        windows@[i].pid == pid,
        windows@[i].title@.len() >= 3,
        ({
            let wanted = application_name(lowercase_of(name@));
            let mine = title_score(lowercase_of(text_of(windows@[i].title@)), wanted);
            &&& mine > 0
            &&& forall|j: int|
                0 <= j < windows@.len() && (#[trigger] windows@[j]).pid != 0
                    && windows@[j].title@.len() >= 3 && title_score(
                    lowercase_of(text_of(windows@[j].title@)),
                    wanted,
                ) > 0 ==> {
                    let other = title_score(lowercase_of(text_of(windows@[j].title@)), wanted);
                    &&& windows@[j].visible ==> windows@[i].visible
                    &&& windows@[i].visible == windows@[j].visible ==> mine >= other
                    &&& windows@[i].visible == windows@[j].visible && mine == other ==> i <= j
                }
        }),
{
    let wanted = application_name(lowercase_of(name@));
    let i = choose|i: int|
        #[trigger] is_first_best(name@, windows@, i) && windows@[i].pid == pid;
    assert(is_candidate(name@, windows@[i]));
    law_picked_window_goes_first(name@, windows@, i, i);
    assert forall|j: int|
        0 <= j < windows@.len() && (#[trigger] windows@[j]).pid != 0 && windows@[j].title@.len()
            >= 3 && title_score(lowercase_of(text_of(windows@[j].title@)), wanted) > 0 implies {
        let mine = title_score(lowercase_of(text_of(windows@[i].title@)), wanted);
        let other = title_score(lowercase_of(text_of(windows@[j].title@)), wanted);
        &&& windows@[j].visible ==> windows@[i].visible
        &&& windows@[i].visible == windows@[j].visible ==> mine >= other
        &&& windows@[i].visible == windows@[j].visible && mine == other ==> i <= j
    } by {
        law_picked_window_goes_first(name@, windows@, i, j);
    }
    i
}

/// A remark behind a trimmed ASCII name does not change what is found, among any windows.
pub proof fn law_remark_finds_the_same(
    name: &str,
    full: &str,
    remark: Seq<char>,
    windows: &Vec<WindowInfo>,
    p: u32,
    q: u32,
)
    requires
        call_ensures(find_pid_by_window_title, (name, windows), p),
        call_ensures(find_pid_by_window_title, (full, windows), q),
        full@ == name@ + seq![' ', '-', ' '] + remark,
        all_ascii(name@),
        all_ascii(remark),
        trimmed(name@) == name@,
        !occurs_in(name@, seq![' ', '-', ' ']),
        !occurs_in(seq![' '] + remark, seq![' ', '-', ' ']),
    ensures
        p == q,
{
    reveal_strlit(" - ");
    assert(separator() =~= seq![' ', '-', ' ']);
    law_ascii_remark_keeps_pick(name@, remark, windows@);
    law_picked_process_is_unique(name@, windows@, p, q);
}

/// The case of the letters in an ASCII name does not change what is found, among any windows.
pub proof fn law_case_finds_the_same(
    name: &str,
    other: &str,
    windows: &Vec<WindowInfo>,
    p: u32,
    q: u32,
)
    requires
        call_ensures(find_pid_by_window_title, (name, windows), p),
        call_ensures(find_pid_by_window_title, (other, windows), q),
        all_ascii(name@),
        all_ascii(other@),
        same_but_for_case(name@, other@),
    ensures
        p == q,
{
    assert forall|i: int| 0 <= i < windows@.len() implies #[trigger] window_rank(
        name@,
        windows@[i],
    ) == window_rank(other@, windows@[i]) by {
        assert(lowered_plainly(name@, windows@[i].title@));
        assert(lowered_plainly(other@, windows@[i].title@));
    }
    law_same_ranks_same_pick(name@, other@, windows@);
    law_picked_process_is_unique(name@, windows@, p, q);
}

/// A window with an unknown process or a title of less than three code units does not change what
/// is found, wherever it stands.
pub proof fn law_unfit_window_finds_the_same(
    name: &str,
    windows: &Vec<WindowInfo>,
    fewer: &Vec<WindowInfo>,
    k: int,
    p: u32,
    q: u32,
)
    requires
        0 <= k < windows@.len(),
        fewer@ == windows@.remove(k),
        windows@[k].pid == 0 || windows@[k].title@.len() < 3,
        call_ensures(find_pid_by_window_title, (name, windows), p),
        call_ensures(find_pid_by_window_title, (name, fewer), q),
    ensures
        p == q,
{
    assert(!is_candidate(name@, windows@[k]));
    if p != 0 {
        let i = choose|i: int|
            #[trigger] is_first_best(name@, windows@, i) && windows@[i].pid == p;
        law_others_do_not_matter(name@, windows@, k, i);
        let at = if i < k { i } else { i - 1 };
        assert(is_first_best(name@, fewer@, at));
        assert(is_candidate(name@, fewer@[at]));
        assert(is_pick(name@, fewer@, p));
        law_picked_process_is_unique(name@, fewer@, p, q);
    } else {
        assert forall|j: int| 0 <= j < fewer@.len() implies !#[trigger] is_candidate(
            name@,
            fewer@[j],
        ) by {
            let from = if j < k { j } else { j + 1 };
            assert(fewer@[j] == windows@[from]);
            assert(!is_candidate(name@, windows@[from]));
        }
        assert(none_fits(name@, fewer@));
    }
}

// The memory of programs.

/// The file name of a directory, a backslash and a name is the name.
pub proof fn law_file_name_is_the_last_part(
    path: &str,
    directory: Seq<char>,
    name: Seq<char>,
    found: String,
)
    requires
        call_ensures(file_name_of, (path,), found),
        path@ == directory + seq!['\\'] + name || path@ == name,
        !name.contains('\\'),
    ensures
        found@ == name,
{
    law_file_name_of_parts(directory, name);
}

/// A process has the file name in its path, and none if the path is unknown.
pub proof fn law_process_name(
    image_path: &Option<Vec<u16>>,
    directory: Seq<char>,
    name: Seq<char>,
    found: String,
)
    requires
        call_ensures(process_name, (image_path,), found),
        !name.contains('\\'),
        image_path matches Some(units) ==> {
            let path = text_of(units@);
            path == directory + seq!['\\'] + name || path == name
        },
    ensures
        found@ == name_of_image(*image_path),
        image_path is Some ==> found@ == name,
        image_path is None ==> found@.len() == 0,
{
    law_file_name_of_parts(directory, name);
}

/// A list is whole exactly if the buffer has room for one number more.
pub proof fn law_whole_list(room: usize, bytes: u32, whole: bool)
    requires
        call_ensures(list_is_whole, (room, bytes), whole),
    ensures
        whole <==> bytes < 4 * room,
{
}

/// The process numbers listed are the first in the buffer, one for every four bytes.
pub proof fn law_listed(pids: &[u32], bytes: u32, listed: &[u32], i: int)
    requires
        call_ensures(listed_pids, (pids, bytes), listed),
        bytes / 4 <= pids@.len(),
    ensures
        4 * listed@.len() <= bytes < 4 * listed@.len() + 4,
        0 <= i < listed@.len() ==> listed@[i] == pids@[i],
{
}

/// There is telemetry exactly for a program with a name; it has that name, and its sums are the
/// sums of the working sets and of the commits of the processes that have a number, could be
/// opened and read, and run an executable of that name.
pub proof fn law_telemetry_is_over_the_matching(
    image_path: &Option<Vec<u16>>,
    processes: &Vec<ProcessInfo>,
    telemetry: Option<Telemetry>,
)
    requires
        call_ensures(get_process_memory_telemetry, (image_path, processes), telemetry),
    ensures
        telemetry is None <==> name_of_image(*image_path).len() == 0,
        telemetry matches Some(t) ==> {
            let matching = processes@.filter(
                |p: ProcessInfo|
                    p.pid != 0 && p.opened && p.memory is Some && same_but_for_case(
                        name_of_image(p.image_path),
                        name_of_image(*image_path),
                    ),
            );
            let plus = |total: int, bytes: int| total + bytes;
            &&& t.name@ == name_of_image(*image_path)
            &&& t.total_ws == matching.map_values(
                |p: ProcessInfo| p.memory->0.working_set as int,
            ).fold_left(0int, plus)
            &&& t.total_commit == matching.map_values(
                |p: ProcessInfo| p.memory->0.commit as int,
            ).fold_left(0int, plus)
        },
{
    law_sums_are_over_the_matching(name_of_image(*image_path), processes@);
}

/// For a single process that runs the program, the telemetry is its memory, whatever it is.
pub proof fn law_telemetry_of_one_process(
    image_path: &Option<Vec<u16>>,
    processes: &Vec<ProcessInfo>,
    telemetry: Option<Telemetry>,
    m: MemoryUse,
)
    requires
        call_ensures(get_process_memory_telemetry, (image_path, processes), telemetry),
        name_of_image(*image_path).len() > 0,
        processes@.len() == 1,
        processes@[0].pid != 0,
        processes@[0].opened,
        processes@[0].memory == Some(m),
        same_but_for_case(name_of_image(processes@[0].image_path), name_of_image(*image_path)),
    ensures
        telemetry is Some,
        telemetry->0.total_ws == m.working_set,
        telemetry->0.total_commit == m.commit,
{
    assert(processes@ =~= seq![processes@[0]]);
    law_one_process_is_the_sums(name_of_image(*image_path), processes@[0], m);
}

/// The same processes in another order, asked for by another process of the same program, give
/// the same sums.
pub proof fn law_telemetry_is_of_the_program(
    a: &Option<Vec<u16>>,
    b: &Option<Vec<u16>>,
    processes: &Vec<ProcessInfo>,
    shuffled: &Vec<ProcessInfo>,
    x: Option<Telemetry>,
    y: Option<Telemetry>,
)
    requires
        call_ensures(get_process_memory_telemetry, (a, processes), x),
        call_ensures(get_process_memory_telemetry, (b, shuffled), y),
        same_but_for_case(name_of_image(*a), name_of_image(*b)),
        processes@.to_multiset() == shuffled@.to_multiset(),
    ensures
        x is Some <==> y is Some,
        x is Some ==> x->0.total_ws == y->0.total_ws && x->0.total_commit == y->0.total_commit,
{
    law_same_but_for_case(name_of_image(*a), name_of_image(*b));
    law_same_program_same_sums(name_of_image(*a), name_of_image(*b), processes@);
    law_order_does_not_matter(name_of_image(*b), processes@, shuffled@);
}

/// Telemetry begins with the program's name and empty sums, and not at all without a name.
pub proof fn law_telemetry_begins_empty(image_path: &Option<Vec<u16>>, telemetry: Option<Telemetry>)
    requires
        call_ensures(Telemetry::start, (image_path,), telemetry),
    ensures
        telemetry is Some <==> name_of_image(*image_path).len() > 0,
        telemetry matches Some(t) ==> t.name@ == name_of_image(*image_path) && t.total_ws == 0
            && t.total_commit == 0,
{
}

/// Every process but number 0 is opened, and the memory of those of the same name is read.
pub proof fn law_which_processes_are_read(
    t: &Telemetry,
    pid: u32,
    image_path: &Option<Vec<u16>>,
    open: bool,
    read: bool,
)
    requires
        call_ensures(Telemetry::wants_process, (pid,), open),
        call_ensures(Telemetry::wants_memory, (t, image_path), read),
    ensures
        open <==> pid != 0,
        read <==> same_but_for_case(name_of_image(*image_path), t.name@),
{
}

/// The memory of a process is added to both sums.
pub proof fn law_memory_is_added(t: &mut Telemetry, m: MemoryUse)
    requires
        call_ensures(Telemetry::add_memory, (t, m), ()),
    ensures
        final(t).total_ws == old(t).total_ws + m.working_set,
        final(t).total_commit == old(t).total_commit + m.commit,
        final(t).name == old(t).name,
{
}

/// Memory fits exactly if both sums can hold it.
pub proof fn law_memory_that_fits(t: &Telemetry, m: MemoryUse, accepted: bool)
    requires
        call_ensures(Telemetry::accepts, (t, m), accepted),
    ensures
        accepted <==> t.total_ws + m.working_set <= usize::MAX && t.total_commit + m.commit
            <= usize::MAX,
{
}

/// An opened process of the program that could be read adds all of its memory; any other adds
/// nothing.
pub proof fn law_process_adds_its_memory(t: &mut Telemetry, p: &ProcessInfo)
    requires
        call_ensures(Telemetry::observe, (t, p), ()),
    ensures
        final(t).name == old(t).name,
        p.pid != 0 && p.opened && p.memory is Some && same_but_for_case(
            name_of_image(p.image_path),
            old(t).name@,
        ) ==> final(t).total_ws == old(t).total_ws + p.memory->0.working_set
            && final(t).total_commit == old(t).total_commit + p.memory->0.commit,
        p.pid == 0 || !p.opened || p.memory is None || !same_but_for_case(
            name_of_image(p.image_path),
            old(t).name@,
        ) ==> final(t).total_ws == old(t).total_ws && final(t).total_commit
            == old(t).total_commit,
{
}

// The overlay.

/// A number in decimal reads as the number.
pub proof fn law_decimal_text(n: u128, text: String)
    requires
        call_ensures(decimal_text, (n,), text),
    ensures
        is_number(text@),
        read_decimal(text@) == n,
{
    law_decimal_reads_back(n as nat);
}

/// A count of bytes is given in mebibytes, rounded to a tenth, and a count halfway between two
/// tenths to the even one.
pub proof fn law_mebibytes_text(bytes: u64, text: String)
    requires
        call_ensures(mebibytes_text, (bytes,), text),
    ensures
        shows_bytes(text@, bytes as nat),
        bytes < 9007199254740992 && (2 * (read_tenths(text@) * 1048576 - 10 * bytes) == 1048576
            || 2 * (read_tenths(text@) * 1048576 - 10 * bytes) == -1048576) ==> read_tenths(text@)
            % 2 == 0,
{
    law_text_reads_as_mebibytes(bytes as nat);
}

/// The tenths in the text are those nearest to the double of the count, of two that are equally
/// near the even ones; so a count and its double have the same text.
pub proof fn law_mebibytes_text_of_doubles(
    bytes: u64,
    text: String,
    double: u64,
    double_text: String,
)
    requires
        call_ensures(mebibytes_text, (bytes,), text),
        call_ensures(mebibytes_text, (double,), double_text),
        nearest_double(bytes as nat) == nearest_double(double as nat),
    ensures
        text@ == double_text@,
        -1048576 <= 2 * (read_tenths(text@) * 1048576 - 10 * nearest_double(bytes as nat))
            <= 1048576,
        2 * (read_tenths(text@) * 1048576 - 10 * nearest_double(bytes as nat)) == 1048576 || 2 * (
        read_tenths(text@) * 1048576 - 10 * nearest_double(bytes as nat)) == -1048576
            ==> read_tenths(text@) % 2 == 0,
{
    law_text_reads_as_tenths(bytes as nat);
    law_shown_value_is_nearest(bytes as nat);
}

/// Whole mebibytes are given as their number, with a zero after the point.
pub proof fn law_mebibytes_text_of_whole(m: nat, bytes: u64, text: String)
    requires
        call_ensures(mebibytes_text, (bytes,), text),
        bytes == m * 1048576,
    ensures
        text@ == decimal(m) + seq!['.', '0'],
{
    law_whole_mebibytes(m);
}

/// The overlay has two lines: the program's name, and its sums in mebibytes, rounded to a tenth.
pub proof fn law_overlay_lines(t: &Telemetry, lines: Vec<Vec<u16>>)
    requires
        call_ensures(tooltip_lines, (t,), lines),
    ensures
        lines@.len() == 2,
        text_of(lines@[0]@) == ("App: "@ + t.name@).push('\0'),
        exists|x: Seq<char>, y: Seq<char>|
            {
                &&& text_of(lines@[1]@) == #[trigger] ("Total WS: "@ + x + " MB | Commit: "@ + y
                    + " MB"@).push('\0')
                &&& shows_bytes(x, t.total_ws as nat)
                &&& shows_bytes(y, t.total_commit as nat)
            },
{
    let ws = t.total_ws as nat;
    let commit = t.total_commit as nat;
    law_first_line_names_the_program(t.name@, ws, commit);
    law_second_line_shows_both_sums(t.name@, ws, commit);
    assert(crate::tooltip::units_in(lines@).len() == lines@.len());
    law_units_in(lines@, 0);
    law_units_in(lines@, 1);
}

/// The lines are the code units of the program's name and of the texts for both sums, with the
/// words round them.
pub proof fn law_overlay_lines_are_written_out(
    t: &Telemetry,
    lines: Vec<Vec<u16>>,
    ws: String,
    commit: String,
    first: &str,
    second: &str,
    first_units: Vec<u16>,
    second_units: Vec<u16>,
)
    requires
        call_ensures(tooltip_lines, (t,), lines),
        call_ensures(mebibytes_text, (t.total_ws as u64,), ws),
        call_ensures(mebibytes_text, (t.total_commit as u64,), commit),
        first@ == "App: "@ + t.name@,
        second@ == "Total WS: "@ + ws@ + " MB | Commit: "@ + commit@ + " MB"@,
        call_ensures(encode_wide_with_null, (first,), first_units),
        call_ensures(encode_wide_with_null, (second,), second_units),
    ensures
        lines@.len() == 2,
        lines@[0]@ == first_units@,
        lines@[1]@ == second_units@,
{
    assert(crate::tooltip::units_in(lines@).len() == lines@.len());
    law_units_in(lines@, 0);
    law_units_in(lines@, 1);
}

/// Sums of whole mebibytes stand in the second line as those numbers.
pub proof fn law_overlay_lines_of_whole_mebibytes(
    t: &Telemetry,
    lines: Vec<Vec<u16>>,
    m: nat,
    k: nat,
)
    requires
        call_ensures(tooltip_lines, (t,), lines),
        t.total_ws == m * 1048576,
        t.total_commit == k * 1048576,
    ensures
        text_of(lines@[1]@) == ("Total WS: "@ + decimal(m) + ".0 MB | Commit: "@ + decimal(k)
            + ".0 MB"@).push('\0'),
{
    law_second_line_of_whole_mebibytes(t.name@, m, k);
    law_first_line_names_the_program(t.name@, m * 1048576, k * 1048576);
    law_second_line_shows_both_sums(t.name@, m * 1048576, k * 1048576);
    assert(crate::tooltip::units_in(lines@).len() == lines@.len());
    law_units_in(lines@, 1);
}

/// The overlay is 12 to the right of the cursor and 70 above it, 300 by 70 pixels, where that is
/// a position.
pub proof fn law_overlay_place(at: Point, fits: bool, frame: Frame)
    requires
        call_ensures(has_frame, (at,), fits),
        fits ==> call_ensures(tooltip_frame, (at,), frame),
    ensures
        fits <==> at.x + 12 <= i32::MAX && at.y - 70 >= i32::MIN,
        fits ==> frame.x == at.x + 12 && frame.y == at.y - 70 && frame.width == 300
            && frame.height == 70,
{
    law_frame_by_numbers(at);
}

/// The overlay is painted dark with a border, and with both lines if there are two.
pub proof fn law_painting_steps(lines: usize, ops: Vec<PaintOp>)
    requires
        call_ensures(paint_plan, (lines,), ops),
    ensures
        ops@.len() == if lines < 2 {
            3int
        } else {
            5int
        },
        ops@[0] == (PaintOp::Fill {
            rect: Rect { left: 0, top: 0, right: 300, bottom: 70 },
            color: 0x1C1C1C,
        }),
        ops@[1] == (PaintOp::Border {
            rect: Rect { left: 0, top: 0, right: 300, bottom: 70 },
            color: 0x333333,
        }),
        ops@[2] is TransparentText,
        lines >= 2 ==> ops@[3] == (PaintOp::Text {
            line: 0,
            bold: true,
            font_height: 16,
            color: 0xFFFFFF,
            rect: Rect { left: 15, top: 10, right: 300, bottom: 70 },
        }),
        lines >= 2 ==> ops@[4] == (PaintOp::Text {
            line: 1,
            bold: false,
            font_height: 14,
            color: 0xAAAAAA,
            rect: Rect { left: 15, top: 35, right: 300, bottom: 70 },
        }),
{
    law_painting_by_numbers(lines as nat);
}

/// A tip reads as its text if there is room for it, and is cut or filled with zeros to 128 code
/// units.
pub proof fn law_tip(tip: &str, field: [u16; TIP_LEN], i: int)
    requires
        call_ensures(tip_field, (tip,), field),
        0 <= i < 128,
    ensures
        field@.len() == 128,
        i < units_of(tip@).len() ==> field@[i] == units_of(tip@)[i],
        i >= units_of(tip@).len() ==> field@[i] == 0,
        units_of(tip@).len() <= 128 ==> text_of(field@.take(units_of(tip@).len() as int)) == tip@,
{
    law_tip_units(tip@, i);
    if units_of(tip@).len() <= 128 {
        law_tip_reads_as_its_text(tip@, units_of(tip@).len() as int);
    }
}

/// The program's tip reads as it is written, and the rest of the field is zero.
pub proof fn law_tray_tip(field: [u16; TIP_LEN])
    requires
        call_ensures(tray_tip_field, (), field),
    ensures
        exists|n: int|
            0 <= n < 128 && text_of(#[trigger] field@.take(n))
                == "MemHover \u{2014} Memory Monitor"@ && forall|i: int|
                n <= i < 128 ==> field@[i] == 0,
{
    let tip = "MemHover \u{2014} Memory Monitor"@;
    law_decode_of_encode(tip);
    let n = units_of(tip).len() as int;
    assert(text_of(field@.take(n)) == tip);
    assert forall|i: int| n <= i < 128 implies field@[i] == 0 by {
        law_tip_units(tip, i);
    }
}

// Messages.

/// What the windows do, by the numbers of the messages.
pub proof fn law_what_messages_do(
    msg: u32,
    wparam: usize,
    lparam: isize,
    action: MainAction,
    tooltip: TooltipAction,
)
    requires
        call_ensures(on_main_message, (msg, wparam, lparam), action),
        call_ensures(on_tooltip_message, (msg,), tooltip),
    ensures
        action is PollCursor <==> msg == 275 && wparam == 1,
        action is ShowMenu <==> msg == 32769 && lparam as int % 4294967296 == 517,
        action is Quit <==> msg == 273 && wparam as int % 65536 == 1001,
        action is RemoveIconAndQuit <==> msg == 2,
        action is Default <==> msg != 275 && msg != 32769 && msg != 273 && msg != 2,
        tooltip is Paint <==> msg == 15,
{
    law_messages_by_number(msg, wparam as int, lparam as int);
}

// Polls.

/// A poll begins with the question where the cursor is.
pub proof fn law_poll_begins(own_pid: u32, first: (Poll, Action))
    requires
        call_ensures(Poll::start, (own_pid,), first),
    ensures
        first.0.stage is Cursor,
        first.0.own_pid == own_pid,
        first.1 is ReadCursor,
{
}

/// From the cursor to the element: each answer that something is there leads to the next
/// question, about the same position; without a cursor or a service the overlay is left alone,
/// and without anything else, or away from the taskbar, it is hidden.
pub proof fn law_step_to_the_element(poll: &mut Poll, reply: Reply, action: Action)
    requires
        call_ensures(Poll::step, (poll, reply), action),
    ensures
        reply matches Reply::Cursor(Some(at)) ==> action == Action::FindWindow(at)
            && final(poll).at == at && final(poll).stage is Window,
        reply matches Reply::Cursor(None) ==> action is Nothing && final(poll).stage is Done,
        reply matches Reply::Window(found) ==> (found ==> action is FindRoot) && (!found
            ==> action is Hide),
        reply matches Reply::Root(found) ==> (found ==> action is ReadClassName) && (!found
            ==> action is Hide),
        reply matches Reply::ClassName(units) ==> {
            let text = text_of(units@);
            if text == "Shell_TrayWnd"@ || text == "Shell_SecondaryTrayWnd"@ || text
                == "NotifyIconOverflowWindow"@ || text == "XamlExplorerHostIslandWindow"@ {
                action is GetAutomation
            } else {
                action is Hide
            }
        },
        reply matches Reply::Automation(found) ==> (found ==> action == Action::FindElement(
            old(poll).at,
        )) && (!found ==> action is Nothing),
        reply matches Reply::Element(found) ==> (found ==> action is FindElementWindow) && (!found
            ==> action is Hide),
        !(reply is Cursor) ==> final(poll).at == old(poll).at,
        final(poll).own_pid == old(poll).own_pid,
        action is Nothing || action is Hide || action is Show ==> final(poll).stage is Done,
{
    if let Reply::ClassName(units) = reply {
        law_taskbar_classes(text_of(units@));
    }
}

/// From the element to the process: the owner of its window is taken first, then what the element
/// itself names, modulo 2^32; explorer.exe is resolved by the element's name, and every other
/// process that is known and not the program's own is measured.
pub proof fn law_step_to_the_process(poll: &mut Poll, reply: Reply, action: Action)
    requires
        call_ensures(Poll::step, (poll, reply), action),
    ensures
        reply matches Reply::ElementWindow(found) ==> (found ==> action is FindWindowOwner) && (
        !found ==> action is AskElementProcess),
        reply matches Reply::WindowOwner(pid) ==> (pid != 0 ==> action == Action::FindProcessName(
            pid,
        ) && final(poll).pid == pid) && (pid == 0 ==> action is AskElementProcess),
        reply matches Reply::ElementProcess(None) ==> action is Hide,
        reply matches Reply::ElementProcess(Some(n)) ==> (n == 0 ==> action is Hide) && (n != 0
            ==> action is FindProcessName && action->FindProcessName_0 == final(poll).pid && (
        final(poll).pid - n) % 0x1_0000_0000 == 0),
        reply matches Reply::ProcessName(name) ==> {
            let pid = old(poll).pid;
            &&& lower_ascii(name@) == "explorer.exe"@ ==> action is ReadElementName
                && final(poll).pid == pid
            &&& lower_ascii(name@) != "explorer.exe"@ && pid != 0 && pid != old(poll).own_pid
                ==> action == Action::Measure(pid)
            &&& lower_ascii(name@) != "explorer.exe"@ && (pid == 0 || pid == old(poll).own_pid)
                ==> action is Hide
        },
        reply matches Reply::ElementName(Some(name)) ==> name@.len() > 0 ==> action is MatchTitle
            && action->MatchTitle_0@ == name@ && final(poll).pid == old(poll).pid,
        (reply == Reply::ElementName(None) || (reply is ElementName
            && reply->ElementName_0 is Some && reply->ElementName_0->0@.len() == 0)) ==> {
            let pid = old(poll).pid;
            if pid == 0 || pid == old(poll).own_pid {
                action is Hide
            } else {
                action == Action::Measure(pid)
            }
        },
        reply matches Reply::TitleMatch(best) ==> {
            let pid = if best != 0 {
                best
            } else {
                old(poll).pid
            };
            if pid == 0 || pid == old(poll).own_pid {
                action is Hide
            } else {
                action == Action::Measure(pid)
            }
        },
{
    if let Reply::ProcessName(name) = reply {
        law_taskbar_host(name@);
    }
    if let Reply::ElementProcess(Some(n)) = reply {
        law_unsigned_pid(n);
    }
}

/// A measurement is shown, under its name and with its sums, 12 to the right of the cursor and 70
/// above it, unless it is that of explorer.exe; without one the overlay is hidden.
pub proof fn law_step_to_the_overlay(poll: &mut Poll, reply: Reply, action: Action, t: Telemetry)
    requires
        call_ensures(Poll::step, (poll, reply), action),
        frame_fits(old(poll).at),
    ensures
        reply == Reply::Measured(None) ==> action is Hide,
        reply == Reply::Measured(Some(t)) && lower_ascii(t.name@) == "explorer.exe"@
            ==> action is Hide,
        reply == Reply::Measured(Some(t)) && lower_ascii(t.name@) != "explorer.exe"@ ==> {
            &&& action is Show
            &&& action->lines@.len() == 2
            &&& text_of(action->lines@[0]@) == ("App: "@ + t.name@).push('\0')
            &&& exists|x: Seq<char>, y: Seq<char>|
                {
                    &&& text_of(action->lines@[1]@) == #[trigger] ("Total WS: "@ + x
                        + " MB | Commit: "@ + y + " MB"@).push('\0')
                    &&& shows_bytes(x, t.total_ws as nat)
                    &&& shows_bytes(y, t.total_commit as nat)
                }
            &&& action->frame.x == old(poll).at.x + 12
            &&& action->frame.y == old(poll).at.y - 70
            &&& action->frame.width == 300
            &&& action->frame.height == 70
        },
        reply == Reply::Measured(Some(t)) && t.name@.len() != 12 ==> action is Show,
{
    law_taskbar_host(t.name@);
    law_frame_by_numbers(old(poll).at);
    let ws = t.total_ws as nat;
    let commit = t.total_commit as nat;
    law_first_line_names_the_program(t.name@, ws, commit);
    law_second_line_shows_both_sums(t.name@, ws, commit);
    if reply == Reply::Measured(Some(t)) && lower_ascii(t.name@) != "explorer.exe"@ {
        let lines = action->lines@;
        assert(crate::tooltip::units_in(lines).len() == lines.len());
        law_units_in(lines, 0);
        law_units_in(lines, 1);
    }
}

/// A poll waits for the answer to the question it has just asked, and for none after its last
/// action.
pub proof fn law_step_waits_for_the_answer(poll: &mut Poll, reply: Reply, action: Action)
    requires
        call_ensures(Poll::step, (poll, reply), action),
    ensures
        !(action is ReadCursor),
        !(final(poll).stage is Cursor),
        action is FindWindow <==> final(poll).stage is Window,
        action is FindRoot <==> final(poll).stage is Root,
        action is ReadClassName <==> final(poll).stage is ClassName,
        action is GetAutomation <==> final(poll).stage is Automation,
        action is FindElement <==> final(poll).stage is Element,
        action is FindElementWindow <==> final(poll).stage is ElementWindow,
        action is FindWindowOwner <==> final(poll).stage is WindowOwner,
        action is AskElementProcess <==> final(poll).stage is ElementProcess,
        action is FindProcessName <==> final(poll).stage is ProcessName,
        action is ReadElementName <==> final(poll).stage is ElementName,
        action is MatchTitle <==> final(poll).stage is TitleMatch,
        action is Measure <==> final(poll).stage is Measured,
        action is Nothing || action is Hide || action is Show <==> final(poll).stage is Done,
        action matches Action::Measure(pid) ==> pid == final(poll).pid && pid != 0 && pid
            != final(poll).own_pid,
        action matches Action::FindProcessName(pid) ==> pid == final(poll).pid && pid != 0,
        action is Show ==> reply is Measured,
        !(reply is WindowOwner || reply is ElementProcess || reply is TitleMatch)
            ==> final(poll).pid == old(poll).pid,
        final(poll).own_pid == old(poll).own_pid,
        !(reply is Cursor) ==> final(poll).at == old(poll).at,
{
}

/// A poll takes the answer to its last question and no other, and that of a measurement that is
/// to be shown only if the overlay has a position.
pub proof fn law_accepted_replies(poll: &Poll, reply: &Reply, accepted: bool)
    requires
        call_ensures(Poll::accepts, (poll, reply), accepted),
    ensures
        accepted ==> {
            &&& reply is Cursor <==> poll.stage is Cursor
            &&& reply is Window <==> poll.stage is Window
            &&& reply is Root <==> poll.stage is Root
            &&& reply is ClassName <==> poll.stage is ClassName
            &&& reply is Automation <==> poll.stage is Automation
            &&& reply is Element <==> poll.stage is Element
            &&& reply is ElementWindow <==> poll.stage is ElementWindow
            &&& reply is WindowOwner <==> poll.stage is WindowOwner
            &&& reply is ElementProcess <==> poll.stage is ElementProcess
            &&& reply is ProcessName <==> poll.stage is ProcessName
            &&& reply is ElementName <==> poll.stage is ElementName
            &&& reply is TitleMatch <==> poll.stage is TitleMatch
            &&& reply is Measured <==> poll.stage is Measured
            &&& !(poll.stage is Done)
        },
        poll.stage is Cursor && reply is Cursor ==> accepted,
        poll.stage is Window && reply is Window ==> accepted,
        poll.stage is Root && reply is Root ==> accepted,
        poll.stage is ClassName && reply is ClassName ==> accepted,
        poll.stage is Automation && reply is Automation ==> accepted,
        poll.stage is Element && reply is Element ==> accepted,
        poll.stage is ElementWindow && reply is ElementWindow ==> accepted,
        poll.stage is WindowOwner && reply is WindowOwner ==> accepted,
        poll.stage is ElementProcess && reply is ElementProcess ==> accepted,
        poll.stage is ProcessName && reply is ProcessName ==> accepted,
        poll.stage is ElementName && reply is ElementName ==> accepted,
        poll.stage is TitleMatch && reply is TitleMatch ==> accepted,
        poll.stage is Measured && *reply == Reply::Measured(None) ==> accepted,
        poll.stage is Measured ==> (reply matches Reply::Measured(Some(t)) ==> (accepted <==> {
            ||| lower_ascii(t.name@) == "explorer.exe"@
            ||| poll.at.x + 12 <= i32::MAX && poll.at.y - 70 >= i32::MIN
        })),
{
    law_frame_by_numbers(poll.at);
    if let Reply::Measured(Some(t)) = *reply {
        law_taskbar_host(t.name@);
    }
}

/// A poll can go on with every reply it accepts.
pub proof fn law_accepted_reply_is_taken(poll: &mut Poll, seen: &Poll, reply: Reply, given: &Reply)
    requires
        *seen == *old(poll),
        *given == reply,
        call_ensures(Poll::accepts, (seen, given), true),
    ensures
        call_requires(Poll::step, (poll, reply)),
{
}

// What may be called.

/// Texts, code units and numbers of every kind are taken.
pub proof fn law_every_text_is_taken(
    s: &str,
    other: &str,
    units: &[u16],
    chars: &[char],
    part: &[char],
    c: char,
    n: u128,
    bytes: u64,
)
    ensures
        call_requires(encode_wide, (s,)),
        call_requires(encode_wide_with_null, (s,)),
        call_requires(decode_wide, (units,)),
        call_requires(is_taskbar_class, (units,)),
        call_requires(chars_of, (s,)),
        call_requires(string_of, (chars,)),
        call_requires(starts_with, (chars, part)),
        call_requires(contains, (chars, part)),
        call_requires(last_index_of, (chars, part)),
        call_requires(trim, (chars,)),
        call_requires(is_whitespace, (c,)),
        call_requires(eq_ignore_ascii_case, (s, other)),
        call_requires(strip_suffix, (s,)),
        call_requires(score_title, (s, other)),
        call_requires(file_name_of, (s,)),
        call_requires(tip_field, (s,)),
        call_requires(decimal_text, (n,)),
        call_requires(mebibytes_text, (bytes,)),
{
}

/// Any name is looked for among any windows, and the memory of any program is summed up where the
/// sums over all opened processes of that name can be held.
pub proof fn law_every_desktop_is_searched(
    name: &str,
    windows: &Vec<WindowInfo>,
    image_path: &Option<Vec<u16>>,
    processes: &Vec<ProcessInfo>,
)
    ensures
        call_requires(find_pid_by_window_title, (name, windows)),
        ({
            let matching = processes@.filter(
                |p: ProcessInfo|
                    p.pid != 0 && p.opened && p.memory is Some && same_but_for_case(
                        name_of_image(p.image_path),
                        name_of_image(*image_path),
                    ),
            );
            let plus = |total: int, bytes: int| total + bytes;
            &&& matching.map_values(|p: ProcessInfo| p.memory->0.working_set as int).fold_left(
                0int,
                plus,
            ) <= usize::MAX
            &&& matching.map_values(|p: ProcessInfo| p.memory->0.commit as int).fold_left(
                0int,
                plus,
            ) <= usize::MAX
        }) ==> call_requires(get_process_memory_telemetry, (image_path, processes)),
{
    law_sums_are_over_the_matching(name_of_image(*image_path), processes@);
}

/// The overlay can be laid out for any telemetry, painted with any number of lines, and put
/// wherever its position is a number; any message is taken.
pub proof fn law_every_overlay_is_laid_out(
    t: &Telemetry,
    lines: usize,
    at: Point,
    msg: u32,
    wparam: usize,
    lparam: isize,
)
    ensures
        call_requires(tooltip_lines, (t,)),
        call_requires(paint_plan, (lines,)),
        call_requires(has_frame, (at,)),
        at.x + 12 <= i32::MAX && at.y - 70 >= i32::MIN ==> call_requires(tooltip_frame, (at,)),
        call_requires(on_main_message, (msg, wparam, lparam)),
        call_requires(on_tooltip_message, (msg,)),
{
    law_frame_by_numbers(at);
}

} // verus!
