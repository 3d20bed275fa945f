//! Which window a taskbar icon stands for: the one whose title fits the icon's name best.
use vstd::prelude::*;

use crate::text::{
    all_ascii, chars_of, contains, last_index_of, last_position, law_last_position,
    law_occurs_at_start, law_occurs_in,
    lemma_lowering_keeps_trimmed, lower_ascii, lowercase, lowercase_of, occurs_at, occurs_in, starts_with, string_of, trim, trimmed,
};
use crate::utf16::{decode_wide, text_of};

verus! {

/// The score of a window title that is the name looked for.
pub const EXACT_SCORE: u32 = 100;

/// The score of a title that begins with the name, or the other way round.
pub const PREFIX_SCORE: u32 = 80;

/// The score of a title that holds the name, or the other way round.
pub const PART_SCORE: u32 = 50;

/// What a visible window has over a hidden one.
pub const VISIBLE_BONUS: u32 = 500;

/// Titles with fewer code units than this are passed over.
pub const MIN_TITLE_LEN: usize = 3;

/// What a taskbar puts between the name of an application and a remark on it.
pub open spec fn separator() -> Seq<char> {
    " - "@
}

/// The name of the application in the name of a taskbar icon: what stands before the last
/// separator, without surrounding whitespace, or all of it if there is no separator.
pub open spec fn application_name(icon_name: Seq<char>) -> Seq<char> {
    let at = last_position(icon_name, separator());
    if at < 0 {
        icon_name
    } else {
        trimmed(icon_name.take(at))
    }
}

/// How well the lowercase `title` of a window fits the lowercase name `target`.
pub open spec fn title_score(title: Seq<char>, target: Seq<char>) -> u32 {
    if title == target {
        EXACT_SCORE
    } else if occurs_at(title, target, 0) || occurs_at(target, trimmed(title), 0) {
        PREFIX_SCORE
    } else if occurs_in(title, target) || occurs_in(target, trimmed(title)) {
        PART_SCORE
    } else {
        0
    }
}

/// How well a window titled `title` fits the icon named `icon_name`, whatever the case of
/// the letters in both.
pub open spec fn window_score(icon_name: Seq<char>, title: Seq<u16>) -> u32 {
    if title.len() < MIN_TITLE_LEN {
        0
    } else {
        title_score(
            lowercase_of(text_of(title)),
            application_name(lowercase_of(icon_name)),
        )
    }
}

/// Whether `score` is `value` if that is above zero, and nothing if it is zero.
pub open spec fn is_positive_score(score: Option<u32>, value: u32) -> bool {
    match score {
        Some(s) => s == value && s > 0,
        None => value == 0,
    }
}

/// The score of a window whose title has the score `score`, with what it has for being
/// visible.
pub open spec fn ranked(score: u32, visible: bool) -> int {
    if score == 0 {
        0
    } else if visible {
        score + VISIBLE_BONUS
    } else {
        score as int
    }
}

/// A top-level window: the code units of its title, whether it is shown, and the process
/// that owns it, `0` if that is unknown.
pub struct WindowInfo {
    pub title: Vec<u16>,
    pub visible: bool,
    pub pid: u32,
}

/// The rank of a window for the icon named `icon_name`; `0` if it does not fit at all.
pub open spec fn window_rank(icon_name: Seq<char>, w: WindowInfo) -> int {
    ranked(window_score(icon_name, w.title@), w.visible)
}

/// Whether the name of the icon and the title of a window that is not passed over are lowered
/// by the rules of ASCII, each where it is an ASCII text.
pub open spec fn lowered_plainly(icon_name: Seq<char>, title: Seq<u16>) -> bool {
    title.len() >= MIN_TITLE_LEN ==> {
        &&& all_ascii(icon_name) ==> lowercase_of(icon_name) == lower_ascii(icon_name)
        &&& all_ascii(text_of(title)) ==> lowercase_of(text_of(title)) == lower_ascii(
            text_of(title),
        )
    }
}

/// Whether a window fits the icon at all and its process is known.
pub open spec fn is_candidate(icon_name: Seq<char>, w: WindowInfo) -> bool {
    window_rank(icon_name, w) > 0 && w.pid != 0
}

/// Whether window `i` is the one to pick: no candidate ranks higher, and every candidate
/// before it ranks lower.
pub open spec fn is_first_best(icon_name: Seq<char>, windows: Seq<WindowInfo>, i: int) -> bool {
    &&& 0 <= i < windows.len()
    &&& is_candidate(icon_name, windows[i])
    &&& forall|j: int|
        0 <= j < windows.len() && #[trigger] is_candidate(icon_name, windows[j]) ==> {
            &&& window_rank(icon_name, windows[j]) <= window_rank(icon_name, windows[i])
            &&& j < i ==> window_rank(icon_name, windows[j]) < window_rank(icon_name, windows[i])
        }
}

/// Whether no window fits the icon.
pub open spec fn none_fits(icon_name: Seq<char>, windows: Seq<WindowInfo>) -> bool {
    forall|j: int| 0 <= j < windows.len() ==> !#[trigger] is_candidate(icon_name, windows[j])
}

/// Whether `pid` is the process to pick: that of the window to pick, or `0` exactly if no
/// window fits.
pub open spec fn is_pick(icon_name: Seq<char>, windows: Seq<WindowInfo>, pid: u32) -> bool {
    &&& pid == 0 <==> none_fits(icon_name, windows)
    &&& pid != 0 ==> exists|i: int|
        #[trigger] is_first_best(icon_name, windows, i) && windows[i].pid == pid
}

/// What stands before the last separator of `icon_name`, trimmed, or all of it.
pub fn strip_suffix(icon_name: &str) -> (name: String)
    ensures
        name@ == application_name(icon_name@),
{
    let chars = chars_of(icon_name);
    let separator = chars_of(" - ");
    match last_index_of(chars.as_slice(), separator.as_slice()) {
        Some(at) => {
            let head = vstd::slice::slice_subrange(chars.as_slice(), 0, at);
            assert(head@ == icon_name@.take(at as int));
            string_of(trim(head))
        },
        None => string_of(chars.as_slice()),
    }
}

/// How well the lowercase `title` of a window fits the lowercase name `target`.
pub fn score_title(title: &str, target: &str) -> (score: u32)
    ensures
        score == title_score(title@, target@),
{
    let title_chars = chars_of(title);
    let target_chars = chars_of(target);
    let whole = title_chars.as_slice();
    let wanted = target_chars.as_slice();
    let core = trim(whole);
    if whole.len() == wanted.len() && starts_with(whole, wanted) {
        assert(whole@.subrange(0, wanted@.len() as int) == whole@);
        EXACT_SCORE
    } else {
        assert(title@ == target@ ==> title@.subrange(0, target@.len() as int) == target@);
        if starts_with(whole, wanted) || starts_with(wanted, core) {
            PREFIX_SCORE
        } else if contains(whole, wanted) || contains(wanted, core) {
            PART_SCORE
        } else {
            0
        }
    }
}

/// The search for the window of a taskbar icon: the name of the icon, and the process and
/// the rank of the best window so far, both `0` before one is found.
pub struct EnumState {
    pub target_name: String,
    pub best_pid: u32,
    pub best_score: u32,
}

impl EnumState {
    /// A process is known exactly when a rank is.
    pub open spec fn inv(self) -> bool {
        self.best_pid == 0 <==> self.best_score == 0
    }

    /// A search that has seen no window.
    pub fn new(name: &str) -> (state: Self)
        ensures
            state.inv(),
            state.target_name@ == name@,
            state.best_pid == 0,
            state.best_score == 0,
    {
        EnumState { target_name: name.to_owned(), best_pid: 0, best_score: 0 }
    }

    /// Takes the title of the next window. Gives the score of the title if the search then
    /// wants to know whether the window is visible, and `None` if it is done with the window.
    pub fn on_title(&self, title: &[u16]) -> (score: Option<u32>)
        ensures
            is_positive_score(score, window_score(self.target_name@, title@)),
            lowered_plainly(self.target_name@, title@),
    {
        if title.len() < MIN_TITLE_LEN {
            return None;
        }
        let title_text = lowercase(decode_wide(title).as_str());
        let target = strip_suffix(lowercase(self.target_name.as_str()).as_str());
        let score = score_title(title_text.as_str(), target.as_str());
        if score > 0 {
            Some(score)
        } else {
            None
        }
    }

    /// Takes whether the window is visible. Gives its rank if the search then wants to know
    /// its process, and `None` if it is done with the window.
    pub fn on_visibility(&self, score: u32, visible: bool) -> (rank: Option<u32>)
        requires
            0 < score <= EXACT_SCORE,
        ensures
            match rank {
                Some(r) => r == ranked(score, visible) && r > self.best_score,
                None => ranked(score, visible) <= self.best_score,
            },
    {
        let rank: u32 = if visible {
            score + VISIBLE_BONUS
        } else {
            score
        };
        if rank > self.best_score {
            Some(rank)
        } else {
            None
        }
    }

    /// Takes the process of a window that ranks above the best one so far, and keeps it
    /// unless it is unknown.
    pub fn on_owner(&mut self, rank: u32, pid: u32)
        requires
            rank > old(self).best_score,
        ensures
            old(self).inv() ==> final(self).inv(),
            final(self).target_name == old(self).target_name,
            pid != 0 ==> final(self).best_pid == pid && final(self).best_score == rank,
            pid == 0 ==> *final(self) == *old(self),
    {
        if pid != 0 {
            self.best_pid = pid;
            self.best_score = rank;
        }
    }

    /// Takes the next window as a whole.
    pub fn observe(&mut self, w: &WindowInfo)
        ensures
            old(self).inv() ==> final(self).inv(),
            final(self).target_name == old(self).target_name,
            final(self).best_score >= old(self).best_score,
            is_candidate(old(self).target_name@, *w) && window_rank(old(self).target_name@, *w)
                > old(self).best_score ==> final(self).best_pid == w.pid
                && final(self).best_score == window_rank(old(self).target_name@, *w),
            !(is_candidate(old(self).target_name@, *w) && window_rank(old(self).target_name@, *w)
                > old(self).best_score) ==> *final(self) == *old(self),
            lowered_plainly(old(self).target_name@, w.title@),
    {
        if let Some(score) = self.on_title(w.title.as_slice()) {
            if let Some(rank) = self.on_visibility(score, w.visible) {
                self.on_owner(rank, w.pid);
            }
        }
    }
}

/// The process of the window that fits the icon named `name` best, the first of those that
/// fit equally well, or `0` if no window fits.
pub fn find_pid_by_window_title(name: &str, windows: &Vec<WindowInfo>) -> (pid: u32)
    ensures
        is_pick(name@, windows@, pid),
        forall|i: int|
            0 <= i < windows@.len() ==> lowered_plainly(name@, #[trigger] windows@[i].title@),
{
    let mut state = EnumState::new(name);
    let ghost mut best: int = 0;
    let mut k: usize = 0;
    while k < windows.len()
        invariant
            k <= windows.len(),
            state.inv(),
            state.target_name@ == name@,
            forall|i: int| 0 <= i < k ==> lowered_plainly(name@, #[trigger] windows@[i].title@),
            state.best_pid == 0 ==> none_fits(name@, windows@.take(k as int)),
            state.best_pid != 0 ==> {
                &&& is_first_best(name@, windows@.take(k as int), best)
                &&& windows@[best].pid == state.best_pid
                &&& window_rank(name@, windows@[best]) == state.best_score
            },
        decreases windows.len() - k,
    {
        let ghost seen = windows@.take(k as int);
        let ghost now = windows@.take(k + 1);
        let ghost before = state;
        state.observe(&windows[k]);
        proof {
            assert(now == seen.push(windows@[k as int]));
            assert forall|j: int| 0 <= j < k implies #[trigger] now[j] == seen[j] by {}
            if is_candidate(name@, windows@[k as int]) && window_rank(name@, windows@[k as int])
                > before.best_score {
                best = k as int;
                assert forall|j: int|
                    0 <= j < now.len() && #[trigger] is_candidate(
                        name@,
                        now[j],
                    ) implies window_rank(name@, now[j]) <= window_rank(name@, now[best]) && (j
                    < best ==> window_rank(name@, now[j]) < window_rank(name@, now[best])) by {
                    if j < k {
                        assert(is_candidate(name@, seen[j]));
                    }
                }
            } else if before.best_pid != 0 {
                assert(now[best] == seen[best]);
                assert forall|j: int|
                    0 <= j < now.len() && #[trigger] is_candidate(
                        name@,
                        now[j],
                    ) implies window_rank(name@, now[j]) <= window_rank(name@, now[best]) && (j
                    < best ==> window_rank(name@, now[j]) < window_rank(name@, now[best])) by {
                    if j < k {
                        assert(is_candidate(name@, seen[j]));
                    }
                }
            } else {
                assert forall|j: int| 0 <= j < now.len() implies !#[trigger] is_candidate(
                    name@,
                    now[j],
                ) by {
                    if j < k {
                        assert(!is_candidate(name@, seen[j]));
                    }
                }
            }
        }
        k += 1;
    }
    assert(windows@.take(k as int) == windows@);
    proof {
        if state.best_pid != 0 {
            assert(is_first_best(name@, windows@, best));
            assert(is_candidate(name@, windows@[best]));
        }
    }
    state.best_pid
}

/// A remark that the taskbar adds after a separator, such as the number of running windows,
/// is no part of the application's name. (This is so unless the remark brings a separator of
/// its own, be it with the blank before it.)
pub proof fn law_remark_is_dropped(name: Seq<char>, remark: Seq<char>)
    requires
        !occurs_in(seq![' '] + remark, separator()),
    ensures
        application_name(name + separator() + remark) == trimmed(name),
{
    reveal_strlit(" - ");
    let icon_name = name + separator() + remark;
    let after = seq![' '] + remark;
    let n = name.len() as int;
    assert(icon_name.subrange(n, n + 3) == separator());
    assert(occurs_at(icon_name, separator(), n));
    assert forall|j: int| n < j implies !occurs_at(icon_name, separator(), j) by {
        if occurs_at(icon_name, separator(), j) {
            if j == n + 1 {
                assert(icon_name.subrange(j, j + 3)[0] == '-');
            } else {
                let k = j - (n + 2);
                assert(after.subrange(k, k + 3) == icon_name.subrange(j, j + 3));
                assert(occurs_at(after, separator(), k));
            }
        }
    }
    law_last_position(icon_name, separator());
    assert(icon_name.take(n) == name);
}

/// A name without a separator is the application's name as it stands.
pub proof fn law_plain_name_is_kept(name: Seq<char>)
    requires
        !occurs_in(name, separator()),
    ensures
        application_name(name) == name,
{
    law_last_position(name, separator());
}

/// A remark after the name of an icon keeps the rank of every window: the icon named `full`,
/// which in lowercase is the lowercase name, a separator and a remark, ranks it as the icon
/// named `name` does.
pub proof fn law_remark_keeps_rank(
    name: Seq<char>,
    full: Seq<char>,
    remark: Seq<char>,
    w: WindowInfo,
)
    requires
        lowercase_of(full) == lowercase_of(name) + separator() + remark,
        !occurs_in(seq![' '] + remark, separator()),
        !occurs_in(lowercase_of(name), separator()),
        trimmed(lowercase_of(name)) == lowercase_of(name),
    ensures
        window_rank(full, w) == window_rank(name, w),
{
    law_remark_is_dropped(lowercase_of(name), remark);
    law_plain_name_is_kept(lowercase_of(name));
}

/// Two icons that give every window the same rank stand for the same window.
pub proof fn law_same_ranks_same_pick(a: Seq<char>, b: Seq<char>, windows: Seq<WindowInfo>)
    requires
        forall|i: int|
            0 <= i < windows.len() ==> #[trigger] window_rank(a, windows[i]) == window_rank(
                b,
                windows[i],
            ),
    ensures
        forall|i: int| #[trigger] is_first_best(a, windows, i) == is_first_best(b, windows, i),
        forall|pid: u32| #[trigger] is_pick(a, windows, pid) == is_pick(b, windows, pid),
{
    assert forall|i: int| 0 <= i < windows.len() implies #[trigger] is_candidate(a, windows[i])
        == is_candidate(b, windows[i]) by {
        assert(window_rank(a, windows[i]) == window_rank(b, windows[i]));
    }
    assert forall|i: int| #[trigger] is_first_best(a, windows, i) == is_first_best(
        b,
        windows,
        i,
    ) by {
        if is_first_best(a, windows, i) {
            assert forall|j: int|
                0 <= j < windows.len() && #[trigger] is_candidate(
                    b,
                    windows[j],
                ) implies window_rank(b, windows[j]) <= window_rank(b, windows[i]) && (j < i
                ==> window_rank(b, windows[j]) < window_rank(b, windows[i])) by {
                assert(is_candidate(a, windows[j]));
            }
        }
        if is_first_best(b, windows, i) {
            assert forall|j: int|
                0 <= j < windows.len() && #[trigger] is_candidate(
                    a,
                    windows[j],
                ) implies window_rank(a, windows[j]) <= window_rank(a, windows[i]) && (j < i
                ==> window_rank(a, windows[j]) < window_rank(a, windows[i])) by {
                assert(is_candidate(b, windows[j]));
            }
        }
    }
    if none_fits(a, windows) {
        assert forall|j: int| 0 <= j < windows.len() implies !#[trigger] is_candidate(
            b,
            windows[j],
        ) by {
            assert(!is_candidate(a, windows[j]));
        }
    }
    if none_fits(b, windows) {
        assert forall|j: int| 0 <= j < windows.len() implies !#[trigger] is_candidate(
            a,
            windows[j],
        ) by {
            assert(!is_candidate(b, windows[j]));
        }
    }
    assert forall|pid: u32| #[trigger] is_pick(a, windows, pid) == is_pick(b, windows, pid) by {
        assert(forall|i: int|
            is_first_best(a, windows, i) == #[trigger] is_first_best(b, windows, i));
    }
}

/// A remark after the name of an icon keeps the pick among any windows, as far as lowercase
/// keeps the name, the separator and the remark apart.
pub proof fn law_remark_keeps_pick(
    name: Seq<char>,
    full: Seq<char>,
    remark: Seq<char>,
    windows: Seq<WindowInfo>,
)
    requires
        lowercase_of(full) == lowercase_of(name) + separator() + remark,
        !occurs_in(seq![' '] + remark, separator()),
        !occurs_in(lowercase_of(name), separator()),
        trimmed(lowercase_of(name)) == lowercase_of(name),
    ensures
        forall|pid: u32| #[trigger] is_pick(full, windows, pid) == is_pick(name, windows, pid),
{
    assert forall|i: int| 0 <= i < windows.len() implies #[trigger] window_rank(full, windows[i])
        == window_rank(name, windows[i]) by {
        law_remark_keeps_rank(name, full, remark, windows[i]);
    }
    law_same_ranks_same_pick(full, name, windows);
}

/// A remark after a trimmed ASCII name without a separator keeps the pick among any windows,
/// whatever their titles. The facts on lowering are those that [`find_pid_by_window_title`]
/// ensures of each of the two names.
pub proof fn law_ascii_remark_keeps_pick(
    name: Seq<char>,
    remark: Seq<char>,
    windows: Seq<WindowInfo>,
)
    requires
        all_ascii(name),
        all_ascii(remark),
        trimmed(name) == name,
        !occurs_in(name, separator()),
        !occurs_in(seq![' '] + remark, separator()),
        forall|i: int|
            0 <= i < windows.len() ==> lowered_plainly(name, #[trigger] windows[i].title@),
        forall|i: int|
            0 <= i < windows.len() ==> lowered_plainly(
                name + separator() + remark,
                #[trigger] windows[i].title@,
            ),
    ensures
        forall|pid: u32|
            #[trigger] is_pick(name + separator() + remark, windows, pid) == is_pick(
                name,
                windows,
                pid,
            ),
{
    reveal_strlit(" - ");
    let full = name + separator() + remark;
    assert(all_ascii(full));
    assert(lower_ascii(full) == lower_ascii(name) + separator() + lower_ascii(remark));
    assert(seq![' '] + lower_ascii(remark) == lower_ascii(seq![' '] + remark));
    lemma_lowering_keeps_separators(name);
    lemma_lowering_keeps_separators(seq![' '] + remark);
    lemma_lowering_keeps_trimmed(name);
    assert forall|i: int| 0 <= i < windows.len() implies #[trigger] window_rank(full, windows[i])
        == window_rank(name, windows[i]) by {
        assert(lowered_plainly(name, windows[i].title@));
        assert(lowered_plainly(full, windows[i].title@));
        if windows[i].title@.len() >= MIN_TITLE_LEN {
            law_remark_keeps_rank(name, full, lower_ascii(remark), windows[i]);
        }
    }
    law_same_ranks_same_pick(full, name, windows);
}

/// Lowering ASCII letters moves no separator.
proof fn lemma_lowering_keeps_separators(s: Seq<char>)
    ensures
        occurs_in(lower_ascii(s), separator()) ==> occurs_in(s, separator()),
{
    reveal_strlit(" - ");
    if occurs_in(lower_ascii(s), separator()) {
        let i = choose|i: int| occurs_at(lower_ascii(s), separator(), i);
        let there = lower_ascii(s).subrange(i, i + 3);
        assert(there[0] == ' ' && there[1] == '-' && there[2] == ' ');
        assert(s.subrange(i, i + 3) == separator());
        assert(occurs_at(s, separator(), i));
    }
}


/// A visible window that fits at all ranks above every hidden window.
pub proof fn law_visible_outranks_hidden(icon_name: Seq<char>, shown: WindowInfo, hidden: WindowInfo)
    requires
        shown.visible,
        !hidden.visible,
        window_rank(icon_name, shown) > 0,
    ensures
        window_rank(icon_name, shown) > window_rank(icon_name, hidden),
{
}

/// Among windows that are both visible or both hidden, the one with the better title ranks
/// higher: the name itself, then a title that begins with it, then one that holds it.
pub proof fn law_better_title_ranks_higher(icon_name: Seq<char>, a: WindowInfo, b: WindowInfo)
    requires
        a.visible == b.visible,
    ensures
        window_rank(icon_name, a) > window_rank(icon_name, b) <==> window_score(icon_name, a.title@)
            > window_score(icon_name, b.title@),
        PART_SCORE < PREFIX_SCORE < EXACT_SCORE,
{
}

/// A visible window whose title is the application's name is never outranked.
pub proof fn law_exact_visible_is_best(icon_name: Seq<char>, exact: WindowInfo, other: WindowInfo)
    requires
        exact.visible,
        exact.title@.len() >= MIN_TITLE_LEN,
        lowercase_of(text_of(exact.title@)) == application_name(lowercase_of(icon_name)),
    ensures
        window_rank(icon_name, other) <= window_rank(icon_name, exact),
{
}

/// At most one window is the one to pick.
pub proof fn law_pick_is_unique(icon_name: Seq<char>, windows: Seq<WindowInfo>, i: int, j: int)
    requires
        is_first_best(icon_name, windows, i),
        is_first_best(icon_name, windows, j),
    ensures
        i == j,
{
    assert(is_candidate(icon_name, windows[i]));
    assert(is_candidate(icon_name, windows[j]));
}

/// There is only one process to pick.
pub proof fn law_picked_process_is_unique(
    icon_name: Seq<char>,
    windows: Seq<WindowInfo>,
    p: u32,
    q: u32,
)
    requires
        is_pick(icon_name, windows, p),
        is_pick(icon_name, windows, q),
    ensures
        p == q,
{
    if p != 0 {
        let i = choose|i: int|
            #[trigger] is_first_best(icon_name, windows, i) && windows[i].pid == p;
        let j = choose|j: int|
            #[trigger] is_first_best(icon_name, windows, j) && windows[j].pid == q;
        law_pick_is_unique(icon_name, windows, i, j);
    }
}

/// Some window is the one to pick, unless none fits.
pub proof fn law_pick_exists(icon_name: Seq<char>, windows: Seq<WindowInfo>) -> (i: int)
    requires
        !none_fits(icon_name, windows),
    ensures
        is_first_best(icon_name, windows, i),
    decreases windows.len(),
{
    let last = windows.len() - 1;
    let init = windows.drop_last();
    if none_fits(icon_name, init) {
        assert forall|j: int|
            0 <= j < windows.len() && #[trigger] is_candidate(icon_name, windows[j]) implies j
            == last by {
            if j < last {
                assert(!is_candidate(icon_name, init[j]));
            }
        }
        last
    } else {
        let i = law_pick_exists(icon_name, init);
        assert(windows[i] == init[i]);
        assert forall|j: int|
            0 <= j < last && #[trigger] is_candidate(
                icon_name,
                windows[j],
            ) implies window_rank(icon_name, windows[j]) <= window_rank(icon_name, windows[i]) && (
        j < i ==> window_rank(icon_name, windows[j]) < window_rank(icon_name, windows[i])) by {
            assert(is_candidate(icon_name, init[j]));
        }
        if is_candidate(icon_name, windows[last]) && window_rank(icon_name, windows[last])
            > window_rank(icon_name, windows[i]) {
            last
        } else {
            i
        }
    }
}

/// A window that is no candidate has no part in the choice: without it the same window is
/// picked.
pub proof fn law_others_do_not_matter(
    icon_name: Seq<char>,
    windows: Seq<WindowInfo>,
    k: int,
    i: int,
)
    requires
        0 <= k < windows.len(),
        !is_candidate(icon_name, windows[k]),
        is_first_best(icon_name, windows, i),
    ensures
        is_first_best(icon_name, windows.remove(k), if i < k { i } else { i - 1 }),
        windows.remove(k)[if i < k { i } else { i - 1 }] == windows[i],
{
    let rest = windows.remove(k);
    let p = if i < k { i } else { i - 1 };
    assert forall|j: int|
        0 <= j < rest.len() && #[trigger] is_candidate(icon_name, rest[j]) implies window_rank(
        icon_name,
        rest[j],
    ) <= window_rank(icon_name, rest[p]) && (j < p ==> window_rank(icon_name, rest[j])
        < window_rank(icon_name, rest[p])) by {
        let q = if j < k { j } else { j + 1 };
        assert(rest[j] == windows[q]);
        assert(is_candidate(icon_name, windows[q]));
    }
}

/// The separator is a dash between two blanks.
pub proof fn law_separator_is_spaced_dash(before: Seq<char>, after: Seq<char>)
    ensures
        before + separator() + after == before + seq![' ', '-', ' '] + after,
{
    reveal_strlit(" - ");
    assert(separator() =~= seq![' ', '-', ' ']);
}

/// What a score says of a title and a name of any length: 100 that they are the same; at least
/// 80 that one of them begins with the other; at least 50 that one of them is something, the
/// other, and something; and less than that, which is 0, that none of this is so. A title
/// within the name counts without the whitespace at its ends.
pub proof fn law_title_score(title: Seq<char>, target: Seq<char>)
    ensures
        title_score(title, target) == 100 <==> title == target,
        title_score(title, target) >= 80 <==> {
            ||| exists|b: Seq<char>| title == #[trigger] (target + b)
            ||| exists|b: Seq<char>| target == #[trigger] (trimmed(title) + b)
        },
        title_score(title, target) >= 50 <==> {
            ||| exists|a: Seq<char>, b: Seq<char>| title == #[trigger] (a + target + b)
            ||| exists|a: Seq<char>, b: Seq<char>| target == #[trigger] (a + trimmed(title) + b)
        },
        title_score(title, target) == 0 || title_score(title, target) == 50 || title_score(
            title,
            target,
        ) == 80 || title_score(title, target) == 100,
{
    let core = trimmed(title);
    law_occurs_at_start(title, target);
    law_occurs_at_start(target, core);
    law_occurs_in(title, target);
    law_occurs_in(target, core);
    if title == target {
        assert(title =~= target + Seq::<char>::empty());
        assert(title =~= Seq::<char>::empty() + target + Seq::<char>::empty());
    }
    if occurs_at(title, target, 0) {
        assert(occurs_in(title, target));
    }
    if occurs_at(target, core, 0) {
        assert(occurs_in(target, core));
    }
}

/// A title that is something, the name, and something has a score of 50 at least, however long
/// it is, and of 80 at least if nothing comes first.
pub proof fn law_title_with_name_scores(a: Seq<char>, name: Seq<char>, b: Seq<char>)
    ensures
        title_score(a + name + b, name) >= 50,
        title_score(name + b, name) >= 80,
        title_score(name, name) == 100,
{
    law_title_score(a + name + b, name);
    law_title_score(name + b, name);
    law_title_score(name, name);
}

/// If the process of some window is known, its title has three code units or more, and the
/// lowercase title holds the lowercase name of the application, a process is picked.
pub proof fn law_window_with_name_is_found(
    icon_name: Seq<char>,
    windows: Seq<WindowInfo>,
    k: int,
    a: Seq<char>,
    b: Seq<char>,
    pid: u32,
)
    requires
        0 <= k < windows.len(),
        windows[k].pid != 0,
        windows[k].title@.len() >= 3,
        lowercase_of(text_of(windows[k].title@)) == a + application_name(lowercase_of(icon_name))
            + b,
        is_pick(icon_name, windows, pid),
    ensures
        pid != 0,
{
    law_title_score(
        lowercase_of(text_of(windows[k].title@)),
        application_name(lowercase_of(icon_name)),
    );
    assert(is_candidate(icon_name, windows[k]));
}

/// If the process of some window is known, its title has three code units or more, and the
/// lowercase name of the application holds the trimmed lowercase title, a process is picked.
pub proof fn law_window_within_name_is_found(
    icon_name: Seq<char>,
    windows: Seq<WindowInfo>,
    k: int,
    a: Seq<char>,
    b: Seq<char>,
    pid: u32,
)
    requires
        0 <= k < windows.len(),
        windows[k].pid != 0,
        windows[k].title@.len() >= 3,
        application_name(lowercase_of(icon_name)) == a + trimmed(
            lowercase_of(text_of(windows[k].title@)),
        ) + b,
        is_pick(icon_name, windows, pid),
    ensures
        pid != 0,
{
    law_title_score(
        lowercase_of(text_of(windows[k].title@)),
        application_name(lowercase_of(icon_name)),
    );
    assert(is_candidate(icon_name, windows[k]));
}

/// A process that is picked is that of a window whose title has three code units or more and
/// holds the name of the application, or is held by it.
pub proof fn law_picked_window_fits(icon_name: Seq<char>, windows: Seq<WindowInfo>, pid: u32)
    requires
        is_pick(icon_name, windows, pid),
        pid != 0,
    ensures
        exists|i: int|
            0 <= i < windows.len() && (#[trigger] windows[i]).pid == pid
                && windows[i].title@.len() >= 3 && {
                let title = lowercase_of(text_of(windows[i].title@));
                let name = application_name(lowercase_of(icon_name));
                occurs_in(title, name) || occurs_in(name, trimmed(title))
            },
{
    let i = choose|i: int|
        #[trigger] is_first_best(icon_name, windows, i) && windows[i].pid == pid;
    let title = lowercase_of(text_of(windows[i].title@));
    let name = application_name(lowercase_of(icon_name));
    law_title_score(title, name);
    law_occurs_in(title, name);
    law_occurs_in(name, trimmed(title));
    assert(is_candidate(icon_name, windows[i]));
}

/// The window that is picked goes before every other window with a known process and a title of
/// three code units or more that fits: a visible one before a hidden one, then the better title,
/// then the one that comes first.
pub proof fn law_picked_window_goes_first(
    icon_name: Seq<char>,
    windows: Seq<WindowInfo>,
    i: int,
    j: int,
)
    requires
        is_first_best(icon_name, windows, i),
        0 <= j < windows.len(),
        windows[j].pid != 0,
        windows[j].title@.len() >= 3,
        title_score(
            lowercase_of(text_of(windows[j].title@)),
            application_name(lowercase_of(icon_name)),
        ) > 0,
    ensures
        ({
            let name = application_name(lowercase_of(icon_name));
            let mine = title_score(lowercase_of(text_of(windows[i].title@)), name);
            let other = title_score(lowercase_of(text_of(windows[j].title@)), name);
            &&& 0 <= i < windows.len()
            &&& windows[i].pid != 0
            &&& windows[i].title@.len() >= 3
            &&& mine > 0
            &&& windows[j].visible ==> windows[i].visible
            &&& windows[i].visible == windows[j].visible ==> mine >= other
            &&& windows[i].visible == windows[j].visible && mine == other ==> i <= j
        }),
{
    assert(is_candidate(icon_name, windows[i]));
    assert(is_candidate(icon_name, windows[j]));
}

/// Being visible is worth 500, to a window that fits at all.
pub proof fn law_visibility_is_worth_500(score: u32)
    ensures
        ranked(0, true) == 0 && ranked(0, false) == 0,
        score > 0 ==> ranked(score, false) == score && ranked(score, true) == score + 500,
{
}

} // verus!
