//! Memory use of a program: the sums over all processes that run the same executable.
use vstd::prelude::*;

use crate::text::{chars_of, eq_ignore_ascii_case, same_but_for_case, string_of};
use crate::utf16::{decode_wide, law_decode_of_encode, text_of, units_of};

verus! {

/// What stands after the last backslash of `path`, or all of it if there is none.
pub open spec fn file_name(path: Seq<char>) -> Seq<char>
    decreases path.len(),
{
    if path.len() == 0 || path.last() == '\\' {
        Seq::empty()
    } else {
        file_name(path.drop_last()).push(path.last())
    }
}

/// The executable's file name for the code units of its path, or nothing where the path could
/// not be read.
pub open spec fn name_of_image(image_path: Option<Vec<u16>>) -> Seq<char> {
    match image_path {
        Some(units) => file_name(text_of(units@)),
        None => Seq::empty(),
    }
}

/// The memory of one process in bytes: its working set and its private commit.
#[derive(Clone, Copy, Debug)]
pub struct MemoryUse {
    pub working_set: usize,
    pub commit: usize,
}

/// A running process: its number, whether it could be opened, and what could then be read of
/// it, the path of its executable and its memory.
pub struct ProcessInfo {
    pub pid: u32,
    pub opened: bool,
    pub image_path: Option<Vec<u16>>,
    pub memory: Option<MemoryUse>,
}

/// The memory that a process adds to the sums for the program `name`: its own if it runs an
/// executable of that name, whatever the case of ASCII letters, and nothing else.
pub open spec fn share_of(name: Seq<char>, p: ProcessInfo) -> (int, int) {
    match p.memory {
        Some(m) if p.pid != 0 && p.opened && same_but_for_case(name_of_image(p.image_path), name) => (
            m.working_set as int,
            m.commit as int,
        ),
        _ => (0, 0),
    }
}

/// The working sets and the private commits of all processes of the program `name`.
pub open spec fn sums(name: Seq<char>, processes: Seq<ProcessInfo>) -> (int, int)
    decreases processes.len(),
{
    if processes.len() == 0 {
        (0, 0)
    } else {
        let before = sums(name, processes.drop_last());
        let share = share_of(name, processes.last());
        (before.0 + share.0, before.1 + share.1)
    }
}

/// What stands after the last backslash of `path`.
pub fn file_name_of(path: &str) -> (name: String)
    ensures
        name@ == file_name(path@),
{
    let chars = chars_of(path);
    let mut from: usize = chars.len();
    assert(path@.take(from as int) == path@);
    while from > 0 && chars[from - 1] != '\\'
        invariant
            from <= chars.len(),
            chars@ == path@,
            file_name(path@) == file_name(path@.take(from as int)) + path@.skip(from as int),
        decreases from,
    {
        let ghost head = path@.take(from as int);
        assert(head.drop_last() == path@.take(from - 1));
        assert(file_name(head.drop_last()).push(head.last()) + path@.skip(from as int)
            == file_name(path@.take(from - 1)) + path@.skip(from - 1));
        from -= 1;
    }
    assert(file_name(path@.take(from as int)).len() == 0);
    let tail = vstd::slice::slice_subrange(chars.as_slice(), from, chars.len());
    assert(tail@ == path@.skip(from as int));
    string_of(tail)
}

/// The executable's file name for the code units of its path, empty where the path could not
/// be read.
pub fn process_name(image_path: &Option<Vec<u16>>) -> (name: String)
    ensures
        name@ == name_of_image(*image_path),
{
    match image_path {
        Some(units) => file_name_of(decode_wide(units.as_slice()).as_str()),
        None => String::new(),
    }
}

/// Whether a list of process numbers that takes up `bytes_returned` bytes, in a buffer with
/// room for `room` numbers, holds all of them: one that fills the buffer may be cut off.
pub fn list_is_whole(room: usize, bytes_returned: u32) -> (whole: bool)
    ensures
        whole == (bytes_returned as int / 4 < room),
        whole <==> bytes_returned < 4 * room,
{
    ((bytes_returned / 4) as usize) < room
}

/// The process numbers in `pids` when the list in it takes up `bytes_returned` bytes.
pub fn listed_pids(pids: &[u32], bytes_returned: u32) -> (listed: &[u32])
    requires
        bytes_returned / 4 <= pids@.len(),
    ensures
        listed@ == pids@.take(bytes_returned as int / 4),
        4 * listed@.len() <= bytes_returned < 4 * listed@.len() + 4,
        forall|i: int| 0 <= i < listed@.len() ==> #[trigger] listed@[i] == pids@[i],
{
    vstd::slice::slice_subrange(pids, 0, (bytes_returned / 4) as usize)
}

/// The memory of a program: its executable's file name, and the bytes of working set and of
/// private commit summed so far.
pub struct Telemetry {
    pub name: String,
    pub total_ws: usize,
    pub total_commit: usize,
}

impl Telemetry {
    /// Whether the sums still fit when `m` is added.
    pub open spec fn has_room_for(self, m: MemoryUse) -> bool {
        self.total_ws + m.working_set <= usize::MAX && self.total_commit + m.commit <= usize::MAX
    }

    /// Whether [`Telemetry::add_memory`] may add `m`.
    pub fn accepts(&self, m: MemoryUse) -> (accepted: bool)
        ensures
            accepted == self.has_room_for(m),
    {
        m.working_set <= usize::MAX - self.total_ws && m.commit <= usize::MAX - self.total_commit
    }

    /// Sums of nothing yet, for the program whose executable has the path `image_path`; `None`
    /// if that has no file name.
    pub fn start(image_path: &Option<Vec<u16>>) -> (telemetry: Option<Self>)
        ensures
            telemetry is None <==> name_of_image(*image_path).len() == 0,
            telemetry matches Some(t) ==> t.name@ == name_of_image(*image_path) && t.total_ws == 0
                && t.total_commit == 0,
    {
        let name = process_name(image_path);
        if name.as_str().is_empty() {
            None
        } else {
            Some(Telemetry { name, total_ws: 0, total_commit: 0 })
        }
    }

    /// Whether a process with this number is to be opened.
    pub fn wants_process(pid: u32) -> (wanted: bool)
        ensures
            wanted == (pid != 0),
    {
        pid != 0
    }

    /// Whether the memory of an opened process whose executable has the path `image_path` is
    /// to be added.
    pub fn wants_memory(&self, image_path: &Option<Vec<u16>>) -> (wanted: bool)
        ensures
            wanted == same_but_for_case(name_of_image(*image_path), self.name@),
    {
        eq_ignore_ascii_case(process_name(image_path).as_str(), self.name.as_str())
    }

    /// Adds the memory of one process.
    pub fn add_memory(&mut self, m: MemoryUse)
        requires
            old(self).has_room_for(m),
        ensures
            final(self).name == old(self).name,
            final(self).total_ws == old(self).total_ws + m.working_set,
            final(self).total_commit == old(self).total_commit + m.commit,
    {
        self.total_ws = self.total_ws + m.working_set;
        self.total_commit = self.total_commit + m.commit;
    }

    /// Takes the next process as a whole.
    pub fn observe(&mut self, p: &ProcessInfo)
        requires
            old(self).total_ws + share_of(old(self).name@, *p).0 <= usize::MAX,
            old(self).total_commit + share_of(old(self).name@, *p).1 <= usize::MAX,
        ensures
            final(self).name == old(self).name,
            final(self).total_ws == old(self).total_ws + share_of(old(self).name@, *p).0,
            final(self).total_commit == old(self).total_commit + share_of(old(self).name@, *p).1,
    {
        if Self::wants_process(p.pid) && p.opened && self.wants_memory(&p.image_path) {
            if let Some(m) = p.memory {
                self.add_memory(m);
            }
        }
    }
}

/// The memory of the program whose executable has the path `image_path`, summed over
/// `processes`; `None` if that path has no file name.
pub fn get_process_memory_telemetry(
    image_path: &Option<Vec<u16>>,
    processes: &Vec<ProcessInfo>,
) -> (telemetry: Option<Telemetry>)
    requires
        sums(name_of_image(*image_path), processes@).0 <= usize::MAX,
        sums(name_of_image(*image_path), processes@).1 <= usize::MAX,
    ensures
        telemetry is None <==> name_of_image(*image_path).len() == 0,
        telemetry matches Some(t) ==> {
            &&& t.name@ == name_of_image(*image_path)
            &&& t.total_ws == sums(name_of_image(*image_path), processes@).0
            &&& t.total_commit == sums(name_of_image(*image_path), processes@).1
        },
{
    let ghost name = name_of_image(*image_path);
    let mut telemetry = match Telemetry::start(image_path) {
        Some(t) => t,
        None => {
            return None;
        },
    };
    let mut k: usize = 0;
    while k < processes.len()
        invariant
            k <= processes.len(),
            telemetry.name@ == name,
            telemetry.total_ws == sums(name, processes@.take(k as int)).0,
            telemetry.total_commit == sums(name, processes@.take(k as int)).1,
            sums(name, processes@).0 <= usize::MAX,
            sums(name, processes@).1 <= usize::MAX,
        decreases processes.len() - k,
    {
        proof {
            let next = processes@.take(k + 1);
            assert(next.drop_last() == processes@.take(k as int));
            law_more_processes_never_lower_the_sums(name, next, processes@.skip(k + 1));
            assert(next + processes@.skip(k + 1) == processes@);
        }
        telemetry.observe(&processes[k]);
        k += 1;
    }
    assert(processes@.take(k as int) == processes@);
    Some(telemetry)
}

/// The sums over two groups of processes are the sums of the groups' sums.
pub proof fn law_sums_of_groups(name: Seq<char>, a: Seq<ProcessInfo>, b: Seq<ProcessInfo>)
    ensures
        sums(name, a + b).0 == sums(name, a).0 + sums(name, b).0,
        sums(name, a + b).1 == sums(name, a).1 + sums(name, b).1,
    decreases b.len(),
{
    if b.len() == 0 {
        assert(a + b == a);
    } else {
        law_sums_of_groups(name, a, b.drop_last());
        assert((a + b).drop_last() == a + b.drop_last());
    }
}

/// Sums are never negative.
proof fn lemma_sums_not_negative(name: Seq<char>, processes: Seq<ProcessInfo>)
    ensures
        sums(name, processes).0 >= 0,
        sums(name, processes).1 >= 0,
    decreases processes.len(),
{
    if processes.len() > 0 {
        lemma_sums_not_negative(name, processes.drop_last());
    }
}

/// Further processes never lower the sums.
pub proof fn law_more_processes_never_lower_the_sums(
    name: Seq<char>,
    processes: Seq<ProcessInfo>,
    more: Seq<ProcessInfo>,
)
    ensures
        sums(name, processes).0 <= sums(name, processes + more).0,
        sums(name, processes).1 <= sums(name, processes + more).1,
{
    law_sums_of_groups(name, processes, more);
    lemma_sums_not_negative(name, more);
}

/// Every process has its share in the sums, wherever it stands in the list.
pub proof fn law_each_process_has_its_share(name: Seq<char>, processes: Seq<ProcessInfo>, k: int)
    requires
        0 <= k < processes.len(),
    ensures
        sums(name, processes).0 == sums(name, processes.remove(k)).0 + share_of(
            name,
            processes[k],
        ).0,
        sums(name, processes).1 == sums(name, processes.remove(k)).1 + share_of(
            name,
            processes[k],
        ).1,
{
    let head = processes.take(k);
    let tail = processes.skip(k + 1);
    let one = seq![processes[k]];
    law_sums_of_groups(name, head, tail);
    assert(head + tail == processes.remove(k));
    law_sums_of_groups(name, head, one);
    law_sums_of_groups(name, head + one, tail);
    assert((head + one) + tail == processes);
    assert(one.drop_last().len() == 0);
    assert(sums(name, one.drop_last()) == (0int, 0int));
}

/// The sums do not depend on the order in which the processes are listed.
pub proof fn law_order_does_not_matter(
    name: Seq<char>,
    a: Seq<ProcessInfo>,
    b: Seq<ProcessInfo>,
)
    requires
        a.to_multiset() == b.to_multiset(),
    ensures
        sums(name, a) == sums(name, b),
    decreases a.len(),
{
    broadcast use vstd::seq_lib::group_to_multiset_ensures;

    assert(a.len() == a.to_multiset().len());
    assert(b.len() == b.to_multiset().len());
    if a.len() > 0 {
        let p = a[0];
        assert(a.contains(p));
        assert(a.to_multiset().contains(p));
        assert(b.contains(p));
        let k = b.index_of(p);
        law_each_process_has_its_share(name, a, 0);
        law_each_process_has_its_share(name, b, k);
        law_order_does_not_matter(name, a.remove(0), b.remove(k));
    }
}

/// The sums are those of the program, not of one of its processes: any two of its processes
/// have executables whose names differ at most in the case of ASCII letters, and give the
/// same sums.
pub proof fn law_same_program_same_sums(a: Seq<char>, b: Seq<char>, processes: Seq<ProcessInfo>)
    requires
        same_but_for_case(a, b),
    ensures
        sums(a, processes) == sums(b, processes),
    decreases processes.len(),
{
    if processes.len() > 0 {
        law_same_program_same_sums(a, b, processes.drop_last());
    }
}

/// A file name holds no backslash, ends the path, and is all of the path or follows a
/// backslash.
pub proof fn law_file_name_ends_path(path: Seq<char>)
    ensures
        ({
            let name = file_name(path);
            let n = path.len() - name.len();
            &&& !name.contains('\\')
            &&& 0 <= n
            &&& path.skip(n) == name
            &&& n == 0 || path[n - 1] == '\\'
        }),
    decreases path.len(),
{
    if path.len() > 0 && path.last() != '\\' {
        let shorter = path.drop_last();
        law_file_name_ends_path(shorter);
        let name = file_name(path);
        let n = path.len() - name.len();
        assert(path.skip(n) == shorter.skip(n).push(path.last()));
        assert forall|i: int| 0 <= i < name.len() implies name[i] != '\\' by {
            if i < name.len() - 1 {
                assert(file_name(shorter).contains(file_name(shorter)[i]));
            }
        }
    }
}

/// The file name of a directory, a backslash and a name is the name, as it is of the name alone.
pub proof fn law_file_name_of_parts(directory: Seq<char>, name: Seq<char>)
    requires
        !name.contains('\\'),
    ensures
        file_name(name) == name,
        file_name(directory + seq!['\\'] + name) == name,
    decreases name.len(),
{
    let path = directory + seq!['\\'] + name;
    if name.len() == 0 {
        assert(path.last() == '\\');
    } else {
        let shorter = name.drop_last();
        assert forall|i: int| 0 <= i < shorter.len() implies shorter[i] != '\\' by {
            assert(name.contains(name[i]));
        }
        assert(name.contains(name.last()));
        law_file_name_of_parts(directory, shorter);
        assert(path.drop_last() =~= directory + seq!['\\'] + shorter);
        assert(shorter.push(name.last()) =~= name);
    }
}

/// A process whose executable's path reads as a directory, a backslash and a name has that name;
/// one whose path could not be read has none.
pub proof fn law_process_has_its_file_name(
    units: Vec<u16>,
    directory: Seq<char>,
    name: Seq<char>,
)
    requires
        units@ == units_of(directory + seq!['\\'] + name),
        !name.contains('\\'),
    ensures
        name_of_image(Some(units)) == name,
        name_of_image(None).len() == 0,
{
    law_decode_of_encode(directory + seq!['\\'] + name);
    law_file_name_of_parts(directory, name);
}

/// The sums are taken over the processes that have a number, could be opened, could be read and
/// run an executable of that name, and over all of them: the first is the sum of their working
/// sets, the second of their commits.
pub proof fn law_sums_are_over_the_matching(name: Seq<char>, processes: Seq<ProcessInfo>)
    ensures
        ({
            let matching = processes.filter(
                |p: ProcessInfo|
                    p.pid != 0 && p.opened && p.memory is Some && same_but_for_case(
                        name_of_image(p.image_path),
                        name,
                    ),
            );
            let plus = |total: int, bytes: int| total + bytes;
            &&& sums(name, processes).0 == matching.map_values(
                |p: ProcessInfo| p.memory->0.working_set as int,
            ).fold_left(0int, plus)
            &&& sums(name, processes).1 == matching.map_values(
                |p: ProcessInfo| p.memory->0.commit as int,
            ).fold_left(0int, plus)
        }),
    decreases processes.len(),
{
    reveal(Seq::filter);
    let pred = |p: ProcessInfo|
        p.pid != 0 && p.opened && p.memory is Some && same_but_for_case(
            name_of_image(p.image_path),
            name,
        );
    let plus = |total: int, bytes: int| total + bytes;
    let ws = |p: ProcessInfo| p.memory->0.working_set as int;
    let commit = |p: ProcessInfo| p.memory->0.commit as int;
    let matching = processes.filter(pred);
    if processes.len() > 0 {
        let init = processes.drop_last();
        let last = processes.last();
        law_sums_are_over_the_matching(name, init);
        let before = init.filter(pred);
        if pred(last) {
            assert(matching == before.push(last));
            assert(matching.map_values(ws).drop_last() =~= before.map_values(ws));
            assert(matching.map_values(commit).drop_last() =~= before.map_values(commit));
        } else {
            assert(matching == before);
        }
    }
}

/// The memory of a single process of the program is all of the sums, whatever it is.
pub proof fn law_one_process_is_the_sums(name: Seq<char>, p: ProcessInfo, m: MemoryUse)
    requires
        p.pid != 0,
        p.opened,
        p.memory == Some(m),
        same_but_for_case(name_of_image(p.image_path), name),
    ensures
        sums(name, seq![p]) == (m.working_set as int, m.commit as int),
{
    assert(seq![p].drop_last().len() == 0);
    assert(sums(name, seq![p].drop_last()) == (0int, 0int));
    assert(seq![p].last() == p);
}

/// A process without a number, that could not be opened or read, or that runs an executable of
/// another name adds nothing; there is no other that adds nothing but those that use nothing.
pub proof fn law_only_others_add_nothing(name: Seq<char>, processes: Seq<ProcessInfo>, p: ProcessInfo)
    ensures
        p.pid == 0 || !p.opened || p.memory is None || !same_but_for_case(
            name_of_image(p.image_path),
            name,
        ) ==> sums(name, processes.push(p)) == sums(name, processes),
        sums(name, processes.push(p)) == sums(name, processes) ==> p.pid == 0 || !p.opened
            || p.memory is None || !same_but_for_case(name_of_image(p.image_path), name) || (
        p.memory->0.working_set == 0 && p.memory->0.commit == 0),
{
    assert(processes.push(p).drop_last() =~= processes);
    assert(processes.push(p).last() == p);
}

} // verus!
