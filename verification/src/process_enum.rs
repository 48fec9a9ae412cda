//! Running-process enumeration, used to detect Discord audio sources.
//!
//! Discord can run as `Discord.exe`, `DiscordCanary.exe`, `DiscordPTB.exe`, or in
//! a browser. We surface every match so the UI lets the player choose rather than
//! hard-coding one executable name.

use vstd::prelude::*;
use vstd::string::*;

use crate::text;

verus! {

#[derive(Debug, Clone)]
pub struct ProcessInfo {
    pub pid: u32,
    pub name: String,
}

/// What the system reports of a process: its id, and the path of its executable
/// if the process could be opened.
#[derive(Debug, Clone)]
pub struct ProcessRecord {
    pub pid: u32,
    pub path: Option<String>,
}

/// A process with its name as characters.
pub struct ProcessView {
    pub pid: u32,
    pub name: Seq<char>,
}

impl View for ProcessInfo {
    type V = ProcessView;

    open spec fn view(&self) -> ProcessView {
        ProcessView { pid: self.pid, name: self.name@ }
    }
}

/// The contents of a list of processes.
pub open spec fn processes(list: Seq<ProcessInfo>) -> Seq<ProcessView> {
    list.map_values(|p: ProcessInfo| p@)
}

/// What stands after the last slash or backslash of a path.
pub open spec fn file_name(path: Seq<char>) -> Seq<char>
    decreases path.len(),
{
    if path.len() == 0 || path.last() == '\\' || path.last() == '/' {
        seq![]
    } else {
        file_name(path.drop_last()).push(path.last())
    }
}

/// A process is taken for Discord by how its name begins, in any letter case.
pub open spec fn looks_like_discord(name: Seq<char>) -> bool {
    text::begins_with(text::lowered(name), "discord"@)
}

/// The processes that can be named. The idle process (id 0) is not one.
pub open spec fn named_processes(records: Seq<ProcessRecord>) -> Seq<ProcessView>
    decreases records.len(),
{
    if records.len() == 0 {
        seq![]
    } else {
        let before = named_processes(records.drop_last());
        let record = records.last();
        match record.path {
            Some(path) => if record.pid == 0 {
                before
            } else {
                before.push(ProcessView { pid: record.pid, name: file_name(path@) })
            },
            None => before,
        }
    }
}

/// The name of an executable from its path.
pub fn name_of_path(path: &str) -> (r: String)
    ensures
        r@ == file_name(path@),
{
    let chars = text::chars_of(path);
    let n: usize = chars.len();
    let mut from: usize = n;
    let ghost whole = path@;
    assert(whole.take(n as int) =~= whole);
    assert(file_name(whole) =~= file_name(whole.take(from as int)) + whole.skip(from as int));
    while from > 0 && chars[from - 1] != '\\' && chars[from - 1] != '/'
        invariant
            chars@ == whole,
            whole == path@,
            n == whole.len(),
            from <= n,
            file_name(whole) == file_name(whole.take(from as int)) + whole.skip(from as int),
        decreases from,
    {
        proof {
            let head = whole.take(from as int);
            assert(head.last() == whole[from - 1]);
            assert(head.drop_last() =~= whole.take(from - 1));
            assert(file_name(head) + whole.skip(from as int) =~= file_name(whole.take(from - 1))
                + whole.skip(from - 1));
        }
        from -= 1;
    }
    proof {
        if from > 0 {
            assert(whole.take(from as int).last() == whole[from - 1]);
        }
        assert(whole.subrange(from as int, n as int) =~= file_name(whole));
    }
    path.substring_char(from, n).to_string()
}

pub fn is_discord(name: &str) -> (r: bool)
    ensures
        r == looks_like_discord(name@),
{
    let lower = text::lower(name);
    text::starts_with(lower.as_str(), "discord")
}

/// The running processes, by the names of their executables.
pub fn list_processes(records: &Vec<ProcessRecord>) -> (r: Vec<ProcessInfo>)
    ensures
        processes(r@) == named_processes(records@),
{
    let mut out: Vec<ProcessInfo> = Vec::new();
    let n: usize = records.len();
    assert(processes(out@) =~= named_processes(records@.take(0)));
    for i in 0..n
        invariant
            n == records@.len(),
            processes(out@) == named_processes(records@.take(i as int)),
    {
        let ghost before = out@;
        proof {
            let seen = records@.take(i + 1);
            assert(seen.drop_last() =~= records@.take(i as int));
            assert(seen.last() == records@[i as int]);
        }
        let pid: u32 = records[i].pid;
        if pid != 0 {
            if let Some(path) = &records[i].path {
                let name = name_of_path(path.as_str());
                out.push(ProcessInfo { pid, name });
                assert(processes(out@) =~= processes(before).push(ProcessView { pid, name: name@ }));
            }
        }
    }
    assert(records@.take(n as int) =~= records@);
    out
}

/// All running Discord-like processes.
pub fn discord_processes(running: &Vec<ProcessInfo>) -> (r: Vec<ProcessInfo>)
    ensures
        processes(r@) == processes(running@).filter(|p: ProcessView| looks_like_discord(p.name)),
{
    let mut out: Vec<ProcessInfo> = Vec::new();
    let n: usize = running.len();
    let ghost all = processes(running@);
    let ghost wanted = |p: ProcessView| looks_like_discord(p.name);
    proof {
        reveal(Seq::filter);
        assert(processes(out@) =~= all.take(0).filter(wanted));
    }
    for i in 0..n
        invariant
            n == running@.len(),
            all == processes(running@),
            wanted == (|p: ProcessView| looks_like_discord(p.name)),
            processes(out@) == all.take(i as int).filter(wanted),
    {
        let ghost before = out@;
        proof {
            reveal(Seq::filter);
            let seen = all.take(i + 1);
            assert(seen.drop_last() =~= all.take(i as int));
            assert(seen.last() == running@[i as int]@);
        }
        if is_discord(running[i].name.as_str()) {
            out.push(ProcessInfo { pid: running[i].pid, name: running[i].name.clone() });
            assert(processes(out@) =~= processes(before).push(running@[i as int]@));
        }
    }
    assert(all.take(n as int) =~= all);
    out
}

/// The name of an executable is the end of its path: it holds no separator, and
/// stands behind one or is the whole path.
pub proof fn names_end_their_paths(path: Seq<char>)
    ensures
        text::finishes_with(path, file_name(path)),
        text::lacks(file_name(path), '\\') && text::lacks(file_name(path), '/'),
        ({
            let n = path.len() - file_name(path).len();
            n == 0 || path[n - 1] == '\\' || path[n - 1] == '/'
        }),
    decreases path.len(),
{
    if path.len() == 0 || path.last() == '\\' || path.last() == '/' {
        assert(path.subrange(path.len() as int, path.len() as int) =~= file_name(path));
    } else {
        let head = path.drop_last();
        names_end_their_paths(head);
        let inner = file_name(head);
        let name = file_name(path);
        let n = path.len() - name.len();
        assert forall|i: int| 0 <= i < name.len() implies #[trigger] name[i] != '\\' && name[i] != '/' by {
            if i < inner.len() {
                assert(name[i] == inner[i]);
            }
        }
        assert(head.subrange(n, head.len() as int) =~= inner);
        assert(path.subrange(n, path.len() as int) =~= name) by {
            assert forall|i: int| 0 <= i < name.len() implies path.subrange(n, path.len() as int)[i] == name[i] by {
                if i < inner.len() {
                    assert(head.subrange(n, head.len() as int)[i] == inner[i]);
                }
            }
        }
        if n > 0 {
            assert(path[n - 1] == head[n - 1]);
        }
    }
}

/// A name in ASCII is Discord's exactly if it begins with those seven letters, each
/// of them small or capital, whatever follows.
pub proof fn discord_is_known_in_any_case(name: Seq<char>)
    requires
        text::is_ascii_text(name),
    ensures
        looks_like_discord(name) <==> name.len() >= 7 && (name[0] == 'd' || name[0] == 'D') && (name[1] == 'i'
            || name[1] == 'I') && (name[2] == 's' || name[2] == 'S') && (name[3] == 'c' || name[3] == 'C') && (
        name[4] == 'o' || name[4] == 'O') && (name[5] == 'r' || name[5] == 'R') && (name[6] == 'd' || name[6]
            == 'D'),
{
    reveal_strlit("discord");
    let lower = text::lowered(name);
    assert(lower =~= name.map_values(|c: char| text::ascii_lower(c)));
    if name.len() >= 7 {
        let start = lower.subrange(0, 7);
        assert forall|i: int| 0 <= i < 7 implies #[trigger] start[i] == text::ascii_lower(name[i]) by {}
        if looks_like_discord(name) {
            assert(start == "discord"@);
            assert(start[0] == 'd' && start[1] == 'i' && start[2] == 's' && start[3] == 'c' && start[4] == 'o'
                && start[5] == 'r' && start[6] == 'd');
        } else if name[0] == 'd' || name[0] == 'D' {
            assert(start =~= "discord"@ || start[0] != 'd' || start[1] != 'i' || start[2] != 's' || start[3] != 'c'
                || start[4] != 'o' || start[5] != 'r' || start[6] != 'd');
        }
    }
}

/// A process is listed exactly if it has an id and a path, under that id and the
/// name at the end of that path.
pub proof fn processes_with_a_path_are_listed(records: Seq<ProcessRecord>, i: int)
    ensures
        0 <= i < records.len() && records[i].pid != 0 && records[i].path is Some ==> exists|j: int|
            0 <= j < named_processes(records).len() && (#[trigger] named_processes(records)[j]).pid
                == records[i].pid && named_processes(records)[j].name == file_name(records[i].path->0@),
        0 <= i < named_processes(records).len() ==> exists|j: int|
            0 <= j < records.len() && (#[trigger] records[j]).pid != 0 && records[j].pid
                == named_processes(records)[i].pid && records[j].path is Some && named_processes(records)[i].name
                == file_name(records[j].path->0@),
        named_processes(records).len() <= records.len(),
    decreases records.len(),
{
    if records.len() > 0 {
        let head = records.drop_last();
        let before = named_processes(head);
        let all = named_processes(records);
        processes_with_a_path_are_listed(head, i);
        if 0 <= i < records.len() && records[i].pid != 0 && records[i].path is Some {
            if i < head.len() {
                assert(head[i] == records[i]);
                let j = choose|j: int|
                    0 <= j < before.len() && (#[trigger] before[j]).pid == records[i].pid && before[j].name
                        == file_name(records[i].path->0@);
                assert(all[j] == before[j]);
            } else {
                assert(all[all.len() - 1].pid == records[i].pid);
            }
        }
        if 0 <= i < all.len() {
            if i < before.len() {
                let j = choose|j: int|
                    0 <= j < head.len() && (#[trigger] head[j]).pid != 0 && head[j].pid == before[i].pid
                        && head[j].path is Some && before[i].name == file_name(head[j].path->0@);
                assert(records[j] == head[j]);
            } else {
                assert(records[records.len() - 1].pid == all[i].pid);
            }
        }
    }
}

/// Processes are listed in the order in which the system reports them: more of them only
/// add to the list.
pub proof fn processes_keep_their_order(first: Seq<ProcessRecord>, more: Seq<ProcessRecord>)
    ensures
        named_processes(first + more) == named_processes(first) + named_processes(more),
    decreases more.len(),
{
    if more.len() == 0 {
        assert(first + more =~= first);
        assert(named_processes(first) + named_processes(more) =~= named_processes(first));
    } else {
        assert((first + more).drop_last() =~= first + more.drop_last());
        processes_keep_their_order(first, more.drop_last());
        assert(named_processes(first + more) =~= named_processes(first) + named_processes(more));
    }
}

} // verus!
