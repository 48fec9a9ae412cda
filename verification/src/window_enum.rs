//! Top-level window enumeration.
//!
//! Lists visible, titled, top-level windows the player can pick as a capture
//! source. Each entry carries the HWND (as a stable `isize` id), title and owning
//! process name so the UI can show "cs2.exe — Counter-Strike 2" and the capture
//! engine can bind a WGC target to the HWND.

use vstd::prelude::*;
use vstd::string::*;

use crate::process_enum;
use crate::text;

verus! {

/// Stable identifier for a window (the raw HWND value).
pub type WindowId = isize;

#[derive(Debug, Clone)]
pub struct WindowInfo {
    pub id: WindowId,
    pub title: String,
    pub process_name: String,
    pub pid: u32,
}

/// What the system reports of a top-level window.
#[derive(Debug, Clone)]
pub struct WindowRecord {
    pub id: WindowId,
    pub visible: bool,
    /// Another window owns this one (a tool or child window).
    pub owned: bool,
    pub title: String,
    pub pid: u32,
    /// The path of the owning process's executable, if it could be read.
    pub path: Option<String>,
}

/// A window with its strings as characters.
pub struct WindowView {
    pub id: WindowId,
    pub title: Seq<char>,
    pub process_name: Seq<char>,
    pub pid: u32,
}

impl View for WindowInfo {
    type V = WindowView;

    open spec fn view(&self) -> WindowView {
        WindowView { id: self.id, title: self.title@, process_name: self.process_name@, pid: self.pid }
    }
}

impl WindowView {
    /// What the list is ordered by.
    pub open spec fn key(self) -> Seq<char> {
        text::lowered(self.process_name)
    }
}

/// The contents of a list of windows.
pub open spec fn windows(list: Seq<WindowInfo>) -> Seq<WindowView> {
    list.map_values(|w: WindowInfo| w@)
}

impl WindowRecord {
    /// The window can be picked: it is visible, owned by no other and titled.
    pub open spec fn capturable(self) -> bool {
        self.visible && !self.owned && text::trimmed(self.title@).len() > 0
    }

    pub open spec fn process_name(self) -> Seq<char> {
        match self.path {
            Some(path) => if self.pid == 0 {
                "unknown"@
            } else {
                process_enum::file_name(path@)
            },
            None => "unknown"@,
        }
    }

    pub open spec fn info(self) -> WindowView {
        WindowView { id: self.id, title: self.title@, process_name: self.process_name(), pid: self.pid }
    }
}

/// `w` put into an ordered list, after all that do not come after it.
pub open spec fn placed(list: Seq<WindowView>, w: WindowView) -> Seq<WindowView>
    decreases list.len(),
{
    if list.len() == 0 || text::ordered(list.last().key(), w.key()) {
        list.push(w)
    } else {
        placed(list.drop_last(), w).push(list.last())
    }
}

/// The capturable windows by process name, in any letter case; windows of one
/// process stay in the order in which the system reports them.
pub open spec fn arranged(records: Seq<WindowRecord>) -> Seq<WindowView>
    decreases records.len(),
{
    if records.len() == 0 {
        seq![]
    } else {
        let before = arranged(records.drop_last());
        if records.last().capturable() {
            placed(before, records.last().info())
        } else {
            before
        }
    }
}

fn process_name(record: &WindowRecord) -> (r: String)
    ensures
        r@ == record.process_name(),
{
    if record.pid == 0 {
        return "unknown".to_string();
    }
    match &record.path {
        Some(path) => process_enum::name_of_path(path.as_str()),
        None => "unknown".to_string(),
    }
}

fn place(list: &mut Vec<WindowInfo>, w: WindowInfo)
    ensures
        windows(final(list)@) == placed(windows(old(list)@), w@),
{
    let key = text::lower(w.process_name.as_str());
    let n: usize = list.len();
    let mut at: usize = n;
    let ghost all = windows(list@);
    let ghost start = list@;
    assert(all.take(n as int) =~= all);
    assert(placed(all, w@) =~= placed(all.take(at as int), w@) + all.skip(at as int));
    loop
        invariant
            list@ == start,
            all == windows(start),
            n == start.len(),
            at <= n,
            key@ == w@.key(),
            placed(all, w@) == placed(all.take(at as int), w@) + all.skip(at as int),
        ensures
            at <= n,
            at == 0 || text::ordered(all[at - 1].key(), w@.key()),
            placed(all, w@) == placed(all.take(at as int), w@) + all.skip(at as int),
        decreases at,
    {
        if at == 0 {
            break ;
        }
        let other = text::lower(list[at - 1].process_name.as_str());
        assert(other@ == all[at - 1].key());
        if text::not_after(other.as_str(), key.as_str()) {
            break ;
        }
        proof {
            let head = all.take(at as int);
            assert(head.last() == all[at - 1]);
            assert(head.drop_last() =~= all.take(at - 1));
            assert(placed(head, w@) + all.skip(at as int) =~= placed(all.take(at - 1), w@) + all.skip(
                at - 1,
            ));
        }
        at -= 1;
    }
    proof {
        let head = all.take(at as int);
        if at > 0 {
            assert(head.last() == all[at - 1]);
        }
        assert(placed(head, w@) == head.push(w@));
    }
    list.insert(at, w);
    assert(windows(list@) =~= all.take(at as int).push(w@) + all.skip(at as int));
}

/// List capturable top-level windows.
pub fn list_windows(records: &Vec<WindowRecord>) -> (r: Vec<WindowInfo>)
    ensures
        windows(r@) == arranged(records@),
{
    let mut out: Vec<WindowInfo> = Vec::new();
    let n: usize = records.len();
    assert(windows(out@) =~= arranged(records@.take(0)));
    for i in 0..n
        invariant
            n == records@.len(),
            windows(out@) == arranged(records@.take(i as int)),
    {
        proof {
            let seen = records@.take(i + 1);
            assert(seen.drop_last() =~= records@.take(i as int));
            assert(seen.last() == records@[i as int]);
        }
        let record = &records[i];
        if record.visible && !record.owned && text::trim(record.title.as_str()).unicode_len() > 0 {
            let w = WindowInfo {
                id: record.id,
                title: record.title.clone(),
                process_name: process_name(record),
                pid: record.pid,
            };
            place(&mut out, w);
        }
    }
    assert(records@.take(n as int) =~= records@);
    out
}

/// Every entry up to another is not after it.
pub open spec fn is_sorted(list: Seq<WindowView>) -> bool {
    forall|i: int, j: int|
        0 <= i <= j < list.len() ==> text::ordered((#[trigger] list[i]).key(), (#[trigger] list[j]).key())
}

proof fn placing_keeps_order(list: Seq<WindowView>, w: WindowView)
    requires
        is_sorted(list),
    ensures
        is_sorted(placed(list, w)),
        placed(list, w).len() == list.len() + 1,
        forall|i: int|
            0 <= i < placed(list, w).len() ==> list.contains(#[trigger] placed(list, w)[i]) || placed(
                list,
                w,
            )[i] == w,
    decreases list.len(),
{
    if list.len() == 0 || text::ordered(list.last().key(), w.key()) {
        let r = list.push(w);
        assert forall|i: int, j: int| 0 <= i <= j < r.len() implies text::ordered(
            (#[trigger] r[i]).key(),
            (#[trigger] r[j]).key(),
        ) by {
            if j == list.len() {
                if i == j {
                    text::ordered_is_total(w.key(), w.key());
                } else {
                    assert(text::ordered(list[i].key(), list[list.len() - 1].key()));
                    text::ordered_is_transitive(list[i].key(), list.last().key(), w.key());
                }
            } else {
                assert(list[i] == r[i] && list[j] == r[j]);
            }
        }
        assert forall|i: int| 0 <= i < r.len() implies list.contains(#[trigger] r[i]) || r[i] == w by {
            if i < list.len() {
                assert(list[i] == r[i]);
            }
        }
    } else {
        let head = list.drop_last();
        assert(is_sorted(head)) by {
            assert forall|i: int, j: int| 0 <= i <= j < head.len() implies text::ordered(
                (#[trigger] head[i]).key(),
                (#[trigger] head[j]).key(),
            ) by {
                assert(head[i] == list[i] && head[j] == list[j]);
            }
        }
        placing_keeps_order(head, w);
        let h = placed(head, w);
        let r = h.push(list.last());
        text::ordered_is_total(list.last().key(), w.key());
        text::ordered_is_total(list.last().key(), list.last().key());
        assert forall|i: int, j: int| 0 <= i <= j < r.len() implies text::ordered(
            (#[trigger] r[i]).key(),
            (#[trigger] r[j]).key(),
        ) by {
            if j == h.len() {
                if i < j {
                    assert(h[i] == r[i]);
                    if h[i] != w {
                        let k = choose|k: int| 0 <= k < head.len() && head[k] == h[i];
                        assert(list[k] == h[i]);
                        assert(text::ordered(list[k].key(), list[list.len() - 1].key()));
                    }
                }
            } else {
                assert(h[i] == r[i] && h[j] == r[j]);
            }
        }
        assert forall|i: int| 0 <= i < r.len() implies list.contains(#[trigger] r[i]) || r[i] == w by {
            if i < h.len() {
                assert(h[i] == r[i]);
                if h[i] != w {
                    let k = choose|k: int| 0 <= k < head.len() && head[k] == h[i];
                    assert(list[k] == h[i]);
                }
            } else {
                assert(list[list.len() - 1] == r[i]);
            }
        }
    }
}

/// The list is ordered by process name, in any letter case.
pub proof fn windows_are_sorted(records: Seq<WindowRecord>)
    ensures
        is_sorted(arranged(records)),
    decreases records.len(),
{
    if records.len() > 0 {
        windows_are_sorted(records.drop_last());
        if records.last().capturable() {
            placing_keeps_order(arranged(records.drop_last()), records.last().info());
        }
    }
}

/// The capturable windows as the system reports them.
pub open spec fn picked(records: Seq<WindowRecord>) -> Seq<WindowView>
    decreases records.len(),
{
    if records.len() == 0 {
        seq![]
    } else if records.last().capturable() {
        picked(records.drop_last()).push(records.last().info())
    } else {
        picked(records.drop_last())
    }
}

proof fn placing_keeps_equals(list: Seq<WindowView>, w: WindowView, key: Seq<char>)
    ensures
        placed(list, w).filter(|v: WindowView| v.key() == key) == list.push(w).filter(
            |v: WindowView| v.key() == key,
        ),
    decreases list.len(),
{
    reveal(Seq::filter);
    let same = |v: WindowView| v.key() == key;
    if !(list.len() == 0 || text::ordered(list.last().key(), w.key())) {
        let head = list.drop_last();
        placing_keeps_equals(head, w, key);
        let h = placed(head, w);
        text::ordered_is_total(w.key(), w.key());
        assert(list.last().key() != w.key());
        assert(h.push(list.last()).drop_last() =~= h);
        assert(list.push(w).drop_last() =~= list);
        assert(head.push(w).drop_last() =~= head);
        let f = head.filter(same);
        assert(list.filter(same) == if same(list.last()) {
            f.push(list.last())
        } else {
            f
        });
        assert(h.filter(same) == if same(w) {
            f.push(w)
        } else {
            f
        });
    }
}

/// The windows of one process (in any letter case of its name) stay in the order
/// in which the system reports them, and none is lost or added.
pub proof fn windows_of_a_process_keep_their_order(records: Seq<WindowRecord>, key: Seq<char>)
    ensures
        arranged(records).filter(|v: WindowView| v.key() == key) == picked(records).filter(
            |v: WindowView| v.key() == key,
        ),
    decreases records.len(),
{
    let same = |v: WindowView| v.key() == key;
    if records.len() > 0 {
        let before = records.drop_last();
        windows_of_a_process_keep_their_order(before, key);
        if records.last().capturable() {
            let w = records.last().info();
            placing_keeps_equals(arranged(before), w, key);
            reveal(Seq::filter);
            assert(arranged(before).push(w).drop_last() =~= arranged(before));
            assert(picked(before).push(w).drop_last() =~= picked(before));
        }
    }
}

/// Putting a window into the list keeps what is there and adds the window.
proof fn placing_adds_one(list: Seq<WindowView>, w: WindowView)
    ensures
        placed(list, w).len() == list.len() + 1,
        forall|v: WindowView| #[trigger] placed(list, w).contains(v) <==> list.contains(v) || v == w,
    decreases list.len(),
{
    let all = placed(list, w);
    if list.len() == 0 || text::ordered(list.last().key(), w.key()) {
        assert forall|v: WindowView| #[trigger] all.contains(v) <==> list.contains(v) || v == w by {
            if list.contains(v) {
                assert(all[list.index_of(v)] == v);
            }
            if v == w {
                assert(all[list.len() as int] == v);
            }
            if all.contains(v) && v != w {
                assert(list[all.index_of(v)] == v);
            }
        }
    } else {
        let head = list.drop_last();
        placing_adds_one(head, w);
        let inner = placed(head, w);
        assert forall|v: WindowView| #[trigger] all.contains(v) <==> list.contains(v) || v == w by {
            if list.contains(v) {
                let k = list.index_of(v);
                if k < head.len() {
                    assert(head[k] == v);
                    assert(inner.contains(v));
                    assert(all[inner.index_of(v)] == v);
                } else {
                    assert(all[inner.len() as int] == v);
                }
            }
            if v == w {
                assert(inner.contains(v));
                assert(all[inner.index_of(v)] == v);
            }
            if all.contains(v) && v != w {
                let k = all.index_of(v);
                if k < inner.len() {
                    assert(inner[k] == v);
                    assert(inner.contains(v));
                    assert(list[head.index_of(v)] == v);
                } else {
                    assert(list[list.len() - 1] == v);
                }
            }
        }
    }
}

/// The list holds exactly the windows that are visible, that no other window owns and
/// whose title is not blank, each with the system's handle, title and process id, and
/// with the name of its executable, or `unknown` where there is none to read.
pub proof fn pickable_windows_are_listed(records: Seq<WindowRecord>, v: WindowView)
    ensures
        arranged(records).contains(v) <==> exists|i: int|
            0 <= i < records.len() && (#[trigger] records[i]).visible && !records[i].owned && text::trimmed(
                records[i].title@,
            ).len() > 0 && v.id == records[i].id && v.title == records[i].title@ && v.pid == records[i].pid && (
            records[i].pid != 0 && records[i].path is Some ==> v.process_name == process_enum::file_name(
                records[i].path->0@,
            )) && (records[i].pid == 0 || records[i].path is None ==> v.process_name == "unknown"@),
    decreases records.len(),
{
    if records.len() == 0 {
        assert(arranged(records).len() == 0);
    } else {
        let head = records.drop_last();
        pickable_windows_are_listed(head, v);
        let last = records.last();
        assert(last == records[records.len() - 1]);
        if last.capturable() {
            placing_adds_one(arranged(head), last.info());
        }
        if exists|i: int| 0 <= i < records.len() && shows(#[trigger] records[i], v) {
            let i = choose|i: int| 0 <= i < records.len() && shows(#[trigger] records[i], v);
            if i < head.len() {
                assert(head[i] == records[i]);
            } else {
                assert(v == last.info());
            }
        }
        if arranged(head).contains(v) {
            let i = choose|i: int| 0 <= i < head.len() && shows(#[trigger] head[i], v);
            assert(records[i] == head[i]);
        }
        assert(arranged(records).contains(v) <==> exists|i: int|
            0 <= i < records.len() && shows(#[trigger] records[i], v));
    }
}

spec fn shows(record: WindowRecord, v: WindowView) -> bool {
    record.visible && !record.owned && text::trimmed(record.title@).len() > 0 && v.id == record.id && v.title
        == record.title@ && v.pid == record.pid && (record.pid != 0 && record.path is Some ==> v.process_name
        == process_enum::file_name(record.path->0@)) && (record.pid == 0 || record.path is None ==> v.process_name
        == "unknown"@)
}

/// The list goes by the names of the executables, whatever their letter case; the titles
/// have no part in it.
pub proof fn windows_are_sorted_by_process(records: Seq<WindowRecord>, i: int, j: int)
    requires
        0 <= i <= j < arranged(records).len(),
    ensures
        text::ordered(
            text::lowered(arranged(records)[i].process_name),
            text::lowered(arranged(records)[j].process_name),
        ),
{
    windows_are_sorted(records);
    text::ordered_is_total(
        text::lowered(arranged(records)[i].process_name),
        text::lowered(arranged(records)[i].process_name),
    );
}

} // verus!
