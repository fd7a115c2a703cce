use vstd::prelude::*;

use crate::text::{
    parse_u64, spec_lines, spec_trim_end, split_lines, tokenize, tokens_of, trim_end,
    is_u64_string, u64_string_val, views_of, SepKind,
};
use crate::time::MonotonicTimeMS;

verus! {

/// One row of the kernel's wakeup-source accounting table: an identifying
/// name, four activity counters and five millisecond timestamps. An
/// immutable snapshot, discarded after use.
#[derive(Debug)]
pub struct WakeupSource {
    pub name: String,
    pub active_count: u64,
    pub event_count: u64,
    pub wakeup_count: u64,
    pub expire_count: u64,
    pub active_since: MonotonicTimeMS,
    pub total_time: MonotonicTimeMS,
    pub max_time: MonotonicTimeMS,
    pub last_change: MonotonicTimeMS,
    pub prevent_suspend_time: MonotonicTimeMS,
}

/// The mathematical content of a row: the name's characters and the nine
/// numeric fields, timestamps as their raw millisecond values.
pub ghost struct WakeupSourceModel {
    pub name: Seq<char>,
    pub active_count: u64,
    pub event_count: u64,
    pub wakeup_count: u64,
    pub expire_count: u64,
    pub active_since: u64,
    pub total_time: u64,
    pub max_time: u64,
    pub last_change: u64,
    pub prevent_suspend_time: u64,
}

impl View for WakeupSource {
    type V = WakeupSourceModel;

    open spec fn view(&self) -> WakeupSourceModel {
        WakeupSourceModel {
            name: self.name@,
            active_count: self.active_count,
            event_count: self.event_count,
            wakeup_count: self.wakeup_count,
            expire_count: self.expire_count,
            active_since: self.active_since.0,
            total_time: self.total_time.0,
            max_time: self.max_time.0,
            last_change: self.last_change.0,
            prevent_suspend_time: self.prevent_suspend_time.0,
        }
    }
}

impl PartialEq for WakeupSource {
    fn eq(&self, other: &Self) -> (r: bool) {
        self.name == other.name && self.active_count == other.active_count
            && self.event_count == other.event_count && self.wakeup_count == other.wakeup_count
            && self.expire_count == other.expire_count && self.active_since == other.active_since
            && self.total_time == other.total_time && self.max_time == other.max_time
            && self.last_change == other.last_change && self.prevent_suspend_time
            == other.prevent_suspend_time
    }
}

impl vstd::std_specs::cmp::PartialEqSpecImpl for WakeupSource {
    open spec fn obeys_eq_spec() -> bool {
        true
    }

    open spec fn eq_spec(&self, other: &Self) -> bool {
        self@ == other@
    }
}

/// The fields of a table row: the line split on tabs, empty fields dropped
/// (the table pads with double tabs for alignment), each field stripped of
/// trailing whitespace (the last one carries the line's newline when the
/// row is parsed straight from the file's text).
pub open spec fn spec_fields(line: Seq<char>) -> Seq<Seq<char>> {
    tokens_of(line, SepKind::Tab).map_values(|f: Seq<char>| spec_trim_end(f))
}

/// Whether a line is a well-formed row: at least ten fields, the second to
/// tenth decimal numbers that fit in a `u64`. Extra fields are ignored.
pub open spec fn row_ok(line: Seq<char>) -> bool {
    let f = spec_fields(line);
    f.len() >= 10 && (forall|i: int| 1 <= i < 10 ==> is_u64_string(#[trigger] f[i]))
}

/// The row a well-formed line denotes.
pub open spec fn spec_row(line: Seq<char>) -> WakeupSourceModel {
    let f = spec_fields(line);
    WakeupSourceModel {
        name: f[0],
        active_count: u64_string_val(f[1]) as u64,
        event_count: u64_string_val(f[2]) as u64,
        wakeup_count: u64_string_val(f[3]) as u64,
        expire_count: u64_string_val(f[4]) as u64,
        active_since: u64_string_val(f[5]) as u64,
        total_time: u64_string_val(f[6]) as u64,
        max_time: u64_string_val(f[7]) as u64,
        last_change: u64_string_val(f[8]) as u64,
        prevent_suspend_time: u64_string_val(f[9]) as u64,
    }
}

/// Parses one data row of the wakeup-sources table. Returns `None` exactly
/// when the row is malformed: fewer than ten fields, or a numeric field
/// that is not a decimal `u64`. The daemon treats that as fatal rather
/// than suspending on misread data.
pub fn parse_wakeup_source(line: &str) -> (r: Option<WakeupSource>)
    ensures
        match r {
            Some(ws) => row_ok(line@) && ws@ == spec_row(line@),
            None => !row_ok(line@),
        },
{
    let toks = tokenize(line, SepKind::Tab);
    let ghost f = spec_fields(line@);
    proof {
        assert(f.len() == views_of(toks@).len());
    }
    if toks.len() < 10 {
        return None;
    }
    let name = trim_end(toks[0].as_str());
    proof {
        assert(name@ == f[0]);
    }
    let mut nums: Vec<u64> = Vec::new();
    let mut idx: usize = 1;
    while idx < 10
        invariant
            1 <= idx <= 10,
            toks@.len() >= 10,
            f == spec_fields(line@),
            f.len() == toks@.len(),
            views_of(toks@) == tokens_of(line@, SepKind::Tab),
            nums@.len() == idx - 1,
            forall|i: int|
                1 <= i < idx ==> is_u64_string(#[trigger] f[i]) && nums@[i - 1]
                    == u64_string_val(f[i]),
        decreases 10 - idx,
    {
        let t = trim_end(toks[idx].as_str());
        proof {
            assert(t@ == f[idx as int]);
        }
        match parse_u64(t.as_str()) {
            Some(v) => {
                nums.push(v);
            },
            None => {
                proof {
                    assert(!is_u64_string(f[idx as int]));
                }
                return None;
            },
        }
        idx = idx + 1;
    }
    let ws = WakeupSource {
        name,
        active_count: nums[0],
        event_count: nums[1],
        wakeup_count: nums[2],
        expire_count: nums[3],
        active_since: MonotonicTimeMS(nums[4]),
        total_time: MonotonicTimeMS(nums[5]),
        max_time: MonotonicTimeMS(nums[6]),
        last_change: MonotonicTimeMS(nums[7]),
        prevent_suspend_time: MonotonicTimeMS(nums[8]),
    };
    proof {
        assert(row_ok(line@));
        assert(ws@ == spec_row(line@));
    }
    Some(ws)
}

/// Why reading the table failed. Any of these is fatal: a table the daemon
/// does not understand must stop it rather than be misinterpreted.
#[derive(Clone, Copy, Debug, PartialEq, Eq, Structural)]
pub enum TableError {
    /// The text holds no lines at all.
    MissingHeader,
    /// The first line is not exactly the expected ten-column title.
    HeaderMismatch,
    /// A data row is malformed.
    MalformedRow,
}

/// The exact header line the kernel writes above the table. Anything else
/// means a format the daemon does not understand.
pub open spec fn spec_header() -> Seq<char> {
    "name\t\tactive_count\tevent_count\twakeup_count\texpire_count\tactive_since\ttotal_time\tmax_time\tlast_change\tprevent_suspend_time"@
}

/// The winning row among rows `1..i` of the table's lines: the one with
/// the maximal `last_change`, the later row winning ties, as a fold from
/// the left. `None` when there are no data rows.
pub open spec fn spec_best(ls: Seq<Seq<char>>, i: int) -> Option<WakeupSourceModel>
    decreases i,
{
    if i <= 1 {
        None
    } else {
        let cur = spec_row(ls[i - 1]);
        match spec_best(ls, i - 1) {
            None => Some(cur),
            Some(b) => if cur.last_change >= b.last_change {
                Some(cur)
            } else {
                Some(b)
            },
        }
    }
}

pub open spec fn spec_all_rows_ok(ls: Seq<Seq<char>>) -> bool {
    forall|i: int| 1 <= i < ls.len() ==> row_ok(#[trigger] ls[i])
}

/// The row the whole table elects, once the header line is set aside.
pub open spec fn spec_most_recent(ls: Seq<Seq<char>>) -> Option<WakeupSourceModel> {
    spec_best(ls, ls.len() as int)
}

/// Law: the elected row carries the maximal `last_change` of the table —
/// it is one of the rows, and no row's `last_change` exceeds its own; and
/// a row is elected exactly when a data row exists.
pub proof fn lemma_most_recent_is_max(ls: Seq<Seq<char>>, i: int)
    requires
        1 <= i <= ls.len(),
    ensures
        spec_best(ls, i) is None <==> i == 1,
        spec_best(ls, i) matches Some(b) ==> (exists|j: int|
            1 <= j < i && spec_row(ls[j]) == b) && (forall|j: int|
            1 <= j < i ==> spec_row(ls[j]).last_change <= b.last_change),
    decreases i,
{
    if i > 1 {
        lemma_most_recent_is_max(ls, i - 1);
        let b = spec_best(ls, i)->Some_0;
        assert(spec_row(ls[i - 1]) == b || spec_best(ls, i - 1) == Some(b));
        if spec_row(ls[i - 1]) == b {
            assert(1 <= i - 1 < i && spec_row(ls[i - 1]) == b);
        }
    }
}

/// Reads the whole accounting table and returns the row whose
/// `last_change` is maximal (the latest such row on a tie), `None` when
/// the table has only its header, or the reason the text was rejected.
pub fn most_recent_event(content: &str) -> (r: Result<Option<WakeupSource>, TableError>)
    ensures
        ({
            let ls = spec_lines(content@);
            &&& (r matches Err(e) ==> {
                ||| (e == TableError::MissingHeader && ls.len() == 0)
                ||| (e == TableError::HeaderMismatch && ls.len() > 0 && ls[0] != spec_header())
                ||| (e == TableError::MalformedRow && ls.len() > 0 && ls[0] == spec_header()
                    && !spec_all_rows_ok(ls))
            })
            &&& (r matches Ok(opt) ==> {
                &&& ls.len() > 0
                &&& ls[0] == spec_header()
                &&& spec_all_rows_ok(ls)
                &&& (opt is None <==> ls.len() == 1)
                &&& (opt matches Some(ws) ==> spec_most_recent(ls) == Some(ws@))
            })
        }),
{
    let lines = split_lines(content);
    let ghost ls = spec_lines(content@);
    if lines.len() == 0 {
        return Err(TableError::MissingHeader);
    }
    let header: String = "name\t\tactive_count\tevent_count\twakeup_count\texpire_count\tactive_since\ttotal_time\tmax_time\tlast_change\tprevent_suspend_time".to_owned();
    if !(lines[0] == header) {
        return Err(TableError::HeaderMismatch);
    }
    let mut best: Option<WakeupSource> = None;
    let mut k: usize = 1;
    while k < lines.len()
        invariant
            1 <= k <= lines@.len(),
            ls == spec_lines(content@),
            views_of(lines@) == ls,
            ls.len() == lines@.len(),
            ls[0] == spec_header(),
            forall|t: int| 1 <= t < k ==> row_ok(#[trigger] ls[t]),
            best is None <==> k == 1,
            best matches Some(b) ==> spec_best(ls, k as int) == Some(b@),
        decreases lines@.len() - k,
    {
        match parse_wakeup_source(lines[k].as_str()) {
            None => {
                proof {
                    assert(!row_ok(ls[k as int]));
                }
                return Err(TableError::MalformedRow);
            },
            Some(ws) => {
                let replace = match &best {
                    None => true,
                    Some(b) => ws.last_change.0 >= b.last_change.0,
                };
                if replace {
                    best = Some(ws);
                }
            },
        }
        k = k + 1;
    }
    match best {
        None => Ok(None),
        Some(b) => Ok(Some(b)),
    }
}

} // verus!
