//! Process memory / handle telemetry for long-session diagnostics: which processes are
//! watched and how their snapshots are reported.  Reading the counters is the OS's part.
use vstd::prelude::*;
use vstd::seq_lib::group_to_multiset_ensures;

use crate::device_names::{eq_ignore_ascii_case, names_match_ignore_ascii_case};
use crate::model_manager::{lemma_name_le_total, lemma_name_le_transitive, name_le};
use crate::text::to_owned_string;

verus! {

pub struct ProcessResourceSnapshot {
    pub pid: u32,
    pub name: String,
    pub handle_count: u32,
    /// Private commit charge (bytes), closest to Task Manager "Commit".
    pub commit_bytes: u64,
    pub working_set_bytes: u64,
}

pub struct ResourceTelemetry {
    pub self_process: ProcessResourceSnapshot,
    pub watched: Vec<ProcessResourceSnapshot>,
}

impl ResourceTelemetry {
    /// Telemetry with nothing measured: an `unknown` self process and no watched ones.
    pub fn default() -> (r: Self)
        ensures
            r.self_process.pid == 0,
            r.self_process.name@ == "unknown"@,
            r.self_process.handle_count == 0,
            r.self_process.commit_bytes == 0,
            r.self_process.working_set_bytes == 0,
            r.watched@.len() == 0,
    {
        ResourceTelemetry {
            self_process: ProcessResourceSnapshot {
                pid: 0,
                name: to_owned_string("unknown"),
                handle_count: 0,
                commit_bytes: 0,
                working_set_bytes: 0,
            },
            watched: Vec::new(),
        }
    }
}

/// The executables whose resource use is reported beside this process (ASCII case ignored).
pub open spec fn is_watched(name: Seq<char>) -> bool {
    eq_ignore_ascii_case(name, "voicesub-app.exe"@) || eq_ignore_ascii_case(name, "obs64.exe"@)
}

/// Index of the first entry whose name matches `name` (ASCII case ignored), or the length.
pub open spec fn first_same_name(acc: Seq<ProcessResourceSnapshot>, name: Seq<char>) -> int
    decreases acc.len(),
{
    if acc.len() == 0 {
        0
    } else if first_same_name(acc.drop_last(), name) < acc.len() - 1 {
        first_same_name(acc.drop_last(), name)
    } else if eq_ignore_ascii_case(acc.last().name@, name) {
        acc.len() - 1
    } else {
        acc.len() as int
    }
}

proof fn lemma_first_same_name(acc: Seq<ProcessResourceSnapshot>, name: Seq<char>)
    ensures
        0 <= first_same_name(acc, name) <= acc.len(),
        first_same_name(acc, name) < acc.len() ==> eq_ignore_ascii_case(acc[first_same_name(acc, name)].name@, name),
        forall|k: int| 0 <= k < first_same_name(acc, name) ==> !eq_ignore_ascii_case(#[trigger] acc[k].name@, name),
    decreases acc.len(),
{
    if acc.len() > 0 {
        let d = acc.drop_last();
        lemma_first_same_name(d, name);
        assert forall|k: int| 0 <= k < first_same_name(acc, name) implies !eq_ignore_ascii_case(
            #[trigger] acc[k].name@,
            name,
        ) by {
            if k < acc.len() - 1 {
                assert(acc[k] == d[k]);
            }
        }
        if first_same_name(acc, name) < acc.len() && first_same_name(d, name) < d.len() {
            assert(acc[first_same_name(d, name)] == d[first_same_name(d, name)]);
        }
    }
}

/// One process snapshot folded into the watched list: a process of an already listed name
/// replaces that entry only with a larger commit charge; a new name is appended.
pub open spec fn fold_watched(acc: Seq<ProcessResourceSnapshot>, s: ProcessResourceSnapshot) -> Seq<ProcessResourceSnapshot> {
    let k = first_same_name(acc, s.name@);
    if k < acc.len() {
        if s.commit_bytes > acc[k].commit_bytes {
            acc.update(k, s)
        } else {
            acc
        }
    } else {
        acc.push(s)
    }
}

/// The watched list before sorting, from the processes in enumeration order: this
/// process, pid 0, processes without a snapshot and unwatched names are skipped.
pub open spec fn collect_watched(self_pid: u32, found: Seq<(u32, Option<ProcessResourceSnapshot>)>) -> Seq<ProcessResourceSnapshot>
    decreases found.len(),
{
    if found.len() == 0 {
        Seq::empty()
    } else {
        let acc = collect_watched(self_pid, found.drop_last());
        let (pid, snap) = found.last();
        match snap {
            Some(s) => if pid != self_pid && pid != 0 && is_watched(s.name@) {
                fold_watched(acc, s)
            } else {
                acc
            },
            None => acc,
        }
    }
}

fn is_watched_exec(name: &str) -> (r: bool)
    ensures
        r == is_watched(name@),
{
    names_match_ignore_ascii_case(name, "voicesub-app.exe") || names_match_ignore_ascii_case(name, "obs64.exe")
}

fn find_same_name(acc: &Vec<ProcessResourceSnapshot>, name: &str) -> (r: usize)
    ensures
        r == first_same_name(acc@, name@),
{
    proof {
        lemma_first_same_name(acc@, name@);
    }
    let mut k: usize = 0;
    while k < acc.len()
        invariant
            k <= acc.len(),
            forall|j: int| 0 <= j < k ==> !eq_ignore_ascii_case(#[trigger] acc@[j].name@, name@),
            0 <= first_same_name(acc@, name@) <= acc@.len(),
            first_same_name(acc@, name@) < acc@.len() ==> eq_ignore_ascii_case(
                acc@[first_same_name(acc@, name@)].name@,
                name@,
            ),
            forall|j: int|
                0 <= j < first_same_name(acc@, name@) ==> !eq_ignore_ascii_case(#[trigger] acc@[j].name@, name@),
        decreases acc.len() - k,
    {
        if names_match_ignore_ascii_case(acc[k].name.as_str(), name) {
            return k;
        }
        k = k + 1;
    }
    k
}

/// Entries in non-decreasing name order.
pub open spec fn sorted_by_name(s: Seq<ProcessResourceSnapshot>) -> bool {
    forall|i: int, j: int| 0 <= i < j < s.len() ==> name_le(#[trigger] s[i].name@, #[trigger] s[j].name@)
}

fn name_le_exec(a: &str, b: &str) -> (r: bool)
    ensures
        r == name_le(a@, b@),
{
    let va = crate::text::chars_of(a);
    let vb = crate::text::chars_of(b);
    let mut i: usize = 0;
    assert(a@.skip(0) =~= a@);
    assert(b@.skip(0) =~= b@);
    while i < va.len() && i < vb.len()
        invariant
            va@ == a@,
            vb@ == b@,
            i <= va.len(),
            i <= vb.len(),
            name_le(a@, b@) == name_le(a@.skip(i as int), b@.skip(i as int)),
        decreases va.len() - i,
    {
        let ghost sa = a@.skip(i as int);
        let ghost sb = b@.skip(i as int);
        proof {
            assert(sa[0] == va@[i as int]);
            assert(sb[0] == vb@[i as int]);
            assert(sa.drop_first() =~= a@.skip(i + 1));
            assert(sb.drop_first() =~= b@.skip(i + 1));
        }
        if va[i] != vb[i] {
            return va[i] < vb[i];
        }
        i = i + 1;
    }
    proof {
        if i == va.len() {
            assert(a@.skip(i as int).len() == 0);
        } else {
            assert(b@.skip(i as int).len() == 0);
        }
    }
    i == va.len()
}

/// Sorts snapshots by name, keeping equal names in their order.
fn sort_by_name(items: Vec<ProcessResourceSnapshot>) -> (r: Vec<ProcessResourceSnapshot>)
    ensures
        sorted_by_name(r@),
        r@.to_multiset() == items@.to_multiset(),
{
    broadcast use group_to_multiset_ensures;

    let ghost input = items@;
    let mut rest = items;
    let mut out: Vec<ProcessResourceSnapshot> = Vec::new();
    let n = rest.len();
    let mut i: usize = 0;
    while i < n
        invariant
            n == input.len(),
            i <= n,
            rest@ == input.skip(i as int),
            sorted_by_name(out@),
            out@.to_multiset() == input.take(i as int).to_multiset(),
        decreases n - i,
    {
        let x = rest.remove(0);
        proof {
            assert(input.skip(i as int)[0] == input[i as int]);
            assert(rest@ =~= input.skip(i + 1));
            assert(input.take(i + 1) =~= input.take(i as int).push(input[i as int]));
        }
        let mut p: usize = out.len();
        while p > 0 && !name_le_exec(out[p - 1].name.as_str(), x.name.as_str())
            invariant
                p <= out.len(),
                forall|k: int| p <= k < out.len() ==> !name_le(#[trigger] out@[k].name@, x.name@),
            decreases p,
        {
            p = p - 1;
        }
        let ghost old_out = out@;
        proof {
            assert forall|k: int| 0 <= k < p implies name_le(#[trigger] old_out[k].name@, x.name@) by {
                if k < p - 1 {
                    assert(name_le(old_out[k].name@, old_out[p - 1].name@));
                    lemma_name_le_transitive(old_out[k].name@, old_out[p - 1].name@, x.name@);
                }
            }
            assert forall|k: int| p <= k < old_out.len() implies name_le(x.name@, #[trigger] old_out[k].name@) by {
                lemma_name_le_total(old_out[k].name@, x.name@);
            }
        }
        out.insert(p, x);
        proof {
            let s = out@;
            assert(s =~= old_out.insert(p as int, x));
            assert forall|a: int, b: int| 0 <= a < b < s.len() implies name_le(#[trigger] s[a].name@, #[trigger] s[b].name@) by {
                if a < p && b == p {
                } else if a == p && b > p {
                    assert(s[b] == old_out[b - 1]);
                } else if b < p {
                    assert(s[a] == old_out[a] && s[b] == old_out[b]);
                } else if a < p && b > p {
                    assert(s[a] == old_out[a] && s[b] == old_out[b - 1]);
                } else {
                    assert(s[a] == old_out[a - 1] && s[b] == old_out[b - 1]);
                }
            }
            assert(s.remove(p as int) =~= old_out);
            assert(s[p as int] == x);
            vstd::seq_lib::to_multiset_remove(s, p as int);
            s.to_multiset_ensures();
            assert(s.contains(x));
            assert(s.to_multiset() =~= old_out.to_multiset().insert(x));
            vstd::seq_lib::to_multiset_build(input.take(i as int), input[i as int]);
            assert(input.take(i + 1).to_multiset() =~= input.take(i as int).to_multiset().insert(x));
        }
        i = i + 1;
    }
    assert(input.take(n as int) =~= input);
    out
}

/// Telemetry from what the OS reported: `self_snapshot` for this process (`self_pid`),
/// and for every enumerated process its pid and snapshot (if it could be read).  The
/// watched list keeps one entry per watched name, the one with the largest commit charge
/// (the first seen on ties), sorted by name.
pub fn collect_resource_telemetry(
    self_pid: u32,
    self_snapshot: Option<ProcessResourceSnapshot>,
    found: Vec<(u32, Option<ProcessResourceSnapshot>)>,
) -> (r: ResourceTelemetry)
    ensures
        match self_snapshot {
            Some(s) => r.self_process == s,
            None => r.self_process.pid == self_pid && r.self_process.name@ == "tts-module"@
                && r.self_process.handle_count == 0 && r.self_process.commit_bytes == 0
                && r.self_process.working_set_bytes == 0,
        },
        sorted_by_name(r.watched@),
        r.watched@.to_multiset() == collect_watched(self_pid, found@).to_multiset(),
{
    let self_process = match self_snapshot {
        Some(s) => s,
        None => ProcessResourceSnapshot {
            pid: self_pid,
            name: to_owned_string("tts-module"),
            handle_count: 0,
            commit_bytes: 0,
            working_set_bytes: 0,
        },
    };
    let ghost all = found@;
    let mut rest = found;
    let mut watched: Vec<ProcessResourceSnapshot> = Vec::new();
    let n = rest.len();
    let mut i: usize = 0;
    while i < n
        invariant
            n == all.len(),
            i <= n,
            rest@ == all.skip(i as int),
            watched@ == collect_watched(self_pid, all.take(i as int)),
        decreases n - i,
    {
        let (pid, snap) = rest.remove(0);
        proof {
            assert(all.skip(i as int)[0] == all[i as int]);
            assert(rest@ =~= all.skip(i + 1));
            assert(all.take(i + 1).drop_last() =~= all.take(i as int));
            assert(all.take(i + 1).last() == all[i as int]);
        }
        match snap {
            Some(s) => {
                if pid != self_pid && pid != 0 && is_watched_exec(s.name.as_str()) {
                    let k = find_same_name(&watched, s.name.as_str());
                    if k < watched.len() {
                        if s.commit_bytes > watched[k].commit_bytes {
                            watched.set(k, s);
                        }
                    } else {
                        watched.push(s);
                    }
                }
            },
            None => {},
        }
        i = i + 1;
    }
    assert(all.take(n as int) =~= all);
    let watched = sort_by_name(watched);
    ResourceTelemetry { self_process, watched }
}

} // verus!
