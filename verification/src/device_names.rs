//! Matching of audio device and process names across the labels different APIs report.
use vstd::prelude::*;

use crate::text::{contains_at_some, contains_str, lower, lower_str, str_eq, to_owned_string, trim, trim_str};

verus! {

/// What `str::to_lowercase` returns: the Unicode lowercase mapping of every character.
pub uninterp spec fn unicode_lowercase(s: Seq<char>) -> Seq<char>;

pub open spec fn all_ascii(s: Seq<char>) -> bool {
    forall|i: int| 0 <= i < s.len() ==> (#[trigger] s[i] as u32) < 128
}

/// `str::to_lowercase`.  On ASCII text the Unicode mapping lowercases `A`–`Z` only.
#[verifier::external_body]
fn to_lowercase(s: &str) -> (r: String)
    ensures
        r@ == unicode_lowercase(s@),
        all_ascii(s@) ==> r@ == lower(s@),
{
    s.to_lowercase()
}

/// An output device name as the audio backend reports it matches a label from the device
/// list when, lowercased, one equals or contains the other.
pub open spec fn device_names_match(backend_name: Seq<char>, list_label: Seq<char>) -> bool {
    let a = unicode_lowercase(backend_name);
    let b = unicode_lowercase(list_label);
    a == b || contains_at_some(a, b) || contains_at_some(b, a)
}

pub fn names_match(backend_name: &str, list_label: &str) -> (r: bool)
    ensures
        r == device_names_match(backend_name@, list_label@),
{
    let a = to_lowercase(backend_name);
    let b = to_lowercase(list_label);
    str_eq(a.as_str(), b.as_str()) || contains_str(a.as_str(), b.as_str()) || contains_str(
        b.as_str(),
        a.as_str(),
    )
}

/// `str::eq_ignore_ascii_case`.
pub open spec fn eq_ignore_ascii_case(a: Seq<char>, b: Seq<char>) -> bool {
    lower(a) == lower(b)
}

pub fn names_match_ignore_ascii_case(actual: &str, expected: &str) -> (r: bool)
    ensures
        r == eq_ignore_ascii_case(actual@, expected@),
{
    let a = lower_str(actual);
    let b = lower_str(expected);
    str_eq(a.as_str(), b.as_str())
}

/// A microphone as the module UI lists it (`id` empty for the system default).
#[derive(Debug, Clone, PartialEq, Eq)]
pub struct InputDeviceInfo {
    pub id: String,
    pub label: String,
    pub is_default: bool,
}

pub open spec fn row_view(d: InputDeviceInfo) -> (Seq<char>, Seq<char>, bool) {
    (d.id@, d.label@, d.is_default)
}

pub open spec fn has_id(rows: Seq<(Seq<char>, Seq<char>, bool)>, id: Seq<char>) -> bool {
    exists|k: int| 0 <= k < rows.len() && (#[trigger] rows[k]).0 == id
}

pub open spec fn opt_view(o: Option<&str>) -> Option<Seq<char>> {
    match o {
        Some(s) => Some(s@),
        None => None,
    }
}

/// The rows of the input device list: the system default first, then each device the
/// backend reports, once per name (a name already listed, the default row's empty id
/// included, is skipped), marked default when it is the backend's default device.
pub open spec fn input_rows(names: Seq<Seq<char>>, default_name: Option<Seq<char>>) -> Seq<(Seq<char>, Seq<char>, bool)>
    decreases names.len(),
{
    if names.len() == 0 {
        seq![(Seq::<char>::empty(), "Default"@, true)]
    } else {
        let r = input_rows(names.drop_last(), default_name);
        let n = names.last();
        if has_id(r, n) {
            r
        } else {
            r.push((n, n, default_name == Some(n)))
        }
    }
}

pub open spec fn name_views(v: Seq<String>) -> Seq<Seq<char>> {
    v.map_values(|s: String| s@)
}

pub open spec fn row_views(v: Seq<InputDeviceInfo>) -> Seq<(Seq<char>, Seq<char>, bool)> {
    v.map_values(|d: InputDeviceInfo| row_view(d))
}

fn listed(rows: &Vec<InputDeviceInfo>, id: &str) -> (r: bool)
    ensures
        r == has_id(row_views(rows@), id@),
{
    let mut k: usize = 0;
    while k < rows.len()
        invariant
            k <= rows.len(),
            forall|j: int| 0 <= j < k ==> (#[trigger] rows@[j]).id@ != id@,
        decreases rows.len() - k,
    {
        if str_eq(rows[k].id.as_str(), id) {
            assert(row_views(rows@)[k as int].0 == id@);
            return true;
        }
        k = k + 1;
    }
    assert forall|j: int| 0 <= j < row_views(rows@).len() implies (#[trigger] row_views(rows@)[j]).0 != id@ by {
        assert(row_views(rows@)[j] == row_view(rows@[j]));
    }
    false
}

/// The input device list from the names the audio backend reports, in its order, and the
/// name of its default input device.
pub fn list_input_devices(names: &Vec<String>, default_name: Option<&str>) -> (r: Vec<InputDeviceInfo>)
    ensures
        row_views(r@) == input_rows(name_views(names@), opt_view(default_name)),
{
    let mut out: Vec<InputDeviceInfo> = Vec::new();
    out.push(InputDeviceInfo { id: String::new(), label: to_owned_string("Default"), is_default: true });
    assert(row_views(out@) =~= input_rows(name_views(names@).take(0), opt_view(default_name)));
    let mut i: usize = 0;
    while i < names.len()
        invariant
            i <= names.len(),
            row_views(out@) == input_rows(name_views(names@).take(i as int), opt_view(default_name)),
        decreases names.len() - i,
    {
        let name = names[i].as_str();
        let ghost before = row_views(out@);
        assert(name_views(names@).take(i + 1).drop_last() =~= name_views(names@).take(i as int));
        assert(name_views(names@).take(i + 1).last() == name@);
        if !listed(&out, name) {
            let is_default = match default_name {
                Some(d) => str_eq(d, name),
                None => false,
            };
            out.push(InputDeviceInfo { id: to_owned_string(name), label: to_owned_string(name), is_default });
            assert(row_views(out@) =~= before.push((name@, name@, opt_view(default_name) == Some(name@))));
        }
        i = i + 1;
    }
    assert(name_views(names@).take(names.len() as int) =~= name_views(names@));
    out
}

/// Exact match of a device name, ASCII case ignored.
pub open spec fn exact_at(names: Seq<Option<Seq<char>>>, t: Seq<char>, i: int) -> bool {
    names[i] matches Some(n) && lower(n) == lower(t)
}

/// One lowercased name contains the other.
pub open spec fn loose_at(names: Seq<Option<Seq<char>>>, t: Seq<char>, i: int) -> bool {
    names[i] matches Some(n) && (contains_at_some(unicode_lowercase(n), unicode_lowercase(t)) || contains_at_some(
        unicode_lowercase(t),
        unicode_lowercase(n),
    ))
}

pub open spec fn first_exact_from(names: Seq<Option<Seq<char>>>, t: Seq<char>, i: int) -> int
    decreases names.len() - i,
{
    if 0 <= i < names.len() && !exact_at(names, t, i) {
        first_exact_from(names, t, i + 1)
    } else {
        i
    }
}

pub open spec fn first_loose_from(names: Seq<Option<Seq<char>>>, t: Seq<char>, i: int) -> int
    decreases names.len() - i,
{
    if 0 <= i < names.len() && !loose_at(names, t, i) {
        first_loose_from(names, t, i + 1)
    } else {
        i
    }
}

/// The input device a configured id selects among the devices the backend reports
/// (`None` where a device's name could not be read): none (the system default) for a
/// blank id; else the first exact match; else the first loose match; else none.
pub open spec fn picked_input(device_id: Seq<char>, names: Seq<Option<Seq<char>>>) -> Option<int> {
    let t = trim(device_id);
    if t.len() == 0 {
        None
    } else if first_exact_from(names, t, 0) < names.len() {
        Some(first_exact_from(names, t, 0))
    } else if first_loose_from(names, t, 0) < names.len() {
        Some(first_loose_from(names, t, 0))
    } else {
        None
    }
}

pub open spec fn opt_name_views(v: Seq<Option<String>>) -> Seq<Option<Seq<char>>> {
    v.map_values(|o: Option<String>| match o {
        Some(s) => Some(s@),
        None => None,
    })
}

/// Index of the device to open for `device_id`; `None` means the system default device.
pub fn resolve_input_device(device_id: &str, names: &Vec<Option<String>>) -> (r: Option<usize>)
    ensures
        match picked_input(device_id@, opt_name_views(names@)) {
            Some(i) => r == Some(i as usize),
            None => r is None,
        },
{
    let t = trim_str(device_id);
    if t.as_str().is_empty() {
        return None;
    }
    let ghost nv = opt_name_views(names@);
    let tl = lower_str(t.as_str());
    let mut i: usize = 0;
    while i < names.len()
        invariant
            i <= names.len(),
            nv == opt_name_views(names@),
            tl@ == lower(t@),
            t@ == trim(device_id@),
            t@.len() > 0,
            first_exact_from(nv, t@, 0) == first_exact_from(nv, t@, i as int),
        decreases names.len() - i,
    {
        match &names[i] {
            Some(n) => {
                let nl = lower_str(n.as_str());
                assert(nv[i as int] == Some(n@));
                if str_eq(nl.as_str(), tl.as_str()) {
                    assert(exact_at(nv, t@, i as int));
                    assert(first_exact_from(nv, t@, i as int) == i);

                    return Some(i);
                }
            },
            None => {
                assert(nv[i as int] is None);
            },
        }
        assert(!exact_at(nv, t@, i as int));
        i = i + 1;
    }
    let needle = to_lowercase(t.as_str());
    let mut j: usize = 0;
    while j < names.len()
        invariant
            j <= names.len(),
            nv == opt_name_views(names@),
            needle@ == unicode_lowercase(t@),
            t@ == trim(device_id@),
            t@.len() > 0,
            first_exact_from(nv, t@, 0) == names.len(),
            first_loose_from(nv, t@, 0) == first_loose_from(nv, t@, j as int),
        decreases names.len() - j,
    {
        match &names[j] {
            Some(n) => {
                let hay = to_lowercase(n.as_str());
                assert(nv[j as int] == Some(n@));
                if contains_str(hay.as_str(), needle.as_str()) || contains_str(needle.as_str(), hay.as_str()) {
                    assert(loose_at(nv, t@, j as int));
                    assert(first_loose_from(nv, t@, j as int) == j);
                    return Some(j);
                }
            },
            None => {
                assert(nv[j as int] is None);
            },
        }
        assert(!loose_at(nv, t@, j as int));
        j = j + 1;
    }
    None
}

pub open spec fn first_row_with_id(rows: Seq<(Seq<char>, Seq<char>, bool)>, id: Seq<char>, i: int) -> int
    decreases rows.len() - i,
{
    if 0 <= i < rows.len() && rows[i].0 != id {
        first_row_with_id(rows, id, i + 1)
    } else {
        i
    }
}

/// The label shown for a configured microphone id: the label of the first listed device
/// with that id; else `Default` for a blank id; else the id itself.
pub open spec fn device_label(rows: Seq<(Seq<char>, Seq<char>, bool)>, id: Seq<char>) -> Seq<char> {
    if first_row_with_id(rows, id, 0) < rows.len() {
        rows[first_row_with_id(rows, id, 0)].1
    } else if trim(id).len() == 0 {
        "Default"@
    } else {
        id
    }
}

pub fn device_label_for(devices: &Vec<InputDeviceInfo>, device_id: &str) -> (r: String)
    ensures
        r@ == device_label(row_views(devices@), device_id@),
{
    let ghost rows = row_views(devices@);
    let mut i: usize = 0;
    while i < devices.len()
        invariant
            i <= devices.len(),
            rows == row_views(devices@),
            first_row_with_id(rows, device_id@, 0) == first_row_with_id(rows, device_id@, i as int),
        decreases devices.len() - i,
    {
        assert(rows[i as int] == row_view(devices@[i as int]));
        if str_eq(devices[i].id.as_str(), device_id) {
            assert(first_row_with_id(rows, device_id@, i as int) == i);
            return devices[i].label.clone();
        }
        i = i + 1;
    }
    let t = trim_str(device_id);
    if t.as_str().is_empty() {
        to_owned_string("Default")
    } else {
        to_owned_string(device_id)
    }
}

/// First device whose readable name matches `label` (as `names_match` compares them).
pub open spec fn first_named_from(names: Seq<Option<Seq<char>>>, label: Seq<char>, i: int) -> int
    decreases names.len() - i,
{
    if 0 <= i < names.len() && !(names[i] matches Some(n) && device_names_match(n, label)) {
        first_named_from(names, label, i + 1)
    } else {
        i
    }
}

/// A listed output endpoint (label, is-default) that the wanted label names: not the
/// default row, and one lowercased label contains the other.
pub open spec fn listed_candidate(entry: (Seq<char>, bool), wanted: Seq<char>) -> bool {
    let a = unicode_lowercase(entry.0);
    let b = unicode_lowercase(wanted);
    !entry.1 && (contains_at_some(a, b) || contains_at_some(b, a))
}

/// Through the endpoint list: the first candidate entry, from `k` on, with a backend
/// device matching its label, and that device.
pub open spec fn listed_pick_from(
    names: Seq<Option<Seq<char>>>,
    listed: Seq<(Seq<char>, bool)>,
    wanted: Seq<char>,
    k: int,
) -> Option<int>
    decreases listed.len() - k,
{
    if k < 0 || k >= listed.len() {
        None
    } else if listed_candidate(listed[k], wanted) && first_named_from(names, listed[k].0, 0) < names.len() {
        Some(first_named_from(names, listed[k].0, 0))
    } else {
        listed_pick_from(names, listed, wanted, k + 1)
    }
}

/// The output device a user-visible label selects: none (the system default) for a blank
/// label; else a device matched by name as for inputs; else one reached through the
/// system's endpoint list; else none (the default, as a fallback).
pub open spec fn picked_output(
    label: Seq<char>,
    names: Seq<Option<Seq<char>>>,
    listed: Seq<(Seq<char>, bool)>,
) -> Option<int> {
    if trim(label).len() == 0 {
        None
    } else {
        match picked_input(label, names) {
            Some(i) => Some(i),
            None => listed_pick_from(names, listed, trim(label), 0),
        }
    }
}

pub open spec fn listed_views(v: Seq<(String, bool)>) -> Seq<(Seq<char>, bool)> {
    v.map_values(|e: (String, bool)| (e.0@, e.1))
}

/// Index of the first device whose readable name matches `label`, if any.
fn first_named(names: &Vec<Option<String>>, label: &str) -> (r: Option<usize>)
    ensures
        match r {
            Some(i) => i == first_named_from(opt_name_views(names@), label@, 0) && i < names.len(),
            None => first_named_from(opt_name_views(names@), label@, 0) == names.len(),
        },
{
    let ghost nv = opt_name_views(names@);
    let mut i: usize = 0;
    while i < names.len()
        invariant
            i <= names.len(),
            nv == opt_name_views(names@),
            first_named_from(nv, label@, 0) == first_named_from(nv, label@, i as int),
        decreases names.len() - i,
    {
        match &names[i] {
            Some(n) => {
                assert(nv[i as int] == Some(n@));
                if names_match(n.as_str(), label) {
                    return Some(i);
                }
            },
            None => {
                assert(nv[i as int] is None);
            },
        }
        i = i + 1;
    }
    None
}

/// Index of the output device to open for `label` among the devices the backend reports
/// (`names`, `None` where a name could not be read), using the system endpoint list
/// (`listed`: label and whether it is the default row) for labels the backend names
/// differently; `None` means the system default device.
pub fn resolve_output_device(label: &str, names: &Vec<Option<String>>, listed: &Vec<(String, bool)>) -> (r: Option<usize>)
    ensures
        match picked_output(label@, opt_name_views(names@), listed_views(listed@)) {
            Some(i) => r == Some(i as usize),
            None => r is None,
        },
{
    let t = trim_str(label);
    if t.as_str().is_empty() {
        return None;
    }
    if let Some(i) = resolve_input_device(label, names) {
        return Some(i);
    }
    assert(picked_input(label@, opt_name_views(names@)) is None);
    let ghost nv = opt_name_views(names@);
    let ghost lv = listed_views(listed@);
    let needle = to_lowercase(t.as_str());
    let mut k: usize = 0;
    while k < listed.len()
        invariant
            k <= listed.len(),
            nv == opt_name_views(names@),
            lv == listed_views(listed@),
            needle@ == unicode_lowercase(t@),
            t@ == trim(label@),
            t@.len() > 0,
            picked_input(label@, nv) is None,
            listed_pick_from(nv, lv, t@, 0) == listed_pick_from(nv, lv, t@, k as int),
        decreases listed.len() - k,
    {
        let entry = &listed[k];
        assert(lv[k as int] == (entry.0@, entry.1));
        if !entry.1 {
            let hay = to_lowercase(entry.0.as_str());
            if contains_str(hay.as_str(), needle.as_str()) || contains_str(needle.as_str(), hay.as_str()) {
                assert(listed_candidate(lv[k as int], t@));
                if let Some(i) = first_named(names, entry.0.as_str()) {
                    assert(listed_pick_from(nv, lv, t@, k as int) == Some(i as int));
                    return Some(i);
                }
            }
        }
        k = k + 1;
    }
    None
}

} // verus!
