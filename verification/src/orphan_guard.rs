//! Reaping a speech worker left behind by a crashed session: PID parsing, image checks,
//! and the decision what to do with a persisted PID.
use vstd::prelude::*;

use crate::text::{
    before_char, before_char_str, lower, lower_str, parse_u32, parse_u32_str, starts_with,
    starts_with_str, str_eq, trim, trim_char, trim_char_str, trim_str,
};

verus! {

/// Content of the PID file: trimmed, a decimal `u32`, and not zero.
pub open spec fn pid_of(raw: Seq<char>) -> Option<u32> {
    match parse_u32(trim(raw)) {
        Some(p) => if p != 0 {
            Some(p)
        } else {
            None
        },
        None => None,
    }
}

pub fn parse_pid(raw: &str) -> (r: Option<u32>)
    ensures
        r == pid_of(raw@),
{
    let t = trim_str(raw);
    match parse_u32_str(t.as_str()) {
        Some(p) => if p != 0 {
            Some(p)
        } else {
            None
        },
        None => None,
    }
}

pub open spec fn worker_image(image: Seq<char>) -> bool {
    lower(trim(image)) == "chrome.exe"@ || lower(trim(image)) == "msedge.exe"@
}

/// Image names that identify the speech worker (case-insensitive, surrounding whitespace ignored).
pub fn is_worker_image(image: &str) -> (r: bool)
    ensures
        r == worker_image(image@),
{
    let t = trim_str(image);
    let l = lower_str(t.as_str());
    str_eq(l.as_str(), "chrome.exe") || str_eq(l.as_str(), "msedge.exe")
}

/// Image name column of a `tasklist /FO CSV /NH` line.
pub open spec fn tasklist_image(line: Seq<char>) -> Option<Seq<char>> {
    let trimmed = trim(line);
    let name = trim(trim_char(trim(before_char(trimmed, ',')), '"'));
    if trimmed.len() == 0 {
        None
    } else if name.len() == 0 || starts_with(name, "INFO:"@) {
        None
    } else {
        Some(name)
    }
}

pub fn parse_tasklist_image_name(csv_line: &str) -> (r: Option<String>)
    ensures
        match r {
            Some(s) => tasklist_image(csv_line@) == Some(s@),
            None => tasklist_image(csv_line@) is None,
        },
{
    let trimmed = trim_str(csv_line);
    if trimmed.as_str().is_empty() {
        return None;
    }
    let first = before_char_str(trimmed.as_str(), ',');
    let a = trim_str(first.as_str());
    let b = trim_char_str(a.as_str(), '"');
    let name = trim_str(b.as_str());
    if name.as_str().is_empty() || starts_with_str(name.as_str(), "INFO:") {
        None
    } else {
        Some(name)
    }
}

/// What startup does about a worker PID persisted by the previous session.
#[derive(Debug, Clone, Copy, PartialEq, Eq, Structural)]
pub enum OrphanAction {
    /// No PID was persisted: nothing to do.
    Nothing,
    /// The PID is gone or reused by an unrelated image: only clear the PID file.
    ClearPidFile,
    /// The PID still runs the worker image: terminate it, then clear the PID file.
    TerminateAndClear(u32),
}

pub open spec fn orphan_action(pid: Option<u32>, live_image: Option<Seq<char>>) -> OrphanAction {
    match pid {
        None => OrphanAction::Nothing,
        Some(p) => match live_image {
            Some(img) => if worker_image(img) {
                OrphanAction::TerminateAndClear(p)
            } else {
                OrphanAction::ClearPidFile
            },
            None => OrphanAction::ClearPidFile,
        },
    }
}

/// Decision half of reaping: given the persisted PID and the image that PID runs now.
pub fn reap_orphan_worker(persisted_pid: Option<u32>, live_image: Option<&str>) -> (r: OrphanAction)
    ensures
        r == orphan_action(
            persisted_pid,
            match live_image {
                Some(s) => Some(s@),
                None => None,
            },
        ),
{
    match persisted_pid {
        None => OrphanAction::Nothing,
        Some(p) => match live_image {
            Some(img) => if is_worker_image(img) {
                OrphanAction::TerminateAndClear(p)
            } else {
                OrphanAction::ClearPidFile
            },
            None => OrphanAction::ClearPidFile,
        },
    }
}

/// Law: a process is only terminated when it runs the worker image, and then it is the
/// persisted PID; a persisted PID is always cleared.
pub proof fn law_reap_only_worker_images(pid: Option<u32>, live_image: Option<Seq<char>>)
    ensures
        orphan_action(pid, live_image) matches OrphanAction::TerminateAndClear(p) ==> pid == Some(p)
            && live_image is Some && worker_image(live_image->0),
        pid is Some ==> orphan_action(pid, live_image) != OrphanAction::Nothing,
{
}

} // verus!
