//! Structured logging policy of the browser ASR gateway: which worker status reports
//! become log events, how routine restart chatter is sampled, and how status fields are
//! read from a worker payload.
use vstd::prelude::*;

use crate::text::{lower, lower_str, str_eq, to_owned_string, trim, trim_str};

verus! {

/// Routine restart events are logged only for the first few rearms, then sampled.
pub const ROUTINE_LOG_SAMPLE_EVERY: u64 = 25;

pub const ROUTINE_LOG_VERBOSE_LIMIT: u64 = 3;

pub const STATUS_HEARTBEAT_INTERVAL_MS: u64 = 15000;

pub const DETAIL_ONLY_STATUS_LOG_MIN_INTERVAL_MS: u64 = 3600000;

/// The log event a worker status reason maps to (reason trimmed, ASCII case ignored).
pub open spec fn reason_event(key: Seq<char>) -> Option<Seq<char>> {
    if key == "start-requested"@ {
        Some("browser_recognition_start_requested"@)
    } else if key == "recognition-started"@ {
        Some("browser_recognition_started"@)
    } else if key == "recognition-ended"@ {
        Some("browser_onend"@)
    } else if key == "overlap-handoff"@ {
        Some("browser_overlap_handoff"@)
    } else if key == "overlap-buddy-ended"@ {
        Some("browser_overlap_buddy_ended"@)
    } else if key == "overlap-buddy-error"@ {
        Some("browser_overlap_buddy_error"@)
    } else if key == "overlap-buddy-ghost-recovered"@ {
        Some("browser_overlap_buddy_ghost_recovered"@)
    } else if key == "recognition-error"@ {
        Some("browser_onerror"@)
    } else if key == "restart-scheduled"@ {
        Some("browser_rearm_scheduled"@)
    } else if key == "restart-executed"@ {
        Some("browser_rearm_executed"@)
    } else if key == "watchdog-rearm"@ {
        Some("browser_watchdog_rearm"@)
    } else if key == "visibility"@ {
        Some("browser_visibility_changed"@)
    } else if audio_track_event(key) is Some {
        audio_track_event(key)
    } else if key == "fallback-default-start-attempt"@ {
        Some("fallback_default_start_attempt"@)
    } else if key == "fallback-default-start-success"@ {
        Some("fallback_default_start_success"@)
    } else if key == "fallback-default-start-failed"@ {
        Some("fallback_default_start_failed"@)
    } else {
        None
    }
}

/// `audio-track-…` reasons map to the same name with underscores.
pub open spec fn audio_track_event(key: Seq<char>) -> Option<Seq<char>> {
    if key == "audio-track-permission-requested"@ {
        Some("audio_track_permission_requested"@)
    } else if key == "audio-track-permission-granted"@ {
        Some("audio_track_permission_granted"@)
    } else if key == "audio-track-permission-denied"@ {
        Some("audio_track_permission_denied"@)
    } else if key == "audio-track-opened"@ {
        Some("audio_track_opened"@)
    } else if key == "audio-track-reused"@ {
        Some("audio_track_reused"@)
    } else if key == "audio-track-ended"@ {
        Some("audio_track_ended"@)
    } else if key == "audio-track-muted"@ {
        Some("audio_track_muted"@)
    } else if key == "audio-track-unmuted"@ {
        Some("audio_track_unmuted"@)
    } else if key == "audio-track-start-attempt"@ {
        Some("audio_track_start_attempt"@)
    } else if key == "audio-track-start-success"@ {
        Some("audio_track_start_success"@)
    } else if key == "audio-track-start-failed"@ {
        Some("audio_track_start_failed"@)
    } else {
        None
    }
}

pub open spec fn opt_str(o: Option<&str>) -> Option<Seq<char>> {
    match o {
        Some(s) => Some(s@),
        None => None,
    }
}

pub open spec fn reason_key(reason: Option<Seq<char>>) -> Seq<char> {
    match reason {
        Some(r) => lower(trim(r)),
        None => Seq::empty(),
    }
}

fn audio_track_event_exec(k: &str) -> (r: Option<&'static str>)
    ensures
        opt_str(r) == audio_track_event(k@),
{
    if str_eq(k, "audio-track-permission-requested") {
        Some("audio_track_permission_requested")
    } else if str_eq(k, "audio-track-permission-granted") {
        Some("audio_track_permission_granted")
    } else if str_eq(k, "audio-track-permission-denied") {
        Some("audio_track_permission_denied")
    } else if str_eq(k, "audio-track-opened") {
        Some("audio_track_opened")
    } else if str_eq(k, "audio-track-reused") {
        Some("audio_track_reused")
    } else if str_eq(k, "audio-track-ended") {
        Some("audio_track_ended")
    } else if str_eq(k, "audio-track-muted") {
        Some("audio_track_muted")
    } else if str_eq(k, "audio-track-unmuted") {
        Some("audio_track_unmuted")
    } else if str_eq(k, "audio-track-start-attempt") {
        Some("audio_track_start_attempt")
    } else if str_eq(k, "audio-track-start-success") {
        Some("audio_track_start_success")
    } else if str_eq(k, "audio-track-start-failed") {
        Some("audio_track_start_failed")
    } else {
        None
    }
}

pub fn map_reason_to_event(reason: Option<&str>) -> (r: Option<&'static str>)
    ensures
        opt_str(r) == reason_event(reason_key(opt_str(reason))),
{
    let key = match reason {
        Some(s) => {
            let t = trim_str(s);
            lower_str(t.as_str())
        },
        None => String::new(),
    };
    let k = key.as_str();
    assert(k@ == reason_key(opt_str(reason)));
    if str_eq(k, "start-requested") {
        Some("browser_recognition_start_requested")
    } else if str_eq(k, "recognition-started") {
        Some("browser_recognition_started")
    } else if str_eq(k, "recognition-ended") {
        Some("browser_onend")
    } else if str_eq(k, "overlap-handoff") {
        Some("browser_overlap_handoff")
    } else if str_eq(k, "overlap-buddy-ended") {
        Some("browser_overlap_buddy_ended")
    } else if str_eq(k, "overlap-buddy-error") {
        Some("browser_overlap_buddy_error")
    } else if str_eq(k, "overlap-buddy-ghost-recovered") {
        Some("browser_overlap_buddy_ghost_recovered")
    } else if str_eq(k, "recognition-error") {
        Some("browser_onerror")
    } else if str_eq(k, "restart-scheduled") {
        Some("browser_rearm_scheduled")
    } else if str_eq(k, "restart-executed") {
        Some("browser_rearm_executed")
    } else if str_eq(k, "watchdog-rearm") {
        Some("browser_watchdog_rearm")
    } else if str_eq(k, "visibility") {
        Some("browser_visibility_changed")
    } else if audio_track_event_exec(k).is_some() {
        audio_track_event_exec(k)
    } else if str_eq(k, "fallback-default-start-attempt") {
        Some("fallback_default_start_attempt")
    } else if str_eq(k, "fallback-default-start-success") {
        Some("fallback_default_start_success")
    } else if str_eq(k, "fallback-default-start-failed") {
        Some("fallback_default_start_failed")
    } else {
        None
    }
}

/// Routine recognition restart events (sampled, not logged every time).
pub open spec fn is_routine_restart(event: Seq<char>) -> bool {
    ||| event == "browser_recognition_started"@
    ||| event == "browser_onend"@
    ||| event == "browser_rearm_scheduled"@
    ||| event == "browser_rearm_executed"@
    ||| event == "recognition_onstart"@
    ||| event == "recognition_onend"@
}

/// Error types that recur in normal operation (sampled like restarts).
pub open spec fn is_noisy_error(error_type: Option<Seq<char>>) -> bool {
    error_type == Some("no-speech"@)
}

/// A routine cycle is logged while degraded, for the first rearms, and every 25th rearm.
pub open spec fn samples_cycle(degraded: bool, rearm_count: u64) -> bool {
    degraded || rearm_count <= ROUTINE_LOG_VERBOSE_LIMIT || rearm_count % ROUTINE_LOG_SAMPLE_EVERY == 0
}

pub fn should_sample_routine_cycle(degraded: bool, rearm_count: u64) -> (r: bool)
    ensures
        r == samples_cycle(degraded, rearm_count),
{
    if degraded {
        return true;
    }
    if rearm_count <= ROUTINE_LOG_VERBOSE_LIMIT {
        return true;
    }
    rearm_count % ROUTINE_LOG_SAMPLE_EVERY == 0
}

fn noisy_error_exec(error_type: Option<&str>) -> (r: bool)
    ensures
        r == is_noisy_error(opt_str(error_type)),
{
    match error_type {
        Some(t) => str_eq(t, "no-speech"),
        None => false,
    }
}

/// A mapped status event is logged unless it is routine chatter that sampling skips.
pub open spec fn logs_mapped_event(event: Seq<char>, error_type: Option<Seq<char>>, degraded: bool, rearm_count: u64) -> bool {
    if is_routine_restart(event) {
        samples_cycle(degraded, rearm_count)
    } else if event == "browser_onerror"@ && is_noisy_error(error_type) {
        samples_cycle(degraded, rearm_count)
    } else {
        true
    }
}

pub fn should_log_mapped_event(event: &str, error_type: Option<&str>, degraded: bool, rearm_count: u64) -> (r: bool)
    ensures
        r == logs_mapped_event(event@, opt_str(error_type), degraded, rearm_count),
{
    let routine = str_eq(event, "browser_recognition_started") || str_eq(event, "browser_onend") || str_eq(
        event,
        "browser_rearm_scheduled",
    ) || str_eq(event, "browser_rearm_executed") || str_eq(event, "recognition_onstart") || str_eq(
        event,
        "recognition_onend",
    );
    if routine {
        return should_sample_routine_cycle(degraded, rearm_count);
    }
    if str_eq(event, "browser_onerror") && noisy_error_exec(error_type) {
        return should_sample_routine_cycle(degraded, rearm_count);
    }
    true
}

/// An error report is logged unless it is a noisy error type that sampling skips.
pub fn should_log_error_event(error_type: Option<&str>, degraded: bool, rearm_count: u64) -> (r: bool)
    ensures
        r == (is_noisy_error(opt_str(error_type)) ==> samples_cycle(degraded, rearm_count)),
{
    if noisy_error_exec(error_type) {
        return should_sample_routine_cycle(degraded, rearm_count);
    }
    true
}

fn same_opt_str(a: Option<&str>, b: Option<&str>) -> (r: bool)
    ensures
        r == (opt_str(a) == opt_str(b)),
{
    match (a, b) {
        (Some(x), Some(y)) => str_eq(x, y),
        (None, None) => true,
        _ => false,
    }
}

/// Reasons that always come with an error worth logging.
pub open spec fn is_error_reason(reason: Option<Seq<char>>) -> bool {
    reason == Some("recognition-error"@) || reason == Some("terminal-error"@) || reason == Some(
        "microphone-permission-failed"@,
    )
}

/// A `browser_error` event is logged when the status carries an error, and either its
/// reason is an error reason or the error changed; noisy errors are sampled as
/// [`should_log_error_event`] decides.
pub fn should_log_browser_error(
    reason: Option<&str>,
    previous_error: Option<&str>,
    current_error: Option<&str>,
    error_type: Option<&str>,
    degraded: bool,
    rearm_count: u64,
) -> (r: bool)
    ensures
        r == (current_error is Some && (is_error_reason(opt_str(reason)) || opt_str(previous_error) != opt_str(
            current_error,
        )) && (is_noisy_error(opt_str(error_type)) ==> samples_cycle(degraded, rearm_count))),
{
    if current_error.is_none() {
        return false;
    }
    let error_reason = match reason {
        Some(r) => str_eq(r, "recognition-error") || str_eq(r, "terminal-error") || str_eq(
            r,
            "microphone-permission-failed",
        ),
        None => false,
    };
    if !error_reason && same_opt_str(previous_error, current_error) {
        return false;
    }
    should_log_error_event(error_type, degraded, rearm_count)
}

/// A `browser_degraded` event is logged when the status is degraded and its reason changed.
pub fn should_log_browser_degraded(previous_reason: Option<&str>, current_reason: Option<&str>) -> (r: bool)
    ensures
        r == (current_reason is Some && opt_str(previous_reason) != opt_str(current_reason)),
{
    current_reason.is_some() && !same_opt_str(previous_reason, current_reason)
}

/// The provider after a status report: one already named stays; otherwise Google's browser
/// mode names its own provider.
pub fn provider_after_status(browser_mode: Option<&str>, provider_name: Option<String>) -> (r: Option<String>)
    ensures
        r matches Some(p) ==> p@ == match provider_name {
            Some(q) => q@,
            None => "browser_google"@,
        },
        (r is Some) == (provider_name is Some || opt_str(browser_mode) == Some("browser_google"@)),
{
    match provider_name {
        Some(p) => Some(p),
        None => {
            let google = match browser_mode {
                Some(m) => str_eq(m, "browser_google"),
                None => false,
            };
            if google {
                Some(to_owned_string("browser_google"))
            } else {
                None
            }
        },
    }
}

/// Decides whether a status report is logged as a full snapshot: never for reasons that
/// map to their own event or for `degraded`; always for socket-open, user-stop, terminal
/// errors and microphone permission failures; otherwise when a core field changed, or
/// when only detail fields changed and the detail interval has passed.
pub open spec fn logs_status_snapshot(
    reason: Option<Seq<char>>,
    mapped_event: bool,
    core_changed: bool,
    material_changed: bool,
    detail_interval_elapsed: bool,
) -> bool {
    if mapped_event || reason == Some("degraded"@) {
        false
    } else if reason == Some("socket-open"@) || reason == Some("user-stop"@) || reason == Some("terminal-error"@)
        || reason == Some("microphone-permission-failed"@) {
        true
    } else if core_changed {
        true
    } else if !material_changed {
        false
    } else {
        detail_interval_elapsed
    }
}

pub fn should_log_status_snapshot(
    reason: Option<&str>,
    mapped_event: bool,
    core_changed: bool,
    material_changed: bool,
    detail_interval_elapsed: bool,
) -> (r: bool)
    ensures
        r == logs_status_snapshot(opt_str(reason), mapped_event, core_changed, material_changed, detail_interval_elapsed),
{
    let is = |want: &str| -> (b: bool)
        ensures
            b == (opt_str(reason) == Some(want@)),
        {
            match reason {
                Some(r) => str_eq(r, want),
                None => false,
            }
        };
    if mapped_event || is("degraded") {
        return false;
    }
    if is("socket-open") || is("user-stop") || is("terminal-error") || is("microphone-permission-failed") {
        return true;
    }
    if core_changed {
        return true;
    }
    if !material_changed {
        return false;
    }
    detail_interval_elapsed
}

/// A heartbeat is due while the worker is connected or wanted, every 15 s.
pub fn should_log_status_heartbeat(worker_connected: bool, desired_running: bool, since_last_heartbeat_ms: u128) -> (r: bool)
    ensures
        r == ((worker_connected || desired_running) && since_last_heartbeat_ms >= STATUS_HEARTBEAT_INTERVAL_MS),
{
    if !(worker_connected || desired_running) {
        return false;
    }
    since_last_heartbeat_ms >= STATUS_HEARTBEAT_INTERVAL_MS as u128
}

/// Age of the latest result: the younger of the partial and final ages.
pub fn last_result_age_ms(partial_age_ms: Option<u64>, final_age_ms: Option<u64>) -> (r: Option<u64>)
    ensures
        r == match (partial_age_ms, final_age_ms) {
            (Some(a), Some(b)) => Some(if a <= b { a } else { b }),
            (Some(a), None) => Some(a),
            (None, Some(b)) => Some(b),
            (None, None) => None,
        },
{
    match (partial_age_ms, final_age_ms) {
        (Some(a), Some(b)) => Some(if a <= b { a } else { b }),
        (Some(a), None) => Some(a),
        (None, Some(b)) => Some(b),
        (None, None) => None,
    }
}

/// Worker counters that heartbeats report as deltas.
#[derive(Clone, Copy)]
pub struct CounterSnapshot {
    pub rearm_count: u64,
    pub restart_count: u64,
    pub watchdog_rearm_count: u64,
    pub no_speech_count: u64,
    pub network_error_count: u64,
    pub duplicate_partial_suppressed: u64,
    pub duplicate_final_suppressed: u64,
    pub late_forced_final_suppressed: u64,
    pub stale_worker_events_ignored: u64,
}

pub open spec fn counter_names() -> Seq<Seq<char>> {
    seq![
        "rearm_count"@,
        "restart_count"@,
        "watchdog_rearm_count"@,
        "no_speech_count"@,
        "network_error_count"@,
        "duplicate_partial_suppressed"@,
        "duplicate_final_suppressed"@,
        "late_forced_final_suppressed"@,
        "stale_worker_events_ignored"@,
    ]
}

pub open spec fn counter_values(c: CounterSnapshot) -> Seq<u64> {
    seq![
        c.rearm_count,
        c.restart_count,
        c.watchdog_rearm_count,
        c.no_speech_count,
        c.network_error_count,
        c.duplicate_partial_suppressed,
        c.duplicate_final_suppressed,
        c.late_forced_final_suppressed,
        c.stale_worker_events_ignored,
    ]
}

pub open spec fn sat_sub(a: u64, b: u64) -> u64 {
    if a >= b {
        (a - b) as u64
    } else {
        0
    }
}

/// `(name, growth)` of the first `n` counters that grew since the baseline, in order.
pub open spec fn deltas_upto(current: Seq<u64>, baseline: Seq<u64>, n: int) -> Seq<(Seq<char>, u64)>
    decreases n,
{
    if n <= 0 {
        Seq::empty()
    } else {
        let rest = deltas_upto(current, baseline, n - 1);
        let d = sat_sub(current[n - 1], baseline[n - 1]);
        if d != 0 {
            rest.push((counter_names()[n - 1], d))
        } else {
            rest
        }
    }
}

pub open spec fn delta_views(v: Seq<(&str, u64)>) -> Seq<(Seq<char>, u64)> {
    v.map_values(|p: (&str, u64)| (p.0@, p.1))
}

fn counters_vec(c: &CounterSnapshot) -> (r: Vec<u64>)
    ensures
        r@ == counter_values(*c),
{
    let r = vec![
        c.rearm_count,
        c.restart_count,
        c.watchdog_rearm_count,
        c.no_speech_count,
        c.network_error_count,
        c.duplicate_partial_suppressed,
        c.duplicate_final_suppressed,
        c.late_forced_final_suppressed,
        c.stale_worker_events_ignored,
    ];
    assert(r@ =~= counter_values(*c));
    r
}

fn counter_name_list() -> (r: Vec<&'static str>)
    ensures
        r@.map_values(|t: &str| t@) == counter_names(),
{
    let r = vec![
        "rearm_count",
        "restart_count",
        "watchdog_rearm_count",
        "no_speech_count",
        "network_error_count",
        "duplicate_partial_suppressed",
        "duplicate_final_suppressed",
        "late_forced_final_suppressed",
        "stale_worker_events_ignored",
    ];
    assert(r@.map_values(|t: &str| t@) =~= counter_names());
    r
}

/// Counters that grew since the heartbeat baseline, with their growth (saturating).
pub fn heartbeat_counter_deltas(current: &CounterSnapshot, baseline: &CounterSnapshot) -> (r: Vec<(&'static str, u64)>)
    ensures
        delta_views(r@) == deltas_upto(counter_values(*current), counter_values(*baseline), 9),
{
    let cur = counters_vec(current);
    let base = counters_vec(baseline);
    let names = counter_name_list();
    assert(names@.map_values(|t: &str| t@).len() == names@.len());
    let mut out: Vec<(&'static str, u64)> = Vec::new();
    let mut i: usize = 0;
    while i < 9
        invariant
            cur@ == counter_values(*current),
            base@ == counter_values(*baseline),
            names@.map_values(|t: &str| t@) == counter_names(),
            cur@.len() == 9,
            base@.len() == 9,
            names@.len() == 9,
            i <= 9,
            delta_views(out@) == deltas_upto(counter_values(*current), counter_values(*baseline), i as int),
        decreases 9 - i,
    {
        let d = if cur[i] >= base[i] { cur[i] - base[i] } else { 0 };
        if d != 0 {
            let ghost o0 = delta_views(out@);
            out.push((names[i], d));
            proof {
                assert(names@[i as int]@ == counter_names()[i as int]);
                assert(delta_views(out@) =~= o0.push((counter_names()[i as int], d)));
            }
        }
        i = i + 1;
    }
    out
}

/// The state a heartbeat reports: the recognition state, else the supervisor state, else
/// `idle`.
pub fn heartbeat_state(recognition_state: Option<&str>, supervisor_state: Option<&str>) -> (r: String)
    ensures
        r@ == match recognition_state {
            Some(s) => s@,
            None => match supervisor_state {
                Some(s) => s@,
                None => "idle"@,
            },
        },
{
    match recognition_state {
        Some(s) => to_owned_string(s),
        None => match supervisor_state {
            Some(s) => to_owned_string(s),
            None => to_owned_string("idle"),
        },
    }
}

/// A text status field as reported: trimmed, blank read as absent; the browser mode keeps
/// only `browser_google`.
pub open spec fn status_text(key: Seq<char>, value: Option<Seq<char>>) -> Option<Seq<char>> {
    match value {
        Some(v) => if trim(v).len() == 0 {
            None
        } else if key == "browser_mode"@ && trim(v) != "browser_google"@ {
            None
        } else {
            Some(trim(v))
        },
        None => None,
    }
}

pub fn normalize_status_text(key: &str, value: Option<&str>) -> (r: Option<String>)
    ensures
        match r {
            Some(s) => status_text(key@, opt_str(value)) == Some(s@),
            None => status_text(key@, opt_str(value)) is None,
        },
{
    match value {
        Some(v) => {
            let t = trim_str(v);
            if t.as_str().is_empty() {
                None
            } else if str_eq(key, "browser_mode") && !str_eq(t.as_str(), "browser_google") {
                None
            } else {
                Some(t)
            }
        },
        None => None,
    }
}

/// A numeric JSON value as the worker payload carries it.
#[derive(Clone, Copy)]
pub enum PayloadNumber {
    /// A non-negative integer.
    Unsigned(u64),
    /// A negative integer.
    Negative(i64),
    /// A number with a fraction or exponent, or one too large for the integer forms.
    Other,
}

/// A counter field: non-negative integers as they are, negative ones as 0, anything else
/// as 0.
pub fn payload_counter(value: PayloadNumber) -> (r: u64)
    ensures
        r == match value {
            PayloadNumber::Unsigned(n) => n,
            _ => 0,
        },
{
    match value {
        PayloadNumber::Unsigned(n) => n,
        PayloadNumber::Negative(_) => 0,
        PayloadNumber::Other => 0,
    }
}

/// An optional numeric field: null clears it, integers as for counters, other numbers
/// clear it.
pub fn payload_optional(value: Option<PayloadNumber>) -> (r: Option<u64>)
    ensures
        r == match value {
            Some(PayloadNumber::Unsigned(n)) => Some(n),
            Some(PayloadNumber::Negative(_)) => Some(0u64),
            _ => None,
        },
{
    match value {
        Some(PayloadNumber::Unsigned(n)) => Some(n),
        Some(PayloadNumber::Negative(_)) => Some(0),
        Some(PayloadNumber::Other) => None,
        None => None,
    }
}

/// Law: past the first rearms, exactly one in every 25 routine restart events is logged
/// while not degraded.
pub proof fn law_routine_sampling(rearm_count: u64)
    requires
        rearm_count > ROUTINE_LOG_VERBOSE_LIMIT,
    ensures
        samples_cycle(false, rearm_count) <==> rearm_count % 25 == 0,
        samples_cycle(true, rearm_count),
{
}

} // verus!
