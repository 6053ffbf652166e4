//! Status snapshots of the speech worker: the fields whose change makes a status worth
//! logging at once, and the counters logged at most once per detail interval.
use vstd::prelude::*;

use crate::text::str_eq;

verus! {

/// The worker status fields whose change is logged at once.  Text fields hold the empty
/// string where the worker reported none.
pub struct CoreStatusSnapshot {
    pub worker_connected: bool,
    pub desired_running: bool,
    pub recognition_running: bool,
    pub websocket_ready: bool,
    pub active_recognition: bool,
    pub active_media_stream: bool,
    pub pending_start: bool,
    pub recognition_continuous: bool,
    pub forced_final: bool,
    pub browser_cycle_pending: bool,
    pub mic_track_muted: bool,
    pub mic_stream_active: bool,
    pub overlap_mode_desired: bool,
    pub overlap_active: bool,
    pub overlap_prestarted: bool,
    pub overlap_active_listening: bool,
    pub overlap_buddy_listening: bool,
    pub overlap_prestart_timer_armed: bool,
    pub recognition_state: String,
    pub supervisor_state: String,
    pub browser_mode: String,
    pub start_mode: String,
    pub provider_name: String,
    pub session_id: String,
    pub client_segment_id: String,
    pub effective_continuous_mode: String,
    pub mic_track_ready_state: String,
    pub get_user_media_last_error: String,
    pub visibility_state: String,
    pub last_error: String,
    pub error_type: String,
    pub degraded_reason: String,
    pub generation_id: u64,
    pub browser_cycle_count: u64,
    pub browser_minimum_reconnect_suppressed_count: u64,
    pub browser_forced_final_on_interruption_count: u64,
    pub rearm_count: u64,
    pub restart_count: u64,
    pub watchdog_rearm_count: u64,
    pub last_session_started_at_ms: Option<u64>,
    pub last_session_ended_at_ms: Option<u64>,
    pub stopping_since_ms: Option<u64>,
    pub overlap_active_slot: Option<u64>,
    pub overlap_buddy_slot: Option<u64>,
}

/// The result index and counters of the worker status (the microphone level, a float, is
/// compared by the caller).
pub struct DetailStatusSnapshot {
    pub last_result_index: Option<u64>,
    pub duplicate_partial_suppressed: u64,
    pub duplicate_final_suppressed: u64,
    pub late_forced_final_suppressed: u64,
    pub get_user_media_count: u64,
    pub media_tracks_stopped_count: u64,
    pub media_track_leak_guard_count: u64,
    pub no_speech_count: u64,
    pub network_error_count: u64,
    pub stale_worker_events_ignored: u64,
}

/// The flags of two core snapshots agree.
pub open spec fn same_core_flags(a: CoreStatusSnapshot, b: CoreStatusSnapshot) -> bool {
    &&& a.worker_connected == b.worker_connected
    &&& a.desired_running == b.desired_running
    &&& a.recognition_running == b.recognition_running
    &&& a.websocket_ready == b.websocket_ready
    &&& a.active_recognition == b.active_recognition
    &&& a.active_media_stream == b.active_media_stream
    &&& a.pending_start == b.pending_start
    &&& a.recognition_continuous == b.recognition_continuous
    &&& a.forced_final == b.forced_final
    &&& a.browser_cycle_pending == b.browser_cycle_pending
    &&& a.mic_track_muted == b.mic_track_muted
    &&& a.mic_stream_active == b.mic_stream_active
    &&& a.overlap_mode_desired == b.overlap_mode_desired
    &&& a.overlap_active == b.overlap_active
    &&& a.overlap_prestarted == b.overlap_prestarted
    &&& a.overlap_active_listening == b.overlap_active_listening
    &&& a.overlap_buddy_listening == b.overlap_buddy_listening
    &&& a.overlap_prestart_timer_armed == b.overlap_prestart_timer_armed
}

/// The numbers of two core snapshots agree.
pub open spec fn same_core_numbers(a: CoreStatusSnapshot, b: CoreStatusSnapshot) -> bool {
    &&& a.generation_id == b.generation_id
    &&& a.browser_cycle_count == b.browser_cycle_count
    &&& a.browser_minimum_reconnect_suppressed_count == b.browser_minimum_reconnect_suppressed_count
    &&& a.browser_forced_final_on_interruption_count == b.browser_forced_final_on_interruption_count
    &&& a.rearm_count == b.rearm_count
    &&& a.restart_count == b.restart_count
    &&& a.watchdog_rearm_count == b.watchdog_rearm_count
    &&& a.last_session_started_at_ms == b.last_session_started_at_ms
    &&& a.last_session_ended_at_ms == b.last_session_ended_at_ms
    &&& a.stopping_since_ms == b.stopping_since_ms
    &&& a.overlap_active_slot == b.overlap_active_slot
    &&& a.overlap_buddy_slot == b.overlap_buddy_slot
}

/// The text fields of two core snapshots agree.
pub open spec fn same_core_texts(a: CoreStatusSnapshot, b: CoreStatusSnapshot) -> bool {
    &&& a.recognition_state@ == b.recognition_state@
    &&& a.supervisor_state@ == b.supervisor_state@
    &&& a.browser_mode@ == b.browser_mode@
    &&& a.start_mode@ == b.start_mode@
    &&& a.provider_name@ == b.provider_name@
    &&& a.session_id@ == b.session_id@
    &&& a.client_segment_id@ == b.client_segment_id@
    &&& a.effective_continuous_mode@ == b.effective_continuous_mode@
    &&& a.mic_track_ready_state@ == b.mic_track_ready_state@
    &&& a.get_user_media_last_error@ == b.get_user_media_last_error@
    &&& a.visibility_state@ == b.visibility_state@
    &&& a.last_error@ == b.last_error@
    &&& a.error_type@ == b.error_type@
    &&& a.degraded_reason@ == b.degraded_reason@
}

/// Two core snapshots hold the same values, field by field.
pub open spec fn same_core_status(a: CoreStatusSnapshot, b: CoreStatusSnapshot) -> bool {
    same_core_flags(a, b) && same_core_numbers(a, b) && same_core_texts(a, b)
}

/// Two detail snapshots hold the same values, field by field.
pub open spec fn same_detail_status(a: DetailStatusSnapshot, b: DetailStatusSnapshot) -> bool {
    &&& a.last_result_index == b.last_result_index
    &&& a.duplicate_partial_suppressed == b.duplicate_partial_suppressed
    &&& a.duplicate_final_suppressed == b.duplicate_final_suppressed
    &&& a.late_forced_final_suppressed == b.late_forced_final_suppressed
    &&& a.get_user_media_count == b.get_user_media_count
    &&& a.media_tracks_stopped_count == b.media_tracks_stopped_count
    &&& a.media_track_leak_guard_count == b.media_track_leak_guard_count
    &&& a.no_speech_count == b.no_speech_count
    &&& a.network_error_count == b.network_error_count
    &&& a.stale_worker_events_ignored == b.stale_worker_events_ignored
}

fn same_opt(a: Option<u64>, b: Option<u64>) -> (r: bool)
    ensures
        r == (a == b),
{
    match (a, b) {
        (Some(x), Some(y)) => x == y,
        (None, None) => true,
        _ => false,
    }
}

fn core_flags_agree(a: &CoreStatusSnapshot, b: &CoreStatusSnapshot) -> (r: bool)
    ensures
        r == same_core_flags(*a, *b),
{
    a.worker_connected == b.worker_connected
        && a.desired_running == b.desired_running
        && a.recognition_running == b.recognition_running
        && a.websocket_ready == b.websocket_ready
        && a.active_recognition == b.active_recognition
        && a.active_media_stream == b.active_media_stream
        && a.pending_start == b.pending_start
        && a.recognition_continuous == b.recognition_continuous
        && a.forced_final == b.forced_final
        && a.browser_cycle_pending == b.browser_cycle_pending
        && a.mic_track_muted == b.mic_track_muted
        && a.mic_stream_active == b.mic_stream_active
        && a.overlap_mode_desired == b.overlap_mode_desired
        && a.overlap_active == b.overlap_active
        && a.overlap_prestarted == b.overlap_prestarted
        && a.overlap_active_listening == b.overlap_active_listening
        && a.overlap_buddy_listening == b.overlap_buddy_listening
        && a.overlap_prestart_timer_armed == b.overlap_prestart_timer_armed
}

fn core_numbers_agree(a: &CoreStatusSnapshot, b: &CoreStatusSnapshot) -> (r: bool)
    ensures
        r == same_core_numbers(*a, *b),
{
    a.generation_id == b.generation_id
        && a.browser_cycle_count == b.browser_cycle_count
        && a.browser_minimum_reconnect_suppressed_count == b.browser_minimum_reconnect_suppressed_count
        && a.browser_forced_final_on_interruption_count == b.browser_forced_final_on_interruption_count
        && a.rearm_count == b.rearm_count
        && a.restart_count == b.restart_count
        && a.watchdog_rearm_count == b.watchdog_rearm_count
        && same_opt(a.last_session_started_at_ms, b.last_session_started_at_ms)
        && same_opt(a.last_session_ended_at_ms, b.last_session_ended_at_ms)
        && same_opt(a.stopping_since_ms, b.stopping_since_ms)
        && same_opt(a.overlap_active_slot, b.overlap_active_slot)
        && same_opt(a.overlap_buddy_slot, b.overlap_buddy_slot)
}

fn core_texts_agree(a: &CoreStatusSnapshot, b: &CoreStatusSnapshot) -> (r: bool)
    ensures
        r == same_core_texts(*a, *b),
{
    str_eq(a.recognition_state.as_str(), b.recognition_state.as_str())
        && str_eq(a.supervisor_state.as_str(), b.supervisor_state.as_str())
        && str_eq(a.browser_mode.as_str(), b.browser_mode.as_str())
        && str_eq(a.start_mode.as_str(), b.start_mode.as_str())
        && str_eq(a.provider_name.as_str(), b.provider_name.as_str())
        && str_eq(a.session_id.as_str(), b.session_id.as_str())
        && str_eq(a.client_segment_id.as_str(), b.client_segment_id.as_str())
        && str_eq(a.effective_continuous_mode.as_str(), b.effective_continuous_mode.as_str())
        && str_eq(a.mic_track_ready_state.as_str(), b.mic_track_ready_state.as_str())
        && str_eq(a.get_user_media_last_error.as_str(), b.get_user_media_last_error.as_str())
        && str_eq(a.visibility_state.as_str(), b.visibility_state.as_str())
        && str_eq(a.last_error.as_str(), b.last_error.as_str())
        && str_eq(a.error_type.as_str(), b.error_type.as_str())
        && str_eq(a.degraded_reason.as_str(), b.degraded_reason.as_str())
}

/// Whether a core status field changed between two snapshots.
pub fn core_status_changed(previous: &CoreStatusSnapshot, current: &CoreStatusSnapshot) -> (r: bool)
    ensures
        r == !same_core_status(*previous, *current),
{
    !(core_flags_agree(previous, current) && core_numbers_agree(previous, current) && core_texts_agree(
        previous,
        current,
    ))
}

/// Whether the material status changed: a core field, the microphone level (as the
/// caller found it), the result index or a counter.
pub fn material_status_changed(
    core_changed: bool,
    mic_rms_changed: bool,
    previous: &DetailStatusSnapshot,
    current: &DetailStatusSnapshot,
) -> (r: bool)
    ensures
        r == (core_changed || mic_rms_changed || !same_detail_status(*previous, *current)),
{
    if core_changed || mic_rms_changed {
        return true;
    }
    if !same_opt(previous.last_result_index, current.last_result_index) {
        return true;
    }
    if previous.duplicate_partial_suppressed != current.duplicate_partial_suppressed {
        return true;
    }
    if previous.duplicate_final_suppressed != current.duplicate_final_suppressed {
        return true;
    }
    if previous.late_forced_final_suppressed != current.late_forced_final_suppressed {
        return true;
    }
    if previous.get_user_media_count != current.get_user_media_count {
        return true;
    }
    if previous.media_tracks_stopped_count != current.media_tracks_stopped_count {
        return true;
    }
    if previous.media_track_leak_guard_count != current.media_track_leak_guard_count {
        return true;
    }
    if previous.no_speech_count != current.no_speech_count {
        return true;
    }
    if previous.network_error_count != current.network_error_count {
        return true;
    }
    if previous.stale_worker_events_ignored != current.stale_worker_events_ignored {
        return true;
    }
    false
}

} // verus!
