use voicesub::gateway::{provider_after_status, should_log_browser_degraded, should_log_browser_error};
use voicesub::gateway_status::{core_status_changed, material_status_changed, CoreStatusSnapshot, DetailStatusSnapshot};

fn base_core() -> CoreStatusSnapshot {
    CoreStatusSnapshot {
        worker_connected: false,
        desired_running: false,
        recognition_running: false,
        websocket_ready: false,
        active_recognition: false,
        active_media_stream: false,
        pending_start: false,
        recognition_continuous: false,
        forced_final: false,
        browser_cycle_pending: false,
        mic_track_muted: false,
        mic_stream_active: false,
        overlap_mode_desired: false,
        overlap_active: false,
        overlap_prestarted: false,
        overlap_active_listening: false,
        overlap_buddy_listening: false,
        overlap_prestart_timer_armed: false,
        recognition_state: String::new(),
        supervisor_state: String::new(),
        browser_mode: String::new(),
        start_mode: String::new(),
        provider_name: String::new(),
        session_id: String::new(),
        client_segment_id: String::new(),
        effective_continuous_mode: String::new(),
        mic_track_ready_state: String::new(),
        get_user_media_last_error: String::new(),
        visibility_state: String::new(),
        last_error: String::new(),
        error_type: String::new(),
        degraded_reason: String::new(),
        generation_id: 0,
        browser_cycle_count: 0,
        browser_minimum_reconnect_suppressed_count: 0,
        browser_forced_final_on_interruption_count: 0,
        rearm_count: 0,
        restart_count: 0,
        watchdog_rearm_count: 0,
        last_session_started_at_ms: None,
        last_session_ended_at_ms: None,
        stopping_since_ms: None,
        overlap_active_slot: None,
        overlap_buddy_slot: None,
    }
}

fn detail() -> DetailStatusSnapshot {
    DetailStatusSnapshot {
        last_result_index: None,
        duplicate_partial_suppressed: 0,
        duplicate_final_suppressed: 0,
        late_forced_final_suppressed: 0,
        get_user_media_count: 0,
        media_tracks_stopped_count: 0,
        media_track_leak_guard_count: 0,
        no_speech_count: 0,
        network_error_count: 0,
        stale_worker_events_ignored: 0,
    }
}

#[test]
fn core_status_change_is_any_core_field() {
    assert!(!core_status_changed(&base_core(), &base_core()));
    let mut b = base_core();
    b.recognition_state = "listening".to_string();
    assert!(core_status_changed(&base_core(), &b));
    let mut c = base_core();
    c.overlap_buddy_slot = Some(2);
    assert!(core_status_changed(&base_core(), &c));
    let mut d = base_core();
    d.watchdog_rearm_count = 1;
    assert!(core_status_changed(&base_core(), &d));
    let mut e = base_core();
    e.mic_stream_active = true;
    assert!(core_status_changed(&e, &base_core()));
}

#[test]
fn material_status_change_includes_counters_and_level() {
    assert!(!material_status_changed(false, false, &detail(), &detail()));
    assert!(material_status_changed(true, false, &detail(), &detail()));
    assert!(material_status_changed(false, true, &detail(), &detail()));
    let mut b = detail();
    b.no_speech_count = 3;
    assert!(material_status_changed(false, false, &detail(), &b));
    let mut c = detail();
    c.last_result_index = Some(0);
    assert!(material_status_changed(false, false, &detail(), &c));
}

#[test]
fn error_and_degraded_events_follow_the_status() {
    assert!(should_log_browser_error(Some("recognition-error"), Some("x"), Some("x"), None, false, 0));
    assert!(should_log_browser_error(None, None, Some("network"), None, false, 0));
    assert!(!should_log_browser_error(Some("status"), Some("x"), Some("x"), None, false, 0));
    assert!(!should_log_browser_error(Some("terminal-error"), None, None, None, false, 0));
    assert!(should_log_browser_degraded(None, Some("stalled")));
    assert!(!should_log_browser_degraded(Some("stalled"), Some("stalled")));
    assert!(!should_log_browser_degraded(Some("stalled"), None));
    assert_eq!(provider_after_status(Some("browser_google"), None).as_deref(), Some("browser_google"));
    assert_eq!(provider_after_status(Some("browser_google"), Some("other".into())).as_deref(), Some("other"));
    assert_eq!(provider_after_status(Some("local"), None), None);
}
