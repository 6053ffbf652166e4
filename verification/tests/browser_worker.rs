use voicesub::asr_segment_queue::{AsrWorkItem, AsrWorkKind};
use voicesub::browser_service::{control_action, message_sequence, optional_text, IngressGate};
use voicesub::decode_worker::{non_empty_text, CumulativeAudio};
use voicesub::gateway::{
    heartbeat_counter_deltas, heartbeat_state, last_result_age_ms, map_reason_to_event, normalize_status_text,
    payload_counter, payload_optional, should_log_error_event, should_log_mapped_event, should_log_status_heartbeat,
    should_log_status_snapshot, should_sample_routine_cycle, CounterSnapshot, PayloadNumber,
};
use voicesub::process_affinity::{parse_mask, parse_radix_usize, resolve_browser_worker_affinity_mask};
use voicesub::segment_enqueue::slice_segment_audio_delta;
use voicesub::str_map::StrMap;
use voicesub::vad_frames::{ceil_frames, frames_duration_ms, vad_frame_limits};

#[test]
fn affinity_mask_resolution_cases() {
    // Default: affinity disabled.
    assert!(resolve_browser_worker_affinity_mask(None, None, None, 8).is_none());
    assert!(resolve_browser_worker_affinity_mask(Some("0"), None, None, 8).is_none());
    assert_eq!(resolve_browser_worker_affinity_mask(None, Some("0xFC"), None, 8), Some(0xFC));
    for cores in [1usize, 2, 3, 4, 8, 16] {
        let mask = resolve_browser_worker_affinity_mask(Some("1"), None, Some("2"), cores);
        if cores <= 3 {
            assert!(mask.is_none());
        } else {
            assert_eq!(mask.expect("mask") & 0b11, 0);
        }
    }
}

#[test]
fn affinity_mask_covers_remaining_cores() {
    assert_eq!(resolve_browser_worker_affinity_mask(Some("true"), None, None, 8), Some(0b1111_1100));
    assert_eq!(resolve_browser_worker_affinity_mask(Some("yes"), None, Some("0"), 8), None);
    assert_eq!(resolve_browser_worker_affinity_mask(Some("1"), Some("0"), None, 8), None);
}

#[test]
fn masks_parse_in_hex_and_decimal() {
    assert_eq!(parse_mask(Some("0xFC")), Some(0xFC));
    assert_eq!(parse_mask(Some(" 252 ")), Some(252));
    assert_eq!(parse_mask(Some("zz")), None);
    assert_eq!(parse_mask(None), None);
    assert_eq!(parse_radix_usize("ff", 16), Some(255));
    assert_eq!(parse_radix_usize("", 10), None);
}

#[test]
fn maps_overlap_telemetry_events() {
    for (reason, expected) in [
        ("overlap-handoff", "browser_overlap_handoff"),
        ("overlap-buddy-ended", "browser_overlap_buddy_ended"),
        ("overlap-buddy-error", "browser_overlap_buddy_error"),
        ("overlap-buddy-ghost-recovered", "browser_overlap_buddy_ghost_recovered"),
    ] {
        assert_eq!(map_reason_to_event(Some(reason)), Some(expected), "reason={reason} expected {expected}");
    }
}

#[test]
fn reason_mapping_trims_and_ignores_case() {
    assert_eq!(map_reason_to_event(Some("  Recognition-Started ")), Some("browser_recognition_started"));
    assert_eq!(map_reason_to_event(Some("audio-track-muted")), Some("audio_track_muted"));
    assert_eq!(map_reason_to_event(Some("result")), None);
    assert_eq!(map_reason_to_event(None), None);
}

#[test]
fn samples_routine_recognition_started_events() {
    assert!(should_sample_routine_cycle(false, 1));
    assert!(!should_sample_routine_cycle(false, 24));
    assert!(should_sample_routine_cycle(false, 25));
    assert!(should_sample_routine_cycle(true, 24));
    assert!(!should_log_mapped_event("browser_recognition_started", None, false, 24));
    assert!(should_log_mapped_event("browser_overlap_handoff", None, false, 24));
    assert!(!should_log_mapped_event("browser_onerror", Some("no-speech"), false, 26));
    assert!(should_log_mapped_event("browser_onerror", Some("network"), false, 26));
    assert!(!should_log_error_event(Some("no-speech"), false, 26));
    assert!(should_log_error_event(None, false, 26));
}

#[test]
fn status_snapshots_and_heartbeats() {
    assert!(!should_log_status_snapshot(Some("degraded"), false, true, true, true));
    assert!(!should_log_status_snapshot(Some("heartbeat"), true, true, true, true));
    assert!(should_log_status_snapshot(Some("socket-open"), false, false, false, false));
    assert!(should_log_status_snapshot(Some("result"), false, true, true, false));
    assert!(!should_log_status_snapshot(Some("result"), false, false, false, true));
    assert!(!should_log_status_snapshot(Some("result"), false, false, true, false));
    assert!(should_log_status_snapshot(Some("result"), false, false, true, true));
    assert!(should_log_status_heartbeat(true, false, 20_000));
    assert!(!should_log_status_heartbeat(true, false, 14_999));
    assert!(!should_log_status_heartbeat(false, false, 20_000));
    assert_eq!(last_result_age_ms(Some(95), Some(30)), Some(30));
    assert_eq!(last_result_age_ms(None, None), None);
    assert_eq!(heartbeat_state(None, Some("listening")), "listening");
    assert_eq!(heartbeat_state(None, None), "idle");
}

fn counters(rearm: u64, stale: u64) -> CounterSnapshot {
    CounterSnapshot {
        rearm_count: rearm,
        restart_count: 0,
        watchdog_rearm_count: 0,
        no_speech_count: 0,
        network_error_count: 0,
        duplicate_partial_suppressed: 0,
        duplicate_final_suppressed: 0,
        late_forced_final_suppressed: 0,
        stale_worker_events_ignored: stale,
    }
}

#[test]
fn heartbeat_reports_only_grown_counters() {
    let deltas = heartbeat_counter_deltas(&counters(5, 3), &counters(2, 3));
    assert_eq!(deltas, vec![("rearm_count", 3)]);
    assert!(heartbeat_counter_deltas(&counters(1, 1), &counters(4, 4)).is_empty());
}

#[test]
fn status_text_and_payload_numbers() {
    assert_eq!(normalize_status_text("browser_mode", Some("  browser_google ")), Some("browser_google".to_string()));
    assert_eq!(normalize_status_text("browser_mode", Some("other")), None);
    assert_eq!(normalize_status_text("visibility_state", Some("hidden")), Some("hidden".to_string()));
    assert_eq!(normalize_status_text("visibility_state", Some("   ")), None);
    assert_eq!(payload_counter(PayloadNumber::Unsigned(7)), 7);
    assert_eq!(payload_counter(PayloadNumber::Negative(-3)), 0);
    assert_eq!(payload_optional(Some(PayloadNumber::Other)), None);
    assert_eq!(payload_optional(Some(PayloadNumber::Negative(-1))), Some(0));
}

#[test]
fn stale_generation_is_ignored() {
    let mut gate = IngressGate::new();
    let transport = gate.register_connection();
    assert!(gate.accept_payload(transport, Some("session-a".into()), 2));
    assert!(!gate.accept_payload(transport, Some("session-a".into()), 1));
    assert_eq!(gate.stale_events_ignored(), 1);
    assert!(gate.accept_payload(transport, Some("session-a".into()), 2));
    assert!(!gate.accept_payload(transport, Some("session-b".into()), 2));
    assert!(gate.accept_payload(transport, Some("session-b".into()), 3));
}

#[test]
fn register_connection_drops_previous_transport() {
    let mut gate = IngressGate::new();
    let first = gate.register_connection();
    let second = gate.register_connection();
    assert_eq!((first, second), (1, 2));
    assert_eq!(gate.active_transport_id(), 2);
    assert!(!gate.accept_payload(first, None, 0));
    assert!(gate.accept_payload(second, None, 0));
    assert_eq!(gate.stale_events_ignored(), 1);
}

#[test]
fn worker_payload_fields() {
    assert_eq!(control_action("  STOP "), "stop");
    assert_eq!(optional_text(Some("  seg-4 ")), Some("seg-4".to_string()));
    assert_eq!(optional_text(Some("   ")), None);
    assert_eq!(message_sequence(None, Some(-2)), None);
    assert_eq!(message_sequence(None, Some(9)), Some(9));
    assert_eq!(message_sequence(Some(4), Some(9)), Some(4));
}

#[test]
fn worker_ignores_stale_generation_jobs() {
    let mut worker: CumulativeAudio<f32> = CumulativeAudio::new();
    let stale = AsrWorkItem::new(AsrWorkKind::Partial, vec![0.1; 640], 40, 1, "segment-1".into(), 1);
    assert!(worker.begin_job(&stale, 2).is_none());
    let fresh = AsrWorkItem::new(AsrWorkKind::Partial, vec![0.1; 1600], 100, 2, "segment-1".into(), 2);
    assert_eq!(worker.begin_job(&fresh, 2).expect("decoded").len(), 1600);
}

#[test]
fn worker_rebuilds_segment_from_deltas() {
    let mut tracker = StrMap::new();
    let mut worker: CumulativeAudio<u8> = CumulativeAudio::new();
    let first = vec![1u8, 2, 3];
    let (d1, _) = slice_segment_audio_delta(&first, "seg", true, &mut tracker);
    assert_eq!(worker.absorb("seg", &d1, true), first);
    let grown = vec![1u8, 2, 3, 4, 5];
    let (d2, _) = slice_segment_audio_delta(&grown, "seg", false, &mut tracker);
    assert_eq!(worker.absorb("seg", &d2, true), grown);
    assert_eq!(worker.absorb("seg", &[9u8], false), vec![9u8]);
    let mut fin = AsrWorkItem::new(AsrWorkKind::Final, vec![7u8], 1, 1, "seg".into(), 3);
    fin.audio_is_delta = true;
    assert_eq!(worker.begin_job(&fin, 1).expect("job"), vec![9u8, 7]);
    worker.end_job(&fin);
    assert_eq!(worker.absorb("seg", &[], true), Vec::<u8>::new());
    assert_eq!(non_empty_text(String::new()), None);
    assert_eq!(non_empty_text("hi".into()), Some("hi".to_string()));
}

#[test]
fn vad_frame_counts_round_up() {
    assert_eq!(ceil_frames(300, 30), 10);
    assert_eq!(ceil_frames(301, 30), 11);
    assert_eq!(ceil_frames(5, 0), 0);
    let limits = vad_frame_limits(30, 10, 0, 250, 100, 0, 120_000, 0);
    assert_eq!(limits.speech_attack_frames, 1);
    assert_eq!(limits.silence_hold_frames, 1);
    assert_eq!(limits.finalization_hold_frames, 1);
    assert_eq!(limits.min_speech_frames, 9);
    assert_eq!(limits.first_partial_min_speech_frames, 9);
    assert_eq!(limits.partial_interval_frames, 1);
    assert_eq!(limits.max_segment_frames, 4000);
    assert_eq!(frames_duration_ms(12, 30), 360);
}
