use voicesub::audio_error::AudioError;
use voicesub::device_names::resolve_output_device;
use voicesub::output_routing::{
    list_output_devices, per_process_routing_enabled, plan_output_route, validate_device_id, OutputRoute,
    RenderEndpoint,
};
use voicesub::playback_control::{
    play_outcome, playback_channel, playback_finished, IdleAction, PlayOutcome, PlaybackChannel, PlaybackWorkerState,
    WorkerSignal, CHANNEL_SPEECH, CHANNEL_TWITCH,
};

fn names(list: &[&str]) -> Vec<Option<String>> {
    list.iter().map(|n| Some(n.to_string())).collect()
}

#[test]
fn channel_names_select_workers() {
    assert!(matches!(playback_channel(CHANNEL_SPEECH), Ok(PlaybackChannel::Speech)));
    assert!(matches!(playback_channel(CHANNEL_TWITCH), Ok(PlaybackChannel::Twitch)));
    assert_eq!(PlaybackChannel::Twitch.name(), "twitch");
}

#[test]
fn unknown_channel_is_refused() {
    match playback_channel("music") {
        Err(err) => assert_eq!(err.message(), "playback failed: unknown playback channel: music"),
        Ok(_) => panic!("expected unknown channel error"),
    }
}

#[test]
fn audio_error_texts() {
    assert_eq!(AudioError::InvalidProcessId.message(), "invalid process id");
    assert_eq!(AudioError::DeviceNotFound("x".into()).message(), "device not found: x");
    assert_eq!(AudioError::RoutingFailed("y".into()).message(), "audio routing failed: y");
}

#[test]
fn finished_reports_each_outcome() {
    let done = playback_finished(PlaybackChannel::Speech, "a".into(), play_outcome(Ok(())));
    assert_eq!(done.channel, "speech");
    assert_eq!(done.item_id, "a");
    assert!(done.ok);
    assert_eq!(done.error, None);

    let stopped = playback_finished(PlaybackChannel::Twitch, "b".into(), PlayOutcome::Stopped);
    assert!(!stopped.ok);
    assert_eq!(stopped.error.as_deref(), Some("playback stopped"));

    let failed = playback_finished(
        PlaybackChannel::Speech,
        "c".into(),
        play_outcome(Err(AudioError::PlaybackFailed("empty audio buffer".into()))),
    );
    assert!(!failed.ok);
    assert_eq!(failed.error.as_deref(), Some("playback failed: empty audio buffer"));
}

#[test]
fn interrupted_item_is_reported_with_the_error_text() {
    // The interrupt error reads "playback failed: playback stopped", so it is a failure.
    let outcome = play_outcome(Err(AudioError::PlaybackFailed("playback stopped".into())));
    assert!(matches!(outcome, PlayOutcome::Failed(_)));
    let report = playback_finished(PlaybackChannel::Speech, "d".into(), outcome);
    assert_eq!(report.error.as_deref(), Some("playback failed: playback stopped"));
}

#[test]
fn label_change_reopens_output() {
    let mut state = PlaybackWorkerState::new();
    assert!(state.needs_output());
    state.output_opened();
    assert!(!state.needs_output());
    assert_eq!(state.on_idle(WorkerSignal::SetDeviceLabel(String::new())), IdleAction::Nothing);
    assert!(!state.needs_output());
    assert_eq!(state.on_idle(WorkerSignal::SetDeviceLabel("Speakers".into())), IdleAction::Nothing);
    assert_eq!(state.device_label, "Speakers");
    assert!(state.needs_output());
    state.output_opened();
    state.playback_failed();
    assert!(state.needs_output());
}

#[test]
fn busy_worker_stops_only_on_stop() {
    let mut state = PlaybackWorkerState::new();
    state.output_opened();
    assert!(!state.on_busy(WorkerSignal::Play));
    assert!(!state.on_busy(WorkerSignal::SetDeviceLabel("Headset".into())));
    assert_eq!(state.device_label, "Headset");
    assert!(state.on_busy(WorkerSignal::StopPending));
    assert_eq!(state.on_idle(WorkerSignal::StopPending), IdleAction::DrainQueue);
    assert_eq!(state.on_idle(WorkerSignal::Play), IdleAction::Play);
}

#[test]
fn draining_keeps_label_changes_only() {
    let mut state = PlaybackWorkerState::new();
    state.on_drain(WorkerSignal::Play);
    state.on_drain(WorkerSignal::StopPending);
    assert_eq!(state.device_label, "");
    state.on_drain(WorkerSignal::SetDeviceLabel("Monitor".into()));
    assert_eq!(state.device_label, "Monitor");
}

#[test]
fn output_device_blank_label_is_default() {
    assert_eq!(resolve_output_device("  ", &names(&["Speakers"]), &vec![]), None);
}

#[test]
fn output_device_prefers_exact_then_partial_name() {
    let devices = names(&["Speakers (USB)", "speakers"]);
    assert_eq!(resolve_output_device("SPEAKERS", &devices, &vec![]), Some(1));
    assert_eq!(resolve_output_device("USB", &devices, &vec![]), Some(0));
}

#[test]
fn output_device_found_through_endpoint_list() {
    let devices = names(&["Realtek HD Output", "Digital Out"]);
    let listed = vec![
        ("Headphones (Realtek HD Output) (default)".to_string(), true),
        ("Headphones [Realtek HD Output]".to_string(), false),
    ];
    assert_eq!(resolve_output_device("headphones [realtek", &devices, &listed), Some(0));
    assert_eq!(resolve_output_device("Missing Device", &devices, &listed), None);
}

fn endpoint(id: &str, name: Option<&str>) -> RenderEndpoint {
    RenderEndpoint { id: id.to_string(), friendly_name: name.map(str::to_string) }
}

#[test]
fn enumerate_returns_default_plus_hardware() {
    let default = endpoint("{a}", Some("Speakers"));
    let devices = list_output_devices(
        Some(&default),
        &vec![endpoint("{a}", Some("Speakers")), endpoint("{b}", None), endpoint("{c}", Some("Headset"))],
    );
    assert!(devices.first().unwrap().is_default);
    let rows: Vec<(&str, &str, bool)> =
        devices.iter().map(|d| (d.id.as_str(), d.label.as_str(), d.is_default)).collect();
    assert_eq!(
        rows,
        vec![
            ("", "Default", true),
            ("{a}", "Speakers (default)", false),
            ("{b}", "Output 2", false),
            ("{c}", "Headset", false),
        ]
    );
}

#[test]
fn unnamed_default_endpoint_is_labelled() {
    let default = endpoint("{d}", None);
    let devices = list_output_devices(Some(&default), &vec![]);
    assert_eq!(devices.len(), 2);
    assert_eq!(devices[1].label, "Default device (default)");
}

#[test]
fn routing_switch_reads_truthy_values() {
    assert!(per_process_routing_enabled(Some(" ON ")));
    assert!(per_process_routing_enabled(Some("1")));
    assert!(per_process_routing_enabled(Some("True")));
    assert!(!per_process_routing_enabled(Some("0")));
    assert!(!per_process_routing_enabled(None));
}

#[test]
fn skips_unknown_device_when_routing_disabled() {
    let enabled = per_process_routing_enabled(None);
    assert_eq!(plan_output_route("{not-a-real-endpoint}", enabled), OutputRoute::RoutingDisabled);
    assert_eq!(plan_output_route("", true), OutputRoute::SystemDefault);
}

#[test]
fn validate_rejects_unknown_device_id_when_routing_enabled() {
    let enabled = per_process_routing_enabled(Some("1"));
    assert_eq!(plan_output_route("{not-a-real-endpoint}", enabled), OutputRoute::Apply);
    let devices = list_output_devices(None, &vec![endpoint("{a}", Some("Speakers"))]);
    let err = validate_device_id(&devices, "{not-a-real-endpoint}").unwrap_err();
    assert!(matches!(err, AudioError::DeviceNotFound(_)));
    assert!(validate_device_id(&devices, "{a}").is_ok());
    assert!(validate_device_id(&devices, "").is_err());
}
