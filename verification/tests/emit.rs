use voicesub::emit_policy::{dedupe_repeated_transcript, prefer_final_text, PipelineEmit, RealtimeEmitPolicy};
use voicesub::emit_telemetry::{is_revision_without_growth, nonzero_u32, EmitTelemetry};

fn partial(segment: &str, text: &str) -> PipelineEmit {
    PipelineEmit { segment_id: segment.into(), revision: 1, text: text.into(), is_final: false, is_speech: true }
}

fn fin(segment: &str, text: &str) -> PipelineEmit {
    PipelineEmit { segment_id: segment.into(), revision: 1, text: text.into(), is_final: true, is_speech: false }
}

fn words(text: &str) -> Vec<String> {
    text.split_whitespace().map(str::to_string).collect()
}

#[test]
fn dedups_identical_partials() {
    let mut policy = RealtimeEmitPolicy::default();
    let first = policy.apply(vec![partial("s1", "hello")]);
    assert_eq!(first.len(), 1);
    let second = policy.apply(vec![partial("s1", "hello")]);
    assert!(second.is_empty());
}

#[test]
fn final_clears_partial_cache() {
    let mut policy = RealtimeEmitPolicy::default();
    let _ = policy.apply(vec![partial("s1", "hello world")]);
    let _ = policy.apply(vec![fin("s1", "hello world.")]);
    let again = policy.apply(vec![partial("s1", "hello")]);
    assert_eq!(again.len(), 1);
}

#[test]
fn allows_hypothesis_revision_during_growth() {
    let mut policy = RealtimeEmitPolicy::default();
    let _ = policy.apply(vec![partial("s1", "Какие вы?")]);
    let grow = policy.apply(vec![partial("s1", "Какие выводы можно")]);
    assert_eq!(grow.len(), 1);
    assert_eq!(grow[0].text, "Какие выводы можно");
}

#[test]
fn allows_non_prefix_rewrite() {
    let mut policy = RealtimeEmitPolicy::default();
    let _ = policy.apply(vec![partial("s1", "hello world")]);
    let rewrite = policy.apply(vec![partial("s1", "yeah")]);
    assert_eq!(rewrite.len(), 1);
}

#[test]
fn allows_monotonic_growth() {
    let mut policy = RealtimeEmitPolicy::default();
    let _ = policy.apply(vec![partial("s1", "hello")]);
    let grow = policy.apply(vec![partial("s1", "hello world")]);
    assert_eq!(grow.len(), 1);
}

#[test]
fn allows_case_only_prefix_growth() {
    let mut policy = RealtimeEmitPolicy::default();
    let _ = policy.apply(vec![partial("s1", "он все")]);
    let grow = policy.apply(vec![partial("s1", "Он все равно")]);
    assert_eq!(grow.len(), 1);
    assert_eq!(grow[0].text, "Он все равно");
}

#[test]
fn dedupes_repeated_final_halves() {
    let dup = "Он все равно не хочет такой уводить. Он все равно не хочет такой уводить.";
    let once = dedupe_repeated_transcript(dup);
    assert_eq!(once, "Он все равно не хочет такой уводить.");
}

#[test]
fn prefer_final_text_keeps_longer_partial() {
    assert_eq!(prefer_final_text(Some("hello world"), "yeah"), "hello world");
    assert_eq!(prefer_final_text(Some("hello"), "hello world"), "hello world");
}

#[test]
fn prefer_final_keeps_longer_partial() {
    assert_eq!(prefer_final_text(Some("hello world"), "yeah"), "hello world");
    assert_eq!(prefer_final_text(Some("hello"), "hello world"), "hello world");
}

#[test]
fn prefer_final_without_partial_takes_final() {
    assert_eq!(prefer_final_text(None, "yeah"), "yeah");
    assert_eq!(prefer_final_text(Some(""), "yeah"), "yeah");
}

#[test]
fn odd_or_different_halves_are_kept() {
    assert_eq!(dedupe_repeated_transcript("a b a"), "a b a");
    assert_eq!(dedupe_repeated_transcript("a b c d"), "a b c d");
    assert_eq!(dedupe_repeated_transcript("a a"), "a");
}

#[test]
fn partials_of_other_segments_are_independent() {
    let mut policy = RealtimeEmitPolicy::default();
    let out = policy.apply(vec![partial("s1", "x"), partial("s2", "x"), partial("s1", "x")]);
    assert_eq!(out.len(), 2);
    assert_eq!(policy.last_partial("s2"), "x");
    policy.clear_segment("s2");
    assert_eq!(policy.last_partial("s2"), "");
    policy.reset();
    assert_eq!(policy.last_partial("s1"), "");
}

#[test]
fn tracks_first_partial_and_revision_rate() {
    let mut tel = EmitTelemetry::new_shared();
    tel.record_emit(&partial("s1", "hello"), &words(""), &words("hello"), 180);
    tel.record_emit(&partial("s1", "hallo"), &words("hello"), &words("hallo"), 280);
    let snap = tel.snapshot();
    assert_eq!(snap.partial_emits, 2);
    assert_eq!(snap.revision_emits, 1);
    assert_eq!(snap.last_first_partial_ms, Some(180));
    let revision_rate = snap.revision_emits as f64 / snap.partial_emits as f64;
    assert!((revision_rate - 0.5).abs() < f64::EPSILON);
}

#[test]
fn final_records_latency_and_reopens_segment() {
    let mut tel = EmitTelemetry::new_shared();
    tel.record_emit(&partial("s1", "a"), &words(""), &words("a"), 100);
    tel.record_emit(&fin("s1", "a b"), &words("a"), &words("a b"), 900);
    tel.record_emit(&partial("s2", "c"), &words(""), &words("c"), 120);
    let snap = tel.snapshot();
    assert_eq!(snap.final_emits, 1);
    assert_eq!(snap.last_final_ms, Some(900));
    assert_eq!(snap.last_first_partial_ms, Some(120));
    tel.reset();
    assert_eq!(tel.snapshot().last_final_ms, None);
}

#[test]
fn revision_requires_same_word_count() {
    assert!(!is_revision_without_growth(&words("a b"), &words("a b c")));
    assert!(!is_revision_without_growth(&words(""), &words("")));
    assert!(is_revision_without_growth(&words("a b"), &words("a c")));
    assert!(!is_revision_without_growth(&words("a b"), &words("a b")));
}

#[test]
fn nonzero_u32_saturates() {
    assert_eq!(nonzero_u32(0), None);
    assert_eq!(nonzero_u32(7), Some(7));
    assert_eq!(nonzero_u32(u64::MAX), Some(u32::MAX));
}

#[test]
fn last_partial_follows_a_history_of_calls() {
    let mut policy = RealtimeEmitPolicy::default();
    let _ = policy.apply(vec![partial("a", "one"), partial("b", "uno"), partial("a", "one two")]);
    assert_eq!(policy.last_partial("a"), "one two");
    let _ = policy.apply(vec![partial("a", "one two"), fin("b", "uno dos")]);
    assert_eq!(policy.last_partial("a"), "one two");
    assert_eq!(policy.last_partial("b"), "");
    let _ = policy.apply(vec![partial("b", "tres")]);
    policy.clear_segment("a");
    assert_eq!(policy.last_partial("a"), "");
    assert_eq!(policy.last_partial("b"), "tres");
    let _ = policy.apply(vec![partial("a", "again")]);
    policy.reset();
    assert_eq!(policy.last_partial("a"), "");
    assert_eq!(policy.last_partial("b"), "");
}
