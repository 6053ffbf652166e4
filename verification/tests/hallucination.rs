use voicesub::hallucination_filter::{
    canonicalize_hallucination_token, count_words, short_hallucination_tokens,
    should_drop_short_hallucination, HallucinationFilter, HallucinationFilterConfig,
};

#[test]
fn rejects_short_text_in_silence() {
    let mut filter = HallucinationFilter::new(HallucinationFilterConfig {
        min_chars_when_silent: 5,
        ..HallucinationFilterConfig::default()
    });
    assert!(!filter.accept("hi", false));
    assert!(filter.accept("hello world", false));
}

#[test]
fn allows_short_text_during_speech() {
    let mut filter = HallucinationFilter::new(HallucinationFilterConfig::default());
    assert!(filter.accept("ok", true));
}

#[test]
fn drops_empty_short_hallucination() {
    assert!(should_drop_short_hallucination("", 100, false));
}

#[test]
fn drops_short_yeah_within_limit() {
    assert!(should_drop_short_hallucination("yeah", 500, false));
    assert!(should_drop_short_hallucination("Yeah.", 500, false));
}

#[test]
fn keeps_yeah_when_duration_too_long() {
    assert!(!should_drop_short_hallucination("yeah", 2000, false));
}

#[test]
fn keeps_non_token_text() {
    assert!(!should_drop_short_hallucination("hello world", 200, true));
}

#[test]
fn accept_transcript_drops_yeah_in_silence() {
    let mut filter = HallucinationFilter::default();
    assert!(!filter.accept_transcript("yeah", 500, false, false));
    assert!(filter.accept_transcript("hello world", 500, false, false));
}

#[test]
fn every_hallucination_token_drops_within_partial_limit() {
    for token in short_hallucination_tokens() {
        assert!(should_drop_short_hallucination(token, 500, false), "expected drop for token {token:?}");
    }
}

#[test]
fn every_hallucination_token_keeps_beyond_partial_limit() {
    for token in short_hallucination_tokens() {
        assert!(!should_drop_short_hallucination(token, 2000, false), "expected keep for token {token:?}");
    }
}

#[test]
fn every_hallucination_token_drops_within_final_limit() {
    for token in short_hallucination_tokens() {
        assert!(should_drop_short_hallucination(token, 800, true), "expected final drop for token {token:?}");
    }
}

#[test]
fn token_match_is_case_insensitive() {
    assert!(should_drop_short_hallucination("OK", 400, false));
    assert!(should_drop_short_hallucination("  Yeah.  ", 400, false));
}

#[test]
fn token_match_strips_exclamation() {
    assert!(should_drop_short_hallucination("yeah!", 400, false));
    assert!(should_drop_short_hallucination("Okay…", 400, true));
}

#[test]
fn token_count_matches_legacy_list() {
    assert_eq!(short_hallucination_tokens().len(), 22);
}

#[test]
fn final_window_is_stricter_than_partial_window() {
    assert!(should_drop_short_hallucination("mm-hmm", 1_000, false));
    assert!(!should_drop_short_hallucination("mm-hmm", 1_000, true));
    assert!(should_drop_short_hallucination("uh-huh", 900, true));
}

#[test]
fn canonical_key_keeps_letters_digits_hyphen_apostrophe() {
    assert_eq!(canonicalize_hallucination_token("Mm-Hmm!"), "mm-hmm");
    assert_eq!(canonicalize_hallucination_token("don't."), "don't");
    assert_eq!(count_words("  a  b c "), 3);
}

#[test]
fn disabled_filter_accepts_everything() {
    let mut filter = HallucinationFilter::new(HallucinationFilterConfig {
        enabled: false,
        ..HallucinationFilterConfig::default()
    });
    assert!(filter.accept("", false));
}

#[test]
fn silence_rejection_starts_cooldown_and_reset_clears_it() {
    let mut filter = HallucinationFilter::new(HallucinationFilterConfig {
        min_chars_when_silent: 10,
        cooldown_ms: 60_000,
        ..HallucinationFilterConfig::default()
    });
    assert!(!filter.accept("short", false));
    assert!(!filter.accept("short", false));
    filter.reset();
    assert!(filter.accept("long enough text", false));
}

#[test]
fn whitespace_only_text_is_rejected_and_trimmed_length_counts() {
    let mut filter = HallucinationFilter::new(HallucinationFilterConfig {
        min_chars_when_silent: 5,
        ..HallucinationFilterConfig::default()
    });
    assert!(!filter.accept("   ", true));
    assert!(!filter.accept("  hi   ", false));
    assert!(should_drop_short_hallucination(" \t\n", 5_000, true));
}
