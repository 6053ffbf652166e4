//! Latency presets → decode cadence, first-partial window and VAD holds.
use vstd::prelude::*;

use crate::config::{
    LocalAsrConfig, LocalAsrRealtimeConfig, LocalAsrVadConfig, is_default_vad,
};
use crate::text::{end_ws_from, lower, lower_str, skip_ws_from, str_eq, to_owned_string, trim, trim_str};

verus! {

#[derive(Debug, Clone, Copy, PartialEq, Eq, Structural)]
pub struct PresetDefaults {
    pub decode_interval_ms: u32,
    pub first_partial_min_speech_ms: u32,
    pub silence_hold_ms: u32,
    pub finalization_hold_ms: u32,
    pub min_speech_ms: u32,
    pub partial_min_delta_chars: u32,
    pub partial_coalescing_ms: u32,
}

pub open spec fn preset_table(preset: Seq<char>) -> PresetDefaults {
    if preset == "quality"@ {
        PresetDefaults {
            decode_interval_ms: 650,
            first_partial_min_speech_ms: 260,
            silence_hold_ms: 260,
            finalization_hold_ms: 520,
            min_speech_ms: 260,
            partial_min_delta_chars: 1,
            partial_coalescing_ms: 80,
        }
    } else if preset == "balanced"@ {
        PresetDefaults {
            decode_interval_ms: 280,
            first_partial_min_speech_ms: 180,
            silence_hold_ms: 180,
            finalization_hold_ms: 400,
            min_speech_ms: 180,
            partial_min_delta_chars: 0,
            partial_coalescing_ms: 0,
        }
    } else {
        PresetDefaults {
            decode_interval_ms: 200,
            first_partial_min_speech_ms: 140,
            silence_hold_ms: 120,
            finalization_hold_ms: 220,
            min_speech_ms: 180,
            partial_min_delta_chars: 0,
            partial_coalescing_ms: 0,
        }
    }
}

/// Timings of a (normalized) latency preset; anything but `quality` and `balanced` is `low`.
pub fn preset_defaults(preset: &str) -> (r: PresetDefaults)
    ensures
        r == preset_table(preset@),
{
    if str_eq(preset, "quality") {
        PresetDefaults {
            decode_interval_ms: 650,
            first_partial_min_speech_ms: 260,
            silence_hold_ms: 260,
            finalization_hold_ms: 520,
            min_speech_ms: 260,
            partial_min_delta_chars: 1,
            partial_coalescing_ms: 80,
        }
    } else if str_eq(preset, "balanced") {
        PresetDefaults {
            decode_interval_ms: 280,
            first_partial_min_speech_ms: 180,
            silence_hold_ms: 180,
            finalization_hold_ms: 400,
            min_speech_ms: 180,
            partial_min_delta_chars: 0,
            partial_coalescing_ms: 0,
        }
    } else {
        PresetDefaults {
            decode_interval_ms: 200,
            first_partial_min_speech_ms: 140,
            silence_hold_ms: 120,
            finalization_hold_ms: 220,
            min_speech_ms: 180,
            partial_min_delta_chars: 0,
            partial_coalescing_ms: 0,
        }
    }
}

pub open spec fn preset_name(value: Seq<char>) -> Seq<char> {
    let v = lower(trim(value));
    if v == "quality"@ || v == "high"@ {
        "quality"@
    } else if v == "low"@ || v == "low_latency"@ || v == "fast"@ || v == "ultra_low_latency"@ || v
        == "ultra_low"@ {
        "low"@
    } else {
        "balanced"@
    }
}

pub fn normalize_latency_preset(value: &str) -> (r: String)
    ensures
        r@ == preset_name(value@),
{
    let t = trim_str(value);
    let l = lower_str(t.as_str());
    let v = l.as_str();
    if str_eq(v, "quality") || str_eq(v, "high") {
        to_owned_string("quality")
    } else if str_eq(v, "low") || str_eq(v, "low_latency") || str_eq(v, "fast") || str_eq(
        v,
        "ultra_low_latency",
    ) || str_eq(v, "ultra_low") {
        to_owned_string("low")
    } else {
        to_owned_string("balanced")
    }
}

/// `round(1.6 * decode_interval)` clamped to `[640, 1200]`.
pub open spec fn chunk_window(decode_interval_ms: u32) -> int {
    let scaled = (16 * decode_interval_ms as int + 5) / 10;
    if scaled < 640 {
        640
    } else if scaled > 1200 {
        1200
    } else {
        scaled
    }
}

/// Streaming chunk window when none is configured.
pub fn resolved_chunk_window_ms(decode_interval_ms: u32) -> (r: u32)
    ensures
        r == chunk_window(decode_interval_ms),
{
    let scaled: u64 = (16 * (decode_interval_ms as u64) + 5) / 10;
    if scaled < 640 {
        640
    } else if scaled > 1200 {
        1200
    } else {
        scaled as u32
    }
}

/// Partial emit overrides: a configured positive value wins over the preset.
pub fn resolve_partial_emit_overrides(realtime: &LocalAsrRealtimeConfig, base: &PresetDefaults) -> (r: (
    u32,
    u32,
))
    ensures
        r.0 == if realtime.partial_min_delta_chars > 0 {
            realtime.partial_min_delta_chars
        } else {
            base.partial_min_delta_chars
        },
        r.1 == if realtime.partial_coalescing_ms > 0 {
            realtime.partial_coalescing_ms
        } else {
            base.partial_coalescing_ms
        },
{
    let delta_chars = if realtime.partial_min_delta_chars > 0 {
        realtime.partial_min_delta_chars
    } else {
        base.partial_min_delta_chars
    };
    let coalescing = if realtime.partial_coalescing_ms > 0 {
        realtime.partial_coalescing_ms
    } else {
        base.partial_coalescing_ms
    };
    (delta_chars, coalescing)
}

/// Realtime section a preset selects (advanced overrides cleared).
pub fn realtime_overrides_for_preset(preset: &str) -> (r: LocalAsrRealtimeConfig)
    ensures
        r.latency_preset@ == preset@,
        r.streaming_decode,
        r.partial_emit_mode@ == "word_growth"@,
        r.partial_min_new_words == 1,
        r.partial_min_delta_chars == preset_table(preset@).partial_min_delta_chars,
        r.partial_coalescing_ms == preset_table(preset@).partial_coalescing_ms,
        r.decode_interval_ms is None,
        r.window_ms is None,
        r.segment_enqueue_delta_ms is None,
        r.first_partial_min_speech_ms == Some(preset_table(preset@).first_partial_min_speech_ms),
{
    let base = preset_defaults(preset);
    LocalAsrRealtimeConfig {
        latency_preset: to_owned_string(preset),
        streaming_decode: true,
        partial_emit_mode: to_owned_string("word_growth"),
        partial_min_new_words: 1,
        partial_min_delta_chars: base.partial_min_delta_chars,
        partial_coalescing_ms: base.partial_coalescing_ms,
        decode_interval_ms: None,
        window_ms: None,
        segment_enqueue_delta_ms: None,
        first_partial_min_speech_ms: Some(base.first_partial_min_speech_ms),
    }
}

/// VAD section for a preset (UI apply-on-select): the preset's holds; other fields,
/// the segment ceiling included, at their defaults.
pub fn vad_config_for_preset(preset: &str) -> (r: LocalAsrVadConfig)
    ensures
        r.min_speech_ms == preset_table(preset@).min_speech_ms,
        r.silence_hold_ms == preset_table(preset@).silence_hold_ms,
        r.min_silence_ms == preset_table(preset@).finalization_hold_ms,
        r.max_segment_ms == 120_000,
        is_default_vad(LocalAsrVadConfig {
            min_speech_ms: 180,
            silence_hold_ms: 180,
            min_silence_ms: 400,
            max_segment_ms: 120_000,
            ..r
        }),
{
    let base = preset_defaults(preset);
    LocalAsrVadConfig {
        min_speech_ms: base.min_speech_ms,
        silence_hold_ms: base.silence_hold_ms,
        min_silence_ms: base.finalization_hold_ms,
        ..LocalAsrVadConfig::default()
    }
}

/// Applies the configured latency preset: realtime partial defaults and VAD holds.
pub fn apply_latency_preset_to_config(config: &mut LocalAsrConfig)
    ensures
        final(config).realtime.latency_preset@ == preset_name(old(config).realtime.latency_preset@),
        final(config).realtime.streaming_decode,
        final(config).realtime.partial_emit_mode@ == "word_growth"@,
        final(config).realtime.partial_min_new_words == 1,
        final(config).realtime.partial_min_delta_chars == preset_table(
            preset_name(old(config).realtime.latency_preset@),
        ).partial_min_delta_chars,
        final(config).realtime.partial_coalescing_ms == preset_table(
            preset_name(old(config).realtime.latency_preset@),
        ).partial_coalescing_ms,
        final(config).realtime.decode_interval_ms is None,
        final(config).realtime.window_ms is None,
        final(config).realtime.segment_enqueue_delta_ms is None,
        final(config).realtime.first_partial_min_speech_ms is None,
        final(config).vad.min_speech_ms == preset_table(
            preset_name(old(config).realtime.latency_preset@),
        ).min_speech_ms,
        final(config).vad.silence_hold_ms == preset_table(
            preset_name(old(config).realtime.latency_preset@),
        ).silence_hold_ms,
        final(config).vad.min_silence_ms == preset_table(
            preset_name(old(config).realtime.latency_preset@),
        ).finalization_hold_ms,
        final(config).vad.max_segment_ms == 120_000,
        final(config).model == old(config).model,
        final(config).inference == old(config).inference,
        final(config).recognition == old(config).recognition,
        final(config).microphone == old(config).microphone,
        final(config).deps == old(config).deps,
        final(config).setup == old(config).setup,
{
    let preset = normalize_latency_preset(config.realtime.latency_preset.as_str());
    let overrides = realtime_overrides_for_preset(preset.as_str());
    let vad = vad_config_for_preset(preset.as_str());
    config.realtime = LocalAsrRealtimeConfig { first_partial_min_speech_ms: None, ..overrides };
    config.vad.min_speech_ms = vad.min_speech_ms;
    config.vad.silence_hold_ms = vad.silence_hold_ms;
    config.vad.min_silence_ms = vad.min_silence_ms;
    config.vad.max_segment_ms = vad.max_segment_ms;
}

/// Effective realtime settings of a configuration; `partial_emit_*` feed the partial-emit
/// coordinator.
pub struct ResolvedRealtimeSettings {
    pub latency_preset: String,
    pub streaming_decode: bool,
    pub decode_interval_ms: u32,
    /// Minimum buffered speech (ms) before the first partial decode attempt.
    pub window_ms: u32,
    pub segment_enqueue_delta_ms: u32,
    pub first_partial_min_speech_ms: u32,
    pub partial_emit_interval_ms: u32,
    /// VAD silence hold (ms) from the configuration.
    pub silence_hold_ms: u32,
    /// VAD finalization hold / minimum silence (ms).
    pub finalization_hold_ms: u32,
    pub min_speech_ms: u32,
    pub partial_emit_mode: String,
    pub partial_min_new_words: u32,
    pub partial_min_delta_chars: u32,
    pub partial_coalescing_ms: u32,
}

pub open spec fn unwrap_or_u32(o: Option<u32>, d: u32) -> u32 {
    match o {
        Some(v) => v,
        None => d,
    }
}

/// The settings `from_config` resolves for `config`.
pub open spec fn resolves(config: LocalAsrConfig, r: ResolvedRealtimeSettings) -> bool {
    &&& r.latency_preset@ == preset_name(config.realtime.latency_preset@)
    &&& r.streaming_decode == config.realtime.streaming_decode
    &&& r.decode_interval_ms == unwrap_or_u32(
        config.realtime.decode_interval_ms,
        preset_table(preset_name(config.realtime.latency_preset@)).decode_interval_ms,
    )
    &&& r.window_ms == match config.realtime.window_ms {
        Some(w) => w as int,
        None => chunk_window(r.decode_interval_ms),
    }
    &&& r.segment_enqueue_delta_ms == unwrap_or_u32(
        config.realtime.segment_enqueue_delta_ms,
        r.decode_interval_ms,
    )
    &&& r.first_partial_min_speech_ms == unwrap_or_u32(
        config.realtime.first_partial_min_speech_ms,
        preset_table(preset_name(config.realtime.latency_preset@)).first_partial_min_speech_ms,
    )
    &&& r.partial_emit_interval_ms == unwrap_or_u32(
        config.vad.partial_emit_interval_ms,
        r.decode_interval_ms,
    )
    &&& r.silence_hold_ms == config.vad.silence_hold_ms
    &&& r.finalization_hold_ms == config.vad.min_silence_ms
    &&& r.min_speech_ms == config.vad.min_speech_ms
    &&& r.partial_emit_mode@ == config.realtime.partial_emit_mode@
    &&& r.partial_min_new_words == config.realtime.partial_min_new_words
    &&& r.partial_min_delta_chars == if config.realtime.partial_min_delta_chars > 0 {
        config.realtime.partial_min_delta_chars
    } else {
        preset_table(preset_name(config.realtime.latency_preset@)).partial_min_delta_chars
    }
    &&& r.partial_coalescing_ms == if config.realtime.partial_coalescing_ms > 0 {
        config.realtime.partial_coalescing_ms
    } else {
        preset_table(preset_name(config.realtime.latency_preset@)).partial_coalescing_ms
    }
}

impl ResolvedRealtimeSettings {
    /// Configured advanced overrides win; otherwise the (normalized) preset decides, the
    /// window follows the decode interval and the enqueue delta equals it.
    pub fn from_config(config: &LocalAsrConfig) -> (r: Self)
        ensures
            resolves(*config, r),
    {
        let preset = normalize_latency_preset(config.realtime.latency_preset.as_str());
        let base = preset_defaults(preset.as_str());
        let decode_interval_ms = match config.realtime.decode_interval_ms {
            Some(v) => v,
            None => base.decode_interval_ms,
        };
        let window_ms = match config.realtime.window_ms {
            Some(v) => v,
            None => resolved_chunk_window_ms(decode_interval_ms),
        };
        let segment_enqueue_delta_ms = match config.realtime.segment_enqueue_delta_ms {
            Some(v) => v,
            None => decode_interval_ms,
        };
        let first_partial_min_speech_ms = match config.realtime.first_partial_min_speech_ms {
            Some(v) => v,
            None => base.first_partial_min_speech_ms,
        };
        let (partial_min_delta_chars, partial_coalescing_ms) = resolve_partial_emit_overrides(
            &config.realtime,
            &base,
        );
        let partial_emit_interval_ms = match config.vad.partial_emit_interval_ms {
            Some(v) => v,
            None => decode_interval_ms,
        };
        ResolvedRealtimeSettings {
            latency_preset: preset,
            streaming_decode: config.realtime.streaming_decode,
            decode_interval_ms,
            window_ms,
            segment_enqueue_delta_ms,
            first_partial_min_speech_ms,
            partial_emit_interval_ms,
            silence_hold_ms: config.vad.silence_hold_ms,
            finalization_hold_ms: config.vad.min_silence_ms,
            min_speech_ms: config.vad.min_speech_ms,
            partial_emit_mode: config.realtime.partial_emit_mode.clone(),
            partial_min_new_words: config.realtime.partial_min_new_words,
            partial_min_delta_chars,
            partial_coalescing_ms,
        }
    }
}

/// Law: the default chunk window always lies in `[640, 1200]` ms and never shrinks when the
/// decode interval grows.
pub proof fn law_chunk_window_bounded_monotone(a: u32, b: u32)
    requires
        a <= b,
    ensures
        640 <= chunk_window(a) <= 1200,
        chunk_window(a) <= chunk_window(b),
{
}

/// Law: normalizing a latency preset twice gives the same preset, so a preset written by
/// `apply_latency_preset_to_config` resolves to the same timings in `from_config`.
pub proof fn law_preset_name_idempotent(value: Seq<char>)
    ensures
        preset_name(preset_name(value)) == preset_name(value),
        preset_table(preset_name(preset_name(value))) == preset_table(preset_name(value)),
{
    reveal_strlit("quality");
    reveal_strlit("balanced");
    reveal_strlit("low");
    reveal_strlit("high");
    reveal_strlit("low_latency");
    reveal_strlit("fast");
    reveal_strlit("ultra_low_latency");
    reveal_strlit("ultra_low");
    let n = preset_name(value);
    assert(skip_ws_from(n, 0) == 0);
    assert(end_ws_from(n, 0, n.len() as int) == n.len());
    assert(trim(n) =~= n);
    assert(lower(n) =~= n);
}

} // verus!
