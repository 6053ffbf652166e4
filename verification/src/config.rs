//! Local ASR module configuration: sections, defaults, normalization and merging of
//! partial payloads.  Float tunables are held as their IEEE-754 bit patterns.
use vstd::prelude::*;

use crate::text::{lower, lower_str, str_eq, to_owned_string, trim, trim_str};

verus! {

pub open spec fn cpu_ep() -> Seq<char> {
    "cpu"@
}

pub open spec fn cuda_ep() -> Seq<char> {
    "cuda"@
}

pub struct LocalAsrModelConfig {
    pub variant: String,
    pub family: String,
    /// Legacy field (ignored), kept for config compatibility.
    pub target_lang: String,
    pub path: String,
    pub manifest_sha256: String,
}

pub struct LocalAsrInferenceConfig {
    pub execution_provider: String,
    pub graph_optimization_level: u8,
    /// ORT intra-op thread pool size.
    pub intra_op_threads: u32,
    /// ORT inter-op thread pool size.
    pub inter_op_threads: u32,
    pub parallel_execution: bool,
    pub enable_memory_pattern: bool,
    pub ort_profiling: bool,
    /// Auto-unload after this many decodes while profiling.
    pub ort_profiling_max_decodes: u32,
    pub keep_model_loaded: bool,
    pub cuda_fallback_to_cpu: bool,
}

pub struct LocalAsrRealtimeConfig {
    pub latency_preset: String,
    pub streaming_decode: bool,
    pub partial_emit_mode: String,
    pub partial_min_new_words: u32,
    pub partial_min_delta_chars: u32,
    pub partial_coalescing_ms: u32,
    /// Advanced override; `None` means the latency preset default.
    pub decode_interval_ms: Option<u32>,
    pub window_ms: Option<u32>,
    pub segment_enqueue_delta_ms: Option<u32>,
    pub first_partial_min_speech_ms: Option<u32>,
}

/// VAD section; `*_bits` fields hold `f32::to_bits` of the configured value.
pub struct LocalAsrVadConfig {
    pub enabled: bool,
    pub vad_mode: u8,
    pub energy_gate_enabled: bool,
    pub min_rms_for_recognition_bits: u32,
    pub min_voiced_ratio_bits: u32,
    pub speech_attack_frames: u32,
    pub speech_preroll_frames: u32,
    pub partial_emit_interval_ms: Option<u32>,
    pub speech_threshold_bits: u32,
    pub min_speech_ms: u32,
    pub min_silence_ms: u32,
    pub silence_hold_ms: u32,
    pub speech_pad_ms: u32,
    pub max_segment_ms: u32,
}

/// Recognition section; `*_bits` fields hold `f32::to_bits` of the configured value.
pub struct LocalAsrRecognitionConfig {
    pub input_gain_bits: u32,
    pub preemphasis_enabled: bool,
    pub preemphasis_coeff_bits: u32,
    pub noise_gate_enabled: bool,
    pub noise_gate_threshold_bits: u32,
    pub hallucination_filter_enabled: bool,
    pub hallucination_min_chars: u32,
    pub hallucination_cooldown_ms: u32,
}

pub struct LocalAsrMicrophoneConfig {
    pub device_id: String,
    pub sample_rate: u32,
}

pub struct LocalAsrDepsConfig {
    pub onnxruntime_version: String,
    pub ort_cpu_installed: bool,
    pub ort_gpu_installed: bool,
    pub cuda_redist_installed: bool,
    pub last_env_check_at: String,
}

pub struct LocalAsrSetupConfig {
    pub setup_complete: bool,
    pub mic_test_passed: bool,
    pub parakeet_final_received: bool,
    pub validated_execution_provider: String,
    pub completed_at: String,
}

pub struct LocalAsrConfig {
    pub model: LocalAsrModelConfig,
    pub inference: LocalAsrInferenceConfig,
    pub realtime: LocalAsrRealtimeConfig,
    pub vad: LocalAsrVadConfig,
    pub recognition: LocalAsrRecognitionConfig,
    pub microphone: LocalAsrMicrophoneConfig,
    pub deps: LocalAsrDepsConfig,
    pub setup: LocalAsrSetupConfig,
}

pub fn default_model_variant() -> (r: String)
    ensures
        r@ == "int8"@,
{
    to_owned_string("int8")
}

pub fn default_model_family() -> (r: String)
    ensures
        r@ == "parakeet_tdt"@,
{
    to_owned_string("parakeet_tdt")
}

pub fn default_target_lang() -> (r: String)
    ensures
        r@ == "auto"@,
{
    to_owned_string("auto")
}

pub fn default_execution_provider() -> (r: String)
    ensures
        r@ == cpu_ep(),
{
    to_owned_string("cpu")
}

pub fn default_graph_opt_level() -> (r: u8)
    ensures
        r == 1,
{
    1
}

pub fn default_intra_op_threads() -> (r: u32)
    ensures
        r == 4,
{
    4
}

pub fn default_inter_op_threads() -> (r: u32)
    ensures
        r == 1,
{
    1
}

/// A few decodes already produce multi-MB profiles.
pub fn default_ort_profiling_max_decodes() -> (r: u32)
    ensures
        r == 3,
{
    3
}

pub fn default_false() -> (r: bool)
    ensures
        !r,
{
    false
}

pub fn default_true() -> (r: bool)
    ensures
        r,
{
    true
}

pub fn default_vad_mode() -> (r: u8)
    ensures
        r == 2,
{
    2
}

pub fn default_true_optional() -> (r: bool)
    ensures
        !r,
{
    false
}

pub fn default_speech_attack_frames() -> (r: u32)
    ensures
        r == 2,
{
    2
}

pub fn default_speech_preroll_frames() -> (r: u32)
    ensures
        r == 5,
{
    5
}

pub fn default_min_speech_ms() -> (r: u32)
    ensures
        r == 180,
{
    180
}

pub fn default_min_silence_ms() -> (r: u32)
    ensures
        r == 400,
{
    400
}

pub fn default_silence_hold_ms() -> (r: u32)
    ensures
        r == 180,
{
    180
}

pub fn default_speech_pad_ms() -> (r: u32)
    ensures
        r == 0,
{
    0
}

/// Long monologues finalize on silence (or the 2 min safety), not every few seconds.
pub fn default_max_segment_ms() -> (r: u32)
    ensures
        r == 120_000,
{
    120_000
}

pub fn default_hallucination_min_chars() -> (r: u32)
    ensures
        r == 0,
{
    0
}

pub fn default_hallucination_cooldown_ms() -> (r: u32)
    ensures
        r == 500,
{
    500
}

pub fn default_latency_preset() -> (r: String)
    ensures
        r@ == "balanced"@,
{
    to_owned_string("balanced")
}

pub fn default_partial_emit_mode() -> (r: String)
    ensures
        r@ == "word_growth"@,
{
    to_owned_string("word_growth")
}

pub fn default_one_u32() -> (r: u32)
    ensures
        r == 1,
{
    1
}

pub fn default_sample_rate() -> (r: u32)
    ensures
        r == 16_000,
{
    16_000
}

pub fn default_ort_version() -> (r: String)
    ensures
        r@ == "1.24.2"@,
{
    to_owned_string("1.24.2")
}

/// `f32` bit patterns of the float defaults.
pub const MIN_RMS_FOR_RECOGNITION_BITS: u32 = 988540410;
pub const SPEECH_THRESHOLD_BITS: u32 = 1014350479;
pub const INPUT_GAIN_BITS: u32 = 1065353216;
pub const PREEMPHASIS_COEFF_BITS: u32 = 1064849900;
pub const NOISE_GATE_THRESHOLD_BITS: u32 = 1006834287;

pub open spec fn is_default_model(m: LocalAsrModelConfig) -> bool {
    &&& m.variant@ == "int8"@
    &&& m.family@ == "parakeet_tdt"@
    &&& m.target_lang@ == "auto"@
    &&& m.path@.len() == 0
    &&& m.manifest_sha256@.len() == 0
}

pub open spec fn is_default_inference(a: LocalAsrInferenceConfig) -> bool {
    &&& a.execution_provider@ == cpu_ep()
    &&& a.graph_optimization_level == 1
    &&& a.intra_op_threads == 4
    &&& a.inter_op_threads == 1
    &&& !a.parallel_execution
    &&& a.enable_memory_pattern
    &&& !a.ort_profiling
    &&& a.ort_profiling_max_decodes == 3
    &&& !a.keep_model_loaded
    &&& a.cuda_fallback_to_cpu
}

pub open spec fn is_default_realtime(a: LocalAsrRealtimeConfig) -> bool {
    &&& a.latency_preset@ == "balanced"@
    &&& a.streaming_decode
    &&& a.partial_emit_mode@ == "word_growth"@
    &&& a.partial_min_new_words == 1
    &&& a.partial_min_delta_chars == 0
    &&& a.partial_coalescing_ms == 0
    &&& a.decode_interval_ms is None
    &&& a.window_ms is None
    &&& a.segment_enqueue_delta_ms is None
    &&& a.first_partial_min_speech_ms is None
}

pub open spec fn is_default_vad(a: LocalAsrVadConfig) -> bool {
    &&& a.enabled
    &&& a.vad_mode == 2
    &&& !a.energy_gate_enabled
    &&& a.min_rms_for_recognition_bits == MIN_RMS_FOR_RECOGNITION_BITS
    &&& a.min_voiced_ratio_bits == 0
    &&& a.speech_attack_frames == 2
    &&& a.speech_preroll_frames == 5
    &&& a.partial_emit_interval_ms is None
    &&& a.speech_threshold_bits == SPEECH_THRESHOLD_BITS
    &&& a.min_speech_ms == 180
    &&& a.min_silence_ms == 400
    &&& a.silence_hold_ms == 180
    &&& a.speech_pad_ms == 0
    &&& a.max_segment_ms == 120_000
}

pub open spec fn is_default_recognition(a: LocalAsrRecognitionConfig) -> bool {
    &&& a.input_gain_bits == INPUT_GAIN_BITS
    &&& !a.preemphasis_enabled
    &&& a.preemphasis_coeff_bits == PREEMPHASIS_COEFF_BITS
    &&& !a.noise_gate_enabled
    &&& a.noise_gate_threshold_bits == NOISE_GATE_THRESHOLD_BITS
    &&& a.hallucination_filter_enabled
    &&& a.hallucination_min_chars == 0
    &&& a.hallucination_cooldown_ms == 500
}

pub open spec fn is_default_microphone(a: LocalAsrMicrophoneConfig) -> bool {
    a.device_id@.len() == 0 && a.sample_rate == 16_000
}

impl LocalAsrModelConfig {
    pub fn default() -> (r: Self)
        ensures
            is_default_model(r),
    {
        LocalAsrModelConfig {
            variant: default_model_variant(),
            family: default_model_family(),
            target_lang: default_target_lang(),
            path: String::new(),
            manifest_sha256: String::new(),
        }
    }

    pub fn clone(&self) -> (r: Self)
        ensures
            r == *self,
    {
        LocalAsrModelConfig {
            variant: self.variant.clone(),
            family: self.family.clone(),
            target_lang: self.target_lang.clone(),
            path: self.path.clone(),
            manifest_sha256: self.manifest_sha256.clone(),
        }
    }
}

impl LocalAsrInferenceConfig {
    pub fn default() -> (r: Self)
        ensures
            is_default_inference(r),
    {
        LocalAsrInferenceConfig {
            execution_provider: default_execution_provider(),
            graph_optimization_level: default_graph_opt_level(),
            intra_op_threads: default_intra_op_threads(),
            inter_op_threads: default_inter_op_threads(),
            parallel_execution: false,
            enable_memory_pattern: true,
            ort_profiling: false,
            ort_profiling_max_decodes: default_ort_profiling_max_decodes(),
            keep_model_loaded: false,
            cuda_fallback_to_cpu: true,
        }
    }

    pub fn clone(&self) -> (r: Self)
        ensures
            r == *self,
    {
        LocalAsrInferenceConfig { execution_provider: self.execution_provider.clone(), ..*self }
    }

    pub fn is_default(&self) -> (r: bool)
        ensures
            r == is_default_inference(*self),
    {
        str_eq(self.execution_provider.as_str(), "cpu") && self.graph_optimization_level == 1
            && self.intra_op_threads == 4 && self.inter_op_threads == 1 && !self.parallel_execution
            && self.enable_memory_pattern && !self.ort_profiling && self.ort_profiling_max_decodes
            == 3 && !self.keep_model_loaded && self.cuda_fallback_to_cpu
    }
}

impl LocalAsrRealtimeConfig {
    pub fn default() -> (r: Self)
        ensures
            is_default_realtime(r),
    {
        LocalAsrRealtimeConfig {
            latency_preset: default_latency_preset(),
            streaming_decode: true,
            partial_emit_mode: default_partial_emit_mode(),
            partial_min_new_words: default_one_u32(),
            partial_min_delta_chars: 0,
            partial_coalescing_ms: 0,
            decode_interval_ms: None,
            window_ms: None,
            segment_enqueue_delta_ms: None,
            first_partial_min_speech_ms: None,
        }
    }

    pub fn clone(&self) -> (r: Self)
        ensures
            r == *self,
    {
        LocalAsrRealtimeConfig {
            latency_preset: self.latency_preset.clone(),
            partial_emit_mode: self.partial_emit_mode.clone(),
            ..*self
        }
    }

    pub fn is_default(&self) -> (r: bool)
        ensures
            r == is_default_realtime(*self),
    {
        str_eq(self.latency_preset.as_str(), "balanced") && self.streaming_decode && str_eq(
            self.partial_emit_mode.as_str(),
            "word_growth",
        ) && self.partial_min_new_words == 1 && self.partial_min_delta_chars == 0
            && self.partial_coalescing_ms == 0 && self.decode_interval_ms.is_none()
            && self.window_ms.is_none() && self.segment_enqueue_delta_ms.is_none()
            && self.first_partial_min_speech_ms.is_none()
    }
}

impl LocalAsrVadConfig {
    pub fn default() -> (r: Self)
        ensures
            is_default_vad(r),
    {
        LocalAsrVadConfig {
            enabled: true,
            vad_mode: default_vad_mode(),
            energy_gate_enabled: false,
            min_rms_for_recognition_bits: MIN_RMS_FOR_RECOGNITION_BITS,
            min_voiced_ratio_bits: 0,
            speech_attack_frames: default_speech_attack_frames(),
            speech_preroll_frames: default_speech_preroll_frames(),
            partial_emit_interval_ms: None,
            speech_threshold_bits: SPEECH_THRESHOLD_BITS,
            min_speech_ms: default_min_speech_ms(),
            min_silence_ms: default_min_silence_ms(),
            silence_hold_ms: default_silence_hold_ms(),
            speech_pad_ms: default_speech_pad_ms(),
            max_segment_ms: default_max_segment_ms(),
        }
    }

    pub fn clone(&self) -> (r: Self)
        ensures
            r == *self,
    {
        LocalAsrVadConfig { ..*self }
    }

    pub fn is_default(&self) -> (r: bool)
        ensures
            r == is_default_vad(*self),
    {
        self.enabled && self.vad_mode == 2 && !self.energy_gate_enabled
            && self.min_rms_for_recognition_bits == MIN_RMS_FOR_RECOGNITION_BITS
            && self.min_voiced_ratio_bits == 0 && self.speech_attack_frames == 2
            && self.speech_preroll_frames == 5 && self.partial_emit_interval_ms.is_none()
            && self.speech_threshold_bits == SPEECH_THRESHOLD_BITS && self.min_speech_ms == 180
            && self.min_silence_ms == 400 && self.silence_hold_ms == 180 && self.speech_pad_ms == 0
            && self.max_segment_ms == 120_000
    }
}

impl LocalAsrRecognitionConfig {
    pub fn default() -> (r: Self)
        ensures
            is_default_recognition(r),
    {
        LocalAsrRecognitionConfig {
            input_gain_bits: INPUT_GAIN_BITS,
            preemphasis_enabled: false,
            preemphasis_coeff_bits: PREEMPHASIS_COEFF_BITS,
            noise_gate_enabled: false,
            noise_gate_threshold_bits: NOISE_GATE_THRESHOLD_BITS,
            hallucination_filter_enabled: true,
            hallucination_min_chars: default_hallucination_min_chars(),
            hallucination_cooldown_ms: default_hallucination_cooldown_ms(),
        }
    }

    pub fn clone(&self) -> (r: Self)
        ensures
            r == *self,
    {
        LocalAsrRecognitionConfig { ..*self }
    }

    pub fn is_default(&self) -> (r: bool)
        ensures
            r == is_default_recognition(*self),
    {
        self.input_gain_bits == INPUT_GAIN_BITS && !self.preemphasis_enabled
            && self.preemphasis_coeff_bits == PREEMPHASIS_COEFF_BITS && !self.noise_gate_enabled
            && self.noise_gate_threshold_bits == NOISE_GATE_THRESHOLD_BITS
            && self.hallucination_filter_enabled && self.hallucination_min_chars == 0
            && self.hallucination_cooldown_ms == 500
    }
}

impl LocalAsrMicrophoneConfig {
    pub fn default() -> (r: Self)
        ensures
            is_default_microphone(r),
    {
        LocalAsrMicrophoneConfig { device_id: String::new(), sample_rate: default_sample_rate() }
    }

    pub fn clone(&self) -> (r: Self)
        ensures
            r == *self,
    {
        LocalAsrMicrophoneConfig { device_id: self.device_id.clone(), sample_rate: self.sample_rate }
    }

    pub fn is_default(&self) -> (r: bool)
        ensures
            r == is_default_microphone(*self),
    {
        self.device_id.as_str().is_empty() && self.sample_rate == 16_000
    }
}

impl LocalAsrDepsConfig {
    pub fn default() -> (r: Self)
        ensures
            r.onnxruntime_version@ == "1.24.2"@,
            !r.ort_cpu_installed && !r.ort_gpu_installed && !r.cuda_redist_installed,
            r.last_env_check_at@.len() == 0,
    {
        LocalAsrDepsConfig {
            onnxruntime_version: default_ort_version(),
            ort_cpu_installed: false,
            ort_gpu_installed: false,
            cuda_redist_installed: false,
            last_env_check_at: String::new(),
        }
    }

    pub fn clone(&self) -> (r: Self)
        ensures
            r == *self,
    {
        LocalAsrDepsConfig {
            onnxruntime_version: self.onnxruntime_version.clone(),
            ort_cpu_installed: self.ort_cpu_installed,
            ort_gpu_installed: self.ort_gpu_installed,
            cuda_redist_installed: self.cuda_redist_installed,
            last_env_check_at: self.last_env_check_at.clone(),
        }
    }
}

impl LocalAsrSetupConfig {
    pub fn default() -> (r: Self)
        ensures
            !r.setup_complete && !r.mic_test_passed && !r.parakeet_final_received,
            r.validated_execution_provider@.len() == 0,
            r.completed_at@.len() == 0,
    {
        LocalAsrSetupConfig {
            setup_complete: false,
            mic_test_passed: false,
            parakeet_final_received: false,
            validated_execution_provider: String::new(),
            completed_at: String::new(),
        }
    }

    pub fn clone(&self) -> (r: Self)
        ensures
            r == *self,
    {
        LocalAsrSetupConfig {
            setup_complete: self.setup_complete,
            mic_test_passed: self.mic_test_passed,
            parakeet_final_received: self.parakeet_final_received,
            validated_execution_provider: self.validated_execution_provider.clone(),
            completed_at: self.completed_at.clone(),
        }
    }
}

/// Clamps ORT session tunables to the ranges the module UI offers.
pub fn normalize_inference_session_options(config: &mut LocalAsrInferenceConfig)
    ensures
        final(config).graph_optimization_level == if old(config).graph_optimization_level > 3 {
            3
        } else {
            old(config).graph_optimization_level
        },
        final(config).intra_op_threads == clamp_u32(old(config).intra_op_threads, 1, 64),
        final(config).inter_op_threads == clamp_u32(old(config).inter_op_threads, 1, 64),
        final(config).ort_profiling_max_decodes == clamp_u32(
            old(config).ort_profiling_max_decodes,
            1,
            50,
        ),
        final(config).execution_provider == old(config).execution_provider,
        final(config).parallel_execution == old(config).parallel_execution,
        final(config).enable_memory_pattern == old(config).enable_memory_pattern,
        final(config).ort_profiling == old(config).ort_profiling,
        final(config).keep_model_loaded == old(config).keep_model_loaded,
        final(config).cuda_fallback_to_cpu == old(config).cuda_fallback_to_cpu,
{
    if config.graph_optimization_level > 3 {
        config.graph_optimization_level = 3;
    }
    config.intra_op_threads = clamp(config.intra_op_threads, 1, 64);
    config.inter_op_threads = clamp(config.inter_op_threads, 1, 64);
    config.ort_profiling_max_decodes = clamp(config.ort_profiling_max_decodes, 1, 50);
}

pub open spec fn clamp_u32(v: u32, lo: u32, hi: u32) -> u32 {
    if v < lo {
        lo
    } else if v > hi {
        hi
    } else {
        v
    }
}

fn clamp(v: u32, lo: u32, hi: u32) -> (r: u32)
    requires
        lo <= hi,
    ensures
        r == clamp_u32(v, lo, hi),
{
    if v < lo {
        lo
    } else if v > hi {
        hi
    } else {
        v
    }
}

/// `"cuda"` for any casing / surrounding whitespace of it, `"cpu"` for everything else.
pub open spec fn normalized_provider(value: Seq<char>) -> Seq<char> {
    if lower(trim(value)) == cuda_ep() {
        cuda_ep()
    } else {
        cpu_ep()
    }
}

pub fn normalize_execution_provider(value: &str) -> (r: String)
    ensures
        r@ == normalized_provider(value@),
{
    let t = trim_str(value);
    let l = lower_str(t.as_str());
    if str_eq(l.as_str(), "cuda") {
        to_owned_string("cuda")
    } else {
        to_owned_string("cpu")
    }
}

/// A payload that only carries a microphone change.
pub open spec fn patch_only_microphone_spec(patch: LocalAsrConfig) -> bool {
    &&& trim(patch.model.path@).len() == 0
    &&& patch.model.manifest_sha256@.len() == 0
    &&& is_default_inference(patch.inference)
    &&& is_default_realtime(patch.realtime)
    &&& is_default_vad(patch.vad)
    &&& is_default_recognition(patch.recognition)
    &&& !is_default_microphone(patch.microphone)
}

pub open spec fn patch_has_model(patch: LocalAsrConfig) -> bool {
    trim(patch.model.path@).len() > 0 || patch.model.manifest_sha256@.len() > 0
}

impl LocalAsrConfig {
    pub fn clone(&self) -> (r: Self)
        ensures
            r == *self,
    {
        LocalAsrConfig {
            model: self.model.clone(),
            inference: self.inference.clone(),
            realtime: self.realtime.clone(),
            vad: self.vad.clone(),
            recognition: self.recognition.clone(),
            microphone: self.microphone.clone(),
            deps: self.deps.clone(),
            setup: self.setup.clone(),
        }
    }

    pub fn default() -> (r: Self)
        ensures
            is_default_model(r.model),
            is_default_inference(r.inference),
            is_default_realtime(r.realtime),
            is_default_vad(r.vad),
            is_default_recognition(r.recognition),
            is_default_microphone(r.microphone),
            !r.setup.setup_complete && !r.setup.mic_test_passed && !r.setup.parakeet_final_received,
            r.setup.validated_execution_provider@.len() == 0,
            r.setup.completed_at@.len() == 0,
            r.deps.onnxruntime_version@ == "1.24.2"@,
            !r.deps.ort_cpu_installed && !r.deps.ort_gpu_installed && !r.deps.cuda_redist_installed,
            r.deps.last_env_check_at@.len() == 0,
    {
        LocalAsrConfig {
            model: LocalAsrModelConfig::default(),
            inference: LocalAsrInferenceConfig::default(),
            realtime: LocalAsrRealtimeConfig::default(),
            vad: LocalAsrVadConfig::default(),
            recognition: LocalAsrRecognitionConfig::default(),
            microphone: LocalAsrMicrophoneConfig::default(),
            deps: LocalAsrDepsConfig::default(),
            setup: LocalAsrSetupConfig::default(),
        }
    }

    pub fn patch_only_microphone(patch: &LocalAsrConfig) -> (r: bool)
        ensures
            r == patch_only_microphone_spec(*patch),
    {
        let p = trim_str(patch.model.path.as_str());
        p.as_str().is_empty() && patch.model.manifest_sha256.as_str().is_empty()
            && patch.inference.is_default() && patch.realtime.is_default() && patch.vad.is_default()
            && patch.recognition.is_default() && !patch.microphone.is_default()
    }

    /// Merges a partial payload: sections left at their defaults keep the current values;
    /// a default inference section still carries an execution-provider change (such as a
    /// CUDA to CPU downgrade) unless the payload only changes the microphone.
    #[verifier::rlimit(60)]
    pub fn merge_from(&mut self, patch: &LocalAsrConfig)
        ensures
            final(self).model == if patch_has_model(*patch) {
                patch.model
            } else {
                old(self).model
            },
            !is_default_inference(patch.inference) ==> final(self).inference == patch.inference,
            is_default_inference(patch.inference)
                && patch.inference.execution_provider@ != old(self).inference.execution_provider@
                && !patch_only_microphone_spec(*patch)
                ==> (final(self).inference.execution_provider@
                == normalized_provider(patch.inference.execution_provider@)
                && final(self).inference == (LocalAsrInferenceConfig {
                execution_provider: final(self).inference.execution_provider,
                ..old(self).inference
            })),
            is_default_inference(patch.inference)
                && (patch.inference.execution_provider@ == old(self).inference.execution_provider@
                || patch_only_microphone_spec(*patch))
                ==> final(self).inference == old(self).inference,
            final(self).realtime == if is_default_realtime(patch.realtime) {
                old(self).realtime
            } else {
                patch.realtime
            },
            final(self).vad == if is_default_vad(patch.vad) {
                old(self).vad
            } else {
                patch.vad
            },
            final(self).recognition == if is_default_recognition(patch.recognition) {
                old(self).recognition
            } else {
                patch.recognition
            },
            final(self).microphone == if is_default_microphone(patch.microphone) {
                old(self).microphone
            } else {
                patch.microphone
            },
            final(self).deps == old(self).deps,
            final(self).setup == old(self).setup,
    {
        let p = trim_str(patch.model.path.as_str());
        if !p.as_str().is_empty() || !patch.model.manifest_sha256.as_str().is_empty() {
            self.model = patch.model.clone();
        }
        if !patch.inference.is_default() {
            self.inference = patch.inference.clone();
        } else if !str_eq(
            patch.inference.execution_provider.as_str(),
            self.inference.execution_provider.as_str(),
        ) && !Self::patch_only_microphone(patch) {
            self.inference.execution_provider = normalize_execution_provider(
                patch.inference.execution_provider.as_str(),
            );
        }
        if !patch.realtime.is_default() {
            self.realtime = patch.realtime.clone();
        }
        if !patch.vad.is_default() {
            self.vad = patch.vad.clone();
        }
        if !patch.recognition.is_default() {
            self.recognition = patch.recognition.clone();
        }
        if !patch.microphone.is_default() {
            self.microphone = patch.microphone.clone();
        }
    }

    /// Applies every user-facing tunable of a module UI save payload, defaults included;
    /// the model section only when the payload names a model.
    pub fn apply_tunable_from(&mut self, patch: &LocalAsrConfig)
        ensures
            final(self).model == if patch_has_model(*patch) {
                patch.model
            } else {
                old(self).model
            },
            final(self).inference == patch.inference,
            final(self).realtime == patch.realtime,
            final(self).vad == patch.vad,
            final(self).recognition == patch.recognition,
            final(self).microphone == patch.microphone,
            final(self).deps == old(self).deps,
            final(self).setup == old(self).setup,
    {
        let p = trim_str(patch.model.path.as_str());
        if !p.as_str().is_empty() || !patch.model.manifest_sha256.as_str().is_empty() {
            self.model = patch.model.clone();
        }
        self.inference = patch.inference.clone();
        self.realtime = patch.realtime.clone();
        self.vad = patch.vad.clone();
        self.recognition = patch.recognition.clone();
        self.microphone = patch.microphone.clone();
    }
}

/// Law: there is exactly one default VAD section, so a section that differs from
/// `LocalAsrVadConfig::default()` in any field (the VAD mode included) is not default and
/// `merge_from` applies it.
pub proof fn law_default_vad_is_unique(a: LocalAsrVadConfig, b: LocalAsrVadConfig)
    requires
        is_default_vad(a),
        is_default_vad(b),
    ensures
        a == b,
{
}

/// Law: there is exactly one default recognition section, so any changed recognition
/// field makes `merge_from` apply the patch's section.
pub proof fn law_default_recognition_is_unique(a: LocalAsrRecognitionConfig, b: LocalAsrRecognitionConfig)
    requires
        is_default_recognition(a),
        is_default_recognition(b),
    ensures
        a == b,
{
}

} // verus!
