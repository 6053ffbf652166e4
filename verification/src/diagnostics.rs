//! Local Parakeet diagnostics snapshot: the derived fields (active provider, degraded
//! mode, phase name, message, emit counts) beside the resolved realtime settings.  The
//! caller serializes it, adding the fractional tunables and timings.
use vstd::prelude::*;

use crate::config::LocalAsrConfig;
use crate::deps::LocalAsrEnvCheck;
use crate::emit_telemetry::EmitTelemetrySnapshot;
use crate::realtime_settings::{resolves, ResolvedRealtimeSettings};
use crate::setup::{deps_ready_for_provider, deps_ready_spec, setup_is_valid, setup_valid};
use crate::status::{InferenceSnapshot, LocalAsrModulePhase};
use crate::text::{append_str, str_eq, to_owned_string};

verus! {

/// The phase's name as diagnostics report it (the variant name, lowercased).
pub open spec fn phase_name_spec(phase: LocalAsrModulePhase) -> Seq<char> {
    match phase {
        LocalAsrModulePhase::Unconfigured => "unconfigured"@,
        LocalAsrModulePhase::DepsMissing => "depsmissing"@,
        LocalAsrModulePhase::DepsReady => "depsready"@,
        LocalAsrModulePhase::ModelMissing => "modelmissing"@,
        LocalAsrModulePhase::ModelReady => "modelready"@,
        LocalAsrModulePhase::Ready => "ready"@,
        LocalAsrModulePhase::Running => "running"@,
        LocalAsrModulePhase::Error => "error"@,
    }
}

pub fn phase_name(phase: LocalAsrModulePhase) -> (r: &'static str)
    ensures
        r@ == phase_name_spec(phase),
{
    match phase {
        LocalAsrModulePhase::Unconfigured => "unconfigured",
        LocalAsrModulePhase::DepsMissing => "depsmissing",
        LocalAsrModulePhase::DepsReady => "depsready",
        LocalAsrModulePhase::ModelMissing => "modelmissing",
        LocalAsrModulePhase::ModelReady => "modelready",
        LocalAsrModulePhase::Ready => "ready",
        LocalAsrModulePhase::Running => "running",
        LocalAsrModulePhase::Error => "error",
    }
}

/// The one-line provider message of the diagnostics.
pub open spec fn message_spec(config: LocalAsrConfig, env: LocalAsrEnvCheck, inference: InferenceSnapshot) -> Seq<char> {
    let provider = config.inference.execution_provider@;
    if !env.vcruntime.ok {
        "Install VC++ runtime."@
    } else if !deps_ready_spec(env, provider) {
        if provider == "cuda"@ {
            "Complete GPU dependencies."@
        } else {
            "Download ONNX Runtime (CPU or GPU)."@
        }
    } else if !setup_valid(config.setup, provider) {
        "Complete the one-time Local ASR setup checklist."@
    } else if inference.model_loaded {
        "Local Parakeet ready on "@ + inference.active_execution_provider@ + " EP."@
    } else {
        "Local Parakeet configured on "@ + provider + " EP — model loads on Live Start."@
    }
}

pub fn diagnostics_message(config: &LocalAsrConfig, env: &LocalAsrEnvCheck, inference: &InferenceSnapshot) -> (r: String)
    ensures
        r@ == message_spec(*config, *env, *inference),
{
    proof {
        reveal_strlit("cuda");
    }
    let provider = config.inference.execution_provider.as_str();
    if !env.vcruntime.ok {
        return to_owned_string("Install VC++ runtime.");
    }
    if !deps_ready_for_provider(env, provider) {
        if str_eq(provider, "cuda") {
            return to_owned_string("Complete GPU dependencies.");
        }
        return to_owned_string("Download ONNX Runtime (CPU or GPU).");
    }
    if !setup_is_valid(config, provider) {
        return to_owned_string("Complete the one-time Local ASR setup checklist.");
    }
    if inference.model_loaded {
        let mut out = to_owned_string("Local Parakeet ready on ");
        append_str(&mut out, inference.active_execution_provider.as_str());
        append_str(&mut out, " EP.");
        out
    } else {
        let mut out = to_owned_string("Local Parakeet configured on ");
        append_str(&mut out, provider);
        append_str(&mut out, " EP — model loads on Live Start.");
        out
    }
}

/// The integer and text fields of the diagnostics snapshot.
pub struct LocalAsrDiagnostics {
    pub realtime: ResolvedRealtimeSettings,
    pub selected_execution_provider: String,
    pub degraded_mode: bool,
    pub provider_phase: &'static str,
    pub provider_message: String,
    pub runtime_initialized: bool,
    pub decode_count: u64,
    pub finalized_segments: u64,
    pub partial_emits: u64,
    pub final_emits: u64,
    pub revision_emits: u64,
    pub last_first_partial_ms: Option<u32>,
    pub last_final_ms: Option<u32>,
    pub last_paced_decode_interval_ms: u32,
    pub last_decode_wall_ms: u64,
    pub cpu_deps_ready: bool,
    pub cuda_deps_ready: bool,
}

/// Assembles the snapshot: the provider in use (the loaded engine's, else the configured
/// one); degraded when the engine reports an error or a CUDA probe failed for the CUDA
/// provider; emit counts from the telemetry when there is one, else the decode and final
/// segment counts.
pub fn assemble_local_asr_diagnostics(
    config: &LocalAsrConfig,
    env: &LocalAsrEnvCheck,
    inference: &InferenceSnapshot,
    phase: LocalAsrModulePhase,
    is_runtime_running: bool,
    decode_count: u64,
    finalized_segments: u64,
    emit_telemetry: Option<&EmitTelemetrySnapshot>,
    last_paced_decode_interval_ms: u32,
    last_decode_wall_ms: u64,
) -> (r: LocalAsrDiagnostics)
    ensures
        resolves(*config, r.realtime),
        r.selected_execution_provider@ == if inference.model_loaded {
            inference.active_execution_provider@
        } else {
            config.inference.execution_provider@
        },
        r.degraded_mode == (inference.last_error is Some || (config.inference.execution_provider@ == "cuda"@
            && inference.probe_cuda_ok == Some(false))),
        r.provider_phase@ == phase_name_spec(phase),
        r.provider_message@ == message_spec(*config, *env, *inference),
        r.runtime_initialized == is_runtime_running,
        r.decode_count == decode_count,
        r.finalized_segments == finalized_segments,
        r.partial_emits == match emit_telemetry {
            Some(t) => t.partial_emits,
            None => decode_count,
        },
        r.final_emits == match emit_telemetry {
            Some(t) => t.final_emits,
            None => finalized_segments,
        },
        r.revision_emits == match emit_telemetry {
            Some(t) => t.revision_emits,
            None => 0,
        },
        r.last_first_partial_ms == match emit_telemetry {
            Some(t) => t.last_first_partial_ms,
            None => None,
        },
        r.last_final_ms == match emit_telemetry {
            Some(t) => t.last_final_ms,
            None => None,
        },
        r.last_paced_decode_interval_ms == last_paced_decode_interval_ms,
        r.last_decode_wall_ms == last_decode_wall_ms,
        r.cpu_deps_ready == env.cpu_deps_ready,
        r.cuda_deps_ready == env.cuda_deps_ready,
{
    proof {
        reveal_strlit("cuda");
    }
    let realtime = ResolvedRealtimeSettings::from_config(config);
    let provider = config.inference.execution_provider.as_str();
    let selected_execution_provider = if inference.model_loaded {
        inference.active_execution_provider.clone()
    } else {
        to_owned_string(provider)
    };
    let probe_failed = match inference.probe_cuda_ok {
        Some(ok) => !ok,
        None => false,
    };
    let degraded_mode = inference.last_error.is_some() || (str_eq(provider, "cuda") && probe_failed);
    let (partial_emits, final_emits, revision_emits, last_first_partial_ms, last_final_ms) = match emit_telemetry {
        Some(t) => (t.partial_emits, t.final_emits, t.revision_emits, t.last_first_partial_ms, t.last_final_ms),
        None => (decode_count, finalized_segments, 0, None, None),
    };
    LocalAsrDiagnostics {
        realtime,
        selected_execution_provider,
        degraded_mode,
        provider_phase: phase_name(phase),
        provider_message: diagnostics_message(config, env, inference),
        runtime_initialized: is_runtime_running,
        decode_count,
        finalized_segments,
        partial_emits,
        final_emits,
        revision_emits,
        last_first_partial_ms,
        last_final_ms,
        last_paced_decode_interval_ms,
        last_decode_wall_ms,
        cpu_deps_ready: env.cpu_deps_ready,
        cuda_deps_ready: env.cuda_deps_ready,
    }
}

} // verus!
