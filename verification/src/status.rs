//! Module status: the setup phase, the message shown for it and the readiness flags,
//! from the config, the dependency check, the model install state and the inference
//! engine's snapshot.
use vstd::prelude::*;

use crate::config::LocalAsrConfig;
use crate::deps::{env_wf, LocalAsrEnvCheck};
use crate::model_manager::ModelCatalogEntry;
use crate::setup::{deps_ready_for_provider, deps_ready_spec, setup_is_valid, setup_valid};
use crate::text::{append_str, join, join_strings, str_eq, to_owned_string, views};

verus! {

#[derive(Debug, PartialEq, Eq, Structural, Clone, Copy)]
pub enum LocalAsrModulePhase {
    Unconfigured,
    DepsMissing,
    DepsReady,
    ModelMissing,
    ModelReady,
    Ready,
    Running,
    Error,
}

pub struct LocalAsrSetupChecklist {
    pub deps_ready: bool,
    pub model_installed: bool,
    pub mic_test_passed: bool,
    pub parakeet_final_received: bool,
    pub setup_complete: bool,
}

/// What the inference engine reports about the loaded model.
pub struct InferenceSnapshot {
    pub model_loaded: bool,
    pub active_execution_provider: String,
    pub last_error: Option<String>,
    pub model_load_ms: Option<u64>,
    pub probe_cpu_ok: Option<bool>,
    pub probe_cuda_ok: Option<bool>,
    pub ort_profiling_active: bool,
    pub ort_profiling_decode_count: u32,
    pub ort_profiling_max_decodes: u32,
    pub ort_profiling_stopped_budget: bool,
    pub last_ort_profile_path: Option<String>,
}

/// The module status.  The latest decode timing breakdown (fractional percentages) is
/// reported beside it by the caller.
pub struct LocalAsrModuleStatus {
    pub phase: LocalAsrModulePhase,
    pub ready: bool,
    pub cuda_ready: bool,
    pub deps_ready: bool,
    pub execution_provider: String,
    pub active_execution_provider: String,
    pub message: String,
    pub last_error: Option<String>,
    pub env: LocalAsrEnvCheck,
    pub model_installed: bool,
    pub model_loaded: bool,
    pub model_load_ms: Option<u64>,
    pub probe_cpu_ok: Option<bool>,
    pub probe_cuda_ok: Option<bool>,
    pub ort_profiling_active: bool,
    pub ort_profiling_decode_count: u32,
    pub ort_profiling_max_decodes: u32,
    pub ort_profiling_stopped_budget: bool,
    pub last_ort_profile_path: Option<String>,
    pub active_model_family: String,
    pub active_model_variant: String,
    pub models: Vec<ModelCatalogEntry>,
    pub setup: LocalAsrSetupChecklist,
}

pub open spec fn opt_view(o: Option<String>) -> Option<Seq<char>> {
    match o {
        Some(s) => Some(s@),
        None => None,
    }
}

fn clone_opt(o: &Option<String>) -> (r: Option<String>)
    ensures
        r == *o,
{
    match o {
        Some(s) => Some(s.clone()),
        None => None,
    }
}

/// The dependencies still missing for a provider: the VC++ runtime, then for CUDA the GPU
/// ONNX Runtime, the CUDA runtime and the toolkit's message; for CPU the CPU ONNX Runtime
/// when neither package is installed.
pub open spec fn missing_list(env: LocalAsrEnvCheck, cuda: bool) -> Seq<Seq<char>> {
    let vc = if !env.vcruntime.ok { views(env.vcruntime.missing@) } else { Seq::empty() };
    if cuda {
        vc + (if !env.ort_gpu.ok { views(env.ort_gpu.missing@) } else { Seq::empty() }) + (if !env.cuda_redist.ok {
            views(env.cuda_redist.missing@)
        } else {
            Seq::empty()
        }) + (if !env.cuda_toolkit.ok && env.cuda_toolkit.message is Some {
            seq![env.cuda_toolkit.message->0@]
        } else {
            Seq::empty()
        })
    } else {
        vc + (if !env.ort_cpu.ok && !env.ort_gpu.ok { views(env.ort_cpu.missing@) } else { Seq::empty() })
    }
}

pub open spec fn missing_detail(env: LocalAsrEnvCheck, cuda: bool) -> Option<Seq<char>> {
    let l = missing_list(env, cuda);
    if l.len() == 0 {
        None
    } else {
        Some("missing: "@ + join(l, ", "@))
    }
}

fn extend_cloned(out: &mut Vec<String>, items: &Vec<String>)
    ensures
        views(final(out)@) == views(old(out)@) + views(items@),
{
    let mut i: usize = 0;
    let ghost start = views(out@);
    while i < items.len()
        invariant
            i <= items.len(),
            views(out@) == start + views(items@).take(i as int),
        decreases items.len() - i,
    {
        let ghost o0 = views(out@);
        out.push(items[i].clone());
        assert(views(out@) =~= o0.push(items@[i as int]@));
        assert(views(items@).take(i + 1) =~= views(items@).take(i as int).push(items@[i as int]@));
        i = i + 1;
    }
    assert(views(items@).take(items.len() as int) =~= views(items@));
}

pub fn deps_missing_detail(env: &LocalAsrEnvCheck, cuda: bool) -> (r: Option<String>)
    ensures
        opt_view(r) == missing_detail(*env, cuda),
{
    let mut missing: Vec<String> = Vec::new();
    if !env.vcruntime.ok {
        extend_cloned(&mut missing, &env.vcruntime.missing);
    }
    assert(views(missing@) =~= if !env.vcruntime.ok { views(env.vcruntime.missing@) } else { Seq::empty() });
    if cuda {
        if !env.ort_gpu.ok {
            extend_cloned(&mut missing, &env.ort_gpu.missing);
        }
        if !env.cuda_redist.ok {
            extend_cloned(&mut missing, &env.cuda_redist.missing);
        }
        if !env.cuda_toolkit.ok {
            match &env.cuda_toolkit.message {
                Some(message) => {
                    let ghost m0 = views(missing@);
                    missing.push(message.clone());
                    assert(views(missing@) =~= m0.push(message@));
                },
                None => {},
            }
        }
    } else if !env.ort_cpu.ok && !env.ort_gpu.ok {
        extend_cloned(&mut missing, &env.ort_cpu.missing);
    }
    assert(views(missing@) =~= missing_list(*env, cuda));
    if missing.len() == 0 {
        None
    } else {
        let mut out = to_owned_string("missing: ");
        let list = join_strings(&missing, ", ");
        append_str(&mut out, list.as_str());
        Some(out)
    }
}

pub open spec fn pending_message(setup: LocalAsrSetupChecklist, model_loaded: bool) -> Seq<char> {
    if !setup.deps_ready {
        "Complete dependencies for the selected execution provider"@
    } else if !setup.model_installed {
        "Download the ASR model"@
    } else if !model_loaded {
        "Warm-load the model, run the mic test, and receive a final transcript"@
    } else if !setup.mic_test_passed {
        "Run the mic test bench to finish one-time setup"@
    } else if !setup.parakeet_final_received {
        "Speak during the mic test until Parakeet returns a final line"@
    } else {
        "Complete the setup checklist"@
    }
}

pub fn setup_pending_message(setup: &LocalAsrSetupChecklist, model_loaded: bool) -> (r: String)
    ensures
        r@ == pending_message(*setup, model_loaded),
{
    if !setup.deps_ready {
        return to_owned_string("Complete dependencies for the selected execution provider");
    }
    if !setup.model_installed {
        return to_owned_string("Download the ASR model");
    }
    if !model_loaded {
        return to_owned_string("Warm-load the model, run the mic test, and receive a final transcript");
    }
    if !setup.mic_test_passed {
        return to_owned_string("Run the mic test bench to finish one-time setup");
    }
    if !setup.parakeet_final_received {
        return to_owned_string("Speak during the mic test until Parakeet returns a final line");
    }
    to_owned_string("Complete the setup checklist")
}

/// Provider whose name the status shows as active: the loaded engine's, else the
/// configured one.
pub open spec fn active_provider(config: LocalAsrConfig, inference: InferenceSnapshot) -> Seq<char> {
    if inference.model_loaded {
        inference.active_execution_provider@
    } else {
        config.inference.execution_provider@
    }
}

/// Phase, message and last error, in the order the gaps are checked: VC++ runtime,
/// provider dependencies, model, setup checklist.
pub open spec fn status_decision(
    config: LocalAsrConfig,
    env: LocalAsrEnvCheck,
    inference: InferenceSnapshot,
    model_installed: bool,
) -> (LocalAsrModulePhase, Seq<char>, Option<Seq<char>>) {
    let provider = config.inference.execution_provider@;
    let deps_ready = deps_ready_spec(env, provider);
    let setup_complete = setup_valid(config.setup, provider);
    let checklist = LocalAsrSetupChecklist {
        deps_ready,
        model_installed,
        mic_test_passed: config.setup.mic_test_passed,
        parakeet_final_received: config.setup.parakeet_final_received,
        setup_complete,
    };
    let active = active_provider(config, inference);
    if !env.vcruntime.ok {
        (
            LocalAsrModulePhase::DepsMissing,
            "Install VC++ runtime (or use a system with Visual C++ 2015–2022 redistributable)"@,
            Some("missing: "@ + join(views(env.vcruntime.missing@), ", "@)),
        )
    } else if !deps_ready {
        if provider == "cuda"@ {
            (
                LocalAsrModulePhase::DepsMissing,
                "Complete GPU dependencies (ORT GPU, CUDA redist, NVIDIA driver)"@,
                missing_detail(env, true),
            )
        } else {
            (LocalAsrModulePhase::DepsMissing, "Download ONNX Runtime (CPU or GPU)"@, missing_detail(env, false))
        }
    } else if !model_installed {
        (LocalAsrModulePhase::ModelMissing, "Download the ASR model in the Local ASR module"@, None)
    } else if !setup_complete {
        (LocalAsrModulePhase::ModelReady, pending_message(checklist, inference.model_loaded), opt_view(inference.last_error))
    } else {
        (
            LocalAsrModulePhase::Ready,
            if inference.model_loaded {
                "Local ASR ready ("@ + active + " EP, model loaded)"@
            } else {
                "Local ASR configured ("@ + active + " EP) — model loads on Live Start"@
            },
            opt_view(inference.last_error),
        )
    }
}

fn surround(prefix: &str, middle: &str, suffix: &str) -> (r: String)
    ensures
        r@ == prefix@ + middle@ + suffix@,
{
    let mut out = to_owned_string(prefix);
    append_str(&mut out, middle);
    append_str(&mut out, suffix);
    out
}

/// Builds the status.  `model_installed` is whether the configured model is on disk and
/// `models` the catalog of installable models, both read from the module folder.
pub fn build_status(
    config: &LocalAsrConfig,
    env: LocalAsrEnvCheck,
    inference: &InferenceSnapshot,
    model_installed: bool,
    models: Vec<ModelCatalogEntry>,
) -> (r: LocalAsrModuleStatus)
    ensures
        (r.phase, r.message@, opt_view(r.last_error)) == status_decision(*config, env, *inference, model_installed),
        r.deps_ready == deps_ready_spec(env, config.inference.execution_provider@),
        r.setup.deps_ready == r.deps_ready,
        r.setup.model_installed == model_installed,
        r.setup.mic_test_passed == config.setup.mic_test_passed,
        r.setup.parakeet_final_received == config.setup.parakeet_final_received,
        r.setup.setup_complete == setup_valid(config.setup, config.inference.execution_provider@),
        r.ready == (r.setup.setup_complete && r.deps_ready && model_installed),
        r.cuda_ready == (env.cuda_deps_ready && (inference.probe_cuda_ok == Some(true) || (
        r.setup.setup_complete && config.setup.validated_execution_provider@ == "cuda"@))),
        r.execution_provider@ == config.inference.execution_provider@,
        r.active_execution_provider@ == active_provider(*config, *inference),
        r.env == env,
        r.model_installed == model_installed,
        r.model_loaded == inference.model_loaded,
        r.model_load_ms == inference.model_load_ms,
        r.probe_cpu_ok == inference.probe_cpu_ok,
        r.probe_cuda_ok == inference.probe_cuda_ok,
        r.ort_profiling_active == inference.ort_profiling_active,
        r.ort_profiling_decode_count == inference.ort_profiling_decode_count,
        r.ort_profiling_max_decodes == inference.ort_profiling_max_decodes,
        r.ort_profiling_stopped_budget == inference.ort_profiling_stopped_budget,
        r.last_ort_profile_path == inference.last_ort_profile_path,
        r.active_model_family@ == config.model.family@,
        r.active_model_variant@ == config.model.variant@,
        r.models == models,
{
    let provider = config.inference.execution_provider.clone();
    let deps_ready = deps_ready_for_provider(&env, provider.as_str());
    let setup_complete = setup_is_valid(config, provider.as_str());
    let active_execution_provider = if inference.model_loaded {
        inference.active_execution_provider.clone()
    } else {
        provider.clone()
    };
    let setup = LocalAsrSetupChecklist {
        deps_ready,
        model_installed,
        mic_test_passed: config.setup.mic_test_passed,
        parakeet_final_received: config.setup.parakeet_final_received,
        setup_complete,
    };
    proof {
        reveal_strlit("cuda");
    }
    let (phase, message, last_error) = if !env.vcruntime.ok {
        let mut detail = to_owned_string("missing: ");
        let list = join_strings(&env.vcruntime.missing, ", ");
        append_str(&mut detail, list.as_str());
        (
            LocalAsrModulePhase::DepsMissing,
            to_owned_string("Install VC++ runtime (or use a system with Visual C++ 2015–2022 redistributable)"),
            Some(detail),
        )
    } else if !deps_ready {
        if str_eq(provider.as_str(), "cuda") {
            (
                LocalAsrModulePhase::DepsMissing,
                to_owned_string("Complete GPU dependencies (ORT GPU, CUDA redist, NVIDIA driver)"),
                deps_missing_detail(&env, true),
            )
        } else {
            (
                LocalAsrModulePhase::DepsMissing,
                to_owned_string("Download ONNX Runtime (CPU or GPU)"),
                deps_missing_detail(&env, false),
            )
        }
    } else if !model_installed {
        (LocalAsrModulePhase::ModelMissing, to_owned_string("Download the ASR model in the Local ASR module"), None)
    } else if !setup_complete {
        (LocalAsrModulePhase::ModelReady, setup_pending_message(&setup, inference.model_loaded), clone_opt(&inference.last_error))
    } else {
        let message = if inference.model_loaded {
            surround("Local ASR ready (", active_execution_provider.as_str(), " EP, model loaded)")
        } else {
            surround(
                "Local ASR configured (",
                active_execution_provider.as_str(),
                " EP) — model loads on Live Start",
            )
        };
        (LocalAsrModulePhase::Ready, message, clone_opt(&inference.last_error))
    };
    let ready = setup_complete && deps_ready && model_installed;
    let probe_cuda = match inference.probe_cuda_ok {
        Some(b) => b,
        None => false,
    };
    let cuda_ready = env.cuda_deps_ready && (probe_cuda || (setup_complete && str_eq(
        config.setup.validated_execution_provider.as_str(),
        "cuda",
    )));
    LocalAsrModuleStatus {
        phase,
        ready,
        cuda_ready,
        deps_ready,
        execution_provider: provider,
        active_execution_provider,
        message,
        last_error,
        env,
        model_installed,
        model_loaded: inference.model_loaded,
        model_load_ms: inference.model_load_ms,
        probe_cpu_ok: inference.probe_cpu_ok,
        probe_cuda_ok: inference.probe_cuda_ok,
        ort_profiling_active: inference.ort_profiling_active,
        ort_profiling_decode_count: inference.ort_profiling_decode_count,
        ort_profiling_max_decodes: inference.ort_profiling_max_decodes,
        ort_profiling_stopped_budget: inference.ort_profiling_stopped_budget,
        last_ort_profile_path: clone_opt(&inference.last_ort_profile_path),
        active_model_family: config.model.family.clone(),
        active_model_variant: config.model.variant.clone(),
        models,
        setup,
    }
}

/// Law: the status reads ready exactly in the `Ready` phase.
pub proof fn law_ready_iff_ready_phase(
    config: LocalAsrConfig,
    env: LocalAsrEnvCheck,
    inference: InferenceSnapshot,
    model_installed: bool,
)
    requires
        env_wf(env),
    ensures
        (status_decision(config, env, inference, model_installed).0 == LocalAsrModulePhase::Ready) == (
        setup_valid(config.setup, config.inference.execution_provider@) && deps_ready_spec(
            env,
            config.inference.execution_provider@,
        ) && model_installed),
{
}

} // verus!
