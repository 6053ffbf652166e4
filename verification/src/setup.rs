//! One-time module setup checklist, persisted in the module config.
use vstd::prelude::*;

use crate::config::{LocalAsrConfig, LocalAsrSetupConfig};
use crate::deps::LocalAsrEnvCheck;
use crate::test_session::{TestBenchPhase, TestBenchSnapshot};
use crate::text::{str_eq, trim, trim_str};

verus! {

/// Dependencies of the provider are ready (`"cuda"` exactly selects the CUDA stack).
pub open spec fn deps_ready_spec(env: LocalAsrEnvCheck, provider: Seq<char>) -> bool {
    if provider == "cuda"@ {
        env.cuda_deps_ready
    } else {
        env.cpu_deps_ready
    }
}

pub fn deps_ready_for_provider(env: &LocalAsrEnvCheck, provider: &str) -> (r: bool)
    ensures
        r == deps_ready_spec(*env, provider@),
{
    if str_eq(provider, "cuda") {
        env.cuda_deps_ready
    } else {
        env.cpu_deps_ready
    }
}

/// The test produced a Parakeet final: a finalized segment or some non-blank transcript.
pub open spec fn received_final(snap: TestBenchSnapshot) -> bool {
    snap.finalized_segments > 0 || trim(snap.transcript@).len() > 0
}

pub fn test_received_parakeet_final(snap: &TestBenchSnapshot) -> (r: bool)
    ensures
        r == received_final(*snap),
{
    if snap.finalized_segments > 0 {
        return true;
    }
    let t = trim_str(snap.transcript.as_str());
    !t.as_str().is_empty()
}

pub fn clear_setup(config: &mut LocalAsrConfig)
    ensures
        !final(config).setup.setup_complete,
        !final(config).setup.mic_test_passed,
        !final(config).setup.parakeet_final_received,
        final(config).setup.validated_execution_provider@.len() == 0,
        final(config).setup.completed_at@.len() == 0,
        final(config).model == old(config).model,
        final(config).inference == old(config).inference,
        final(config).realtime == old(config).realtime,
        final(config).vad == old(config).vad,
        final(config).recognition == old(config).recognition,
        final(config).microphone == old(config).microphone,
        final(config).deps == old(config).deps,
{
    config.setup = LocalAsrSetupConfig::default();
}

/// Setup is complete for `provider`: finished, validated for that provider, with the mic
/// test passed and a final received.
pub open spec fn setup_valid(setup: LocalAsrSetupConfig, provider: Seq<char>) -> bool {
    &&& setup.setup_complete
    &&& setup.validated_execution_provider@ == provider
    &&& setup.mic_test_passed
    &&& setup.parakeet_final_received
}

pub fn setup_is_valid(config: &LocalAsrConfig, provider: &str) -> (r: bool)
    ensures
        r == setup_valid(config.setup, provider@),
{
    config.setup.setup_complete && str_eq(config.setup.validated_execution_provider.as_str(), provider)
        && config.setup.mic_test_passed && config.setup.parakeet_final_received
}

/// Records mic test / final progress from a test bench run that is done; other phases
/// leave the config as it is.  Progress is never taken back.
pub fn apply_test_bench_progress(config: &mut LocalAsrConfig, snap: &TestBenchSnapshot)
    ensures
        snap.phase != TestBenchPhase::Done ==> *final(config) == *old(config),
        snap.phase == TestBenchPhase::Done ==> {
            &&& final(config).setup.mic_test_passed
            &&& final(config).setup.parakeet_final_received == (old(config).setup.parakeet_final_received
                || received_final(*snap))
            &&& final(config).setup.setup_complete == old(config).setup.setup_complete
            &&& final(config).setup.validated_execution_provider == old(config).setup.validated_execution_provider
            &&& final(config).setup.completed_at == old(config).setup.completed_at
            &&& final(config).model == old(config).model
            &&& final(config).inference == old(config).inference
            &&& final(config).realtime == old(config).realtime
            &&& final(config).vad == old(config).vad
            &&& final(config).recognition == old(config).recognition
            &&& final(config).microphone == old(config).microphone
            &&& final(config).deps == old(config).deps
        },
{
    if snap.phase != TestBenchPhase::Done {
        return;
    }
    config.setup.mic_test_passed = true;
    if test_received_parakeet_final(snap) {
        config.setup.parakeet_final_received = true;
    }
}

/// Finishing the setup: with the provider's dependencies ready, the model installed and the
/// checklist done, a setup not yet valid for the configured provider becomes complete.
pub open spec fn finalizes(config: LocalAsrConfig, env: LocalAsrEnvCheck, model_installed: bool) -> bool {
    let provider = config.inference.execution_provider@;
    &&& deps_ready_spec(env, provider)
    &&& model_installed
    &&& config.setup.mic_test_passed
    &&& config.setup.parakeet_final_received
    &&& !setup_valid(config.setup, provider)
}

/// Returns `true` when setup just became complete.  `model_installed` is whether the
/// configured model is on disk; `now` is the current time, in Unix seconds, recorded as
/// the completion time when none is recorded yet.
pub fn try_finalize_setup(config: &mut LocalAsrConfig, env: &LocalAsrEnvCheck, model_installed: bool, now: &str) -> (r: bool)
    ensures
        r == finalizes(*old(config), *env, model_installed),
        !r ==> *final(config) == *old(config),
        r ==> {
            &&& final(config).setup.setup_complete
            &&& final(config).setup.validated_execution_provider == old(config).inference.execution_provider
            &&& final(config).setup.completed_at@ == if old(config).setup.completed_at@.len() == 0 {
                now@
            } else {
                old(config).setup.completed_at@
            }
            &&& final(config).setup.mic_test_passed == old(config).setup.mic_test_passed
            &&& final(config).setup.parakeet_final_received == old(config).setup.parakeet_final_received
            &&& final(config).model == old(config).model
            &&& final(config).inference == old(config).inference
            &&& final(config).realtime == old(config).realtime
            &&& final(config).vad == old(config).vad
            &&& final(config).recognition == old(config).recognition
            &&& final(config).microphone == old(config).microphone
            &&& final(config).deps == old(config).deps
        },
        r ==> setup_valid(final(config).setup, final(config).inference.execution_provider@),
{
    let provider = config.inference.execution_provider.clone();
    if !deps_ready_for_provider(env, provider.as_str()) || !model_installed {
        return false;
    }
    if !config.setup.mic_test_passed || !config.setup.parakeet_final_received {
        return false;
    }
    if setup_is_valid(config, provider.as_str()) {
        return false;
    }
    config.setup.setup_complete = true;
    config.setup.validated_execution_provider = provider;
    if config.setup.completed_at.as_str().is_empty() {
        config.setup.completed_at = crate::text::to_owned_string(now);
    }
    true
}

/// Law: finishing the setup is idempotent: once it returned `true`, a second call with the
/// same readiness returns `false` and changes nothing.
pub proof fn law_finalize_setup_is_idempotent(config: LocalAsrConfig, env: LocalAsrEnvCheck, model_installed: bool)
    requires
        setup_valid(config.setup, config.inference.execution_provider@),
    ensures
        !finalizes(config, env, model_installed),
{
}

} // verus!
