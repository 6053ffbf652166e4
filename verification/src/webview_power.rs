//! Memory / suspend policy for the shell WebViews.
use vstd::prelude::*;

verus! {

#[derive(Debug, Clone, Copy, PartialEq, Eq, Structural)]
pub enum WebviewRole {
    MainShell,
    TtsModule,
}

#[derive(Debug, Clone, Copy, PartialEq, Eq, Structural)]
pub struct WebviewActivity {
    pub focused: bool,
    pub visible: bool,
    pub runtime_active: bool,
    pub tts_enabled: bool,
    pub engines_busy: bool,
}

#[derive(Debug, Clone, Copy, PartialEq, Eq, Structural)]
pub enum WebviewPowerAction {
    /// Full activity: resume if suspended and restore the normal memory target.
    Normal,
    /// Scripts keep running but the memory target is low.
    LowMemory,
    /// Deep idle: suspend when the host supports it.
    Suspend,
}

pub open spec fn power_action(role: WebviewRole, a: WebviewActivity) -> WebviewPowerAction {
    match role {
        WebviewRole::MainShell => if a.focused {
            WebviewPowerAction::Normal
        } else {
            WebviewPowerAction::LowMemory
        },
        WebviewRole::TtsModule => if a.engines_busy || a.tts_enabled {
            WebviewPowerAction::Normal
        } else {
            WebviewPowerAction::Suspend
        },
    }
}

impl WebviewActivity {
    pub fn default() -> (r: Self)
        ensures
            !r.focused && !r.visible && !r.runtime_active && !r.tts_enabled && !r.engines_busy,
    {
        WebviewActivity {
            focused: false,
            visible: false,
            runtime_active: false,
            tts_enabled: false,
            engines_busy: false,
        }
    }
}

pub fn resolve_power_action(role: WebviewRole, activity: WebviewActivity) -> (r: WebviewPowerAction)
    ensures
        r == power_action(role, activity),
{
    match role {
        WebviewRole::MainShell => resolve_main_shell(activity),
        WebviewRole::TtsModule => resolve_tts_module(activity),
    }
}

fn resolve_main_shell(activity: WebviewActivity) -> (r: WebviewPowerAction)
    ensures
        r == power_action(WebviewRole::MainShell, activity),
{
    if activity.focused {
        return WebviewPowerAction::Normal;
    }
    WebviewPowerAction::LowMemory
}

fn resolve_tts_module(activity: WebviewActivity) -> (r: WebviewPowerAction)
    ensures
        r == power_action(WebviewRole::TtsModule, activity),
{
    if activity.engines_busy {
        return WebviewPowerAction::Normal;
    }
    if activity.tts_enabled {
        return WebviewPowerAction::Normal;
    }
    WebviewPowerAction::Suspend
}

/// What applying a power action does to a WebView: resume it when suspended, set the
/// memory usage target (`Some(true)` for low), or request a suspension.
#[derive(Debug, Clone, Copy, PartialEq, Eq, Structural)]
pub struct WebviewPowerSteps {
    pub resume_if_suspended: bool,
    pub memory_target_low: Option<bool>,
    pub try_suspend: bool,
}

pub open spec fn power_steps_spec(action: WebviewPowerAction) -> WebviewPowerSteps {
    match action {
        WebviewPowerAction::Normal => WebviewPowerSteps {
            resume_if_suspended: true,
            memory_target_low: Some(false),
            try_suspend: false,
        },
        WebviewPowerAction::LowMemory => WebviewPowerSteps {
            resume_if_suspended: true,
            memory_target_low: Some(true),
            try_suspend: false,
        },
        WebviewPowerAction::Suspend => WebviewPowerSteps {
            resume_if_suspended: false,
            memory_target_low: None,
            try_suspend: true,
        },
    }
}

pub fn power_steps(action: WebviewPowerAction) -> (r: WebviewPowerSteps)
    ensures
        r == power_steps_spec(action),
{
    match action {
        WebviewPowerAction::Normal => WebviewPowerSteps {
            resume_if_suspended: true,
            memory_target_low: Some(false),
            try_suspend: false,
        },
        WebviewPowerAction::LowMemory => WebviewPowerSteps {
            resume_if_suspended: true,
            memory_target_low: Some(true),
            try_suspend: false,
        },
        WebviewPowerAction::Suspend => WebviewPowerSteps {
            resume_if_suspended: false,
            memory_target_low: None,
            try_suspend: true,
        },
    }
}

/// The WebView2 memory usage target level: 1 (low) or 0 (normal).
pub fn memory_usage_target_level(low: bool) -> (r: i32)
    ensures
        r == if low { 1i32 } else { 0i32 },
{
    if low { 1 } else { 0 }
}

/// A failed power action is a warning, except a suspension, which fails while the WebView
/// is not ready yet and is only traced.
pub fn power_failure_is_warning(action: WebviewPowerAction) -> (r: bool)
    ensures
        r == (action != WebviewPowerAction::Suspend),
{
    !matches!(action, WebviewPowerAction::Suspend)
}

/// Law: the main shell is never suspended, and an enabled TTS module is never throttled.
pub proof fn law_power_floor(role: WebviewRole, a: WebviewActivity)
    ensures
        role == WebviewRole::MainShell ==> power_action(role, a) != WebviewPowerAction::Suspend,
        role == WebviewRole::TtsModule && a.tts_enabled ==> power_action(role, a)
            == WebviewPowerAction::Normal,
{
}

} // verus!
