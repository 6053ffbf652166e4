use voicesub::operational_fsm::{BrowserAsrOperationalFsm, BrowserOperationalPhase};
use voicesub::orphan_guard::{is_worker_image, parse_pid, parse_tasklist_image_name};
use voicesub::webview2_messages::{normalize_supported_ui_language, system_supported_ui_language, webview2_missing_dialog_copy};
use voicesub::webview2_runtime::{installed_webview2_version, registry_pv_version, WEBVIEW2_DOWNLOAD_URL};
use voicesub::webview_power::{
    memory_usage_target_level, power_failure_is_warning, power_steps, resolve_power_action, WebviewActivity,
    WebviewPowerAction, WebviewRole, WebviewPowerSteps,
};

#[test]
fn worker_connect_and_ingest_final() {
    let mut fsm = BrowserAsrOperationalFsm::default();
    assert_eq!(fsm.phase(), BrowserOperationalPhase::Idle);
    fsm.note_worker_connected();
    assert_eq!(fsm.phase(), BrowserOperationalPhase::WorkerSocketIdle);
    fsm.note_ingest(true);
    assert_eq!(fsm.phase(), BrowserOperationalPhase::IngestFinal);
    fsm.note_worker_disconnected();
    assert_eq!(fsm.phase(), BrowserOperationalPhase::Idle);
}

#[test]
fn parse_pid_tolerates_whitespace_and_rejects_zero() {
    assert_eq!(parse_pid(" 4321\n"), Some(4321));
    assert_eq!(parse_pid("0"), None);
    assert_eq!(parse_pid(""), None);
    assert_eq!(parse_pid("not-a-pid"), None);
}

#[test]
fn worker_image_matches_chromium_family_case_insensitive() {
    assert!(is_worker_image("chrome.exe"));
    assert!(is_worker_image("CHROME.EXE"));
    assert!(is_worker_image("msedge.exe"));
    assert!(!is_worker_image("notepad.exe"));
    assert!(!is_worker_image(""));
}

#[test]
fn tasklist_csv_image_name_is_extracted() {
    let line = "\"chrome.exe\",\"1234\",\"Console\",\"1\",\"250,000 K\"";
    assert_eq!(parse_tasklist_image_name(line).as_deref(), Some("chrome.exe"));
    assert_eq!(parse_tasklist_image_name("").as_deref(), None);
    assert_eq!(
        parse_tasklist_image_name("INFO: No tasks are running which match the criteria.").as_deref(),
        None
    );
}

#[test]
fn normalizes_locale_aliases() {
    assert_eq!(normalize_supported_ui_language("ru-RU"), "ru");
    assert_eq!(normalize_supported_ui_language("ja-JP"), "ja");
    assert_eq!(normalize_supported_ui_language("ko-KR"), "ko");
    assert_eq!(normalize_supported_ui_language("zh-CN"), "zh");
    assert_eq!(normalize_supported_ui_language("fr-FR"), "en");
}

#[test]
fn all_locales_have_copy() {
    for locale in ["en", "ru", "ja", "ko", "zh"] {
        let copy = webview2_missing_dialog_copy(locale);
        assert!(!copy.title.is_empty());
        assert!(copy.body.contains(WEBVIEW2_DOWNLOAD_URL));
    }
}

#[test]
fn download_url_is_https_microsoft_link() {
    assert!(WEBVIEW2_DOWNLOAD_URL.starts_with("https://"));
    assert!(WEBVIEW2_DOWNLOAD_URL.contains("microsoft"));
}

#[test]
fn registry_version_is_trimmed_and_blank_is_absent() {
    assert_eq!(registry_pv_version("  124.0.2478.80 ").as_deref(), Some("124.0.2478.80"));
    assert_eq!(registry_pv_version("   "), None);
}

#[test]
fn registry_hit_wins_over_install_folder() {
    let v = installed_webview2_version(vec![None, Some("1.2".to_string())], Some(Some("9.9".to_string())));
    assert_eq!(v.as_deref(), Some("1.2"));
    let v = installed_webview2_version(vec![None], Some(None));
    assert_eq!(v.as_deref(), Some("unknown"));
    assert_eq!(installed_webview2_version(Vec::new(), None), None);
}

fn activity(
    focused: bool,
    visible: bool,
    runtime_active: bool,
    tts_enabled: bool,
    engines_busy: bool,
) -> WebviewActivity {
    WebviewActivity { focused, visible, runtime_active, tts_enabled, engines_busy }
}

#[test]
fn main_shell_focused_is_normal() {
    assert_eq!(
        resolve_power_action(WebviewRole::MainShell, activity(true, true, false, false, false)),
        WebviewPowerAction::Normal
    );
}

#[test]
fn main_shell_unfocused_is_low_memory() {
    assert_eq!(
        resolve_power_action(WebviewRole::MainShell, activity(false, true, true, true, false)),
        WebviewPowerAction::LowMemory
    );
}

#[test]
fn tts_busy_is_normal() {
    assert_eq!(
        resolve_power_action(WebviewRole::TtsModule, activity(false, false, true, true, true)),
        WebviewPowerAction::Normal
    );
}

#[test]
fn tts_listening_hidden_stays_normal() {
    assert_eq!(
        resolve_power_action(WebviewRole::TtsModule, activity(false, false, true, true, false)),
        WebviewPowerAction::Normal
    );
}

#[test]
fn tts_enabled_without_runtime_stays_normal() {
    assert_eq!(
        resolve_power_action(WebviewRole::TtsModule, activity(false, false, false, true, false)),
        WebviewPowerAction::Normal
    );
}

#[test]
fn tts_fully_idle_is_suspend() {
    assert_eq!(
        resolve_power_action(WebviewRole::TtsModule, activity(false, false, false, false, false)),
        WebviewPowerAction::Suspend
    );
}

#[test]
fn system_ui_language_follows_windows_langid() {
    assert_eq!(system_supported_ui_language(Some(0x0419)), "ru");
    assert_eq!(system_supported_ui_language(Some(0x0804)), "zh");
    assert_eq!(system_supported_ui_language(Some(0x0409)), "en");
    assert_eq!(system_supported_ui_language(None), "en");
}

#[test]
fn power_actions_map_to_webview_steps() {
    assert_eq!(
        power_steps(WebviewPowerAction::Normal),
        WebviewPowerSteps { resume_if_suspended: true, memory_target_low: Some(false), try_suspend: false }
    );
    assert_eq!(
        power_steps(WebviewPowerAction::LowMemory),
        WebviewPowerSteps { resume_if_suspended: true, memory_target_low: Some(true), try_suspend: false }
    );
    assert_eq!(
        power_steps(WebviewPowerAction::Suspend),
        WebviewPowerSteps { resume_if_suspended: false, memory_target_low: None, try_suspend: true }
    );
    assert_eq!(memory_usage_target_level(true), 1);
    assert_eq!(memory_usage_target_level(false), 0);
    assert!(power_failure_is_warning(WebviewPowerAction::LowMemory));
    assert!(!power_failure_is_warning(WebviewPowerAction::Suspend));
}

#[test]
fn normalizing_twice_equals_once_and_copy_follows_language() {
    for raw in ["  RU-ru ", "zh_TW", "fr-FR", "", "Ja", "ko"] {
        let once = normalize_supported_ui_language(raw);
        assert_eq!(normalize_supported_ui_language(once), once);
        assert_eq!(webview2_missing_dialog_copy(raw), webview2_missing_dialog_copy(once));
    }
}
