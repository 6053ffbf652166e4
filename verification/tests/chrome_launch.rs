use voicesub::chrome_flags::{
    chrome_anti_throttle_flags, chrome_disk_bloat_guard_flags, default_disabled_chrome_features,
    disabled_chrome_disk_bloat_features, disabled_chrome_features, disabled_chrome_features_csv,
    ensure_sst_launch_flags, finalize_chrome_launch_config, flag_present, forbidden_worker_launch_flags,
    sanitize_forbidden_launch_args, BrowserChromeLaunchConfig,
};
use voicesub::launch_config::{chrome_launch_from_config, string_list, ChromeLaunchSection};

/// Profile directory the worker launcher derives for the Chrome worker window.
const WORKER_PROFILE_DIR: &str = r"C:\VoiceSub\user-data\browser-worker-profile-classic-chrome";
const WORKER_URL: &str = "http://127.0.0.1:8765/google-asr?autostart=1";

fn contract_flag_present(args: &[String], required: &str) -> bool {
    let key = required.split('=').next().unwrap_or(required);
    args.iter().any(|arg| arg == required || arg == key || arg.starts_with(&format!("{key}=")))
}

#[test]
fn disabled_features_match_sst_launcher() {
    let csv = disabled_chrome_features_csv();
    for feature in disabled_chrome_features() {
        assert!(csv.contains(feature.as_str()), "missing disabled feature {feature}");
    }
}

#[test]
fn partial_launch_args_are_merged_with_sst_defaults() {
    let mut config = BrowserChromeLaunchConfig {
        launch_args: vec!["--new-window".to_string()],
        disabled_features: vec!["GlobalMediaControls".to_string()],
        extra_args: Vec::new(),
        use_high_priority: true,
    };
    finalize_chrome_launch_config(&mut config);
    for required in chrome_anti_throttle_flags() {
        assert!(flag_present(&config.launch_args, &required), "missing merged launch flag {required}");
    }
    for required in disabled_chrome_features() {
        assert!(
            config.disabled_features.iter().any(|f| *f == required),
            "missing merged disabled feature {required}"
        );
    }
}

#[test]
fn disk_bloat_guard_is_merged_into_partial_config() {
    let mut config = BrowserChromeLaunchConfig {
        launch_args: vec!["--new-window".to_string()],
        disabled_features: vec!["GlobalMediaControls".to_string()],
        extra_args: Vec::new(),
        use_high_priority: true,
    };
    finalize_chrome_launch_config(&mut config);
    for required in chrome_disk_bloat_guard_flags() {
        assert!(
            flag_present(&config.launch_args, &required),
            "missing merged disk bloat guard flag {required}"
        );
    }
    for required in disabled_chrome_disk_bloat_features() {
        assert!(
            config.disabled_features.iter().any(|f| *f == required),
            "missing merged disk bloat guard feature {required}"
        );
    }
}

#[test]
fn forbidden_worker_flags_are_stripped() {
    let mut args = vec![
        "--new-window".to_string(),
        "--disable-extensions".to_string(),
        "--app=http://evil".to_string(),
    ];
    sanitize_forbidden_launch_args(&mut args);
    assert_eq!(args, vec!["--new-window".to_string()]);
}

#[test]
fn launch_args_for_url_includes_profile_features_and_url() {
    let config = BrowserChromeLaunchConfig::default();
    let args = config.launch_args_for_url(WORKER_PROFILE_DIR, WORKER_URL);
    let joined = args.join(" ");
    for required in chrome_anti_throttle_flags() {
        assert!(flag_present(&args, &required), "launch argv missing {required}: {joined}");
    }
    assert!(args.iter().any(|a| a.starts_with("--user-data-dir=")));
    assert!(args.iter().any(|a| a.starts_with("--disable-features=")));
    assert!(args.last().is_some_and(|url| url.contains("/google-asr")));
    for forbidden in forbidden_worker_launch_flags() {
        assert!(
            !args.iter().any(|a| a.starts_with(forbidden.as_str())),
            "forbidden flag present: {forbidden}"
        );
    }
}

#[test]
fn sst_required_launch_flags_present_in_default_config() {
    let config = BrowserChromeLaunchConfig::default();
    for required in chrome_anti_throttle_flags() {
        assert!(
            contract_flag_present(&config.launch_args, &required),
            "missing default launch flag {required}"
        );
    }
}

#[test]
fn sst_disabled_features_present_in_default_config() {
    let config = BrowserChromeLaunchConfig::default();
    for feature in disabled_chrome_features() {
        assert!(
            config.disabled_features.iter().any(|f| *f == feature),
            "missing default disabled feature {feature}"
        );
    }
}

#[test]
fn launch_argv_matches_sst_worker_window_contract() {
    let config = BrowserChromeLaunchConfig::default();
    let args = config.launch_args_for_url(WORKER_PROFILE_DIR, WORKER_URL);
    for required in chrome_anti_throttle_flags() {
        assert!(contract_flag_present(&args, &required), "launch argv missing {required}");
    }
    assert!(args.iter().any(|a| a.starts_with("--user-data-dir=")));
    let disable_features = args
        .iter()
        .find(|a| a.starts_with("--disable-features="))
        .expect("--disable-features");
    for feature in disabled_chrome_features() {
        assert!(disable_features.contains(feature.as_str()), "disable-features missing {feature}");
    }
    for forbidden in forbidden_worker_launch_flags() {
        assert!(
            !args.iter().any(|a| a.starts_with(forbidden.as_str())),
            "forbidden worker flag present: {forbidden}"
        );
    }
    assert!(args.last().is_some_and(|url| url.contains("/google-asr")));
}

#[test]
fn disk_bloat_guard_flags_present_in_default_config() {
    let config = BrowserChromeLaunchConfig::default();
    for required in chrome_disk_bloat_guard_flags() {
        assert!(
            contract_flag_present(&config.launch_args, &required),
            "missing disk bloat guard launch flag {required}"
        );
    }
    for feature in disabled_chrome_disk_bloat_features() {
        assert!(
            config.disabled_features.iter().any(|f| *f == feature),
            "missing disk bloat guard disabled feature {feature}"
        );
    }
}

#[test]
fn launch_argv_includes_disk_bloat_guard() {
    let config = BrowserChromeLaunchConfig::default();
    let args = config.launch_args_for_url(WORKER_PROFILE_DIR, WORKER_URL);
    for required in chrome_disk_bloat_guard_flags() {
        assert!(
            contract_flag_present(&args, &required),
            "launch argv missing disk bloat guard flag {required}"
        );
    }
    let disable_features = args
        .iter()
        .find(|a| a.starts_with("--disable-features="))
        .expect("--disable-features");
    for feature in disabled_chrome_disk_bloat_features() {
        assert!(
            disable_features.contains(feature.as_str()),
            "disable-features missing disk bloat guard feature {feature}"
        );
    }
}

#[test]
fn high_priority_defaults_on_like_sst() {
    let config = BrowserChromeLaunchConfig::default();
    assert!(config.use_high_priority);
}

#[test]
fn finalize_strips_forbidden_flags_from_extra_args() {
    let mut config = BrowserChromeLaunchConfig {
        launch_args: BrowserChromeLaunchConfig::default().launch_args,
        disabled_features: default_disabled_chrome_features(),
        extra_args: vec!["--disable-extensions".to_string(), "--bwsi".to_string()],
        use_high_priority: true,
    };
    finalize_chrome_launch_config(&mut config);
    assert!(config.extra_args.is_empty());
}

#[test]
fn launch_argv_ends_with_profile_features_and_url_in_order() {
    let config = BrowserChromeLaunchConfig::default();
    let args = config.launch_args_for_url("/tmp/profile", "http://localhost/x");
    let n = args.len();
    assert_eq!(args[n - 3], "--user-data-dir=/tmp/profile");
    assert_eq!(args[n - 2], format!("--disable-features={}", config.disabled_features_csv()));
    assert_eq!(args[n - 1], "http://localhost/x");
}

#[test]
fn finalize_is_idempotent_on_default_config() {
    let mut once = BrowserChromeLaunchConfig::default();
    finalize_chrome_launch_config(&mut once);
    let mut twice = once.clone();
    finalize_chrome_launch_config(&mut twice);
    assert_eq!(once.launch_args, twice.launch_args);
    assert_eq!(once.disabled_features, twice.disabled_features);
}

fn section() -> ChromeLaunchSection {
    ChromeLaunchSection {
        launch_args: None,
        disabled_features: None,
        extra_args: None,
        use_high_priority: None,
        stability_profile: None,
    }
}

fn texts(items: &[&str]) -> Option<Vec<Option<String>>> {
    Some(items.iter().map(|s| Some(s.to_string())).collect())
}

#[test]
fn uses_defaults_when_section_missing() {
    let cfg = chrome_launch_from_config(None, None, None, None);
    assert!(cfg.use_high_priority);
    assert!(cfg.launch_args.contains(&"--disable-background-timer-throttling".to_string()));
}

#[test]
fn reads_extra_args_from_config() {
    let mut sec = section();
    sec.extra_args = texts(&["--mute-audio"]);
    sec.use_high_priority = Some(false);
    let cfg = chrome_launch_from_config(Some(sec), None, None, None);
    assert!(!cfg.use_high_priority);
    assert!(cfg.extra_args.contains(&"--mute-audio".to_string()));
}

#[test]
fn partial_config_from_json_is_merged_with_sst_defaults() {
    let mut sec = section();
    sec.launch_args = texts(&["--new-window"]);
    sec.disabled_features = texts(&["GlobalMediaControls"]);
    let cfg = chrome_launch_from_config(Some(sec), None, None, None);
    assert!(cfg.launch_args.contains(&"--disable-background-timer-throttling".to_string()));
    assert!(cfg.disabled_features.iter().any(|f| f == "CalculateNativeWinOcclusion"));
}

#[test]
fn partial_config_merge_restores_full_sst_flag_set() {
    let mut sec = section();
    sec.launch_args = texts(&["--new-window"]);
    sec.disabled_features = texts(&["GlobalMediaControls"]);
    let cfg = chrome_launch_from_config(Some(sec), None, None, None);
    for required in chrome_anti_throttle_flags() {
        assert!(contract_flag_present(&cfg.launch_args, &required), "partial config missing launch flag {required}");
    }
    for feature in disabled_chrome_features() {
        assert!(cfg.disabled_features.iter().any(|f| *f == feature), "partial config missing disabled feature {feature}");
    }
}

#[test]
fn stability_profile_from_config() {
    let mut sec = section();
    sec.stability_profile = Some(true);
    let cfg = chrome_launch_from_config(Some(sec), None, None, None);
    assert!(!cfg.use_high_priority);
    assert!(cfg.extra_args.iter().any(|arg| arg == "--disable-gpu"));
}

#[test]
fn config_string_lists_are_trimmed() {
    assert_eq!(
        string_list(&Some(vec![Some(" --a ".into()), None, Some("   ".into()), Some("--b".into())])),
        Some(vec!["--a".to_string(), "--b".to_string()])
    );
    assert_eq!(string_list(&Some(vec![None, Some(" ".into())])), None);
    assert_eq!(string_list(&None), None);
    let mut sec = section();
    sec.launch_args = Some(vec![Some("  ".into())]);
    let cfg = chrome_launch_from_config(Some(sec), None, None, None);
    assert!(cfg.launch_args.contains(&"--disable-background-timer-throttling".to_string()));
}

#[test]
fn sst_launch_flags_keep_caller_args_first_and_settle() {
    let mut args = vec!["--window-size=1280,720".to_string(), "--no-first-run".to_string()];
    ensure_sst_launch_flags(&mut args);
    assert_eq!(args[0], "--window-size=1280,720");
    assert_eq!(args[1], "--no-first-run");
    assert_eq!(args.len(), 10);
    assert!(!args[2..].iter().any(|a| a == "--no-first-run" || a.starts_with("--window-size")));
    let once = args.clone();
    ensure_sst_launch_flags(&mut args);
    assert_eq!(args, once);
}

#[test]
fn finalize_twice_equals_once_on_custom_config() {
    let mut once = BrowserChromeLaunchConfig {
        launch_args: vec!["--app=http://x".to_string(), "--lang=ru".to_string()],
        disabled_features: vec!["Foo".to_string()],
        extra_args: vec!["--bwsi".to_string(), "--mute-audio".to_string()],
        use_high_priority: false,
    };
    finalize_chrome_launch_config(&mut once);
    let mut twice = once.clone();
    finalize_chrome_launch_config(&mut twice);
    assert_eq!(once.launch_args, twice.launch_args);
    assert_eq!(once.disabled_features, twice.disabled_features);
    assert_eq!(once.extra_args, twice.extra_args);
    assert_eq!(once.extra_args, vec!["--mute-audio".to_string()]);
    assert!(!twice.use_high_priority);
}

#[test]
fn only_missing_sst_flags_are_appended_in_order() {
    let mut args = vec!["--lang=ru".to_string(), "--noerrdialogs".to_string(), "--new-window".to_string()];
    ensure_sst_launch_flags(&mut args);
    let expected: Vec<String> = chrome_anti_throttle_flags()
        .into_iter()
        .filter(|f| f != "--noerrdialogs" && f != "--new-window")
        .collect();
    assert_eq!(&args[..3], &["--lang=ru".to_string(), "--noerrdialogs".to_string(), "--new-window".to_string()]);
    assert_eq!(args[3..].to_vec(), expected);
}

#[test]
fn finalize_keeps_surviving_arguments_in_order() {
    let mut config = BrowserChromeLaunchConfig {
        launch_args: vec!["--lang=ru".to_string(), "--bwsi".to_string(), "--mute-audio".to_string()],
        disabled_features: vec!["Zed".to_string(), "Alpha".to_string()],
        extra_args: vec!["--b".to_string(), "--app=x".to_string(), "--a".to_string()],
        use_high_priority: true,
    };
    finalize_chrome_launch_config(&mut config);
    assert_eq!(&config.launch_args[..2], &["--lang=ru".to_string(), "--mute-audio".to_string()]);
    assert_eq!(&config.disabled_features[..2], &["Zed".to_string(), "Alpha".to_string()]);
    assert_eq!(config.extra_args, vec!["--b".to_string(), "--a".to_string()]);
}
