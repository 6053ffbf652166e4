use voicesub::device_names::{device_label_for, list_input_devices, names_match, names_match_ignore_ascii_case, resolve_input_device, InputDeviceInfo};
use voicesub::model_manager::{
    build_model_catalog, manifest_matches_spec, model_download_total, model_dir_looks_complete, resolve_model_dir, VariantSpec,
    file_manifest_entry, folder_digest, hex_digest, is_part_file_name, required_file_min_bytes,
    write_manifest, ModelError, ModelManifestFile, ModelVariant, MANIFEST_FULL_HASH_MAX_BYTES,
};
use voicesub::process_stats::{collect_resource_telemetry, ProcessResourceSnapshot, ResourceTelemetry};

#[test]
fn parses_model_variants() {
    assert_eq!(ModelVariant::parse("INT8"), Some(ModelVariant::Int8));
    assert_eq!(ModelVariant::parse("fp32"), Some(ModelVariant::Fp32));
    assert_eq!(ModelVariant::parse("int8_smoothquant"), Some(ModelVariant::Int8Smoothquant));
    assert!(ModelVariant::parse("unknown").is_none());
}

#[test]
fn smoothquant_variant_uses_olicorne_repo() {
    let variant = ModelVariant::Int8Smoothquant;
    assert_eq!(variant.hf_repo(), "Olicorne/parakeet-tdt-0.6b-v3-smoothquant-onnx");
    assert_eq!(variant.source_author(), "Olicorne");
}

#[test]
fn istupakov_variants_use_primary_repo() {
    assert_eq!(ModelVariant::Int8.hf_repo(), "istupakov/parakeet-tdt-0.6b-v3-onnx");
    assert_eq!(ModelVariant::Fp32.hf_repo(), "istupakov/parakeet-tdt-0.6b-v3-onnx");
    assert_eq!(ModelVariant::Int8.source_author(), "istupakov");
}

#[test]
fn variant_names_round_trip() {
    for v in [ModelVariant::Int8, ModelVariant::Fp32, ModelVariant::Int8Smoothquant] {
        assert_eq!(ModelVariant::parse(v.as_str()), Some(v));
    }
}

#[test]
fn min_sizes_follow_file_kind() {
    assert_eq!(required_file_min_bytes("encoder-model.int8.onnx"), 1_000);
    assert_eq!(required_file_min_bytes("encoder-model.onnx.data"), 1_000_000);
    assert_eq!(required_file_min_bytes("vocab.txt"), 32);
    assert!(is_part_file_name("encoder.onnx.part"));
    assert!(!is_part_file_name("encoder.onnx"));
}

#[test]
fn hex_digest_is_lowercase_two_digits_per_byte() {
    assert_eq!(hex_digest(&[0x00, 0x0f, 0xab, 0xff]), "000fabff");
}

#[test]
fn small_files_hash_in_full_and_large_ones_use_size() {
    let small = file_manifest_entry("vocab.txt", 3, b"abc");
    assert_eq!(small.sha256, "ba7816bf8f01cfea414140de5dae2223b00361a396177a9cb410ff61f20015ad");
    let large = file_manifest_entry("encoder.onnx", MANIFEST_FULL_HASH_MAX_BYTES + 1, &[]);
    assert_eq!(large.sha256, format!("size:{}", MANIFEST_FULL_HASH_MAX_BYTES + 1));
}

#[test]
fn manifest_entries_are_sorted_and_fingerprinted() {
    let files = vec![
        ModelManifestFile { name: "vocab.txt".into(), sha256: "aa".into(), size_bytes: 40 },
        ModelManifestFile { name: "decoder.onnx".into(), sha256: "bb".into(), size_bytes: 2_000 },
    ];
    let manifest = write_manifest("parakeet_tdt", "int8", "istupakov/parakeet-tdt-0.6b-v3-onnx", files);
    assert_eq!(manifest.files[0].name, "decoder.onnx");
    assert_eq!(manifest.files[1].name, "vocab.txt");
    assert_eq!(manifest.folder_sha256.len(), 64);
    assert_eq!(manifest.folder_sha256, folder_digest(&manifest.files));
    let reordered = folder_digest(&vec![
        ModelManifestFile { name: "vocab.txt".into(), sha256: "aa".into(), size_bytes: 40 },
        ModelManifestFile { name: "decoder.onnx".into(), sha256: "bb".into(), size_bytes: 2_000 },
    ]);
    assert_ne!(reordered, manifest.folder_sha256);
}

#[test]
fn model_error_messages() {
    assert_eq!(ModelError::UnknownVariant("x".into()).message(), "unknown model variant: x");
    assert_eq!(ModelError::Cancelled.message(), "download cancelled");
}

#[test]
fn names_match_partial() {
    assert!(names_match("Speakers (Realtek Audio)", "Speakers (Realtek Audio) (default)"));
}

#[test]
fn names_match_is_case_insensitive_and_rejects_unrelated() {
    assert!(names_match("HEADPHONES", "headphones"));
    assert!(!names_match("Speakers", "Headphones"));
    assert!(names_match_ignore_ascii_case("OBS64.EXE", "obs64.exe"));
    assert!(!names_match_ignore_ascii_case("obs64.exe", "obs.exe"));
}

fn snap(pid: u32, name: &str, commit: u64) -> ProcessResourceSnapshot {
    ProcessResourceSnapshot { pid, name: name.into(), handle_count: 1, commit_bytes: commit, working_set_bytes: 0 }
}

#[test]
fn resource_telemetry_keeps_largest_watched_process_per_name() {
    let found = vec![
        (0, Some(snap(0, "obs64.exe", 99))),
        (10, Some(snap(10, "voicesub-app.exe", 5))),
        (11, Some(snap(11, "OBS64.EXE", 7))),
        (12, Some(snap(12, "obs64.exe", 9))),
        (13, Some(snap(13, "notepad.exe", 50))),
        (14, None),
        (42, Some(snap(42, "voicesub-app.exe", 500))),
    ];
    let t = collect_resource_telemetry(42, None, found);
    assert_eq!(t.self_process.pid, 42);
    assert_eq!(t.self_process.name, "tts-module");
    let names: Vec<(&str, u64)> = t.watched.iter().map(|s| (s.name.as_str(), s.commit_bytes)).collect();
    assert_eq!(names, vec![("obs64.exe", 9), ("voicesub-app.exe", 5)]);
}

#[test]
fn resource_telemetry_default_is_unknown() {
    let t = ResourceTelemetry::default();
    assert_eq!(t.self_process.name, "unknown");
    assert!(t.watched.is_empty());
}

fn required() -> Vec<String> {
    vec!["encoder-model.int8.onnx".into(), "decoder_joint-model.int8.onnx".into(), "vocab.txt".into()]
}

#[test]
fn install_check_requires_every_file_at_its_floor() {
    let names: Vec<String> = required();
    let full = vec![Some(2_000), Some(1_000), Some(32)];
    assert!(model_dir_looks_complete(true, "int8", &names, &required(), &full, None, "int8"));
    let stubs = vec![Some(1), Some(1), Some(1)];
    assert!(!model_dir_looks_complete(true, "int8", &names, &required(), &stubs, None, "int8"), "tiny stubs must not count as installed");
    let missing = vec![Some(2_000), None, Some(32)];
    assert!(!model_dir_looks_complete(true, "int8", &names, &required(), &missing, None, "int8"));
    assert!(!model_dir_looks_complete(false, "int8", &names, &required(), &full, None, "int8"));
    assert!(!model_dir_looks_complete(true, "int8.pending_delete", &names, &required(), &full, None, "int8"));
}

#[test]
fn install_check_rejects_part_files() {
    let mut names = required();
    names.push("encoder-model.int8.onnx.part".into());
    let full = vec![Some(2_000), Some(1_000), Some(32)];
    assert!(!model_dir_looks_complete(true, "int8", &names, &required(), &full, None, "int8"));
}

#[test]
fn stored_manifest_must_agree_with_variant() {
    let files: Vec<ModelManifestFile> = required()
        .into_iter()
        .map(|name| {
            let size = required_file_min_bytes(&name);
            ModelManifestFile { name, sha256: "00".into(), size_bytes: size }
        })
        .collect();
    let manifest = write_manifest("parakeet_tdt", "INT8", "istupakov/parakeet-tdt-0.6b-v3-onnx", files);
    assert!(manifest_matches_spec(&manifest, "int8", &required()));
    assert!(!manifest_matches_spec(&manifest, "fp32", &required()));
    let mut more = required();
    more.push("config.json".into());
    assert!(!manifest_matches_spec(&manifest, "int8", &more));
    let full = vec![Some(2_000), Some(1_000), Some(32)];
    assert!(model_dir_looks_complete(true, "int8", &required(), &required(), &full, Some(&manifest), "int8"));
    assert!(!model_dir_looks_complete(true, "fp32", &required(), &required(), &full, Some(&manifest), "fp32"));
}

#[test]
fn resolve_model_dir_ignores_stale_path_for_other_variant() {
    assert_eq!(resolve_model_dir("  /m/fp32 ", "/m/int8_smoothquant", false), "/m/int8_smoothquant");
    assert_eq!(resolve_model_dir("  /m/fp32 ", "/m/fp32", true), "/m/fp32");
    assert_eq!(resolve_model_dir("   ", "/m/int8", true), "/m/int8");
}

fn specs() -> Vec<VariantSpec> {
    vec![
        VariantSpec { variant: "int8".into(), size_mb: 650, author: "istupakov".into() },
        VariantSpec { variant: "fp32".into(), size_mb: 2_500, author: "istupakov".into() },
        VariantSpec { variant: "int8_smoothquant".into(), size_mb: 650, author: "Olicorne".into() },
    ]
}

#[test]
fn model_catalog_reports_install_state() {
    let catalog = build_model_catalog("parakeet_tdt", &specs(), &vec![false, false, false], true, "int8");
    assert_eq!(catalog.len(), 3);
    assert!(!catalog[0].installed);
    assert_eq!(catalog[2].variant, "int8_smoothquant");
    assert_eq!(catalog[2].source_author, "Olicorne");
    let catalog = build_model_catalog("parakeet_tdt", &specs(), &vec![true, false, false], true, " INT8 ");
    assert!(catalog.iter().any(|e| e.variant == "int8" && e.installed && e.active && e.family == "parakeet_tdt"));
    assert!(catalog.iter().any(|e| e.variant == "fp32" && !e.installed && !e.active));
    let other_family = build_model_catalog("parakeet_tdt", &specs(), &vec![true, false, false], false, "int8");
    assert!(other_family.iter().all(|e| !e.active));
}

#[test]
fn list_input_devices_includes_default_row() {
    let devices = list_input_devices(&vec!["USB Mic".into(), "Line In".into()], Some("Line In"));
    assert!(devices.first().is_some_and(|entry| entry.is_default && entry.id.is_empty()), "expected synthetic default row");
}

#[test]
fn input_device_list_skips_repeated_names() {
    let devices = list_input_devices(&vec!["USB Mic".into(), "USB Mic".into(), "".into(), "Line In".into()], Some("USB Mic"));
    assert_eq!(
        devices,
        vec![
            InputDeviceInfo { id: "".into(), label: "Default".into(), is_default: true },
            InputDeviceInfo { id: "USB Mic".into(), label: "USB Mic".into(), is_default: true },
            InputDeviceInfo { id: "Line In".into(), label: "Line In".into(), is_default: false },
        ]
    );
}

#[test]
fn input_device_resolution_prefers_exact_then_partial_names() {
    let names = vec![Some("Microphone (USB Audio)".to_string()), None, Some("usb".to_string())];
    assert_eq!(resolve_input_device("  ", &names), None);
    assert_eq!(resolve_input_device(" USB ", &names), Some(2));
    assert_eq!(resolve_input_device("microphone", &names), Some(0));
    assert_eq!(resolve_input_device("Headset", &names), None);
}

#[test]
fn configured_microphone_label() {
    let devices = list_input_devices(&vec!["USB Mic".into()], None);
    assert_eq!(device_label_for(&devices, "USB Mic"), "USB Mic");
    assert_eq!(device_label_for(&devices, ""), "Default");
    assert_eq!(device_label_for(&devices, "  "), "Default");
    assert_eq!(device_label_for(&devices, "Gone"), "Gone");
}

#[test]
fn model_download_total_prefers_larger_measurement() {
    assert_eq!(model_download_total(650, &vec![]), Some(650 * 1_048_576));
    assert_eq!(model_download_total(0, &vec![]), None);
    assert_eq!(model_download_total(1, &vec![2_000_000]), Some(2_000_000));
    assert_eq!(model_download_total(1, &vec![500, 600]), Some(1_048_576));
    assert_eq!(model_download_total(1, &vec![u64::MAX, 5]), Some(u64::MAX));
}
