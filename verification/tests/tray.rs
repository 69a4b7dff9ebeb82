use razer_control::caps::{device_info, DeviceCaps};
use razer_control::comms::{set_acknowledged, DaemonResponse};
use razer_control::device::SupportedDevice;
use razer_control::fan::{fan_current_label, fan_presets, selected_preset_index};
use razer_control::menu::logo_label;
use razer_control::stats::parse_dgpu_fields;

fn test_device(name: &str, features: &[&str], fan: &[u16]) -> SupportedDevice {
    SupportedDevice {
        name: name.into(),
        vid: "1532".into(),
        pid: "0000".into(),
        features: features.iter().map(|f| f.to_string()).collect(),
        fan: fan.to_vec(),
    }
}

/// The numbers the caller reads from the temperature and power fields.
fn dgpu_stats(output: &str) -> (Option<f64>, Option<f64>, Option<u32>) {
    let f = parse_dgpu_fields(output);
    (
        f.temp.and_then(|t| t.parse::<f64>().ok()),
        f.power.and_then(|p| p.parse::<f64>().ok()),
        f.util,
    )
}

#[test]
fn set_commands_acknowledged_only_on_true_result() {
    assert!(set_acknowledged(&DaemonResponse::SetFanSpeed { result: true }));
    assert!(set_acknowledged(&DaemonResponse::SetLogoLedState { result: true }));
    assert!(!set_acknowledged(&DaemonResponse::SetFanSpeed { result: false }));
    assert!(!set_acknowledged(&DaemonResponse::SetLogoLedState { result: false }));
    // unexpected response variant is not an ack
    assert!(!set_acknowledged(&DaemonResponse::GetFanSpeed { rpm: 0 }));
}

#[test]
fn device_info_reads_fan_range_and_logo_feature() {
    let devices = [test_device("Blade 15", &["fan", "logo"], &[3200, 5200])];
    assert_eq!(
        device_info(&devices, "Blade 15"),
        Some(DeviceCaps { fan_min: 3200, fan_max: 5200, has_logo: true })
    );
}

#[test]
fn device_info_defaults_fan_range_when_entry_has_none() {
    let devices = [test_device("Blade 14", &["fan"], &[])];
    assert_eq!(device_info(&devices, "Blade 14"), Some(DeviceCaps::default()));
}

#[test]
fn device_info_is_none_when_device_not_in_list() {
    // Caller must be able to tell "unknown device" from "no fan data",
    // so it can log the mismatch
    let devices = [test_device("Blade 15", &["fan"], &[3200, 5200])];
    assert_eq!(device_info(&devices, "Blade 18"), None);
    assert_eq!(device_info(&[], "Blade 18"), None);
}

#[test]
fn presets_for_default_range() {
    let p = fan_presets(3500, 5000);
    assert_eq!(p, [
        (0,    "Auto"),
        (3900, "Low"),
        (4300, "Medium"),
        (4600, "High"),
        (5000, "Max"),
    ]);
}

#[test]
fn presets_snap_to_100_rpm_for_awkward_ranges() {
    for (min, max) in [(3100, 5300), (1000, 5500), (2300, 4700)] {
        for (rpm, label) in fan_presets(min, max) {
            assert_eq!(rpm % 100, 0,
                "{label} preset {rpm} for range ({min},{max}) is not a multiple of 100");
        }
    }
}

#[test]
fn preset_selection_is_exact_match_only() {
    let p = fan_presets(3500, 5000);
    assert_eq!(selected_preset_index(&p, Some(4300)), Some(2));
    assert_eq!(selected_preset_index(&p, Some(0)), Some(0)); // Auto
    assert_eq!(selected_preset_index(&p, Some(4000)), None); // no fuzzy matching
}

#[test]
fn no_preset_checked_when_fan_speed_unknown() {
    // Daemon unreachable must not look like Auto mode
    let p = fan_presets(3500, 5000);
    assert_eq!(selected_preset_index(&p, None), None);
}

#[test]
fn fan_label_shows_unknown_when_fan_speed_unknown() {
    let p = fan_presets(3500, 5000);
    assert_eq!(fan_current_label(&p, None, None, 3500, 5000), "…");
}

#[test]
fn fan_label_uses_preset_name_on_exact_match() {
    let p = fan_presets(3500, 5000);
    assert_eq!(fan_current_label(&p, Some(3), Some(4600), 3500, 5000), "High");
}

#[test]
fn fan_label_shows_percent_for_non_preset_rpm() {
    let p = fan_presets(3500, 5000);
    // (4000 - 3500) / 1500 = 33.3%
    assert_eq!(fan_current_label(&p, None, Some(4000), 3500, 5000), "33%");
}

#[test]
fn fan_label_percent_is_clamped_and_division_safe() {
    let p = fan_presets(3500, 5000);
    assert_eq!(fan_current_label(&p, None, Some(5400), 3500, 5000), "100%");
    assert_eq!(fan_current_label(&p, None, Some(3400), 3500, 5000), "0%");
    // degenerate range (min == max) must not divide by zero
    assert_eq!(fan_current_label(&[], None, Some(4000), 4000, 4000), "0%");
}

#[test]
fn fan_label_negative_rpm_reads_auto() {
    let p = fan_presets(3500, 5000);
    assert_eq!(fan_current_label(&p, None, Some(-1), 3500, 5000), "Auto");
}

#[test]
fn parses_combined_nvidia_smi_output() {
    assert_eq!(dgpu_stats("65, 35.50, 12\n"), (Some(65.0), Some(35.5), Some(12)));
}

#[test]
fn dgpu_fields_reported_as_not_available_become_none() {
    // nvidia-smi emits "[N/A]" per field, e.g. while the dGPU is asleep
    assert_eq!(dgpu_stats("65, [N/A], [N/A]\n"), (Some(65.0), None, None));
}

#[test]
fn garbage_or_empty_dgpu_output_yields_all_none() {
    assert_eq!(dgpu_stats(""), (None, None, None));
    assert_eq!(dgpu_stats("NVIDIA-SMI has failed\n"), (None, None, None));
}

#[test]
fn multi_gpu_output_uses_first_gpu() {
    assert_eq!(
        dgpu_stats("65, 35.50, 12\n48, 10.00, 3\n"),
        (Some(65.0), Some(35.5), Some(12))
    );
}

#[test]
fn logo_label_maps_known_states() {
    assert_eq!(logo_label(Some(0)), "Off");
    assert_eq!(logo_label(Some(1)), "On");
    assert_eq!(logo_label(Some(2)), "Breathing");
}

#[test]
fn logo_label_shows_unknown_marker_for_unknown_state() {
    // Unknown state must not assert "On" — the daemon may not have
    // responded yet, or the state may be out of range
    assert_eq!(logo_label(None), "…");
    assert_eq!(logo_label(Some(7)), "…");
}
