use razer_control::caps::{
    caps_from_parts, CapsAction, CapsLookup, caps_from_response, device_caps_or_default, device_name_from_response, DeviceCaps,
};
use razer_control::comms::{
    socket_path_from, socket_setup, DaemonCommand, DaemonResponse, SocketSetup,
};
use razer_control::device::{device_file_path_from, SupportedDevice, DEFAULT_FAN_MAX, DEFAULT_FAN_MIN};
use razer_control::fan::{fan_current_label, fan_presets, selected_preset_index};
use razer_control::menu::tray_menu;
use razer_control::poll::{
    ac_index, DaemonState, fan_click_command, fan_speed_after_click, logo_click_command, logo_state_after_click,
    PollRound, PollStage, UpdateTracker,
};
use razer_control::power::{rapl_delta, RaplSample};
use razer_control::readings::{format_lines, has_data, SensorReadings, Watts};
use razer_control::stats::{cpu_ticks, cpu_times, parse_dgpu_fields, CpuTimes};
use razer_control::text::fmt_i64;
use razer_control::sysfs::{
    battery_draw, cpu_sensor, igpu_sensor, trimmed_is, trimmed_text, trimmed_u32, trimmed_u64, trimmed_u8,
};

fn device(name: &str, features: &[&str], fan: &[u16]) -> SupportedDevice {
    SupportedDevice {
        name: name.into(),
        vid: "1532".into(),
        pid: "0000".into(),
        features: features.iter().map(|f| f.to_string()).collect(),
        fan: fan.to_vec(),
    }
}

fn empty_readings() -> SensorReadings {
    SensorReadings {
        cpu_temp: None,
        igpu_temp: None,
        dgpu_temp: None,
        fan_speed: None,
        on_ac: None,
        battery_pct: None,
        battery_status: None,
        battery_power: None,
        system_power: None,
        cpu_util: None,
        igpu_power: None,
        igpu_util: None,
        dgpu_power: None,
        dgpu_util: None,
        logo_state: None,
        caps: DeviceCaps::default(),
    }
}

fn watts(tenths: &str, whole: &str) -> Watts {
    Watts { tenths: tenths.into(), whole: whole.into() }
}

// --- paths ---

#[test]
fn socket_path_prefers_runtime_dir() {
    assert_eq!(socket_path_from(Some("/run/user/1000".into())), "/run/user/1000/razercontrol-socket");
    assert_eq!(socket_path_from(None), "/tmp/razercontrol-socket");
}

#[test]
fn device_file_path_honours_override() {
    assert_eq!(device_file_path_from(Some("/opt/laptops.json".into())), "/opt/laptops.json");
    assert_eq!(device_file_path_from(None), "/usr/share/razercontrol/laptops.json");
}

#[test]
fn socket_setup_covers_each_case() {
    assert_eq!(socket_setup(false, false), SocketSetup::Bind);
    assert_eq!(socket_setup(false, true), SocketSetup::Bind);
    assert_eq!(socket_setup(true, true), SocketSetup::Refuse);
    assert_eq!(socket_setup(true, false), SocketSetup::RemoveStaleThenBind);
}

// --- devices and capabilities ---

#[test]
fn device_features_are_matched_exactly() {
    let d = device("Blade 15", &["boost", "logo"], &[3200, 5200]);
    assert!(d.has_feature("boost"));
    assert!(d.can_boost());
    assert!(d.has_logo());
    assert!(!d.has_feature("boo"));
    let plain = device("Blade 14", &["fan"], &[]);
    assert!(!plain.can_boost());
    assert!(!plain.has_logo());
}

#[test]
fn caps_take_fan_values_one_by_one() {
    let features = vec!["logo".to_string()];
    assert_eq!(
        caps_from_parts(&features, &[2000, 4000, 9999]),
        DeviceCaps { fan_min: 2000, fan_max: 4000, has_logo: true }
    );
    assert_eq!(
        caps_from_parts(&[], &[2000]),
        DeviceCaps { fan_min: 2000, fan_max: DEFAULT_FAN_MAX, has_logo: false }
    );
    assert_eq!(
        caps_from_parts(&[], &[]),
        DeviceCaps { fan_min: DEFAULT_FAN_MIN, fan_max: DEFAULT_FAN_MAX, has_logo: false }
    );
}

#[test]
fn first_matching_device_wins() {
    let devices = [
        device("Blade 15", &["fan"], &[3000, 4000]),
        device("Blade 15", &["logo"], &[3200, 5200]),
    ];
    assert_eq!(
        device_caps_or_default(&devices, "Blade 15"),
        (DeviceCaps { fan_min: 3000, fan_max: 4000, has_logo: false }, true)
    );
    assert_eq!(device_caps_or_default(&devices, "Blade 18"), (DeviceCaps::default(), false));
}

#[test]
fn capabilities_answer_gives_caps() {
    let resp = DaemonResponse::GetDeviceCapabilities {
        name: "Blade 16".into(),
        features: vec!["logo".into()],
        fan: vec![2500, 5000],
    };
    assert_eq!(
        caps_from_response(Some(resp)),
        Some(DeviceCaps { fan_min: 2500, fan_max: 5000, has_logo: true })
    );
    assert_eq!(caps_from_response(Some(DaemonResponse::GetFanSpeed { rpm: 1 })), None);
    assert_eq!(caps_from_response(None), None);
}

#[test]
fn device_name_answer_gives_name() {
    assert_eq!(
        device_name_from_response(Some(DaemonResponse::GetDeviceName { name: "Blade 15".into() })),
        Some("Blade 15".to_string())
    );
    assert_eq!(device_name_from_response(Some(DaemonResponse::SetSync { result: true })), None);
    assert_eq!(device_name_from_response(None), None);
}

// --- fan presets and labels ---

#[test]
fn presets_follow_quarter_points_of_range() {
    let p = fan_presets(1000, 5500);
    assert_eq!(p, [(0, "Auto"), (2100, "Low"), (3300, "Medium"), (4400, "High"), (5500, "Max")]);
}

#[test]
fn presets_are_ordered_between_min_and_max() {
    for (min, max) in [(3500, 5000), (3100, 5300), (0, 100), (4000, 4000)] {
        let p = fan_presets(min, max);
        for i in 1..4 {
            assert!(p[i].0 <= p[i + 1].0, "range ({min},{max})");
        }
    }
}

#[test]
fn fan_label_rounds_as_the_float_formula_does() {
    // 1/8 of the range is exactly 12.5% and rounds up
    assert_eq!(fan_current_label(&[], None, Some(3501), 3500, 3508), "13%");
    // 29/200 is 14.5% on paper but just below it in binary floating point
    assert_eq!(fan_current_label(&[], None, Some(3529), 3500, 3700), "14%");
    assert_eq!(fan_current_label(&[], None, Some(3614), 3500, 3700), "57%");
    assert_eq!(fan_current_label(&[], None, Some(4100), 3500, 5000), "40%");
}

#[test]
fn selected_preset_is_first_exact_match() {
    let p = [(0, "Auto"), (4000, "Low"), (4000, "Medium"), (4500, "High"), (5000, "Max")];
    assert_eq!(selected_preset_index(&p, Some(4000)), Some(1));
    assert_eq!(selected_preset_index(&p, Some(4001)), None);
}

// --- tooltip ---

#[test]
fn tooltip_without_readings_shows_app_name() {
    let r = empty_readings();
    assert!(!has_data(&r));
    assert_eq!(format_lines(&r), "Razer Control");
}

#[test]
fn tooltip_merges_component_readings() {
    let mut r = empty_readings();
    r.cpu_temp = Some("65".into());
    r.system_power = Some(watts("12.3", "12"));
    r.cpu_util = Some(40);
    r.dgpu_util = Some(3);
    r.fan_speed = Some(0);
    r.on_ac = Some(true);
    r.battery_pct = Some(80);
    r.battery_status = Some("Charging".into());
    r.battery_power = Some(watts("25.0", "25"));
    assert!(has_data(&r));
    assert_eq!(
        format_lines(&r),
        "CPU: 65\u{00B0}C \u{00B7} 12.3W \u{00B7} 40%\ndGPU: 3%\nFan: Auto\nAC / 80% +25.0W"
    );
}

#[test]
fn tooltip_shows_charge_limit_and_discharge() {
    let mut r = empty_readings();
    r.fan_speed = Some(4200);
    r.on_ac = Some(true);
    r.battery_pct = Some(80);
    r.battery_status = Some("Not charging".into());
    r.battery_power = Some(watts("1.0", "1"));
    assert_eq!(format_lines(&r), "Fan: 4200 RPM\nAC / 80% (Limit)");

    let mut b = empty_readings();
    b.on_ac = Some(false);
    b.battery_pct = Some(55);
    b.battery_power = Some(watts("7.5", "8"));
    assert_eq!(format_lines(&b), "Battery 55% \u{2212}7.5W");

    let mut a = empty_readings();
    a.on_ac = Some(true);
    assert_eq!(format_lines(&a), "AC Power");
    a.on_ac = Some(false);
    assert_eq!(format_lines(&a), "Battery");
}

#[test]
fn utilisation_alone_is_no_data() {
    let mut r = empty_readings();
    r.cpu_util = Some(10);
    assert!(!has_data(&r));
    assert_eq!(format_lines(&r), "CPU: 10%");
}

// --- menu ---

#[test]
fn menu_shows_presets_and_status() {
    let mut r = empty_readings();
    r.fan_speed = Some(4300);
    r.cpu_temp = Some("70".into());
    r.cpu_util = Some(12);
    r.on_ac = Some(false);
    r.battery_pct = Some(64);
    r.battery_power = Some(watts("9.6", "10"));
    let m = tray_menu(&r);
    assert_eq!(m.fan_header, "Fan Speed  \u{00B7}  Medium");
    let labels: Vec<&str> = m.fan_choices.iter().map(|c| c.label).collect();
    assert_eq!(labels, ["Auto", "Low", "Medium", "High", "Max"]);
    let checked: Vec<bool> = m.fan_choices.iter().map(|c| c.checked).collect();
    assert_eq!(checked, [false, false, true, false, false]);
    assert_eq!(m.fan_choices[4].rpm, 5000);
    assert_eq!(m.logo_header, None);
    assert!(m.logo_choices.is_empty());
    assert_eq!(
        m.status_lines,
        ["CPU  70\u{00B0}C \u{00B7} 12%", "Battery  64%  \u{00B7}  \u{2212}10W"]
    );
}

#[test]
fn menu_offers_logo_modes_on_logo_devices() {
    let mut r = empty_readings();
    r.caps = DeviceCaps { fan_min: 3500, fan_max: 5000, has_logo: true };
    r.logo_state = Some(2);
    r.fan_speed = Some(4000);
    r.on_ac = Some(true);
    r.battery_pct = Some(90);
    r.battery_status = Some("Charging".into());
    r.battery_power = Some(watts("30.4", "30"));
    let m = tray_menu(&r);
    assert_eq!(m.fan_header, "Fan Speed  \u{00B7}  33%");
    assert!(m.fan_choices.iter().all(|c| !c.checked));
    assert_eq!(m.logo_header, Some("Logo  \u{00B7}  Breathing".to_string()));
    let modes: Vec<(u8, &str, bool)> = m.logo_choices.iter().map(|c| (c.mode, c.label, c.checked)).collect();
    assert_eq!(modes, [(0, "Off", false), (1, "On", false), (2, "Breathing", true)]);
    assert_eq!(m.status_lines, ["Battery  90%  \u{00B7}  AC +30W"]);
}

// --- daemon polling and clicks ---

#[test]
fn clicks_address_active_profile() {
    assert_eq!(ac_index(Some(false)), 0);
    assert_eq!(ac_index(Some(true)), 1);
    assert_eq!(ac_index(None), 1);
    assert_eq!(fan_click_command(Some(false), 4300), DaemonCommand::SetFanSpeed { ac: 0, rpm: 4300 });
    assert_eq!(logo_click_command(None, 1), DaemonCommand::SetLogoLedState { ac: 1, logo_state: 1 });
}

#[test]
fn click_updates_state_only_when_acknowledged() {
    let ok = Some(DaemonResponse::SetFanSpeed { result: true });
    let refused = Some(DaemonResponse::SetFanSpeed { result: false });
    assert_eq!(fan_speed_after_click(Some(0), 4300, &ok), Some(4300));
    assert_eq!(fan_speed_after_click(Some(0), 4300, &refused), Some(0));
    assert_eq!(fan_speed_after_click(None, 4300, &None), None);
    let logo_ok = Some(DaemonResponse::SetLogoLedState { result: true });
    assert_eq!(logo_state_after_click(Some(0), 1, &logo_ok), Some(1));
    let other = Some(DaemonResponse::GetLogoLedState { logo_state: 1 });
    assert_eq!(logo_state_after_click(Some(0), 1, &other), Some(0));
}

#[test]
fn combined_answer_settles_round() {
    let mut round = PollRound::start(Some(false), true);
    assert_eq!(round.next_request(), Some(DaemonCommand::GetFanSpeedAndLogo { ac: 0 }));
    round.receive(Some(DaemonResponse::GetFanSpeedAndLogo { rpm: 4300, logo_state: 1 }));
    assert_eq!(round.next_request(), None);
    assert_eq!((round.fan_speed, round.logo_state), (Some(4300), Some(1)));
}

#[test]
fn older_daemon_gets_legacy_queries() {
    let mut round = PollRound::start(None, true);
    round.receive(None);
    assert_eq!(round.next_request(), Some(DaemonCommand::GetFanSpeed { ac: 1 }));
    round.receive(Some(DaemonResponse::GetFanSpeed { rpm: 0 }));
    assert_eq!(round.next_request(), Some(DaemonCommand::GetLogoLedState { ac: 1 }));
    round.receive(Some(DaemonResponse::GetLogoLedState { logo_state: 2 }));
    assert_eq!(round.stage, PollStage::Done);
    assert_eq!((round.fan_speed, round.logo_state), (Some(0), Some(2)));

    let mut no_logo = PollRound::start(Some(true), false);
    no_logo.receive(Some(DaemonResponse::Unsupported { feature: "x".into(), device: "y".into() }));
    no_logo.receive(Some(DaemonResponse::SetSync { result: true }));
    assert_eq!(no_logo.next_request(), None);
    assert_eq!((no_logo.fan_speed, no_logo.logo_state), (None, None));
}

#[test]
fn logo_state_ignored_without_logo() {
    let mut round = PollRound::start(Some(true), false);
    round.receive(Some(DaemonResponse::GetFanSpeedAndLogo { rpm: 5000, logo_state: 1 }));
    assert_eq!((round.fan_speed, round.logo_state), (Some(5000), None));
}

#[test]
fn tracker_reports_only_changes() {
    let mut t = UpdateTracker::new();
    assert!(!t.observe(None, None, None));
    assert!(t.observe(Some(0), None, Some(true)));
    assert!(!t.observe(Some(0), None, Some(true)));
    assert!(t.observe(Some(0), None, Some(false)));
    assert!(t.observe(Some(0), Some(1), Some(false)));
}

// --- counters ---

#[test]
fn rapl_delta_handles_baseline_and_wrap() {
    let none = RaplSample { energy_uj: 0, time_us: 0 };
    assert_eq!(rapl_delta(5_000_000, 0, none, 10), None);
    let prev = RaplSample { energy_uj: 1_000_000, time_us: 1_000_000 };
    assert_eq!(rapl_delta(3_000_000, 0, prev, 2_000_000), Some((2_000_000, 1_000_000)));
    assert_eq!(rapl_delta(3_000_000, 0, prev, 1_000_000), None);
    // counter wrapped at 2^32 µJ
    let near_top = RaplSample { energy_uj: 4_294_967_000, time_us: 5 };
    assert_eq!(rapl_delta(100, 4_294_967_295, near_top, 10), Some((395, 5)));
    assert_eq!(rapl_delta(100, 0, near_top, 10), None);
}

#[test]
fn cpu_summary_line_is_read() {
    let stat = "cpu  100 5 50 800 20 0 5 0 0 0\ncpu0 1 2 3 4\n";
    assert_eq!(cpu_times(stat), CpuTimes::Times { idle: 800, total: 980 });
    assert_eq!(cpu_times("cpu0 1 2 3 4\n"), CpuTimes::NotCpuLine);
    assert_eq!(cpu_times("cpu 1 2 3\n"), CpuTimes::NotCpuLine);
    assert_eq!(cpu_times(""), CpuTimes::NotCpuLine);
    // unreadable counters count as 0
    assert_eq!(cpu_times("cpu 1 x 3 y 5"), CpuTimes::Times { idle: 0, total: 9 });
    assert_eq!(cpu_times("cpu 18446744073709551615 1 0 0"), CpuTimes::Overflow);
}

#[test]
fn cpu_ticks_need_a_baseline_and_progress() {
    assert_eq!(cpu_ticks(0, 0, 800, 980), None);
    assert_eq!(cpu_ticks(800, 980, 800, 980), None);
    assert_eq!(cpu_ticks(800, 980, 850, 1080), Some((50, 100)));
    // counters that went backwards wrap around
    assert_eq!(cpu_ticks(10, 980, 5, 1080), Some((u64::MAX - 4, 100)));
}

// --- sysfs values ---

#[test]
fn sysfs_values_are_trimmed_and_parsed() {
    assert!(trimmed_is("1\n", "1"));
    assert!(!trimmed_is("0\n", "1"));
    assert_eq!(trimmed_u8("87\n"), Some(87));
    assert_eq!(trimmed_u8("256\n"), None);
    assert_eq!(trimmed_u8("+12"), Some(12));
    assert_eq!(trimmed_u32(" 4294967295 "), Some(u32::MAX));
    assert_eq!(trimmed_u32("4294967296"), None);
    assert_eq!(trimmed_u32("-1"), None);
    assert_eq!(trimmed_u64("123456789012\n"), Some(123456789012));
    assert_eq!(trimmed_u64(""), None);
    assert_eq!(trimmed_text("Charging\n"), Some("Charging".to_string()));
    assert_eq!(trimmed_text(" \n"), None);
}

#[test]
fn sensor_names_are_recognised() {
    assert!(cpu_sensor("k10temp\n"));
    assert!(cpu_sensor("coretemp"));
    assert!(cpu_sensor("zenpower\n"));
    assert!(!cpu_sensor("amdgpu\n"));
    assert!(igpu_sensor("amdgpu\n"));
    assert!(igpu_sensor("i915"));
    assert!(!igpu_sensor("nvme"));
}

#[test]
fn battery_draw_needs_positive_current() {
    assert_eq!(battery_draw("1500000\n", "12000000\n"), Some((1500000, 12000000)));
    assert_eq!(battery_draw("0\n", "12000000\n"), None);
    assert_eq!(battery_draw("abc", "12000000"), None);
}

#[test]
fn dgpu_fields_keep_text_of_numbers() {
    let f = parse_dgpu_fields(" 65 , 35.50 ,12\r\n");
    assert_eq!(f.temp.as_deref(), Some("65"));
    assert_eq!(f.power.as_deref(), Some("35.50"));
    assert_eq!(f.util, Some(12));
    let g = parse_dgpu_fields("65, 35.50");
    assert_eq!(g.util, None);
}

#[test]
fn unknown_fan_speed_and_logo_state_check_nothing() {
    let mut r = empty_readings();
    r.caps = DeviceCaps { fan_min: 3500, fan_max: 5000, has_logo: true };
    r.logo_state = Some(7);
    let m = tray_menu(&r);
    assert_eq!(m.fan_header, "Fan Speed  \u{00B7}  \u{2026}");
    assert!(m.fan_choices.iter().all(|c| !c.checked));
    assert_eq!(m.logo_header, Some("Logo  \u{00B7}  \u{2026}".to_string()));
    assert!(m.logo_choices.iter().all(|c| !c.checked));
}

#[test]
fn fallback_round_matches_combined_round() {
    for has_logo in [false, true] {
        let mut combined = PollRound::start(Some(true), has_logo);
        combined.receive(Some(DaemonResponse::GetFanSpeedAndLogo { rpm: 3900, logo_state: 1 }));
        let mut legacy = PollRound::start(Some(true), has_logo);
        legacy.receive(None);
        legacy.receive(Some(DaemonResponse::GetFanSpeed { rpm: 3900 }));
        if has_logo {
            legacy.receive(Some(DaemonResponse::GetLogoLedState { logo_state: 1 }));
        }
        assert_eq!(legacy, combined);
    }
}

#[test]
fn poll_keeps_device_caps() {
    let caps = DeviceCaps { fan_min: 2000, fan_max: 4800, has_logo: true };
    let mut d = DaemonState { caps, fan_speed: Some(3000), logo_state: Some(0) };
    let mut round = PollRound::start(Some(true), true);
    round.receive(Some(DaemonResponse::GetFanSpeedAndLogo { rpm: 4000, logo_state: 2 }));
    d.apply_round(&round);
    assert_eq!(d, DaemonState { caps, fan_speed: Some(4000), logo_state: Some(2) });
    d.apply_round(&PollRound::start(None, true));
    assert_eq!(d, DaemonState { caps, fan_speed: None, logo_state: None });
    assert_eq!(DaemonState::default().caps, DeviceCaps::default());
}

#[test]
fn caps_lookup_prefers_daemon_entry() {
    let l = CapsLookup::start();
    assert!(matches!(l.next_action(), CapsAction::Ask(DaemonCommand::GetDeviceCapabilities)));
    let resp = DaemonResponse::GetDeviceCapabilities {
        name: "Blade 16".into(),
        features: vec!["logo".into()],
        fan: vec![2500, 5000],
    };
    let l = l.answer(Some(resp));
    match l.next_action() {
        CapsAction::Finish(c) => {
            assert_eq!(c, Some(DeviceCaps { fan_min: 2500, fan_max: 5000, has_logo: true }))
        }
        other => panic!("unexpected {:?}", other),
    }
}

#[test]
fn caps_lookup_falls_back_to_device_list() {
    let l = CapsLookup::start().answer(None);
    assert!(matches!(l.next_action(), CapsAction::Ask(DaemonCommand::GetDeviceName)));
    let l = l.answer(Some(DaemonResponse::GetDeviceName { name: "Blade 15".into() }));
    match l.next_action() {
        CapsAction::ReadList(name) => assert_eq!(name, "Blade 15"),
        other => panic!("unexpected {:?}", other),
    }
    let devices = [device("Blade 15", &["fan"], &[3200, 5200])];
    let (done, missing) = l.clone().read_list(Some(&devices));
    assert!(!missing);
    assert!(matches!(done.next_action(),
        CapsAction::Finish(Some(DeviceCaps { fan_min: 3200, fan_max: 5200, has_logo: false }))));
    let other = [device("Blade 18", &["fan"], &[3200, 5200])];
    let (done, missing) = l.clone().read_list(Some(&other));
    assert!(missing);
    assert!(matches!(done.next_action(), CapsAction::Finish(Some(c)) if c == DeviceCaps::default()));
    let (done, missing) = l.read_list(None);
    assert!(!missing);
    assert!(matches!(done.next_action(), CapsAction::Finish(None)));
    let gone = CapsLookup::start().answer(None).answer(None);
    assert!(matches!(gone.next_action(), CapsAction::Finish(None)));
}

#[test]
fn signed_numbers_format_like_std() {
    assert_eq!(fmt_i64(i64::MIN), i64::MIN.to_string());
    assert_eq!(fmt_i64(-4200), "-4200");
    assert_eq!(fmt_i64(0), "0");
    assert_eq!(fmt_i64(i64::MAX), i64::MAX.to_string());
}
