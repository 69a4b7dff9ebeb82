use vstd::prelude::*;
use crate::caps::DeviceCaps;
use crate::device::LOGO_LABELS;
use crate::fan::{
    fan_current_label, fan_label_defined, fan_presets, fits_i32, presets_view, selected_preset_index,
    spec_fan_label, spec_fan_presets, spec_selected,
};
use crate::readings::{no_readings, temp_part, util_part, SensorReadings, Watts};
use crate::text::{
    concat, dec, fmt_u64, join, join_strings, lemma_join_small, push_part, str_eq, views,
};

verus! {

/// Label for a logo state: its name in `LOGO_LABELS`, or "…" when the
/// state is unknown (daemon not yet polled) or out of range.
pub open spec fn spec_logo_label(logo_state: Option<u8>) -> Seq<char> {
    match logo_state {
        Some(s) => if s < 3 {
            LOGO_LABELS[s as int]@
        } else {
            "…"@
        },
        None => "…"@,
    }
}

pub fn logo_label(logo_state: Option<u8>) -> (l: &'static str)
    ensures
        l@ == spec_logo_label(logo_state),
{
    match logo_state {
        Some(s) => if s < 3 {
            LOGO_LABELS[s as usize]
        } else {
            "…"
        },
        None => "…",
    }
}

/// One fan preset entry of the menu.
#[derive(Clone, Debug, PartialEq)]
pub struct FanChoice {
    pub rpm: i32,
    pub label: &'static str,
    pub checked: bool,
}

/// One logo mode entry of the menu.
#[derive(Clone, Debug, PartialEq)]
pub struct LogoChoice {
    pub mode: u8,
    pub label: &'static str,
    pub checked: bool,
}

/// What the tray menu shows for one snapshot of the shared state: the fan
/// submenu, the logo submenu (only on devices with a logo), and the status
/// section.
#[derive(Clone, Debug, PartialEq)]
pub struct TrayMenu {
    pub fan_header: String,
    pub fan_choices: Vec<FanChoice>,
    pub logo_header: Option<String>,
    pub logo_choices: Vec<LogoChoice>,
    pub status_lines: Vec<String>,
}

/// A status line "NAME  65°C · 12%" from a component's temperature and
/// utilisation, when either is known.
pub open spec fn stat_line(name: Seq<char>, temp: Option<String>, util: Option<u32>) -> Seq<
    Seq<char>,
> {
    let parts = temp_part(temp) + util_part(util);
    if parts.len() == 0 {
        seq![]
    } else {
        seq![name + "  "@ + join(parts, " · "@)]
    }
}

/// The battery status line: charge, power source, and the charging or
/// discharging power in whole watts when known.
pub open spec fn battery_line(r: SensorReadings) -> Seq<Seq<char>> {
    match r.battery_pct {
        None => seq![],
        Some(pct) => {
            let head = "Battery  "@ + dec(pct as nat) + "%"@;
            match r.on_ac {
                Some(true) => if r.battery_status is Some && r.battery_status->0@ == "Charging"@
                    && r.battery_power is Some {
                    seq![head + "  ·  AC +"@ + r.battery_power->0.whole@ + "W"@]
                } else {
                    seq![head + "  ·  AC"@]
                },
                Some(false) => match r.battery_power {
                    Some(w) => seq![head + "  ·  −"@ + w.whole@ + "W"@],
                    None => seq![head],
                },
                None => seq![],
            }
        },
    }
}

/// The status section of the menu, top to bottom.
pub open spec fn status_lines(r: SensorReadings) -> Seq<Seq<char>> {
    stat_line("CPU"@, r.cpu_temp, r.cpu_util) + stat_line("iGPU"@, r.igpu_temp, r.igpu_util)
        + stat_line("dGPU"@, r.dgpu_temp, r.dgpu_util) + battery_line(r)
}

fn push_stat_line(lines: &mut Vec<String>, name: &str, temp: &Option<String>, util: Option<u32>)
    ensures
        views(final(lines)@) == views(old(lines)@) + stat_line(name@, *temp, util),
{
    let mut parts: Vec<String> = Vec::new();
    if let Some(t) = temp {
        push_part(&mut parts, concat(t.as_str(), "°C"));
    }
    if let Some(u) = util {
        let mut d = fmt_u64(u as u64);
        d.append("%");
        push_part(&mut parts, d);
    }
    assert(views(parts@) =~= temp_part(*temp) + util_part(util));
    if parts.len() > 0 {
        let mut line = concat(name, "  ");
        let joined = join_strings(&parts, " · ");
        line.append(joined.as_str());
        push_part(lines, line);
    }
    assert(views(lines@) =~= views(old(lines)@) + stat_line(name@, *temp, util));
}

fn push_battery_line(lines: &mut Vec<String>, r: &SensorReadings)
    ensures
        views(final(lines)@) == views(old(lines)@) + battery_line(*r),
{
    if let Some(pct) = r.battery_pct {
        let digits = fmt_u64(pct as u64);
        let mut head = concat("Battery  ", digits.as_str());
        head.append("%");
        match r.on_ac {
            Some(true) => {
                let charging = match &r.battery_status {
                    Some(st) => str_eq(st.as_str(), "Charging"),
                    None => false,
                };
                if charging && r.battery_power.is_some() {
                    let w = r.battery_power.as_ref().unwrap();
                    head.append("  ·  AC +");
                    head.append(w.whole.as_str());
                    head.append("W");
                } else {
                    head.append("  ·  AC");
                }
                push_part(lines, head);
            },
            Some(false) => {
                if let Some(w) = &r.battery_power {
                    head.append("  ·  −");
                    head.append(w.whole.as_str());
                    head.append("W");
                }
                push_part(lines, head);
            },
            None => {},
        }
    }
    assert(views(lines@) =~= views(old(lines)@) + battery_line(*r));
}

/// The inputs on which the menu can be built: the fan range arithmetic of
/// the presets and of the header percentage stays within `i32`.
pub open spec fn menu_defined(r: SensorReadings) -> bool {
    &&& fits_i32(r.caps.fan_max - r.caps.fan_min)
    &&& fan_label_defined(
        spec_fan_presets(r.caps.fan_min, r.caps.fan_max),
        match spec_selected(spec_fan_presets(r.caps.fan_min, r.caps.fan_max), r.fan_speed) {
            Some(i) => Some(i as usize),
            None => None,
        },
        r.fan_speed,
        r.caps.fan_min,
        r.caps.fan_max,
    )
}

/// The checked preset of the menu for a snapshot.
pub open spec fn menu_selected(r: SensorReadings) -> Option<int> {
    spec_selected(spec_fan_presets(r.caps.fan_min, r.caps.fan_max), r.fan_speed)
}

/// The `i`-th fan entry shows the `i`-th preset, checked when it is the
/// selected preset.
pub open spec fn fan_choice_at(c: FanChoice, r: SensorReadings, i: int) -> bool {
    &&& c.rpm == spec_fan_presets(r.caps.fan_min, r.caps.fan_max)[i].0
    &&& c.label@ == spec_fan_presets(r.caps.fan_min, r.caps.fan_max)[i].1
    &&& c.checked == (menu_selected(r) == Some(i))
}

/// The `i`-th logo entry sets mode `i`, shows its label, and is checked when
/// it is the current logo state.
pub open spec fn logo_choice_at(c: LogoChoice, r: SensorReadings, i: int) -> bool {
    &&& c.mode == i
    &&& c.label@ == LOGO_LABELS[i]@
    &&& c.checked == (r.logo_state == Some(i as u8))
}

/// Builds the tray menu for a snapshot of the shared state.
pub fn tray_menu(r: &SensorReadings) -> (m: TrayMenu)
    requires
        menu_defined(*r),
    ensures
        m.fan_header@ == "Fan Speed  ·  "@ + spec_fan_label(
            spec_fan_presets(r.caps.fan_min, r.caps.fan_max),
            match menu_selected(*r) {
                Some(i) => Some(i as usize),
                None => None,
            },
            r.fan_speed,
            r.caps.fan_min,
            r.caps.fan_max,
        ),
        m.fan_choices@.len() == 5,
        forall|i: int| 0 <= i < 5 ==> fan_choice_at(#[trigger] m.fan_choices@[i], *r, i),
        r.caps.has_logo ==> (m.logo_header is Some && m.logo_header->0@ == "Logo  ·  "@
            + spec_logo_label(r.logo_state)),
        r.caps.has_logo ==> m.logo_choices@.len() == 3,
        r.caps.has_logo ==> forall|i: int|
            0 <= i < 3 ==> logo_choice_at(#[trigger] m.logo_choices@[i], *r, i),
        !r.caps.has_logo ==> m.logo_header is None && m.logo_choices@.len() == 0,
        views(m.status_lines@) == status_lines(*r),
{
    let fan_min = r.caps.fan_min;
    let fan_max = r.caps.fan_max;
    let presets = fan_presets(fan_min, fan_max);
    let selected = selected_preset_index(&presets, r.fan_speed);
    let current = fan_current_label(&presets, selected, r.fan_speed, fan_min, fan_max);
    let fan_header = concat("Fan Speed  ·  ", current.as_str());

    let mut fan_choices: Vec<FanChoice> = Vec::new();
    let mut i: usize = 0;
    while i < 5
        invariant
            i <= 5,
            presets_view(presets@) == spec_fan_presets(fan_min, fan_max),
            selected matches Some(k) ==> menu_selected(*r) == Some(k as int),
            selected is None ==> menu_selected(*r) is None,
            fan_min == r.caps.fan_min,
            fan_max == r.caps.fan_max,
            fan_choices@.len() == i,
            forall|j: int| 0 <= j < i ==> fan_choice_at(#[trigger] fan_choices@[j], *r, j),
        decreases 5 - i,
    {
        let checked = match selected {
            Some(k) => k == i,
            None => false,
        };
        assert(presets_view(presets@)[i as int] == (presets@[i as int].0 as int, presets@[i as int].1@));
        let ghost prev = fan_choices@;
        fan_choices.push(FanChoice { rpm: presets[i].0, label: presets[i].1, checked });
        assert(fan_choice_at(fan_choices@[i as int], *r, i as int));
        assert(forall|j: int| 0 <= j < i ==> fan_choices@[j] == prev[j]);
        i = i + 1;
    }

    let mut logo_header: Option<String> = None;
    let mut logo_choices: Vec<LogoChoice> = Vec::new();
    if r.caps.has_logo {
        logo_header = Some(concat("Logo  ·  ", logo_label(r.logo_state)));
        let mut m: usize = 0;
        while m < 3
            invariant
                m <= 3,
                logo_choices@.len() == m,
                forall|j: int| 0 <= j < m ==> logo_choice_at(#[trigger] logo_choices@[j], *r, j),
            decreases 3 - m,
        {
            let mode = m as u8;
            let checked = match r.logo_state {
                Some(s) => s == mode,
                None => false,
            };
            let ghost prev = logo_choices@;
            logo_choices.push(LogoChoice { mode, label: LOGO_LABELS[m], checked });
            assert(logo_choice_at(logo_choices@[m as int], *r, m as int));
            assert(forall|j: int| 0 <= j < m ==> logo_choices@[j] == prev[j]);
            m = m + 1;
        }
    }

    let mut status: Vec<String> = Vec::new();
    push_stat_line(&mut status, "CPU", &r.cpu_temp, r.cpu_util);
    push_stat_line(&mut status, "iGPU", &r.igpu_temp, r.igpu_util);
    push_stat_line(&mut status, "dGPU", &r.dgpu_temp, r.dgpu_util);
    push_battery_line(&mut status, r);
    assert(views(status@) =~= status_lines(*r));

    TrayMenu { fan_header, fan_choices, logo_header, logo_choices, status_lines: status }
}

/// While the fan speed is unknown (daemon unreachable) the menu checks no
/// preset and the header reads "…": an unknown speed never looks like Auto.
pub proof fn lemma_unknown_fan_speed_checks_nothing(r: SensorReadings)
    requires
        r.fan_speed is None,
    ensures
        menu_selected(r) is None,
        spec_fan_label(
            spec_fan_presets(r.caps.fan_min, r.caps.fan_max),
            None,
            r.fan_speed,
            r.caps.fan_min,
            r.caps.fan_max,
        ) == "…"@,
{
}

/// An unknown or out-of-range logo state checks no logo mode and the logo
/// header reads "…" rather than claiming a mode.
pub proof fn lemma_unknown_logo_state_checks_nothing(r: SensorReadings)
    requires
        r.logo_state matches Some(s) ==> s >= 3,
    ensures
        spec_logo_label(r.logo_state) == "…"@,
        forall|c: LogoChoice, i: int| 0 <= i < 3 && #[trigger] logo_choice_at(c, r, i) ==> !c.checked,
{
}

/// Each component's status line carries that component's own readings:
/// with a single temperature or utilisation known, the status section is
/// exactly that component's line; both readings share the line, the
/// temperature first.
pub proof fn lemma_status_shows_each_reading(caps: DeviceCaps, t: String, u: u32)
    ensures
        status_lines(no_readings(caps)) == Seq::<Seq<char>>::empty(),
        status_lines(SensorReadings { cpu_temp: Some(t), ..no_readings(caps) }) == seq![
            "CPU  "@ + t@ + "°C"@,
        ],
        status_lines(SensorReadings { cpu_util: Some(u), ..no_readings(caps) }) == seq![
            "CPU  "@ + dec(u as nat) + "%"@,
        ],
        status_lines(SensorReadings { igpu_temp: Some(t), ..no_readings(caps) }) == seq![
            "iGPU  "@ + t@ + "°C"@,
        ],
        status_lines(SensorReadings { igpu_util: Some(u), ..no_readings(caps) }) == seq![
            "iGPU  "@ + dec(u as nat) + "%"@,
        ],
        status_lines(SensorReadings { dgpu_temp: Some(t), ..no_readings(caps) }) == seq![
            "dGPU  "@ + t@ + "°C"@,
        ],
        status_lines(SensorReadings { dgpu_util: Some(u), ..no_readings(caps) }) == seq![
            "dGPU  "@ + dec(u as nat) + "%"@,
        ],
        status_lines(
            SensorReadings { igpu_temp: Some(t), igpu_util: Some(u), ..no_readings(caps) },
        ) == seq!["iGPU  "@ + t@ + "°C · "@ + dec(u as nat) + "%"@],
{
    reveal_strlit("CPU");
    reveal_strlit("iGPU");
    reveal_strlit("dGPU");
    reveal_strlit("  ");
    reveal_strlit("CPU  ");
    reveal_strlit("iGPU  ");
    reveal_strlit("dGPU  ");
    reveal_strlit("°C");
    reveal_strlit("°C · ");
    reveal_strlit(" · ");
    let e = no_readings(caps);
    let tp = t@ + "°C"@;
    let up = dec(u as nat) + "%"@;
    lemma_join_small(tp, tp, tp, " · "@);
    lemma_join_small(up, up, up, " · "@);
    lemma_join_small(tp, up, up, " · "@);
    assert(status_lines(e) =~= Seq::<Seq<char>>::empty());
    assert("CPU"@ + "  "@ =~= "CPU  "@);
    assert("iGPU"@ + "  "@ =~= "iGPU  "@);
    assert("dGPU"@ + "  "@ =~= "dGPU  "@);
    let r = SensorReadings { cpu_temp: Some(t), ..e };
    assert(temp_part(r.cpu_temp) + util_part(r.cpu_util) =~= seq![tp]);
    assert("CPU"@ + "  "@ + join(seq![tp], " · "@) =~= "CPU  "@ + t@ + "°C"@);
    assert(status_lines(r) =~= seq!["CPU  "@ + t@ + "°C"@]);
    let r = SensorReadings { cpu_util: Some(u), ..e };
    assert(temp_part(r.cpu_temp) + util_part(r.cpu_util) =~= seq![up]);
    assert("CPU"@ + "  "@ + join(seq![up], " · "@) =~= "CPU  "@ + dec(u as nat) + "%"@);
    assert(status_lines(r) =~= seq!["CPU  "@ + dec(u as nat) + "%"@]);
    let r = SensorReadings { igpu_temp: Some(t), ..e };
    assert(temp_part(r.igpu_temp) + util_part(r.igpu_util) =~= seq![tp]);
    assert("iGPU"@ + "  "@ + join(seq![tp], " · "@) =~= "iGPU  "@ + t@ + "°C"@);
    assert(status_lines(r) =~= seq!["iGPU  "@ + t@ + "°C"@]);
    let r = SensorReadings { igpu_util: Some(u), ..e };
    assert(temp_part(r.igpu_temp) + util_part(r.igpu_util) =~= seq![up]);
    assert("iGPU"@ + "  "@ + join(seq![up], " · "@) =~= "iGPU  "@ + dec(u as nat) + "%"@);
    assert(status_lines(r) =~= seq!["iGPU  "@ + dec(u as nat) + "%"@]);
    let r = SensorReadings { dgpu_temp: Some(t), ..e };
    assert(temp_part(r.dgpu_temp) + util_part(r.dgpu_util) =~= seq![tp]);
    assert("dGPU"@ + "  "@ + join(seq![tp], " · "@) =~= "dGPU  "@ + t@ + "°C"@);
    assert(status_lines(r) =~= seq!["dGPU  "@ + t@ + "°C"@]);
    let r = SensorReadings { dgpu_util: Some(u), ..e };
    assert(temp_part(r.dgpu_temp) + util_part(r.dgpu_util) =~= seq![up]);
    assert("dGPU"@ + "  "@ + join(seq![up], " · "@) =~= "dGPU  "@ + dec(u as nat) + "%"@);
    assert(status_lines(r) =~= seq!["dGPU  "@ + dec(u as nat) + "%"@]);
    let r = SensorReadings { igpu_temp: Some(t), igpu_util: Some(u), ..e };
    assert(temp_part(r.igpu_temp) + util_part(r.igpu_util) =~= seq![tp, up]);
    assert("iGPU"@ + "  "@ + (tp + " · "@ + up) =~= "iGPU  "@ + t@ + "°C · "@ + dec(u as nat)
        + "%"@);
    assert(status_lines(r) =~= seq!["iGPU  "@ + t@ + "°C · "@ + dec(u as nat) + "%"@]);
}

/// The battery status line: the charge, then the power source and, when
/// known, the whole watts going in (while charging) or out (on battery).
/// Without a known charge or power source there is no battery line.
pub proof fn lemma_status_battery_line(caps: DeviceCaps, pct: u8, status: String, w: Watts)
    ensures
        status_lines(SensorReadings { on_ac: Some(false), battery_pct: Some(pct), ..no_readings(caps) })
            == seq!["Battery  "@ + dec(pct as nat) + "%"@],
        status_lines(
            SensorReadings {
                on_ac: Some(false),
                battery_pct: Some(pct),
                battery_power: Some(w),
                ..no_readings(caps)
            },
        ) == seq!["Battery  "@ + dec(pct as nat) + "%  ·  −"@ + w.whole@ + "W"@],
        status_lines(SensorReadings { on_ac: Some(true), battery_pct: Some(pct), ..no_readings(caps) })
            == seq!["Battery  "@ + dec(pct as nat) + "%  ·  AC"@],
        status@ == "Charging"@ ==> status_lines(
            SensorReadings {
                on_ac: Some(true),
                battery_pct: Some(pct),
                battery_status: Some(status),
                battery_power: Some(w),
                ..no_readings(caps)
            },
        ) == seq!["Battery  "@ + dec(pct as nat) + "%  ·  AC +"@ + w.whole@ + "W"@],
        status_lines(SensorReadings { battery_pct: Some(pct), ..no_readings(caps) }) == Seq::<
            Seq<char>,
        >::empty(),
        status_lines(SensorReadings { on_ac: Some(true), ..no_readings(caps) }) == Seq::<
            Seq<char>,
        >::empty(),
{
    reveal_strlit("%");
    reveal_strlit("  ·  −");
    reveal_strlit("%  ·  −");
    reveal_strlit("  ·  AC");
    reveal_strlit("%  ·  AC");
    reveal_strlit("  ·  AC +");
    reveal_strlit("%  ·  AC +");
    let e = no_readings(caps);
    let head = "Battery  "@ + dec(pct as nat) + "%"@;
    let r = SensorReadings { on_ac: Some(false), battery_pct: Some(pct), ..e };
    assert(status_lines(r) =~= seq![head]);
    let r = SensorReadings { on_ac: Some(false), battery_pct: Some(pct), battery_power: Some(w), ..e };
    assert(head + "  ·  −"@ + w.whole@ + "W"@ =~= "Battery  "@ + dec(pct as nat) + "%  ·  −"@
        + w.whole@ + "W"@);
    assert(status_lines(r) =~= seq![head + "  ·  −"@ + w.whole@ + "W"@]);
    let r = SensorReadings { on_ac: Some(true), battery_pct: Some(pct), ..e };
    assert(head + "  ·  AC"@ =~= "Battery  "@ + dec(pct as nat) + "%  ·  AC"@);
    assert(status_lines(r) =~= seq![head + "  ·  AC"@]);
    if status@ == "Charging"@ {
        let r = SensorReadings {
            on_ac: Some(true),
            battery_pct: Some(pct),
            battery_status: Some(status),
            battery_power: Some(w),
            ..e
        };
        assert(head + "  ·  AC +"@ + w.whole@ + "W"@ =~= "Battery  "@ + dec(pct as nat)
            + "%  ·  AC +"@ + w.whole@ + "W"@);
        assert(status_lines(r) =~= seq![head + "  ·  AC +"@ + w.whole@ + "W"@]);
    }
    assert(status_lines(SensorReadings { battery_pct: Some(pct), ..e }) =~= Seq::<
        Seq<char>,
    >::empty());
    assert(status_lines(SensorReadings { on_ac: Some(true), ..e }) =~= Seq::<Seq<char>>::empty());
}

/// The logo modes by number: 0 is "Off", 1 is "On", 2 is "Breathing";
/// any other number and an unknown state read "…".
pub proof fn lemma_logo_labels(s: u8)
    ensures
        spec_logo_label(Some(0)) == "Off"@,
        spec_logo_label(Some(1)) == "On"@,
        spec_logo_label(Some(2)) == "Breathing"@,
        s >= 3 ==> spec_logo_label(Some(s)) == "…"@,
        spec_logo_label(None) == "…"@,
{
}

} // verus!
