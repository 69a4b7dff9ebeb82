use vstd::prelude::*;
use crate::caps::DeviceCaps;
use crate::text::{
    concat, dec, fmt_u64, int_dec, join, join_strings, lemma_join_small, push_part, str_eq, views,
};

verus! {

/// A power reading rendered for display: to one decimal place (as `{:.1}`
/// renders the watts) and to whole watts (as `{:.0}` renders them).
#[derive(Clone, PartialEq, Debug)]
pub struct Watts {
    pub tenths: String,
    pub whole: String,
}

/// One poll of the sensors, in the form the tooltip and the menu show it.
/// Temperatures are whole degrees Celsius as `{:.0}` renders them; powers
/// are `Watts`; the rest are the raw values.
#[derive(Clone, PartialEq, Debug)]
pub struct SensorReadings {
    pub cpu_temp: Option<String>,
    pub igpu_temp: Option<String>,
    pub dgpu_temp: Option<String>,
    pub fan_speed: Option<i32>,
    pub on_ac: Option<bool>,
    pub battery_pct: Option<u8>,
    pub battery_status: Option<String>,
    pub battery_power: Option<Watts>,
    pub system_power: Option<Watts>,
    pub cpu_util: Option<u32>,
    pub igpu_power: Option<Watts>,
    pub igpu_util: Option<u32>,
    pub dgpu_power: Option<Watts>,
    pub dgpu_util: Option<u32>,
    pub logo_state: Option<u8>,
    pub caps: DeviceCaps,
}

/// Whether a poll produced anything the tooltip can show by itself.
pub open spec fn spec_has_data(r: SensorReadings) -> bool {
    ||| r.cpu_temp is Some
    ||| r.igpu_temp is Some
    ||| r.dgpu_temp is Some
    ||| r.fan_speed is Some
    ||| r.on_ac is Some
    ||| r.system_power is Some
}

pub fn has_data(r: &SensorReadings) -> (b: bool)
    ensures
        b == spec_has_data(*r),
{
    r.cpu_temp.is_some() || r.igpu_temp.is_some() || r.dgpu_temp.is_some()
        || r.fan_speed.is_some() || r.on_ac.is_some() || r.system_power.is_some()
}

/// "65°C" for a temperature reading; nothing when there is none.
pub open spec fn temp_part(t: Option<String>) -> Seq<Seq<char>> {
    match t {
        Some(t) => seq![t@ + "°C"@],
        None => seq![],
    }
}

/// "35.5W" for a power reading; nothing when there is none.
pub open spec fn watts_part(w: Option<Watts>) -> Seq<Seq<char>> {
    match w {
        Some(w) => seq![w.tenths@ + "W"@],
        None => seq![],
    }
}

/// "12%" for a utilisation reading; nothing when there is none.
pub open spec fn util_part(u: Option<u32>) -> Seq<Seq<char>> {
    match u {
        Some(u) => seq![dec(u as nat) + "%"@],
        None => seq![],
    }
}

/// One tooltip line "NAME: a · b · c" for a component, when any of its
/// readings is present.
pub open spec fn group_line(name: Seq<char>, parts: Seq<Seq<char>>) -> Seq<Seq<char>> {
    if parts.len() == 0 {
        seq![]
    } else {
        seq![name + ": "@ + join(parts, " · "@)]
    }
}

/// "Fan: Auto" for RPM 0, "Fan: N RPM" otherwise; nothing when unknown.
pub open spec fn fan_line(fan_speed: Option<i32>) -> Seq<Seq<char>> {
    match fan_speed {
        Some(rpm) => if rpm == 0 {
            seq!["Fan: Auto"@]
        } else {
            seq!["Fan: "@ + int_dec(rpm as int) + " RPM"@]
        },
        None => seq![],
    }
}

/// The mains line while plugged in with a known charge: "AC / N%", with the
/// charging power while charging, or "(Limit)" when the charge limit holds
/// the battery ("Not charging").
pub open spec fn ac_text(pct: u8, status: Option<String>, power: Option<Watts>) -> Seq<char> {
    let base = "AC / "@ + dec(pct as nat) + "%"@;
    match status {
        Some(s) => if s@ == "Not charging"@ {
            "AC / "@ + dec(pct as nat) + "% (Limit)"@
        } else if s@ == "Charging"@ && power is Some {
            base + " +"@ + power->0.tenths@ + "W"@
        } else {
            base
        },
        None => base,
    }
}

/// The power-source line of the tooltip.
pub open spec fn power_line(r: SensorReadings) -> Seq<Seq<char>> {
    match (r.on_ac, r.battery_pct) {
        (Some(true), Some(pct)) => seq![ac_text(pct, r.battery_status, r.battery_power)],
        (Some(true), None) => seq!["AC Power"@],
        (Some(false), Some(pct)) => match r.battery_power {
            Some(w) => seq!["Battery "@ + dec(pct as nat) + "% −"@ + w.tenths@ + "W"@],
            None => seq!["Battery "@ + dec(pct as nat) + "%"@],
        },
        (Some(false), None) => seq!["Battery"@],
        (None, _) => seq![],
    }
}

/// The tooltip lines, top to bottom: CPU, iGPU and dGPU (each merging its
/// temperature, power and utilisation), the fan, then the power source.
pub open spec fn tooltip_lines(r: SensorReadings) -> Seq<Seq<char>> {
    group_line("CPU"@, temp_part(r.cpu_temp) + watts_part(r.system_power) + util_part(r.cpu_util))
        + group_line(
        "iGPU"@,
        temp_part(r.igpu_temp) + watts_part(r.igpu_power) + util_part(r.igpu_util),
    ) + group_line(
        "dGPU"@,
        temp_part(r.dgpu_temp) + watts_part(r.dgpu_power) + util_part(r.dgpu_util),
    ) + fan_line(r.fan_speed) + power_line(r)
}

/// The tooltip text: its lines one per row, or "Razer Control" when there
/// is nothing to show.
pub open spec fn spec_format_lines(r: SensorReadings) -> Seq<char> {
    let lines = tooltip_lines(r);
    if lines.len() == 0 {
        "Razer Control"@
    } else {
        join(lines, "\n"@)
    }
}

fn component_parts(temp: &Option<String>, power: &Option<Watts>, util: Option<u32>) -> (v: Vec<
    String,
>)
    ensures
        views(v@) == temp_part(*temp) + watts_part(*power) + util_part(util),
{
    let mut v: Vec<String> = Vec::new();
    proof {
        reveal_strlit("°C");
        reveal_strlit("W");
        reveal_strlit("%");
    }
    if let Some(t) = temp {
        push_part(&mut v, concat(t.as_str(), "°C"));
    }
    if let Some(w) = power {
        push_part(&mut v, concat(w.tenths.as_str(), "W"));
    }
    if let Some(u) = util {
        let mut s = fmt_u64(u as u64);
        s.append("%");
        push_part(&mut v, s);
    }
    assert(views(v@) =~= temp_part(*temp) + watts_part(*power) + util_part(util));
    v
}

fn push_component(lines: &mut Vec<String>, name: &str, parts: Vec<String>)
    ensures
        views(final(lines)@) == views(old(lines)@) + group_line(name@, views(parts@)),
{
    if parts.len() > 0 {
        let joined = join_strings(&parts, " · ");
        let mut line = concat(name, ": ");
        line.append(joined.as_str());
        push_part(lines, line);
        assert(views(lines@) =~= views(old(lines)@) + group_line(name@, views(parts@)));
    } else {
        assert(views(lines@) =~= views(old(lines)@) + group_line(name@, views(parts@)));
    }
}

fn ac_line(pct: u8, status: &Option<String>, power: &Option<Watts>) -> (s: String)
    ensures
        s@ == ac_text(pct, *status, *power),
{
    let digits = fmt_u64(pct as u64);
    let mut base = concat("AC / ", digits.as_str());
    base.append("%");
    match status {
        Some(st) => {
            if str_eq(st.as_str(), "Not charging") {
                let mut t = concat("AC / ", digits.as_str());
                t.append("% (Limit)");
                t
            } else if str_eq(st.as_str(), "Charging") && power.is_some() {
                let w = power.as_ref().unwrap();
                base.append(" +");
                base.append(w.tenths.as_str());
                base.append("W");
                base
            } else {
                base
            }
        },
        None => base,
    }
}

fn push_power_line(lines: &mut Vec<String>, r: &SensorReadings)
    ensures
        views(final(lines)@) == views(old(lines)@) + power_line(*r),
{
    let ghost before = views(lines@);
    match (r.on_ac, r.battery_pct) {
        (Some(true), Some(pct)) => {
            push_part(lines, ac_line(pct, &r.battery_status, &r.battery_power));
        },
        (Some(true), None) => {
            push_part(lines, "AC Power".to_owned());
        },
        (Some(false), Some(pct)) => {
            let digits = fmt_u64(pct as u64);
            let mut t = concat("Battery ", digits.as_str());
            match &r.battery_power {
                Some(w) => {
                    t.append("% −");
                    t.append(w.tenths.as_str());
                    t.append("W");
                },
                None => {
                    t.append("%");
                },
            }
            push_part(lines, t);
        },
        (Some(false), None) => {
            push_part(lines, "Battery".to_owned());
        },
        (None, _) => {},
    }
    assert(views(lines@) =~= before + power_line(*r));
}

/// Builds the tooltip text for one poll.
pub fn format_lines(r: &SensorReadings) -> (s: String)
    ensures
        s@ == spec_format_lines(*r),
{
    let mut lines: Vec<String> = Vec::new();
    push_component(&mut lines, "CPU", component_parts(&r.cpu_temp, &r.system_power, r.cpu_util));
    push_component(&mut lines, "iGPU", component_parts(&r.igpu_temp, &r.igpu_power, r.igpu_util));
    push_component(&mut lines, "dGPU", component_parts(&r.dgpu_temp, &r.dgpu_power, r.dgpu_util));
    let ghost before_fan = views(lines@);
    if let Some(rpm) = r.fan_speed {
        if rpm == 0 {
            push_part(&mut lines, "Fan: Auto".to_owned());
        } else {
            let mut t = "Fan: ".to_owned();
            let digits = crate::text::fmt_i64(rpm as i64);
            t.append(digits.as_str());
            t.append(" RPM");
            push_part(&mut lines, t);
        }
    }
    assert(views(lines@) =~= before_fan + fan_line(r.fan_speed));
    push_power_line(&mut lines, r);
    assert(views(lines@) =~= tooltip_lines(*r));
    if lines.len() == 0 {
        "Razer Control".to_owned()
    } else {
        join_strings(&lines, "\n")
    }
}

/// A poll in which no sensor gave a value.
pub open spec fn no_readings(caps: DeviceCaps) -> SensorReadings {
    SensorReadings {
        cpu_temp: None,
        igpu_temp: None,
        dgpu_temp: None,
        fan_speed: None,
        on_ac: None,
        battery_pct: None,
        battery_status: None,
        battery_power: None,
        system_power: None,
        cpu_util: None,
        igpu_power: None,
        igpu_util: None,
        dgpu_power: None,
        dgpu_util: None,
        logo_state: None,
        caps,
    }
}

proof fn lemma_one_line(r: SensorReadings, line: Seq<char>)
    requires
        tooltip_lines(r) =~= seq![line],
    ensures
        spec_format_lines(r) == line,
{
    lemma_join_small(line, line, line, "\n"@);
}

/// Each reading lands on its own component's line: with a single value
/// known, the tooltip is exactly that component's line with that value,
/// and with nothing known it is the application name.
pub proof fn lemma_tooltip_shows_each_reading(caps: DeviceCaps, t: String, w: Watts, u: u32)
    ensures
        spec_format_lines(no_readings(caps)) == "Razer Control"@,
        spec_format_lines(SensorReadings { cpu_temp: Some(t), ..no_readings(caps) }) == "CPU: "@
            + t@ + "°C"@,
        spec_format_lines(SensorReadings { system_power: Some(w), ..no_readings(caps) }) == "CPU: "@
            + w.tenths@ + "W"@,
        spec_format_lines(SensorReadings { cpu_util: Some(u), ..no_readings(caps) }) == "CPU: "@
            + dec(u as nat) + "%"@,
        spec_format_lines(SensorReadings { igpu_temp: Some(t), ..no_readings(caps) }) == "iGPU: "@
            + t@ + "°C"@,
        spec_format_lines(SensorReadings { igpu_power: Some(w), ..no_readings(caps) }) == "iGPU: "@
            + w.tenths@ + "W"@,
        spec_format_lines(SensorReadings { igpu_util: Some(u), ..no_readings(caps) }) == "iGPU: "@
            + dec(u as nat) + "%"@,
        spec_format_lines(SensorReadings { dgpu_temp: Some(t), ..no_readings(caps) }) == "dGPU: "@
            + t@ + "°C"@,
        spec_format_lines(SensorReadings { dgpu_power: Some(w), ..no_readings(caps) }) == "dGPU: "@
            + w.tenths@ + "W"@,
        spec_format_lines(SensorReadings { dgpu_util: Some(u), ..no_readings(caps) }) == "dGPU: "@
            + dec(u as nat) + "%"@,
{
    reveal_strlit("CPU");
    reveal_strlit("iGPU");
    reveal_strlit("dGPU");
    reveal_strlit(": ");
    reveal_strlit("CPU: ");
    reveal_strlit("iGPU: ");
    reveal_strlit("dGPU: ");
    let e = no_readings(caps);
    assert(tooltip_lines(e) =~= Seq::<Seq<char>>::empty());
    let tp = t@ + "°C"@;
    let wp = w.tenths@ + "W"@;
    let up = dec(u as nat) + "%"@;
    lemma_join_small(tp, tp, tp, " · "@);
    lemma_join_small(wp, wp, wp, " · "@);
    lemma_join_small(up, up, up, " · "@);
    assert("CPU"@ + ": "@ =~= "CPU: "@);
    assert("iGPU"@ + ": "@ =~= "iGPU: "@);
    assert("dGPU"@ + ": "@ =~= "dGPU: "@);
    let r = SensorReadings { cpu_temp: Some(t), ..e };
    assert(temp_part(r.cpu_temp) + watts_part(r.system_power) + util_part(r.cpu_util) =~= seq![tp]);
    lemma_one_line(r, "CPU: "@ + tp);
    let r = SensorReadings { system_power: Some(w), ..e };
    assert(temp_part(r.cpu_temp) + watts_part(r.system_power) + util_part(r.cpu_util) =~= seq![wp]);
    lemma_one_line(r, "CPU: "@ + wp);
    let r = SensorReadings { cpu_util: Some(u), ..e };
    assert(temp_part(r.cpu_temp) + watts_part(r.system_power) + util_part(r.cpu_util) =~= seq![up]);
    lemma_one_line(r, "CPU: "@ + up);
    let r = SensorReadings { igpu_temp: Some(t), ..e };
    assert(temp_part(r.igpu_temp) + watts_part(r.igpu_power) + util_part(r.igpu_util) =~= seq![tp]);
    lemma_one_line(r, "iGPU: "@ + tp);
    let r = SensorReadings { igpu_power: Some(w), ..e };
    assert(temp_part(r.igpu_temp) + watts_part(r.igpu_power) + util_part(r.igpu_util) =~= seq![wp]);
    lemma_one_line(r, "iGPU: "@ + wp);
    let r = SensorReadings { igpu_util: Some(u), ..e };
    assert(temp_part(r.igpu_temp) + watts_part(r.igpu_power) + util_part(r.igpu_util) =~= seq![up]);
    lemma_one_line(r, "iGPU: "@ + up);
    let r = SensorReadings { dgpu_temp: Some(t), ..e };
    assert(temp_part(r.dgpu_temp) + watts_part(r.dgpu_power) + util_part(r.dgpu_util) =~= seq![tp]);
    lemma_one_line(r, "dGPU: "@ + tp);
    let r = SensorReadings { dgpu_power: Some(w), ..e };
    assert(temp_part(r.dgpu_temp) + watts_part(r.dgpu_power) + util_part(r.dgpu_util) =~= seq![wp]);
    lemma_one_line(r, "dGPU: "@ + wp);
    let r = SensorReadings { dgpu_util: Some(u), ..e };
    assert(temp_part(r.dgpu_temp) + watts_part(r.dgpu_power) + util_part(r.dgpu_util) =~= seq![up]);
    lemma_one_line(r, "dGPU: "@ + up);
}

/// The fan line and the power-source line, each alone in the tooltip.
pub proof fn lemma_tooltip_fan_and_power(
    caps: DeviceCaps,
    rpm: i32,
    pct: u8,
    status: String,
    w: Watts,
)
    ensures
        spec_format_lines(SensorReadings { fan_speed: Some(0), ..no_readings(caps) })
            == "Fan: Auto"@,
        rpm != 0 ==> spec_format_lines(SensorReadings { fan_speed: Some(rpm), ..no_readings(caps) })
            == "Fan: "@ + int_dec(rpm as int) + " RPM"@,
        spec_format_lines(SensorReadings { on_ac: Some(true), ..no_readings(caps) })
            == "AC Power"@,
        spec_format_lines(SensorReadings { on_ac: Some(false), ..no_readings(caps) })
            == "Battery"@,
        spec_format_lines(
            SensorReadings { on_ac: Some(true), battery_pct: Some(pct), ..no_readings(caps) },
        ) == "AC / "@ + dec(pct as nat) + "%"@,
        status@ == "Charging"@ ==> spec_format_lines(
            SensorReadings {
                on_ac: Some(true),
                battery_pct: Some(pct),
                battery_status: Some(status),
                battery_power: Some(w),
                ..no_readings(caps)
            },
        ) == "AC / "@ + dec(pct as nat) + "% +"@ + w.tenths@ + "W"@,
        status@ == "Not charging"@ ==> spec_format_lines(
            SensorReadings {
                on_ac: Some(true),
                battery_pct: Some(pct),
                battery_status: Some(status),
                battery_power: Some(w),
                ..no_readings(caps)
            },
        ) == "AC / "@ + dec(pct as nat) + "% (Limit)"@,
        spec_format_lines(
            SensorReadings { on_ac: Some(false), battery_pct: Some(pct), ..no_readings(caps) },
        ) == "Battery "@ + dec(pct as nat) + "%"@,
        spec_format_lines(
            SensorReadings {
                on_ac: Some(false),
                battery_pct: Some(pct),
                battery_power: Some(w),
                ..no_readings(caps)
            },
        ) == "Battery "@ + dec(pct as nat) + "% −"@ + w.tenths@ + "W"@,
        spec_format_lines(SensorReadings { battery_pct: Some(pct), ..no_readings(caps) })
            == "Razer Control"@,
{
    reveal_strlit("Charging");
    reveal_strlit("Not charging");
    reveal_strlit("AC / ");
    reveal_strlit("% +");
    reveal_strlit("%");
    reveal_strlit(" +");
    let e = no_readings(caps);
    let r = SensorReadings { fan_speed: Some(0), ..e };
    lemma_one_line(r, "Fan: Auto"@);
    if rpm != 0 {
        let r = SensorReadings { fan_speed: Some(rpm), ..e };
        lemma_one_line(r, "Fan: "@ + int_dec(rpm as int) + " RPM"@);
    }
    lemma_one_line(SensorReadings { on_ac: Some(true), ..e }, "AC Power"@);
    lemma_one_line(SensorReadings { on_ac: Some(false), ..e }, "Battery"@);
    let d = dec(pct as nat);
    lemma_one_line(
        SensorReadings { on_ac: Some(true), battery_pct: Some(pct), ..e },
        "AC / "@ + d + "%"@,
    );
    if status@ == "Charging"@ {
        assert(status@ != "Not charging"@) by {
            assert(status@.len() != "Not charging"@.len());
        }
        let r = SensorReadings {
            on_ac: Some(true),
            battery_pct: Some(pct),
            battery_status: Some(status),
            battery_power: Some(w),
            ..e
        };
        assert("AC / "@ + d + "%"@ + " +"@ + w.tenths@ + "W"@ =~= "AC / "@ + d + "% +"@ + w.tenths@
            + "W"@);
        lemma_one_line(r, "AC / "@ + d + "% +"@ + w.tenths@ + "W"@);
    }
    if status@ == "Not charging"@ {
        let r = SensorReadings {
            on_ac: Some(true),
            battery_pct: Some(pct),
            battery_status: Some(status),
            battery_power: Some(w),
            ..e
        };
        lemma_one_line(r, "AC / "@ + d + "% (Limit)"@);
    }
    lemma_one_line(
        SensorReadings { on_ac: Some(false), battery_pct: Some(pct), ..e },
        "Battery "@ + d + "%"@,
    );
    lemma_one_line(
        SensorReadings { on_ac: Some(false), battery_pct: Some(pct), battery_power: Some(w), ..e },
        "Battery "@ + d + "% −"@ + w.tenths@ + "W"@,
    );
    assert(tooltip_lines(SensorReadings { battery_pct: Some(pct), ..e }) =~= Seq::<
        Seq<char>,
    >::empty());
}

/// The readings of one component share its line in the order temperature,
/// power, utilisation, and the lines run CPU, iGPU, dGPU, fan, power source.
pub proof fn lemma_tooltip_merges_and_orders(
    caps: DeviceCaps,
    a: String,
    b: String,
    w: Watts,
    u: u32,
)
    ensures
        spec_format_lines(
            SensorReadings {
                cpu_temp: Some(a),
                system_power: Some(w),
                cpu_util: Some(u),
                ..no_readings(caps)
            },
        ) == "CPU: "@ + a@ + "°C · "@ + w.tenths@ + "W · "@ + dec(u as nat) + "%"@,
        spec_format_lines(
            SensorReadings { igpu_temp: Some(a), dgpu_temp: Some(b), ..no_readings(caps) },
        ) == "iGPU: "@ + a@ + "°C\ndGPU: "@ + b@ + "°C"@,
        spec_format_lines(
            SensorReadings {
                cpu_temp: Some(a),
                igpu_temp: Some(b),
                fan_speed: Some(0),
                on_ac: Some(true),
                ..no_readings(caps)
            },
        ) == "CPU: "@ + a@ + "°C\niGPU: "@ + b@ + "°C\nFan: Auto\nAC Power"@,
{
    reveal_strlit("CPU");
    reveal_strlit("iGPU");
    reveal_strlit("dGPU");
    reveal_strlit(": ");
    reveal_strlit("CPU: ");
    reveal_strlit("iGPU: ");
    reveal_strlit("°C");
    reveal_strlit("°C · ");
    reveal_strlit(" · ");
    reveal_strlit("W");
    reveal_strlit("W · ");
    reveal_strlit("\n");
    reveal_strlit("°C\ndGPU: ");
    reveal_strlit("°C\niGPU: ");
    reveal_strlit("°C\nFan: Auto\nAC Power");
    reveal_strlit("Fan: Auto");
    reveal_strlit("AC Power");
    let e = no_readings(caps);
    let tp = a@ + "°C"@;
    let tb = b@ + "°C"@;
    let wp = w.tenths@ + "W"@;
    let up = dec(u as nat) + "%"@;
    lemma_join_small(tp, wp, up, " · "@);
    lemma_join_small(tp, tp, tp, " · "@);
    lemma_join_small(tb, tb, tb, " · "@);
    let r = SensorReadings { cpu_temp: Some(a), system_power: Some(w), cpu_util: Some(u), ..e };
    assert(temp_part(r.cpu_temp) + watts_part(r.system_power) + util_part(r.cpu_util) =~= seq![
        tp,
        wp,
        up,
    ]);
    let line = "CPU"@ + ": "@ + (tp + " · "@ + wp + " · "@ + up);
    assert(line =~= "CPU: "@ + a@ + "°C · "@ + w.tenths@ + "W · "@ + dec(u as nat) + "%"@);
    lemma_one_line(r, line);

    let r = SensorReadings { igpu_temp: Some(a), dgpu_temp: Some(b), ..e };
    let l1 = "iGPU"@ + ": "@ + tp;
    let l2 = "dGPU"@ + ": "@ + tb;
    assert(temp_part(r.igpu_temp) + watts_part(r.igpu_power) + util_part(r.igpu_util) =~= seq![tp]);
    assert(temp_part(r.dgpu_temp) + watts_part(r.dgpu_power) + util_part(r.dgpu_util) =~= seq![tb]);
    assert(tooltip_lines(r) =~= seq![l1, l2]);
    lemma_join_small(l1, l2, l2, "\n"@);
    assert(l1 + "\n"@ + l2 =~= "iGPU: "@ + a@ + "°C\ndGPU: "@ + b@ + "°C"@);

    let r = SensorReadings {
        cpu_temp: Some(a),
        igpu_temp: Some(b),
        fan_speed: Some(0),
        on_ac: Some(true),
        ..e
    };
    let m1 = "CPU"@ + ": "@ + tp;
    let m2 = "iGPU"@ + ": "@ + tb;
    assert(temp_part(r.cpu_temp) + watts_part(r.system_power) + util_part(r.cpu_util) =~= seq![tp]);
    assert(temp_part(r.igpu_temp) + watts_part(r.igpu_power) + util_part(r.igpu_util) =~= seq![tb]);
    let lines = seq![m1, m2, "Fan: Auto"@, "AC Power"@];
    assert(tooltip_lines(r) =~= lines);
    assert(lines.drop_last() =~= seq![m1, m2, "Fan: Auto"@]);
    lemma_join_small(m1, m2, "Fan: Auto"@, "\n"@);
    assert(join(lines, "\n"@) == join(seq![m1, m2, "Fan: Auto"@], "\n"@) + "\n"@ + "AC Power"@);
    assert(join(lines, "\n"@) =~= "CPU: "@ + a@ + "°C\niGPU: "@ + b@ + "°C\nFan: Auto\nAC Power"@);
}

/// A poll has data of its own exactly when a temperature, the fan speed,
/// the power source or the system power is known: utilisation, battery and
/// component power readings alone do not count.
pub proof fn lemma_has_data_fields(caps: DeviceCaps, t: String, w: Watts, u: u32, b: bool, rpm: i32, pct: u8)
    ensures
        !spec_has_data(no_readings(caps)),
        spec_has_data(SensorReadings { cpu_temp: Some(t), ..no_readings(caps) }),
        spec_has_data(SensorReadings { igpu_temp: Some(t), ..no_readings(caps) }),
        spec_has_data(SensorReadings { dgpu_temp: Some(t), ..no_readings(caps) }),
        spec_has_data(SensorReadings { fan_speed: Some(rpm), ..no_readings(caps) }),
        spec_has_data(SensorReadings { on_ac: Some(b), ..no_readings(caps) }),
        spec_has_data(SensorReadings { system_power: Some(w), ..no_readings(caps) }),
        !spec_has_data(
            SensorReadings {
                cpu_util: Some(u),
                igpu_util: Some(u),
                dgpu_util: Some(u),
                igpu_power: Some(w),
                dgpu_power: Some(w),
                battery_pct: Some(pct),
                battery_power: Some(w),
                battery_status: Some(t),
                logo_state: Some(pct),
                ..no_readings(caps)
            },
        ),
{
}

} // verus!
