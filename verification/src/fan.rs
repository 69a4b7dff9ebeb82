use vstd::prelude::*;
use vstd::arithmetic::div_mod::lemma_fundamental_div_mod_converse;
use crate::text::{dec, fmt_u64, int_dec};

verus! {

/// Whether `v` is a value of `i32`.
pub open spec fn fits_i32(v: int) -> bool {
    i32::MIN <= v <= i32::MAX
}

/// Nearest integer to `n / d` for `d > 0`, halves rounded away from zero
/// (the rounding of `f64::round`).
pub open spec fn div_round(n: int, d: int) -> int {
    if n >= 0 {
        (2 * n + d) / (2 * d)
    } else {
        -((-2 * n + d) / (2 * d))
    }
}

/// RPM of the preset at `quarter` quarters of the fan range: the point
/// `fan_min + range * quarter / 4` snapped to the nearest multiple of 100.
pub open spec fn spec_preset_rpm(fan_min: i32, fan_max: i32, quarter: int) -> int {
    100 * div_round(4 * fan_min + quarter * (fan_max - fan_min), 400)
}

/// Fan presets derived from the device fan range, in menu order: Auto (0),
/// Low, Medium and High at a quarter, a half and three quarters of the range
/// (snapped to the nearest 100 RPM to match hardware granularity), and Max.
pub open spec fn spec_fan_presets(fan_min: i32, fan_max: i32) -> Seq<(int, Seq<char>)> {
    seq![
        (0int, "Auto"@),
        (spec_preset_rpm(fan_min, fan_max, 1), "Low"@),
        (spec_preset_rpm(fan_min, fan_max, 2), "Medium"@),
        (spec_preset_rpm(fan_min, fan_max, 3), "High"@),
        (fan_max as int, "Max"@),
    ]
}

/// The view of a preset table: RPMs and label characters.
pub open spec fn presets_view(presets: Seq<(i32, &'static str)>) -> Seq<(int, Seq<char>)> {
    presets.map_values(|p: (i32, &'static str)| (p.0 as int, p.1@))
}

proof fn lemma_preset_bounds(fan_min: i32, fan_max: i32, quarter: int)
    requires
        1 <= quarter <= 3,
    ensures
        -4 * 2147483648 <= 4 * fan_min + quarter * (fan_max - fan_min) <= 4 * 2147483647,
        -21474836 <= div_round(4 * fan_min + quarter * (fan_max - fan_min), 400) <= 21474836,
{
    let x = 4 * fan_min + quarter * (fan_max - fan_min);
    assert(-4 * 2147483648 <= x <= 4 * 2147483647) by (nonlinear_arith)
        requires
            x == 4 * fan_min + quarter * (fan_max - fan_min),
            1 <= quarter <= 3,
            -2147483648 <= fan_min <= 2147483647,
            -2147483648 <= fan_max <= 2147483647,
    ;
    if x >= 0 {
        assert((2 * x + 400) / 800 <= 21474836);
    } else {
        assert((-2 * x + 400) / 800 <= 21474836);
    }
}

/// Rounds `x / 400` to the nearest integer, halves away from zero.
fn div_round_400(x: i64) -> (r: i64)
    requires
        -4 * 2147483648 <= x <= 4 * 2147483647,
    ensures
        r == div_round(x as int, 400),
{
    if x >= 0 {
        (2 * x + 400) / 800
    } else {
        let nx = -x;
        -((2 * nx + 400) / 800)
    }
}

fn preset_rpm(fan_min: i32, range: i32, quarter: i64) -> (r: i32)
    requires
        1 <= quarter <= 3,
        fits_i32(fan_min + range),
    ensures
        r == spec_preset_rpm(fan_min, (fan_min + range) as i32, quarter as int),
{
    let fan_max: Ghost<i32> = Ghost((fan_min + range) as i32);
    proof {
        lemma_preset_bounds(fan_min, fan_max@, quarter as int);
    }
    let x = 4 * (fan_min as i64) + quarter * (range as i64);
    let q = div_round_400(x);
    (q * 100) as i32
}

/// Five fan presets derived from the device fan range. RPMs snap to the
/// nearest 100 to match hardware granularity.
pub fn fan_presets(fan_min: i32, fan_max: i32) -> (r: [(i32, &'static str); 5])
    requires
        fits_i32(fan_max - fan_min),
    ensures
        presets_view(r@) == spec_fan_presets(fan_min, fan_max),
{
    let range = fan_max - fan_min;
    let r = [
        (0, "Auto"),
        (preset_rpm(fan_min, range, 1), "Low"),
        (preset_rpm(fan_min, range, 2), "Medium"),
        (preset_rpm(fan_min, range, 3), "High"),
        (fan_max, "Max"),
    ];
    assert(presets_view(r@) =~= spec_fan_presets(fan_min, fan_max));
    r
}

/// `i` is the first preset whose RPM is `rpm`.
pub open spec fn first_with_rpm(presets: Seq<(int, Seq<char>)>, rpm: int, i: int) -> bool {
    &&& 0 <= i < presets.len()
    &&& presets[i].0 == rpm
    &&& forall|j: int| 0 <= j < i ==> #[trigger] presets[j].0 != rpm
}

/// The preset the menu checks: the first one whose RPM equals the fan
/// speed exactly; none when the fan speed is unknown or matches no preset.
pub open spec fn spec_selected(presets: Seq<(int, Seq<char>)>, fan_speed: Option<i32>) -> Option<
    int,
> {
    match fan_speed {
        None => None,
        Some(rpm) => if exists|i: int| first_with_rpm(presets, rpm as int, i) {
            Some(choose|i: int| first_with_rpm(presets, rpm as int, i))
        } else {
            None
        },
    }
}

/// Exact match only — no fuzzy nearest-preset selection. `None` fan speed
/// (daemon unreachable) selects nothing rather than looking like Auto.
pub fn selected_preset_index(presets: &[(i32, &'static str)], fan_speed: Option<i32>) -> (r: Option<
    usize,
>)
    ensures
        match r {
            Some(i) => spec_selected(presets_view(presets@), fan_speed) == Some(i as int),
            None => spec_selected(presets_view(presets@), fan_speed) is None,
        },
{
    let current_rpm = match fan_speed {
        Some(rpm) => rpm,
        None => return None,
    };
    let n = presets.len();
    let mut i: usize = 0;
    while i < n
        invariant
            n == presets@.len(),
            fan_speed == Some(current_rpm),
            i <= n,
            forall|j: int| 0 <= j < i ==> #[trigger] presets@[j].0 != current_rpm,
        decreases n - i,
    {
        if presets[i].0 == current_rpm {
            proof {
                let pv = presets_view(presets@);
                let k = i as int;
                assert(first_with_rpm(pv, current_rpm as int, k));
                assert(fan_speed == Some(current_rpm));
                let c = choose|c: int| first_with_rpm(pv, current_rpm as int, c);
                assert(first_with_rpm(pv, current_rpm as int, c));
                assert(c == k) by {
                    if c < k {
                        assert(presets@[c].0 != current_rpm);
                    } else if c > k {
                        assert(presets@[k].0 != current_rpm);
                    }
                }
            }
            return Some(i);
        }
        i = i + 1;
    }
    proof {
        let pv = presets_view(presets@);
        assert forall|k: int| !first_with_rpm(pv, current_rpm as int, k) by {
            if 0 <= k < n {
                assert(presets@[k].0 != current_rpm);
            }
        }
    }
    None
}

/// Whether the double-precision formula rounds the halfway point `k + 1/2`
/// percent down: 14.5, 28.5, 56.5 and 57.5 percent have fractions (0.145,
/// 0.285, 0.565, 0.575) whose nearest doubles lie just below them, so the
/// scaled product lands just under the half and rounds to `k`.
pub open spec fn half_percent_rounds_down(k: int) -> bool {
    k == 14 || k == 28 || k == 56 || k == 57
}

/// The fan position `offset` RPM above the minimum, as a whole percentage of
/// a range of `range > 0` RPM: rounded to nearest with halves away from zero
/// (save the four halfway points above, as the double arithmetic of the
/// formula gives them), then clamped to 0..=100.
pub open spec fn spec_fan_pct(offset: int, range: int) -> int {
    let n = 100 * offset;
    let raw = if (2 * n) % (2 * range) == range && half_percent_rounds_down(n / range) {
        n / range
    } else {
        div_round(n, range)
    };
    if raw < 0 {
        0
    } else if raw > 100 {
        100
    } else {
        raw
    }
}

/// The fan position as a percentage of the device range, or 0 for an empty
/// or inverted range.
pub open spec fn spec_range_pct(rpm: i32, fan_min: i32, fan_max: i32) -> int {
    if fan_max - fan_min > 0 {
        spec_fan_pct(rpm - fan_min, fan_max - fan_min)
    } else {
        0
    }
}

/// What the fan submenu header shows: the preset label on an exact match,
/// "…" when the fan speed is unknown (daemon unreachable), "Auto" for a
/// non-positive RPM, and otherwise the position in the range as "N%".
pub open spec fn spec_fan_label(
    presets: Seq<(int, Seq<char>)>,
    selected: Option<usize>,
    fan_speed: Option<i32>,
    fan_min: i32,
    fan_max: i32,
) -> Seq<char> {
    match (selected, fan_speed) {
        (Some(i), _) => presets[i as int].1,
        (None, None) => "…"@,
        (None, Some(rpm)) => if rpm <= 0 {
            "Auto"@
        } else {
            int_dec(spec_range_pct(rpm, fan_min, fan_max)) + "%"@
        },
    }
}

/// The inputs on which the header can be computed: the selected index is a
/// preset, and the RPM arithmetic of the percentage stays within `i32`.
pub open spec fn fan_label_defined(
    presets: Seq<(int, Seq<char>)>,
    selected: Option<usize>,
    fan_speed: Option<i32>,
    fan_min: i32,
    fan_max: i32,
) -> bool {
    &&& selected matches Some(i) ==> i < presets.len()
    &&& (selected is None && fan_speed is Some && fan_speed->0 > 0) ==> {
        &&& fits_i32(fan_max - fan_min)
        &&& fan_max - fan_min > 0 ==> fits_i32(fan_speed->0 - fan_min)
    }
}

/// Percentage of the range for `offset` in `(0, 2^31)` and `range > 0`.
fn range_pct(offset: i32, range: i32) -> (p: u64)
    requires
        range > 0,
    ensures
        p == spec_fan_pct(offset as int, range as int),
{
    if offset <= 0 {
        proof {
            let n: int = 100 * offset;
            let range: int = range as int;
            assert(n <= 0);
            assert((-2 * n + range) / (2 * range) >= 0) by (nonlinear_arith)
                requires
                    n <= 0,
                    range > 0,
            ;
            assert((2 * n + range) / (2 * range) <= 0) by (nonlinear_arith)
                requires
                    n <= 0,
                    range > 0,
            ;
            assert(div_round(n, range) <= 0);
            if (2 * n) % (2 * range) == range {
                assert(n / range <= 0) by (nonlinear_arith)
                    requires
                        n <= 0,
                        range > 0,
                ;
            }
        }
        return 0;
    }
    let n: u64 = 100 * (offset as u64);
    let d: u64 = range as u64;
    let q = n / d;
    let rem = n % d;
    proof {
        let ni = n as int;
        let di = d as int;
        assert(ni == q * di + rem) by (nonlinear_arith)
            requires
                q == ni / di,
                rem == ni % di,
                di > 0,
        ;
        let up: int = if 2 * rem >= di { 1 } else { 0 };
        assert(2 * ni + di == (q + up) * (2 * di) + (2 * rem + di - 2 * di * up)) by (nonlinear_arith)
            requires
                ni == q * di + rem,
        ;
        lemma_fundamental_div_mod_converse(2 * ni + di, 2 * di, q + up, 2 * rem + di - 2 * di * up);
        assert(2 * ni == q * (2 * di) + 2 * rem) by (nonlinear_arith)
            requires
                ni == q * di + rem,
        ;
        lemma_fundamental_div_mod_converse(2 * ni, 2 * di, q as int, 2 * rem as int);
    }
    let mut raw: u64 = if 2 * rem >= d {
        q + 1
    } else {
        q
    };
    if 2 * rem == d && (q == 14 || q == 28 || q == 56 || q == 57) {
        raw = q;
    }
    if raw > 100 {
        100
    } else {
        raw
    }
}

/// Preset label on exact match, otherwise the fan position as a percentage
/// of the device range ("Auto" for non-positive RPM, "…" when the fan speed
/// is unknown because the daemon is unreachable).
pub fn fan_current_label(
    presets: &[(i32, &'static str)],
    selected: Option<usize>,
    fan_speed: Option<i32>,
    fan_min: i32,
    fan_max: i32,
) -> (s: String)
    requires
        fan_label_defined(presets_view(presets@), selected, fan_speed, fan_min, fan_max),
    ensures
        s@ == spec_fan_label(presets_view(presets@), selected, fan_speed, fan_min, fan_max),
{
    match (selected, fan_speed) {
        (Some(i), _) => presets[i].1.to_owned(),
        (None, None) => "…".to_owned(),
        (None, Some(rpm)) => {
            if rpm <= 0 {
                "Auto".to_owned()
            } else {
                let range = fan_max - fan_min;
                let pct: u64 = if range > 0 {
                    range_pct(rpm - fan_min, range)
                } else {
                    0
                };
                let mut s = fmt_u64(pct);
                s.append("%");
                s
            }
        },
    }
}

/// Every preset RPM other than Max is a multiple of 100 (Auto is 0).
pub proof fn lemma_presets_snap_to_100(fan_min: i32, fan_max: i32, i: int)
    requires
        0 <= i < 4,
    ensures
        spec_fan_presets(fan_min, fan_max)[i].0 % 100 == 0,
{
    let k = div_round(4 * fan_min + i * (fan_max - fan_min), 400);
    assert((100 * k) % 100 == 0) by (nonlinear_arith);
}

/// On a proper range the Low, Medium and High presets never decrease.
pub proof fn lemma_presets_ordered(fan_min: i32, fan_max: i32)
    requires
        fan_min <= fan_max,
    ensures
        spec_fan_presets(fan_min, fan_max)[1].0 <= spec_fan_presets(fan_min, fan_max)[2].0,
        spec_fan_presets(fan_min, fan_max)[2].0 <= spec_fan_presets(fan_min, fan_max)[3].0,
{
    let r = fan_max - fan_min;
    let a = 4 * fan_min + r;
    let b = 4 * fan_min + 2 * r;
    let c = 4 * fan_min + 3 * r;
    lemma_div_round_400_monotonic(a, b);
    lemma_div_round_400_monotonic(b, c);
}

proof fn lemma_div_round_400_monotonic(x: int, y: int)
    requires
        x <= y,
    ensures
        div_round(x, 400) <= div_round(y, 400),
{
    if x >= 0 {
        vstd::arithmetic::div_mod::lemma_div_is_ordered(2 * x + 400, 2 * y + 400, 800);
    } else if y >= 0 {
        vstd::arithmetic::div_mod::lemma_div_is_ordered(0, -2 * x + 400, 800);
        vstd::arithmetic::div_mod::lemma_div_is_ordered(0, 2 * y + 400, 800);
    } else {
        vstd::arithmetic::div_mod::lemma_div_is_ordered(-2 * y + 400, -2 * x + 400, 800);
    }
}

/// Whatever preset the user picks, once the fan speed reads back as that
/// preset's RPM the menu checks a preset with exactly that RPM.
pub proof fn lemma_picked_preset_is_checked(presets: Seq<(int, Seq<char>)>, i: int)
    requires
        0 <= i < presets.len(),
        fits_i32(presets[i].0),
    ensures
        spec_selected(presets, Some(presets[i].0 as i32)) matches Some(j) && 0 <= j <= i
            && presets[j].0 == presets[i].0,
{
    let rpm = presets[i].0;
    let j = lemma_first_with_rpm_exists(presets, rpm, i);
    assert(exists|k: int| first_with_rpm(presets, rpm, k));
    let c = choose|c: int| first_with_rpm(presets, rpm, c);
    assert(first_with_rpm(presets, rpm, c));
    assert(c == j) by {
        if c < j {
            assert(presets[c].0 != rpm);
        } else if c > j {
            assert(presets[j].0 != rpm);
        }
    }
    let fs: Option<i32> = Some(rpm as i32);
    assert(fs is Some && fs->0 == rpm);
    assert(spec_selected(presets, fs) is Some);
    assert(spec_selected(presets, fs) == Some(j));
}

proof fn lemma_first_with_rpm_exists(presets: Seq<(int, Seq<char>)>, rpm: int, i: int) -> (j: int)
    requires
        0 <= i < presets.len(),
        presets[i].0 == rpm,
    ensures
        first_with_rpm(presets, rpm, j),
        j <= i,
    decreases i,
{
    if exists|k: int| 0 <= k < i && presets[k].0 == rpm {
        let k = choose|k: int| 0 <= k < i && presets[k].0 == rpm;
        lemma_first_with_rpm_exists(presets, rpm, k)
    } else {
        i
    }
}

/// `div_round(n, d)` is a nearest integer to `n / d`: its multiple of `d`
/// lies within half of `d` of `n`.
proof fn lemma_div_round_nearest(n: int, d: int)
    requires
        d > 0,
    ensures
        -d <= 2 * (d * div_round(n, d)) - 2 * n <= d,
{
    let dd = 2 * d;
    if n >= 0 {
        let x = 2 * n + d;
        vstd::arithmetic::div_mod::lemma_fundamental_div_mod(x, dd);
        let q = x / dd;
        let r = x % dd;
        assert(2 * (d * q) == dd * q) by (nonlinear_arith)
            requires
                dd == 2 * d,
        ;
        assert(div_round(n, d) == q);
    } else {
        let x = -2 * n + d;
        vstd::arithmetic::div_mod::lemma_fundamental_div_mod(x, dd);
        let q = x / dd;
        let r = x % dd;
        assert(2 * (d * (-q)) == -(dd * q)) by (nonlinear_arith)
            requires
                dd == 2 * d,
        ;
        assert(div_round(n, d) == -q);
    }
}

/// The presets in menu order are Auto at 0 RPM, Low, Medium and High at
/// multiples of 100 RPM within 50 RPM of a quarter, a half and three
/// quarters of the way from the minimum to the maximum, and Max at the
/// maximum.
pub proof fn lemma_presets_are_quarter_points(fan_min: i32, fan_max: i32)
    ensures
        spec_fan_presets(fan_min, fan_max).len() == 5,
        spec_fan_presets(fan_min, fan_max)[0] == (0int, "Auto"@),
        spec_fan_presets(fan_min, fan_max)[1].1 == "Low"@,
        spec_fan_presets(fan_min, fan_max)[2].1 == "Medium"@,
        spec_fan_presets(fan_min, fan_max)[3].1 == "High"@,
        spec_fan_presets(fan_min, fan_max)[4] == (fan_max as int, "Max"@),
        forall|q: int|
            1 <= q <= 3 ==> {
                let rpm = #[trigger] spec_fan_presets(fan_min, fan_max)[q].0;
                &&& rpm % 100 == 0
                &&& -200 <= 4 * rpm - (4 * fan_min + q * (fan_max - fan_min)) <= 200
            },
{
    assert forall|q: int|
        1 <= q <= 3 implies {
            let rpm = #[trigger] spec_fan_presets(fan_min, fan_max)[q].0;
            &&& rpm % 100 == 0
            &&& -200 <= 4 * rpm - (4 * fan_min + q * (fan_max - fan_min)) <= 200
        } by {
        let x = 4 * fan_min + q * (fan_max - fan_min);
        lemma_div_round_nearest(x, 400);
        lemma_presets_snap_to_100(fan_min, fan_max, q);
        assert(spec_fan_presets(fan_min, fan_max)[q].0 == 100 * div_round(x, 400));
    }
}

/// The percentage the header shows for a fan position in a range of
/// `range > 0` RPM: within 0..=100, 0 at or below the minimum, 100 at or
/// above the maximum, and in between a nearest whole percentage of the
/// exact position (off by at most half a percent).
proof fn lemma_fan_pct_nearest(offset: int, range: int)
    requires
        range > 0,
    ensures
        0 <= spec_fan_pct(offset, range) <= 100,
        offset <= 0 ==> spec_fan_pct(offset, range) == 0,
        offset >= range ==> spec_fan_pct(offset, range) == 100,
        0 <= offset <= range ==> -range <= 2 * (spec_fan_pct(offset, range) * range) - 2 * (100
            * offset) <= range,
{
    let n = 100 * offset;
    lemma_div_round_nearest(n, range);
    let q = div_round(n, range);
    let k = n / range;
    vstd::arithmetic::div_mod::lemma_fundamental_div_mod(n, range);
    assert(n == range * k + n % range);
    if offset <= 0 {
        assert(q <= 0) by (nonlinear_arith)
            requires
                2 * (range * q) <= range,
                range > 0,
        ;
        assert(k <= 0) by (nonlinear_arith)
            requires
                n == range * k + n % range,
                0 <= n % range,
                n <= 0,
                range > 0,
        ;
    }
    if offset >= range {
        assert(q >= 100) by (nonlinear_arith)
            requires
                2 * (range * q) >= 2 * n - range,
                n >= 100 * range,
                range > 0,
        ;
        assert(k >= 100) by (nonlinear_arith)
            requires
                n == range * k + n % range,
                n % range < range,
                n >= 100 * range,
                range > 0,
        ;
    }
    if 0 <= offset <= range {
        assert(0 <= q <= 100) by (nonlinear_arith)
            requires
                -range <= 2 * (range * q) - 2 * n <= range,
                0 <= n <= 100 * range,
                range > 0,
        ;
        assert(2 * (q * range) == 2 * (range * q)) by (nonlinear_arith);
    }
    if (2 * n) % (2 * range) == range && half_percent_rounds_down(k) {
        vstd::arithmetic::div_mod::lemma_fundamental_div_mod(2 * n, 2 * range);
        let k2 = (2 * n) / (2 * range);
        assert(2 * n == 2 * range * k2 + range);
        assert(k == k2) by (nonlinear_arith)
            requires
                2 * n == 2 * range * k2 + range,
                n == range * k + n % range,
                0 <= n % range < range,
                range > 0,
        ;
        assert(2 * (k * range) - 2 * n == -range) by (nonlinear_arith)
            requires
                2 * n == 2 * range * k2 + range,
                k == k2,
        ;
    }
}

/// What the fan submenu header says: the label of the selected preset; "…"
/// when the fan speed is unknown; "Auto" for a non-positive RPM; otherwise
/// a whole percentage "N%" of the position in the device range, 0 for an
/// empty range, clamped to 0..=100 and off by at most half a percent inside
/// the range.
pub proof fn lemma_fan_label_says(
    presets: Seq<(int, Seq<char>)>,
    selected: Option<usize>,
    fan_speed: Option<i32>,
    fan_min: i32,
    fan_max: i32,
    rpm: i32,
)
    ensures
        selected matches Some(i) ==> spec_fan_label(presets, selected, fan_speed, fan_min, fan_max)
            == presets[i as int].1,
        selected is None && fan_speed is None ==> spec_fan_label(
            presets,
            selected,
            fan_speed,
            fan_min,
            fan_max,
        ) == "…"@,
        selected is None && fan_speed == Some(rpm) && rpm <= 0 ==> spec_fan_label(
            presets,
            selected,
            fan_speed,
            fan_min,
            fan_max,
        ) == "Auto"@,
        selected is None && fan_speed == Some(rpm) && rpm > 0 ==> exists|p: int|
            #![trigger int_dec(p)]
            {
                &&& spec_fan_label(presets, selected, fan_speed, fan_min, fan_max) == int_dec(p)
                    + "%"@
                &&& 0 <= p <= 100
                &&& fan_max <= fan_min ==> p == 0
                &&& fan_max > fan_min && rpm <= fan_min ==> p == 0
                &&& fan_max > fan_min && rpm >= fan_max ==> p == 100
                &&& fan_max > fan_min && fan_min <= rpm <= fan_max ==> -(fan_max - fan_min) <= 2 * (
                p * (fan_max - fan_min)) - 200 * (rpm - fan_min) <= fan_max - fan_min
            },
{
    if selected is None && fan_speed == Some(rpm) && rpm > 0 {
        let p = spec_range_pct(rpm, fan_min, fan_max);
        if fan_max - fan_min > 0 {
            lemma_fan_pct_nearest(rpm - fan_min, fan_max - fan_min);
        }
        assert(spec_fan_label(presets, selected, fan_speed, fan_min, fan_max) == int_dec(p) + "%"@);
    }
}

/// The checked preset holds exactly the fan speed and no earlier preset
/// does; nothing is checked when the speed is unknown or no preset has it.
pub proof fn lemma_selected_is_first_exact_match(
    presets: Seq<(int, Seq<char>)>,
    fan_speed: Option<i32>,
)
    ensures
        spec_selected(presets, fan_speed) matches Some(i) ==> {
            &&& fan_speed is Some
            &&& 0 <= i < presets.len()
            &&& presets[i].0 == fan_speed->0
            &&& forall|j: int| 0 <= j < i ==> #[trigger] presets[j].0 != fan_speed->0
        },
        spec_selected(presets, fan_speed) is None ==> (fan_speed is None || forall|j: int|
            0 <= j < presets.len() ==> #[trigger] presets[j].0 != fan_speed->0),
{
    if fan_speed is Some {
        let rpm = fan_speed->0;
        if spec_selected(presets, fan_speed) is None {
            assert forall|j: int| 0 <= j < presets.len() implies #[trigger] presets[j].0 != rpm by {
                if presets[j].0 == rpm {
                    let k = lemma_first_with_rpm_exists(presets, rpm as int, j);
                }
            }
        }
    }
}

} // verus!
