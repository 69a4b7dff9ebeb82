use vstd::prelude::*;
use vstd::string::*;
use crate::text::{
    is_white_space, lemma_parse_u64_reads_decimal_line, lemma_trim_strips_surrounding_space,
    dec, lemma_parse_reads_decimal_line,
    chars_of, parse_u32, parse_u32_range, parse_u64, parse_u64_range, parse_uint, parse_uint_range,
    str_eq, trim, trim_range,
};

verus! {

/// `str::parse::<u8>`.
pub open spec fn parse_u8(s: Seq<char>) -> Option<u8> {
    match parse_uint(s, u8::MAX as nat) {
        Some(v) => Some(v as u8),
        None => None,
    }
}

/// The characters of `content` and the bounds of its trimmed part.
fn trimmed_bounds(content: &str) -> (r: (Vec<char>, usize, usize))
    ensures
        r.0@ == content@,
        r.1 <= r.2 <= r.0@.len(),
        r.0@.subrange(r.1 as int, r.2 as int) == trim(content@),
{
    let v = chars_of(content);
    let n = v.len();
    let (a, b) = trim_range(&v, 0, n);
    assert(v@.subrange(0, n as int) =~= v@);
    (v, a, b)
}

/// Whether a sysfs value, trimmed, reads `expected`.
pub fn trimmed_is(content: &str, expected: &str) -> (r: bool)
    ensures
        r == (trim(content@) == expected@),
{
    let (_v, a, b) = trimmed_bounds(content);
    str_eq(content.substring_char(a, b), expected)
}

/// A sysfs value, trimmed, read as `u8` (a battery capacity in percent).
pub fn trimmed_u8(content: &str) -> (r: Option<u8>)
    ensures
        r == parse_u8(trim(content@)),
{
    let (v, a, b) = trimmed_bounds(content);
    match parse_uint_range(&v, a, b, 255) {
        Some(x) => Some(x as u8),
        None => None,
    }
}

/// A sysfs value, trimmed, read as `u32` (a busy percentage, a frequency in
/// MHz).
pub fn trimmed_u32(content: &str) -> (r: Option<u32>)
    ensures
        r == parse_u32(trim(content@)),
{
    let (v, a, b) = trimmed_bounds(content);
    parse_u32_range(&v, a, b)
}

/// A sysfs value, trimmed, read as `u64` (an energy counter, a current, a
/// voltage).
pub fn trimmed_u64(content: &str) -> (r: Option<u64>)
    ensures
        r == parse_u64(trim(content@)),
{
    let (v, a, b) = trimmed_bounds(content);
    parse_u64_range(&v, a, b)
}

/// A sysfs text value, trimmed; `None` when nothing is left (a battery
/// status such as "Charging").
pub fn trimmed_text(content: &str) -> (r: Option<String>)
    ensures
        match r {
            Some(s) => trim(content@).len() > 0 && s@ == trim(content@),
            None => trim(content@).len() == 0,
        },
{
    let (_v, a, b) = trimmed_bounds(content);
    if a == b {
        None
    } else {
        Some(content.substring_char(a, b).to_owned())
    }
}

/// The hwmon drivers whose first temperature input is the CPU package.
pub open spec fn is_cpu_sensor(name: Seq<char>) -> bool {
    let t = trim(name);
    t == "k10temp"@ || t == "zenpower"@ || t == "coretemp"@
}

/// The hwmon drivers of an integrated GPU.
pub open spec fn is_igpu_sensor(name: Seq<char>) -> bool {
    let t = trim(name);
    t == "amdgpu"@ || t == "i915"@
}

/// Whether an hwmon `name` file names a CPU temperature driver.
pub fn cpu_sensor(name: &str) -> (r: bool)
    ensures
        r == is_cpu_sensor(name@),
{
    trimmed_is(name, "k10temp") || trimmed_is(name, "zenpower") || trimmed_is(name, "coretemp")
}

/// Whether an hwmon `name` file names an integrated GPU driver.
pub fn igpu_sensor(name: &str) -> (r: bool)
    ensures
        r == is_igpu_sensor(name@),
{
    trimmed_is(name, "amdgpu") || trimmed_is(name, "i915")
}

/// The battery's discharge inputs from its `current_now` (µA) and
/// `voltage_now` (µV) files: both must read as `u64`, and the current must
/// be positive (a battery that neither charges nor discharges reports 0).
pub open spec fn spec_battery_draw(current: Seq<char>, voltage: Seq<char>) -> Option<(u64, u64)> {
    match (parse_u64(trim(current)), parse_u64(trim(voltage))) {
        (Some(c), Some(v)) => if c > 0 {
            Some((c, v))
        } else {
            None
        },
        _ => None,
    }
}

/// Reads the current and voltage of a battery; the power is their product
/// over 10^12 W.
pub fn battery_draw(current: &str, voltage: &str) -> (r: Option<(u64, u64)>)
    ensures
        r == spec_battery_draw(current@, voltage@),
{
    match (trimmed_u64(current), trimmed_u64(voltage)) {
        (Some(c), Some(v)) => if c > 0 {
            Some((c, v))
        } else {
            None
        },
        _ => None,
    }
}

/// A value file holding the decimal line of any `n` up to 255 (a battery
/// capacity up to 100 among them) reads as `n`; a larger number reads as
/// no value.
pub proof fn lemma_u8_reads_decimal_line(n: nat)
    ensures
        n <= 255 ==> parse_u8(trim(dec(n) + seq!['\n'])) == Some(n as u8),
        n > 255 ==> parse_u8(trim(dec(n) + seq!['\n'])) is None,
{
    lemma_parse_reads_decimal_line(n, 255);
}

/// A sysfs file holding a word followed by a newline (as sysfs writes
/// them) is recognised as that word: "1" marks mains power, the CPU
/// temperature drivers are k10temp, zenpower and coretemp, the integrated
/// GPU drivers amdgpu and i915, and no name is both.
pub proof fn lemma_sysfs_words(word: Seq<char>)
    requires
        word.len() == 0 || (!is_white_space(word[0]) && !is_white_space(word.last())),
    ensures
        trim(word + seq!['\n']) == word,
        trim(seq![' '] + word + seq!['\n']) == word,
        is_cpu_sensor(word + seq!['\n']) <==> (word == "k10temp"@ || word == "zenpower"@ || word
            == "coretemp"@),
        is_igpu_sensor(word + seq!['\n']) <==> (word == "amdgpu"@ || word == "i915"@),
        !(is_cpu_sensor(word) && is_igpu_sensor(word)),
{
    lemma_trim_strips_surrounding_space(Seq::empty(), word, seq!['\n']);
    lemma_trim_strips_surrounding_space(seq![' '], word, seq!['\n']);
    assert(Seq::<char>::empty() + word + seq!['\n'] =~= word + seq!['\n']);
    reveal_strlit("k10temp");
    reveal_strlit("zenpower");
    reveal_strlit("coretemp");
    reveal_strlit("amdgpu");
    reveal_strlit("i915");
    let t = trim(word);
    if t == "amdgpu"@ || t == "i915"@ {
        assert(t[0] == 'a' || t[0] == 'i');
    }
}

/// A battery that reports a positive current draws that current at the
/// reported voltage; a zero current reads as no draw.
pub proof fn lemma_battery_draw_reads_values(c: u64, v: u64)
    ensures
        c > 0 ==> spec_battery_draw(dec(c as nat) + seq!['\n'], dec(v as nat) + seq!['\n']) == Some(
            (c, v),
        ),
        c == 0 ==> spec_battery_draw(dec(c as nat) + seq!['\n'], dec(v as nat) + seq!['\n']) is None,
{
    lemma_parse_u64_reads_decimal_line(c);
    lemma_parse_u64_reads_decimal_line(v);
}

} // verus!
