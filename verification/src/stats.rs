use vstd::prelude::*;
use vstd::string::*;
use crate::text::{
    lemma_dec_digits, lemma_fields_of, lemma_first_line_of, lemma_parse_u32_reads_decimal_line,
    lemma_trim_strips_surrounding_space,
    dec, lemma_parse_u64_reads_decimal_line,
    chars_of, field, field_range, first_line, first_line_end, next_word, parse_u32, parse_u32_range,
    parse_u64, parse_u64_range, trim, trim_range, words,
};

verus! {

/// The characters of an optional string.
pub open spec fn opt_view(o: Option<String>) -> Option<Seq<char>> {
    match o {
        Some(s) => Some(s@),
        None => None,
    }
}

/// The `n`-th comma-separated field of the first line of `output`, trimmed.
pub open spec fn dgpu_field(output: Seq<char>, n: nat) -> Option<Seq<char>> {
    match field(first_line(output), ',', n) {
        Some(f) => Some(trim(f)),
        None => None,
    }
}

/// The fields of one line of `nvidia-smi --query-gpu=temperature.gpu,
/// power.draw,utilization.gpu --format=csv,noheader,nounits` output: the
/// temperature and power text (read as decimal numbers by the caller) and
/// the utilisation in percent. Only the first GPU's line counts; a field
/// the driver reports as "[N/A]" (e.g. while the dGPU sleeps) is no number.
#[derive(Clone, Debug, PartialEq)]
pub struct DgpuFields {
    pub temp: Option<String>,
    pub power: Option<String>,
    pub util: Option<u32>,
}

fn trimmed_field(output: &str, v: &Vec<char>, line_end: usize, n: usize) -> (r: Option<
    (usize, usize),
>)
    requires
        v@ == output@,
        line_end <= v@.len(),
        v@.subrange(0, line_end as int) == first_line(output@),
    ensures
        match r {
            Some((a, b)) => a <= b <= v@.len() && dgpu_field(output@, n as nat) == Some(
                v@.subrange(a as int, b as int),
            ),
            None => dgpu_field(output@, n as nat) is None,
        },
{
    match field_range(v, ',', line_end, n) {
        Some((a, b)) => {
            let (x, y) = trim_range(v, a, b);
            Some((x, y))
        },
        None => None,
    }
}

/// Splits the first line of the output into its fields.
pub fn parse_dgpu_fields(output: &str) -> (f: DgpuFields)
    ensures
        opt_view(f.temp) == dgpu_field(output@, 0),
        opt_view(f.power) == dgpu_field(output@, 1),
        f.util == match dgpu_field(output@, 2) {
            Some(t) => parse_u32(t),
            None => None,
        },
{
    let v = chars_of(output);
    let e = first_line_end(&v);
    let temp = match trimmed_field(output, &v, e, 0) {
        Some((a, b)) => Some(output.substring_char(a, b).to_owned()),
        None => None,
    };
    let power = match trimmed_field(output, &v, e, 1) {
        Some((a, b)) => Some(output.substring_char(a, b).to_owned()),
        None => None,
    };
    let util = match trimmed_field(output, &v, e, 2) {
        Some((a, b)) => parse_u32_range(&v, a, b),
        None => None,
    };
    DgpuFields { temp, power, util }
}

/// What the summary line of `/proc/stat` gives.
#[derive(Clone, Copy, Debug, PartialEq, Eq, Structural)]
pub enum CpuTimes {
    /// The first line is not a `cpu` line with at least four counters.
    NotCpuLine,
    /// The counters add up to more than `u64` holds.
    Overflow,
    /// The idle counter (0 when unreadable) and the sum of all readable
    /// counters, in clock ticks.
    Times { idle: u64, total: u64 },
}

/// The value of a counter word; an unreadable word counts as 0.
pub open spec fn counter_value(w: Seq<char>) -> nat {
    match parse_u64(w) {
        Some(x) => x as nat,
        None => 0,
    }
}

/// The sum of the counter words.
pub open spec fn counter_sum(ws: Seq<Seq<char>>) -> nat
    decreases ws.len(),
{
    if ws.len() == 0 {
        0
    } else {
        counter_sum(ws.drop_last()) + counter_value(ws.last())
    }
}

/// The summary line of `/proc/stat` ("cpu user nice system idle ..."):
/// the idle counter and the total of all counters after the label.
pub open spec fn spec_cpu_times(stat: Seq<char>) -> CpuTimes {
    let ws = words(first_line(stat));
    if ws.len() >= 5 && ws[0] == "cpu"@ {
        let total = counter_sum(ws.drop_first());
        if total > u64::MAX {
            CpuTimes::Overflow
        } else {
            CpuTimes::Times {
                idle: match parse_u64(ws[4]) {
                    Some(x) => x,
                    None => 0,
                },
                total: total as u64,
            }
        }
    } else {
        CpuTimes::NotCpuLine
    }
}

/// Reads the summary line of `/proc/stat`.
pub fn cpu_times(stat: &str) -> (r: CpuTimes)
    ensures
        r == spec_cpu_times(stat@),
{
    let v = chars_of(stat);
    let e = first_line_end(&v);
    let ghost line = v@.subrange(0, e as int);
    let ghost mut seen: Seq<Seq<char>> = Seq::empty();
    let mut count: usize = 0;
    let mut first_is_cpu = false;
    let mut total: u128 = 0;
    let mut over = false;
    let mut idle: u64 = 0;
    let mut i: usize = 0;
    assert(line =~= v@.subrange(0, e as int));
    loop
        invariant
            i <= e,
            e <= v@.len(),
            line == first_line(stat@),
            line == v@.subrange(0, e as int),
            words(line) == seen + words(v@.subrange(i as int, e as int)),
            count == seen.len(),
            count <= i,
            first_is_cpu == (seen.len() > 0 && seen[0] == "cpu"@),
            over == (seen.len() > 0 && counter_sum(seen.drop_first()) > u64::MAX),
            !over ==> total == (if seen.len() > 0 {
                counter_sum(seen.drop_first())
            } else {
                0
            }),
            seen.len() > 4 ==> idle == (match parse_u64(seen[4]) {
                Some(x) => x,
                None => 0,
            }),
        ensures
            line == first_line(stat@),
            words(line) == seen,
            count == seen.len(),
            first_is_cpu == (seen.len() > 0 && seen[0] == "cpu"@),
            over == (seen.len() > 0 && counter_sum(seen.drop_first()) > u64::MAX),
            !over ==> total == (if seen.len() > 0 {
                counter_sum(seen.drop_first())
            } else {
                0
            }),
            seen.len() > 4 ==> idle == (match parse_u64(seen[4]) {
                Some(x) => x,
                None => 0,
            }),
        decreases e - i,
    {
        match next_word(&v, i, e) {
            None => {
                assert(words(line) =~= seen);
                break ;
            },
            Some((a, b)) => {
                let ghost w = v@.subrange(a as int, b as int);
                let ghost old_seen = seen;
                proof {
                    seen = seen.push(w);
                    assert(words(line) =~= seen + words(v@.subrange(b as int, e as int)));
                }
                if count == 0 {
                    first_is_cpu = b - a == 3 && v[a] == 'c' && v[a + 1] == 'p' && v[a + 2] == 'u';
                    proof {
                        reveal_strlit("cpu");
                        let c = "cpu"@;
                        assert(c.len() == 3 && c[0] == 'c' && c[1] == 'p' && c[2] == 'u');
                        if b - a == 3 {
                            assert(w.len() == 3);
                            assert(w[0] == v@[a as int] && w[1] == v@[a + 1] && w[2] == v@[a + 2]);
                            if first_is_cpu {
                                assert(w =~= c);
                            }
                        }
                        if w == c {
                            assert(w[0] == v@[a as int] && w[1] == v@[a + 1] && w[2] == v@[a + 2]);
                        }
                    }
                    assert(seen.drop_first() =~= Seq::<Seq<char>>::empty());
                } else {
                    let value = match parse_u64_range(&v, a, b) {
                        Some(x) => x,
                        None => 0,
                    };
                    assert(seen.drop_first().drop_last() =~= old_seen.drop_first());
                    assert(seen.drop_first().last() == w);
                    if !over {
                        let next = total + value as u128;
                        if next > 18446744073709551615 {
                            over = true;
                        } else {
                            total = next;
                        }
                    }
                    if count == 4 {
                        idle = value;
                    }
                }
                count = count + 1;
                i = b;
            },
        }
    }
    if count >= 5 && first_is_cpu {
        if over {
            CpuTimes::Overflow
        } else {
            CpuTimes::Times { idle, total: total as u64 }
        }
    } else {
        CpuTimes::NotCpuLine
    }
}

/// The counter difference `cur - prev` modulo 2^64 (counters may wrap).
pub open spec fn counter_diff(cur: u64, prev: u64) -> u64 {
    if cur >= prev {
        (cur - prev) as u64
    } else {
        (cur - prev + 0x1_0000_0000_0000_0000) as u64
    }
}

/// The idle and total ticks that passed between two readings of the
/// summary line, each taken modulo 2^64; `None` while there is no earlier
/// reading (a previous total of 0) or when no tick passed.
pub open spec fn spec_cpu_ticks(prev_idle: u64, prev_total: u64, idle: u64, total: u64) -> Option<
    (u64, u64),
> {
    if prev_total > 0 && counter_diff(total, prev_total) > 0 {
        Some((counter_diff(idle, prev_idle), counter_diff(total, prev_total)))
    } else {
        None
    }
}

/// The ticks between the previous and the current reading: the share of
/// busy time is `1 - idle / total` of the result.
pub fn cpu_ticks(prev_idle: u64, prev_total: u64, idle: u64, total: u64) -> (r: Option<(u64, u64)>)
    ensures
        r == spec_cpu_ticks(prev_idle, prev_total, idle, total),
{
    if prev_total > 0 {
        let d_idle = idle.wrapping_sub(prev_idle);
        let d_total = total.wrapping_sub(prev_total);
        if d_total > 0 {
            return Some((d_idle, d_total));
        }
    }
    None
}

/// The ticks between two readings are the plain advances of the counters
/// when neither counter went back: the first component is how far the idle
/// counter moved, the second how far the total moved. With no earlier
/// reading (a previous total of 0) or no tick passed there is no result;
/// a total that went back is read as having wrapped past 2^64.
pub proof fn lemma_cpu_ticks_are_counter_advances(
    prev_idle: u64,
    prev_total: u64,
    idle: u64,
    total: u64,
)
    ensures
        prev_total > 0 && total > prev_total && idle >= prev_idle ==> spec_cpu_ticks(
            prev_idle,
            prev_total,
            idle,
            total,
        ) == Some(((idle - prev_idle) as u64, (total - prev_total) as u64)),
        prev_total > 0 && total > prev_total && idle < prev_idle ==> spec_cpu_ticks(
            prev_idle,
            prev_total,
            idle,
            total,
        ) == Some(((idle + 0x1_0000_0000_0000_0000 - prev_idle) as u64, (total - prev_total) as u64)),
        prev_total > 0 && total < prev_total ==> (spec_cpu_ticks(prev_idle, prev_total, idle, total)
            matches Some(p) && p.1 == total + 0x1_0000_0000_0000_0000 - prev_total),
        prev_total == 0 || total == prev_total ==> spec_cpu_ticks(
            prev_idle,
            prev_total,
            idle,
            total,
        ) is None,
{
}

/// A summary line of the label "cpu" and the counters user, nice, system and
/// idle (in decimal) gives the idle counter and the sum of all four, or
/// `Overflow` when the sum exceeds `u64`. A line of fewer than five words,
/// or one that does not start with "cpu", is no summary line.
pub proof fn lemma_cpu_times_reads_counters(
    stat: Seq<char>,
    user: u64,
    nice: u64,
    system: u64,
    idle: u64,
)
    ensures
        words(first_line(stat)) == seq![
            "cpu"@,
            dec(user as nat),
            dec(nice as nat),
            dec(system as nat),
            dec(idle as nat),
        ] ==> spec_cpu_times(stat) == if user + nice + system + idle <= u64::MAX {
            CpuTimes::Times { idle, total: (user + nice + system + idle) as u64 }
        } else {
            CpuTimes::Overflow
        },
        words(first_line(stat)).len() < 5 ==> spec_cpu_times(stat) == CpuTimes::NotCpuLine,
        words(first_line(stat)).len() > 0 && words(first_line(stat))[0] != "cpu"@
            ==> spec_cpu_times(stat) == CpuTimes::NotCpuLine,
{
    let ws = words(first_line(stat));
    let d1 = dec(user as nat);
    let d2 = dec(nice as nat);
    let d3 = dec(system as nat);
    let d4 = dec(idle as nat);
    if ws == seq!["cpu"@, d1, d2, d3, d4] {
        lemma_parse_u64_reads_decimal_line(user);
        lemma_parse_u64_reads_decimal_line(nice);
        lemma_parse_u64_reads_decimal_line(system);
        lemma_parse_u64_reads_decimal_line(idle);
        let c4 = seq![d1, d2, d3, d4];
        let c3 = seq![d1, d2, d3];
        let c2 = seq![d1, d2];
        let c1 = seq![d1];
        assert(ws.drop_first() =~= c4);
        assert(c4.drop_last() =~= c3);
        assert(c3.drop_last() =~= c2);
        assert(c2.drop_last() =~= c1);
        assert(c1.drop_last() =~= Seq::<Seq<char>>::empty());
        assert(counter_sum(Seq::<Seq<char>>::empty()) == 0);
        assert(c1.last() == d1 && c2.last() == d2 && c3.last() == d3 && c4.last() == d4);
        assert(counter_value(d1) == user);
        assert(counter_sum(c1) == user);
        assert(counter_sum(c2) == user + nice);
        assert(counter_sum(c3) == user + nice + system);
        assert(counter_sum(c4) == user + nice + system + idle);
        assert(ws[4] == d4);
    }
}

/// `nvidia-smi` prints one line "temperature, power, utilisation" per GPU:
/// the fields of the first line, trimmed, are the temperature and the power
/// text and the utilisation text, and no fourth field exists; a utilisation
/// written as a decimal number after the separating space reads as that
/// number.
pub proof fn lemma_dgpu_first_line_fields(
    temp: Seq<char>,
    power: Seq<char>,
    util: Seq<char>,
    rest: Seq<char>,
    u: u32,
)
    requires
        !temp.contains(',') && !temp.contains('\n') && !temp.contains('\r'),
        !power.contains(',') && !power.contains('\n') && !power.contains('\r'),
        !util.contains(',') && !util.contains('\n') && !util.contains('\r'),
    ensures
        ({
            let out = temp + seq![','] + power + seq![','] + util + seq!['\n'] + rest;
            &&& dgpu_field(out, 0) == Some(trim(temp))
            &&& dgpu_field(out, 1) == Some(trim(power))
            &&& dgpu_field(out, 2) == Some(trim(util))
            &&& dgpu_field(out, 3) is None
        }),
        parse_u32(trim(seq![' '] + dec(u as nat))) == Some(u),
{
    let line = temp + seq![','] + power + seq![','] + util;
    assert(!line.contains('\n')) by {
        if line.contains('\n') {
            let j = choose|j: int| 0 <= j < line.len() && line[j] == '\n';
            if j < temp.len() {
                assert(temp[j] == '\n');
            } else if j == temp.len() {
            } else if j < temp.len() + 1 + power.len() {
                assert(power[j - temp.len() - 1] == '\n');
            } else if j == temp.len() + 1 + power.len() {
            } else {
                assert(util[j - temp.len() - 2 - power.len()] == '\n');
            }
        }
    }
    assert(!line.contains('\r')) by {
        if line.contains('\r') {
            let j = choose|j: int| 0 <= j < line.len() && line[j] == '\r';
            if j < temp.len() {
                assert(temp[j] == '\r');
            } else if j == temp.len() {
            } else if j < temp.len() + 1 + power.len() {
                assert(power[j - temp.len() - 1] == '\r');
            } else if j == temp.len() + 1 + power.len() {
            } else {
                assert(util[j - temp.len() - 2 - power.len()] == '\r');
            }
        }
    }
    lemma_first_line_of(line, rest);
    assert(temp + seq![','] + power + seq![','] + util + seq!['\n'] + rest =~= line + seq!['\n']
        + rest);
    lemma_fields_of(temp, power, util, ',');
    lemma_dec_digits(u as nat);
    lemma_trim_strips_surrounding_space(seq![' '], dec(u as nat), Seq::empty());
    assert(seq![' '] + dec(u as nat) + Seq::<char>::empty() =~= seq![' '] + dec(u as nat));
    lemma_parse_u32_reads_decimal_line(u);
}

} // verus!
