use vstd::prelude::*;
use vstd::string::*;

verus! {

broadcast use vstd::string::group_string_axioms;

/// Whether two string slices hold the same characters.
pub fn str_eq(a: &str, b: &str) -> (r: bool)
    ensures
        r == (a@ == b@),
{
    let ab = a.as_bytes();
    let bb = b.as_bytes();
    proof {
        vstd::utf8::encode_utf8_decode_utf8(a@);
        vstd::utf8::encode_utf8_decode_utf8(b@);
    }
    if ab.len() != bb.len() {
        return false;
    }
    let n = ab.len();
    let mut i: usize = 0;
    while i < n
        invariant
            n == ab@.len(),
            n == bb@.len(),
            ab@ == a.spec_bytes(),
            bb@ == b.spec_bytes(),
            i <= n,
            forall|j: int| 0 <= j < i ==> ab@[j] == bb@[j],
        decreases n - i,
    {
        if ab[i] != bb[i] {
            assert(a@ == b@ ==> ab@ == bb@);
            return false;
        }
        i = i + 1;
    }
    assert(ab@ =~= bb@);
    true
}

/// The characters of a string slice, in order.
pub fn chars_of(s: &str) -> (v: Vec<char>)
    ensures
        v@ == s@,
{
    let mut v: Vec<char> = Vec::new();
    for c in it: s.chars()
        invariant
            v@ == it.seq().take(it.index() as int),
            it.seq() == s@,
    {
        v.push(c);
    }
    v
}

/// The ASCII digit character for `d` (for `d < 10`).
pub open spec fn digit_char(d: nat) -> char {
    seq!['0', '1', '2', '3', '4', '5', '6', '7', '8', '9'][d as int]
}

/// Decimal notation of a natural number, without leading zeros.
pub open spec fn dec(n: nat) -> Seq<char>
    decreases n,
{
    if n < 10 {
        seq![digit_char(n)]
    } else {
        dec(n / 10).push(digit_char(n % 10))
    }
}

/// Decimal notation of an integer, with a leading `-` when negative.
pub open spec fn int_dec(v: int) -> Seq<char> {
    if v < 0 {
        seq!['-'] + dec((-v) as nat)
    } else {
        dec(v as nat)
    }
}

fn digit_str(d: u64) -> (s: &'static str)
    requires
        d < 10,
    ensures
        s@ == seq![digit_char(d as nat)],
{
    proof {
        reveal_strlit("0");
        reveal_strlit("1");
        reveal_strlit("2");
        reveal_strlit("3");
        reveal_strlit("4");
        reveal_strlit("5");
        reveal_strlit("6");
        reveal_strlit("7");
        reveal_strlit("8");
        reveal_strlit("9");
    }
    match d {
        0 => "0",
        1 => "1",
        2 => "2",
        3 => "3",
        4 => "4",
        5 => "5",
        6 => "6",
        7 => "7",
        8 => "8",
        _ => "9",
    }
}

/// Decimal notation of `n`, as `format!("{}", n)` writes it.
pub fn fmt_u64(n: u64) -> (s: String)
    ensures
        s@ == dec(n as nat),
    decreases n,
{
    if n < 10 {
        let mut s = String::new();
        s.append(digit_str(n));
        s
    } else {
        let mut s = fmt_u64(n / 10);
        s.append(digit_str(n % 10));
        s
    }
}

/// Decimal notation of `v`, as `format!("{}", v)` writes it.
pub fn fmt_i64(v: i64) -> (s: String)
    ensures
        s@ == int_dec(v as int),
{
    if v < 0 {
        let mut s = String::new();
        proof {
            reveal_strlit("-");
        }
        s.append("-");
        // -(v + 1) fits even for i64::MIN; one more gives the magnitude
        let magnitude = ((-(v + 1)) as u64) + 1;
        let digits = fmt_u64(magnitude);
        s.append(digits.as_str());
        s
    } else {
        fmt_u64(v as u64)
    }
}

/// The characters of each string of a list.
pub open spec fn views(v: Seq<String>) -> Seq<Seq<char>> {
    v.map_values(|s: String| s@)
}

/// The parts laid end to end with `sep` between neighbours.
pub open spec fn join(parts: Seq<Seq<char>>, sep: Seq<char>) -> Seq<char>
    decreases parts.len(),
{
    if parts.len() == 0 {
        Seq::empty()
    } else if parts.len() == 1 {
        parts[0]
    } else {
        join(parts.drop_last(), sep) + sep + parts.last()
    }
}

/// Joining one, two or three parts.
pub proof fn lemma_join_small(a: Seq<char>, b: Seq<char>, c: Seq<char>, sep: Seq<char>)
    ensures
        join(seq![a], sep) == a,
        join(seq![a, b], sep) == a + sep + b,
        join(seq![a, b, c], sep) == a + sep + b + sep + c,
{
    let one = seq![a];
    let two = seq![a, b];
    let three = seq![a, b, c];
    assert(join(one, sep) == a);
    assert(two.drop_last() =~= one);
    assert(two.last() == b);
    assert(join(two, sep) == join(one, sep) + sep + b);
    assert(three.drop_last() =~= two);
    assert(three.last() == c);
    assert(join(three, sep) == join(two, sep) + sep + c);
}

/// Joins the strings of `parts` with `sep` between neighbours.
pub fn join_strings(parts: &Vec<String>, sep: &str) -> (s: String)
    ensures
        s@ == join(views(parts@), sep@),
{
    let mut s = String::new();
    let n = parts.len();
    let mut i: usize = 0;
    while i < n
        invariant
            n == parts@.len(),
            i <= n,
            s@ == join(views(parts@).take(i as int), sep@),
        decreases n - i,
    {
        assert(views(parts@).take(i + 1).drop_last() =~= views(parts@).take(i as int));
        if i != 0 {
            s.append(sep);
        }
        s.append(parts[i].as_str());
        i = i + 1;
    }
    assert(views(parts@).take(n as int) =~= views(parts@));
    s
}

/// Appends `s` to a list of strings.
pub fn push_part(v: &mut Vec<String>, s: String)
    ensures
        views(final(v)@) == views(old(v)@).push(s@),
{
    let ghost old_v = v@;
    v.push(s);
    assert(views(v@) =~= views(old_v).push(s@));
}

/// `a` followed by `b`, as a new string.
pub fn concat(a: &str, b: &str) -> (s: String)
    ensures
        s@ == a@ + b@,
{
    let mut s = a.to_owned();
    s.append(b);
    s
}

/// Unicode `White_Space`, the property `char::is_whitespace` tests.
pub open spec fn is_white_space(c: char) -> bool {
    let u = c as u32;
    ||| 0x9 <= u <= 0xd
    ||| u == 0x20
    ||| u == 0x85
    ||| u == 0xa0
    ||| u == 0x1680
    ||| 0x2000 <= u <= 0x200a
    ||| u == 0x2028
    ||| u == 0x2029
    ||| u == 0x202f
    ||| u == 0x205f
    ||| u == 0x3000
}

pub fn white_space(c: char) -> (b: bool)
    ensures
        b == is_white_space(c),
{
    let u = c as u32;
    (0x9 <= u && u <= 0xd) || u == 0x20 || u == 0x85 || u == 0xa0 || u == 0x1680 || (0x2000 <= u
        && u <= 0x200a) || u == 0x2028 || u == 0x2029 || u == 0x202f || u == 0x205f || u == 0x3000
}

/// `s` without its leading white space.
pub open spec fn trim_start(s: Seq<char>) -> Seq<char>
    decreases s.len(),
{
    if s.len() > 0 && is_white_space(s[0]) {
        trim_start(s.drop_first())
    } else {
        s
    }
}

/// `s` without its trailing white space.
pub open spec fn trim_end(s: Seq<char>) -> Seq<char>
    decreases s.len(),
{
    if s.len() > 0 && is_white_space(s.last()) {
        trim_end(s.drop_last())
    } else {
        s
    }
}

/// `s` without leading and trailing white space, as `str::trim` gives it.
pub open spec fn trim(s: Seq<char>) -> Seq<char> {
    trim_end(trim_start(s))
}

/// Every character of `s` is white space.
pub open spec fn all_white_space(s: Seq<char>) -> bool {
    forall|i: int| 0 <= i < s.len() ==> is_white_space(#[trigger] s[i])
}

/// `str::trim` removes exactly the white space around a text that neither
/// starts nor ends with white space.
pub proof fn lemma_trim_strips_surrounding_space(pre: Seq<char>, s: Seq<char>, post: Seq<char>)
    requires
        all_white_space(pre),
        all_white_space(post),
        s.len() == 0 || (!is_white_space(s[0]) && !is_white_space(s.last())),
    ensures
        trim(pre + s + post) == s,
    decreases pre.len() + post.len(),
{
    if pre.len() > 0 {
        let t = pre + s + post;
        assert(t.drop_first() =~= pre.drop_first() + s + post);
        assert(is_white_space(t[0]));
        lemma_trim_strips_surrounding_space(pre.drop_first(), s, post);
        assert(trim_start(t) == trim_start(t.drop_first()));
    } else if post.len() > 0 {
        let t = pre + s + post;
        assert(t =~= s + post);
        assert(t.drop_last() =~= pre + s + post.drop_last());
        assert(is_white_space(t.last()));
        lemma_trim_strips_surrounding_space(pre, s, post.drop_last());
        if s.len() > 0 {
            assert(t[0] == s[0]);
            assert(trim_start(t) == t);
            assert((s + post.drop_last())[0] == s[0]);
            assert(trim_start(s + post.drop_last()) == s + post.drop_last());
        } else {
            lemma_trim_start_all_space(t);
            lemma_trim_start_all_space(post.drop_last());
            assert(t =~= post);
        }
    } else {
        assert(pre + s + post =~= s);
        if s.len() > 0 {
            assert(trim_start(s) == s);
            assert(trim_end(s) == s);
        }
    }
}

proof fn lemma_trim_start_all_space(s: Seq<char>)
    requires
        all_white_space(s),
    ensures
        trim_start(s) == Seq::<char>::empty(),
    decreases s.len(),
{
    if s.len() > 0 {
        assert(is_white_space(s[0]));
        lemma_trim_start_all_space(s.drop_first());
    }
}

/// The bounds of the trimmed part of `v[a..b]`.
pub fn trim_range(v: &Vec<char>, a: usize, b: usize) -> (r: (usize, usize))
    requires
        a <= b <= v@.len(),
    ensures
        a <= r.0 <= r.1 <= b,
        v@.subrange(r.0 as int, r.1 as int) == trim(v@.subrange(a as int, b as int)),
{
    let mut i = a;
    while i < b && white_space(v[i])
        invariant
            a <= i <= b,
            b <= v@.len(),
            trim_start(v@.subrange(a as int, b as int)) == trim_start(v@.subrange(i as int, b as int)),
        decreases b - i,
    {
        assert(v@.subrange(i as int, b as int).drop_first() =~= v@.subrange(i + 1, b as int));
        i = i + 1;
    }
    let mut j = b;
    while j > i && white_space(v[j - 1])
        invariant
            a <= i <= j <= b,
            b <= v@.len(),
            trim_end(v@.subrange(i as int, b as int)) == trim_end(v@.subrange(i as int, j as int)),
        decreases j - i,
    {
        assert(v@.subrange(i as int, j as int).drop_last() =~= v@.subrange(i as int, j - 1));
        j = j - 1;
    }
    (i, j)
}

/// Position of the first `c` in `s`; `s.len()` when there is none.
pub open spec fn index_of(s: Seq<char>, c: char) -> int
    decreases s.len(),
{
    if s.len() == 0 {
        0
    } else if s[0] == c {
        0
    } else {
        1 + index_of(s.drop_first(), c)
    }
}

/// `index_of` points into `s`, at a `c`, or just past the end.
pub proof fn lemma_index_of_bounds(s: Seq<char>, c: char)
    ensures
        0 <= index_of(s, c) <= s.len(),
        index_of(s, c) < s.len() ==> s[index_of(s, c)] == c,
        forall|j: int| 0 <= j < index_of(s, c) ==> s[j] != c,
    decreases s.len(),
{
    if s.len() > 0 && s[0] != c {
        lemma_index_of_bounds(s.drop_first(), c);
        assert forall|j: int| 0 <= j < index_of(s, c) implies s[j] != c by {
            if j > 0 {
                assert(s[j] == s.drop_first()[j - 1]);
            }
        }
    }
}

/// Position of the first `c` in `v[from..end]`, or `end` when there is none.
pub fn find_char(v: &Vec<char>, c: char, from: usize, end: usize) -> (k: usize)
    requires
        from <= end <= v@.len(),
    ensures
        from <= k <= end,
        k == from + index_of(v@.subrange(from as int, end as int), c),
{
    let mut i = from;
    proof {
        lemma_index_of_bounds(v@.subrange(from as int, end as int), c);
    }
    while i < end && v[i] != c
        invariant
            from <= i <= end,
            end <= v@.len(),
            from + index_of(v@.subrange(from as int, end as int), c) == i + index_of(
                v@.subrange(i as int, end as int),
                c,
            ),
        decreases end - i,
    {
        assert(v@.subrange(i as int, end as int).drop_first() =~= v@.subrange(i + 1, end as int));
        i = i + 1;
    }
    i
}

/// The `n`-th piece of `s` split at every `c` (counting from 0), as the
/// `n`-th item of `str::split` gives it; `None` past the last piece.
pub open spec fn field(s: Seq<char>, c: char, n: nat) -> Option<Seq<char>>
    decreases n,
{
    let k = index_of(s, c);
    if n == 0 {
        Some(s.take(k))
    } else if k >= s.len() {
        None
    } else {
        field(s.skip(k + 1), c, (n - 1) as nat)
    }
}

/// The bounds of the `n`-th piece of `v[..end]` split at every `c`.
pub fn field_range(v: &Vec<char>, c: char, end: usize, n: usize) -> (r: Option<(usize, usize)>)
    requires
        end <= v@.len(),
    ensures
        match r {
            Some((a, b)) => a <= b <= end && field(v@.subrange(0, end as int), c, n as nat) == Some(
                v@.subrange(a as int, b as int),
            ),
            None => field(v@.subrange(0, end as int), c, n as nat) is None,
        },
{
    let mut start: usize = 0;
    let mut idx: usize = 0;
    assert(v@.subrange(0, end as int) =~= v@.subrange(start as int, end as int));
    while idx < n
        invariant
            start <= end,
            end <= v@.len(),
            idx <= n,
            field(v@.subrange(0, end as int), c, n as nat) == field(
                v@.subrange(start as int, end as int),
                c,
                (n - idx) as nat,
            ),
        decreases n - idx,
    {
        let k = find_char(v, c, start, end);
        if k >= end {
            return None;
        }
        assert(v@.subrange(start as int, end as int).skip(k - start + 1) =~= v@.subrange(
            k + 1,
            end as int,
        ));
        start = k + 1;
        idx = idx + 1;
    }
    let k = find_char(v, c, start, end);
    assert(v@.subrange(start as int, end as int).take(k - start) =~= v@.subrange(
        start as int,
        k as int,
    ));
    Some((start, k))
}

/// The first line of `s`, as the first item of `str::lines` gives it (the
/// empty line for an empty `s`): everything before the first line feed,
/// without a carriage return that ends it.
pub open spec fn first_line(s: Seq<char>) -> Seq<char> {
    let k = index_of(s, '\n');
    if k < s.len() && k > 0 && s[k - 1] == '\r' {
        s.take(k - 1)
    } else {
        s.take(k)
    }
}

/// Where the first line of `v` ends.
pub fn first_line_end(v: &Vec<char>) -> (e: usize)
    ensures
        e <= v@.len(),
        v@.subrange(0, e as int) == first_line(v@),
{
    let n = v.len();
    let k = find_char(v, '\n', 0, n);
    assert(v@.subrange(0, n as int) =~= v@);
    if k < n && k > 0 && v[k - 1] == '\r' {
        assert(v@.subrange(0, (k - 1) as int) =~= v@.take(k - 1));
        k - 1
    } else {
        assert(v@.subrange(0, k as int) =~= v@.take(k as int));
        k
    }
}

/// An ASCII decimal digit.
pub open spec fn is_digit(c: char) -> bool {
    48 <= (c as u32) <= 57
}

/// The number a string of decimal digits denotes.
pub open spec fn digits_value(s: Seq<char>) -> nat
    decreases s.len(),
{
    if s.len() == 0 {
        0
    } else {
        digits_value(s.drop_last()) * 10 + ((s.last() as u32) - 48) as nat
    }
}

/// `s` without one leading `+`.
pub open spec fn unsigned_body(s: Seq<char>) -> Seq<char> {
    if s.len() > 0 && s[0] == '+' {
        s.drop_first()
    } else {
        s
    }
}

/// Every character of `s` is a decimal digit.
pub open spec fn all_digits(s: Seq<char>) -> bool {
    forall|i: int| 0 <= i < s.len() ==> is_digit(#[trigger] s[i])
}

/// `str::parse` for an unsigned type whose largest value is `max`: an
/// optional `+` followed by one or more decimal digits whose value is at
/// most `max`; `None` otherwise.
pub open spec fn parse_uint(s: Seq<char>, max: nat) -> Option<nat> {
    let body = unsigned_body(s);
    if body.len() > 0 && all_digits(body) && digits_value(body) <= max {
        Some(digits_value(body))
    } else {
        None
    }
}

/// `str::parse::<u32>`.
pub open spec fn parse_u32(s: Seq<char>) -> Option<u32> {
    match parse_uint(s, u32::MAX as nat) {
        Some(v) => Some(v as u32),
        None => None,
    }
}

/// `str::parse::<u64>`.
pub open spec fn parse_u64(s: Seq<char>) -> Option<u64> {
    match parse_uint(s, u64::MAX as nat) {
        Some(v) => Some(v as u64),
        None => None,
    }
}

proof fn lemma_digit_char(d: nat)
    requires
        d < 10,
    ensures
        digit_char(d) as u32 == 48 + d,
        is_digit(digit_char(d)),
        !is_white_space(digit_char(d)),
        digit_char(d) != '+',
{
    let t = seq!['0', '1', '2', '3', '4', '5', '6', '7', '8', '9'];
    assert(digit_char(d) == t[d as int]);
    if d == 0 {
        assert(t[0] == '0');
    } else if d == 1 {
        assert(t[1] == '1');
    } else if d == 2 {
        assert(t[2] == '2');
    } else if d == 3 {
        assert(t[3] == '3');
    } else if d == 4 {
        assert(t[4] == '4');
    } else if d == 5 {
        assert(t[5] == '5');
    } else if d == 6 {
        assert(t[6] == '6');
    } else if d == 7 {
        assert(t[7] == '7');
    } else if d == 8 {
        assert(t[8] == '8');
    } else {
        assert(t[9] == '9');
    }
}

/// The decimal notation of `n` is a nonempty run of digits that denotes `n`.
pub proof fn lemma_dec_digits(n: nat)
    ensures
        dec(n).len() > 0,
        all_digits(dec(n)),
        digits_value(dec(n)) == n,
        dec(n)[0] != '+',
        !is_white_space(dec(n)[0]),
        !is_white_space(dec(n).last()),
    decreases n,
{
    let s = dec(n);
    if n < 10 {
        lemma_digit_char(n);
        assert(s =~= seq![digit_char(n)]);
        assert(s.drop_last() =~= Seq::<char>::empty());
        assert(digits_value(Seq::<char>::empty()) == 0);
    } else {
        lemma_dec_digits(n / 10);
        lemma_digit_char(n % 10);
        let p = dec(n / 10);
        assert(s == p.push(digit_char(n % 10)));
        assert(s.drop_last() =~= p);
        assert(s[0] == p[0]);
        assert forall|i: int| 0 <= i < s.len() implies is_digit(#[trigger] s[i]) by {
            if i < s.len() - 1 {
                assert(s[i] == p[i]);
            }
        }
    }
}

/// What `str::parse` makes of a line holding the decimal notation of `n`
/// (as a sysfs file holds a value): `n` itself when it is at most `max`,
/// and no number when it is larger.
pub proof fn lemma_parse_reads_decimal_line(n: nat, max: nat)
    ensures
        parse_uint(trim(dec(n) + seq!['\n']), max) == if n <= max {
            Some(n)
        } else {
            None::<nat>
        },
        parse_uint(dec(n), max) == if n <= max {
            Some(n)
        } else {
            None::<nat>
        },
{
    lemma_dec_digits(n);
    let d = dec(n);
    let s = d + seq!['\n'];
    assert(s[0] == d[0]);
    assert(trim_start(s) == s);
    assert(s.last() == '\n');
    assert(s.drop_last() =~= d);
    assert(trim_end(s) == trim_end(d));
    assert(trim_end(d) == d);
    assert(trim(s) == d);
    assert(unsigned_body(d) == d);
}

/// `str::parse::<u32>` reads back the decimal line of every `u32`.
pub proof fn lemma_parse_u32_reads_decimal_line(n: u32)
    ensures
        parse_u32(trim(dec(n as nat) + seq!['\n'])) == Some(n),
        parse_u32(dec(n as nat)) == Some(n),
{
    lemma_parse_reads_decimal_line(n as nat, u32::MAX as nat);
}

/// `str::parse::<u64>` reads back the decimal line of every `u64`.
pub proof fn lemma_parse_u64_reads_decimal_line(n: u64)
    ensures
        parse_u64(trim(dec(n as nat) + seq!['\n'])) == Some(n),
        parse_u64(dec(n as nat)) == Some(n),
{
    lemma_parse_reads_decimal_line(n as nat, u64::MAX as nat);
}

/// Parses `v[a..b]` as an unsigned number of at most `max`.
pub fn parse_uint_range(v: &Vec<char>, a: usize, b: usize, max: u64) -> (r: Option<u64>)
    requires
        a <= b <= v@.len(),
    ensures
        match r {
            Some(x) => parse_uint(v@.subrange(a as int, b as int), max as nat) == Some(x as nat),
            None => parse_uint(v@.subrange(a as int, b as int), max as nat) is None,
        },
{
    let ghost s = v@.subrange(a as int, b as int);
    let mut start = a;
    if a < b && v[a] == '+' {
        start = a + 1;
    }
    let ghost body = v@.subrange(start as int, b as int);
    assert(body =~= unsigned_body(s));
    if start == b {
        return None;
    }
    let mut acc: u128 = 0;
    let mut over = false;
    let mut i = start;
    while i < b
        invariant
            a <= start <= i <= b,
            b <= v@.len(),
            body == v@.subrange(start as int, b as int),
            s == v@.subrange(a as int, b as int),
            body == unsigned_body(s),
            forall|j: int| start <= j < i ==> is_digit(#[trigger] v@[j]),
            over == (digits_value(v@.subrange(start as int, i as int)) > max),
            !over ==> acc == digits_value(v@.subrange(start as int, i as int)),
        decreases b - i,
    {
        let ch = v[i];
        let u = ch as u32;
        if u < 48 || u > 57 {
            assert(!is_digit(body[i - start]));
            assert(!all_digits(body));
            return None;
        }
        let d = (u - 48) as u128;
        assert(v@.subrange(start as int, i + 1).drop_last() =~= v@.subrange(start as int, i as int));
        if !over {
            let next = acc * 10 + d;
            if next > max as u128 {
                over = true;
            } else {
                acc = next;
            }
        }
        i = i + 1;
    }
    assert(v@.subrange(start as int, b as int) =~= body);
    assert forall|j: int| 0 <= j < body.len() implies is_digit(#[trigger] body[j]) by {
        assert(body[j] == v@[start + j]);
    }
    assert(all_digits(body));
    if over {
        None
    } else {
        Some(acc as u64)
    }
}

/// Parses `v[a..b]` as `str::parse::<u32>` does.
pub fn parse_u32_range(v: &Vec<char>, a: usize, b: usize) -> (r: Option<u32>)
    requires
        a <= b <= v@.len(),
    ensures
        r == parse_u32(v@.subrange(a as int, b as int)),
{
    match parse_uint_range(v, a, b, 4294967295) {
        Some(x) => Some(x as u32),
        None => None,
    }
}

/// Parses `v[a..b]` as `str::parse::<u64>` does.
pub fn parse_u64_range(v: &Vec<char>, a: usize, b: usize) -> (r: Option<u64>)
    requires
        a <= b <= v@.len(),
    ensures
        r == parse_u64(v@.subrange(a as int, b as int)),
{
    parse_uint_range(v, a, b, 18446744073709551615)
}

/// Position of the first white-space character of `s`, or `s.len()`.
pub open spec fn ws_index(s: Seq<char>) -> int
    decreases s.len(),
{
    if s.len() == 0 {
        0
    } else if is_white_space(s[0]) {
        0
    } else {
        1 + ws_index(s.drop_first())
    }
}

/// `ws_index` stays within `s`, and is past a leading non-white character.
pub proof fn lemma_ws_index_bounds(s: Seq<char>)
    ensures
        0 <= ws_index(s) <= s.len(),
        s.len() > 0 && !is_white_space(s[0]) ==> ws_index(s) >= 1,
    decreases s.len(),
{
    if s.len() > 0 && !is_white_space(s[0]) {
        lemma_ws_index_bounds(s.drop_first());
    }
}

/// Trimming the start shortens and leaves no leading white space.
pub proof fn lemma_trim_start_suffix(s: Seq<char>)
    ensures
        trim_start(s).len() <= s.len(),
        trim_start(s).len() > 0 ==> !is_white_space(trim_start(s)[0]),
    decreases s.len(),
{
    if s.len() > 0 && is_white_space(s[0]) {
        lemma_trim_start_suffix(s.drop_first());
    }
}

/// The white-space separated words of `s`, as `str::split_whitespace`
/// gives them.
pub open spec fn words(s: Seq<char>) -> Seq<Seq<char>>
    decreases s.len(),
{
    let t = trim_start(s);
    if t.len() == 0 {
        seq![]
    } else {
        proof {
            lemma_trim_start_suffix(s);
            lemma_ws_index_bounds(t);
        }
        seq![t.take(ws_index(t))] + words(t.skip(ws_index(t)))
    }
}

/// The bounds of the first word of `v[from..end]`, `None` when it has none.
pub fn next_word(v: &Vec<char>, from: usize, end: usize) -> (r: Option<(usize, usize)>)
    requires
        from <= end <= v@.len(),
    ensures
        match r {
            Some((a, b)) => from <= a < b <= end && words(v@.subrange(from as int, end as int))
                == seq![v@.subrange(a as int, b as int)] + words(v@.subrange(b as int, end as int)),
            None => words(v@.subrange(from as int, end as int)) == Seq::<Seq<char>>::empty(),
        },
{
    let mut i = from;
    while i < end && white_space(v[i])
        invariant
            from <= i <= end,
            end <= v@.len(),
            trim_start(v@.subrange(from as int, end as int)) == trim_start(
                v@.subrange(i as int, end as int),
            ),
        decreases end - i,
    {
        assert(v@.subrange(i as int, end as int).drop_first() =~= v@.subrange(i + 1, end as int));
        i = i + 1;
    }
    let ghost t = v@.subrange(i as int, end as int);
    assert(trim_start(v@.subrange(from as int, end as int)) == t);
    if i == end {
        return None;
    }
    let mut j = i;
    while j < end && !white_space(v[j])
        invariant
            i <= j <= end,
            end <= v@.len(),
            t == v@.subrange(i as int, end as int),
            ws_index(t) == (j - i) + ws_index(v@.subrange(j as int, end as int)),
        decreases end - j,
    {
        assert(v@.subrange(j as int, end as int).drop_first() =~= v@.subrange(j + 1, end as int));
        j = j + 1;
    }
    assert(ws_index(t) == j - i);
    assert(t.take(j - i) =~= v@.subrange(i as int, j as int));
    assert(t.skip(j - i) =~= v@.subrange(j as int, end as int));
    Some((i, j))
}

proof fn lemma_trim_start_skips_space(pre: Seq<char>, x: Seq<char>)
    requires
        all_white_space(pre),
    ensures
        trim_start(pre + x) == trim_start(x),
    decreases pre.len(),
{
    if pre.len() > 0 {
        assert((pre + x)[0] == pre[0]);
        assert((pre + x).drop_first() =~= pre.drop_first() + x);
        lemma_trim_start_skips_space(pre.drop_first(), x);
    } else {
        assert(pre + x =~= x);
    }
}

proof fn lemma_ws_index_of_word(w: Seq<char>, tail: Seq<char>)
    requires
        forall|i: int| 0 <= i < w.len() ==> !is_white_space(#[trigger] w[i]),
        tail.len() == 0 || is_white_space(tail[0]),
    ensures
        ws_index(w + tail) == w.len(),
    decreases w.len(),
{
    if w.len() > 0 {
        assert((w + tail)[0] == w[0]);
        assert((w + tail).drop_first() =~= w.drop_first() + tail);
        assert forall|i: int| 0 <= i < w.drop_first().len() implies !is_white_space(
            #[trigger] w.drop_first()[i],
        ) by {
            assert(w.drop_first()[i] == w[i + 1]);
        }
        lemma_ws_index_of_word(w.drop_first(), tail);
    } else {
        assert(w + tail =~= tail);
    }
}

/// `str::split_whitespace`: leading white space gives no word; a run of
/// non-white characters ended by a white-space character (or by the end)
/// is one word, followed by the words of the rest.
pub proof fn lemma_words_split(pre: Seq<char>, w: Seq<char>, sep: char, rest: Seq<char>)
    requires
        all_white_space(pre),
        w.len() > 0,
        forall|i: int| 0 <= i < w.len() ==> !is_white_space(#[trigger] w[i]),
        is_white_space(sep),
    ensures
        words(pre + w + seq![sep] + rest) == seq![w] + words(rest),
        words(pre + w) == seq![w],
        words(pre) == Seq::<Seq<char>>::empty(),
{
    let x = w + seq![sep] + rest;
    assert(pre + w + seq![sep] + rest =~= pre + x);
    lemma_trim_start_skips_space(pre, x);
    assert(x[0] == w[0]);
    assert(trim_start(x) == x);
    assert(w + seq![sep] + rest =~= w + (seq![sep] + rest));
    lemma_ws_index_of_word(w, seq![sep] + rest);
    assert(x.take(w.len() as int) =~= w);
    let after = x.skip(w.len() as int);
    assert(after =~= seq![sep] + rest);
    assert(after[0] == sep);
    assert(after.drop_first() =~= rest);
    assert(trim_start(after) == trim_start(rest));
    assert(words(after) == words(rest));

    lemma_trim_start_skips_space(pre, w);
    assert(trim_start(w) == w);
    assert(w =~= w + Seq::<char>::empty());
    lemma_ws_index_of_word(w, Seq::empty());
    assert(w.take(w.len() as int) =~= w);
    assert(w.skip(w.len() as int) =~= Seq::<char>::empty());
    assert(trim_start(Seq::<char>::empty()) == Seq::<char>::empty());
    assert(words(Seq::<char>::empty()) == Seq::<Seq<char>>::empty());

    lemma_trim_start_skips_space(pre, Seq::empty());
    assert(pre + Seq::<char>::empty() =~= pre);
}

/// The first `c` in `a + tail`, where `a` holds no `c`, is where `tail`
/// starts (or at its first `c`).
proof fn lemma_index_of_after(a: Seq<char>, c: char, tail: Seq<char>)
    requires
        !a.contains(c),
    ensures
        index_of(a + tail, c) == a.len() + index_of(tail, c),
    decreases a.len(),
{
    if a.len() > 0 {
        assert((a + tail)[0] == a[0]);
        assert(a[0] != c);
        assert((a + tail).drop_first() =~= a.drop_first() + tail);
        assert(!a.drop_first().contains(c)) by {
            if a.drop_first().contains(c) {
                let j = choose|j: int| 0 <= j < a.drop_first().len() && a.drop_first()[j] == c;
                assert(a[j + 1] == c);
            }
        }
        lemma_index_of_after(a.drop_first(), c, tail);
    } else {
        assert(a + tail =~= tail);
    }
}

/// `lines().next()`: a text without line feed is its own first line; a line
/// ended by a line feed (or by a carriage return and a line feed) is the
/// first line of whatever follows.
pub proof fn lemma_first_line_of(a: Seq<char>, rest: Seq<char>)
    requires
        !a.contains('\n'),
        !a.contains('\r'),
    ensures
        first_line(a) == a,
        first_line(a + seq!['\n'] + rest) == a,
        first_line(a + seq!['\r', '\n'] + rest) == a,
{
    lemma_index_of_after(a, '\n', Seq::empty());
    assert(a + Seq::<char>::empty() =~= a);
    assert(index_of(Seq::<char>::empty(), '\n') == 0);
    assert(a.take(a.len() as int) =~= a);
    let t1 = seq!['\n'] + rest;
    lemma_index_of_after(a, '\n', t1);
    assert(t1[0] == '\n');
    assert(a + seq!['\n'] + rest =~= a + t1);
    assert((a + t1).take(a.len() as int) =~= a);
    if a.len() > 0 {
        assert((a + t1)[a.len() - 1] == a[a.len() - 1]);
        assert(a[a.len() - 1] != '\r');
    }
    let t2 = seq!['\r', '\n'] + rest;
    let a2 = a + seq!['\r'];
    assert(!a2.contains('\n')) by {
        if a2.contains('\n') {
            let j = choose|j: int| 0 <= j < a2.len() && a2[j] == '\n';
            if j < a.len() {
                assert(a[j] == '\n');
            }
        }
    }
    lemma_index_of_after(a2, '\n', t1);
    assert(a + t2 =~= a2 + t1);
    assert(a + seq!['\r', '\n'] + rest =~= a2 + t1);
    assert((a2 + t1)[a.len() as int] == '\r');
    assert((a2 + t1).take(a.len() as int) =~= a);
}

/// `str::split(c)`: the pieces of three texts free of `c` joined by `c`
/// are those texts, and there is no fourth piece.
pub proof fn lemma_fields_of(a: Seq<char>, b: Seq<char>, d: Seq<char>, c: char)
    requires
        !a.contains(c),
        !b.contains(c),
        !d.contains(c),
    ensures
        field(a + seq![c] + b + seq![c] + d, c, 0) == Some(a),
        field(a + seq![c] + b + seq![c] + d, c, 1) == Some(b),
        field(a + seq![c] + b + seq![c] + d, c, 2) == Some(d),
        field(a + seq![c] + b + seq![c] + d, c, 3) is None,
{
    let s = a + seq![c] + b + seq![c] + d;
    let s1 = b + seq![c] + d;
    assert(s =~= a + (seq![c] + s1));
    lemma_index_of_after(a, c, seq![c] + s1);
    assert((seq![c] + s1)[0] == c);
    assert(s.take(a.len() as int) =~= a);
    assert(s.skip(a.len() as int + 1) =~= s1);
    assert(s1 =~= b + (seq![c] + d));
    lemma_index_of_after(b, c, seq![c] + d);
    assert((seq![c] + d)[0] == c);
    assert(s1.take(b.len() as int) =~= b);
    assert(s1.skip(b.len() as int + 1) =~= d);
    lemma_index_of_after(d, c, Seq::empty());
    assert(d + Seq::<char>::empty() =~= d);
    assert(index_of(Seq::<char>::empty(), c) == 0);
    assert(d.take(d.len() as int) =~= d);
    assert(field(s1, c, 1) == field(d, c, 0));
    assert(field(s1, c, 2) == field(d, c, 1));
    assert(field(s, c, 1) == field(s1, c, 0));
    assert(field(s, c, 2) == field(s1, c, 1));
    assert(field(s, c, 3) == field(s1, c, 2));
}

} // verus!
