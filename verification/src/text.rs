//! Character-level helpers shared by the parsers and message builders.
//!
//! Every function here works on `Seq<char>` models: a `&str` or `String` is
//! read through its view, and results are stated as equations over sequences.

use vstd::prelude::*;

verus! {

/// `String::push`: the character is appended to the end of the string.
pub assume_specification[ String::push ](s: &mut String, c: char)
    ensures
        final(s)@ == old(s)@.push(c),
;

/// The characters of `s`, in order.
pub fn chars_of(s: &str) -> (out: Vec<char>)
    ensures
        out@ == s@,
{
    let mut out: Vec<char> = Vec::new();
    for c in it: s.chars()
        invariant
            it.seq() == s@,
            out@ == s@.subrange(0, it.index() as int),
    {
        out.push(c);
    }
    assert(s@.subrange(0, s@.len() as int) == s@);
    out
}

/// A string holding exactly the characters `v[from..to]`.
pub fn string_of_range(v: &Vec<char>, from: usize, to: usize) -> (out: String)
    requires
        from <= to <= v.len(),
    ensures
        out@ == v@.subrange(from as int, to as int),
{
    let mut out = String::new();
    let mut i: usize = from;
    while i < to
        invariant
            from <= i <= to <= v.len(),
            out@ == v@.subrange(from as int, i as int),
        decreases to - i,
    {
        out.push(v[i]);
        i += 1;
        assert(v@.subrange(from as int, i as int) == v@.subrange(from as int, i - 1).push(
            v@[i - 1],
        ));
    }
    out
}

/// A string holding exactly the characters of `v`.
pub fn string_of(v: &Vec<char>) -> (out: String)
    ensures
        out@ == v@,
{
    let out = string_of_range(v, 0, v.len());
    assert(v@.subrange(0, v.len() as int) == v@);
    out
}

/// `a` followed by `b`.
pub fn join2(a: &str, b: &str) -> (out: String)
    ensures
        out@ == a@ + b@,
{
    let mut out = String::from_str(a);
    out.append(b);
    out
}

/// `a`, `b` and `c` in sequence.
pub fn join3(a: &str, b: &str, c: &str) -> (out: String)
    ensures
        out@ == a@ + b@ + c@,
{
    let mut out = String::from_str(a);
    out.append(b);
    out.append(c);
    out
}

/// The decimal digit character for `d`.
pub open spec fn digit_char(d: nat) -> char
    recommends
        d < 10,
{
    if d == 0 {
        '0'
    } else if d == 1 {
        '1'
    } else if d == 2 {
        '2'
    } else if d == 3 {
        '3'
    } else if d == 4 {
        '4'
    } else if d == 5 {
        '5'
    } else if d == 6 {
        '6'
    } else if d == 7 {
        '7'
    } else if d == 8 {
        '8'
    } else {
        '9'
    }
}

/// The shortest decimal numeral of `n`: no leading zero except for zero itself.
pub open spec fn decimal(n: nat) -> Seq<char>
    decreases n,
{
    if n < 10 {
        seq![digit_char(n)]
    } else {
        decimal(n / 10).push(digit_char(n % 10))
    }
}

/// The numeral of a signed value: a minus sign in front of the magnitude when negative.
pub open spec fn signed_decimal(n: int) -> Seq<char> {
    if n < 0 {
        seq!['-'] + decimal((-n) as nat)
    } else {
        decimal(n as nat)
    }
}

/// `decimal(n)` padded on the left with one zero when `n` has a single digit.
pub open spec fn decimal_padded2(n: nat) -> Seq<char> {
    if n < 10 {
        seq!['0'] + decimal(n)
    } else {
        decimal(n)
    }
}

fn digit_of(d: u64) -> (c: char)
    requires
        d < 10,
    ensures
        c == digit_char(d as nat),
{
    if d == 0 {
        '0'
    } else if d == 1 {
        '1'
    } else if d == 2 {
        '2'
    } else if d == 3 {
        '3'
    } else if d == 4 {
        '4'
    } else if d == 5 {
        '5'
    } else if d == 6 {
        '6'
    } else if d == 7 {
        '7'
    } else if d == 8 {
        '8'
    } else {
        '9'
    }
}

/// Renders `n` in decimal.
pub fn decimal_string(n: u64) -> (out: String)
    ensures
        out@ == decimal(n as nat),
{
    // Digits are produced least significant first, then emitted in reverse.
    let mut rev: Vec<char> = Vec::new();
    let mut rest: u64 = n;
    while rest >= 10
        invariant
            decimal(n as nat) == decimal(rest as nat) + rev@.reverse(),
        decreases rest,
    {
        let ghost before = rev@;
        rev.push(digit_of(rest % 10));
        proof {
            let d = digit_char((rest % 10) as nat);
            assert(rev@.reverse() == seq![d] + before.reverse());
            assert(decimal(rest as nat) == decimal((rest / 10) as nat).push(d));
            assert(decimal((rest / 10) as nat).push(d) + before.reverse() == decimal(
                (rest / 10) as nat,
            ) + (seq![d] + before.reverse()));
        }
        rest = rest / 10;
    }
    let mut out = String::new();
    out.push(digit_of(rest));
    let mut i: usize = rev.len();
    while i > 0
        invariant
            i <= rev.len(),
            rest < 10,
            out@ == seq![digit_char(rest as nat)] + rev@.reverse().subrange(
                0,
                rev.len() - i as int,
            ),
        decreases i,
    {
        i -= 1;
        out.push(rev[i]);
        proof {
            let r = rev@.reverse();
            let k = rev.len() - i - 1;
            assert(r[k] == rev@[i as int]);
            assert(r.subrange(0, k + 1) == r.subrange(0, k).push(r[k]));
            assert((seq![digit_char(rest as nat)] + r.subrange(0, k)).push(r[k]) == seq![
                digit_char(rest as nat),
            ] + r.subrange(0, k + 1));
        }
    }
    proof {
        let r = rev@.reverse();
        assert(r.subrange(0, rev.len() as int) == r);
    }
    out
}

/// Renders a signed value in decimal.
pub fn signed_decimal_string(n: i32) -> (out: String)
    ensures
        out@ == signed_decimal(n as int),
{
    if n < 0 {
        let magnitude: u64 = (-(n as i64)) as u64;
        let digits = decimal_string(magnitude);
        proof {
            reveal_strlit("-");
            assert("-"@ == seq!['-']);
        }
        join2("-", digits.as_str())
    } else {
        decimal_string(n as u64)
    }
}

/// Renders `n` in decimal with at least two digits.
pub fn decimal_padded2_string(n: u64) -> (out: String)
    ensures
        out@ == decimal_padded2(n as nat),
{
    let digits = decimal_string(n);
    if n < 10 {
        proof {
            reveal_strlit("0");
            assert("0"@ == seq!['0']);
        }
        join2("0", digits.as_str())
    } else {
        digits
    }
}

/// Whether `needle` occurs in `hay` starting at index `at`.
pub open spec fn run_at(hay: Seq<char>, needle: Seq<char>, at: int) -> bool {
    &&& 0 <= at
    &&& at + needle.len() <= hay.len()
    &&& hay.subrange(at, at + needle.len()) == needle
}

/// Whether `needle` occurs somewhere in `hay` as a contiguous run.
pub open spec fn has_run(hay: Seq<char>, needle: Seq<char>) -> bool {
    exists|at: int| run_at(hay, needle, at)
}

/// What stands between two texts occurs in the whole.
pub proof fn lemma_run_in_middle(before: Seq<char>, middle: Seq<char>, after: Seq<char>)
    ensures
        run_at(before + middle + after, middle, before.len() as int),
        has_run(before + middle + after, middle),
{
    let whole = before + middle + after;
    let from = before.len() as int;
    assert(whole.subrange(from, from + middle.len()) =~= middle);
}

/// What a text begins with occurs in it.
pub proof fn lemma_run_at_start(first: Seq<char>, rest: Seq<char>)
    ensures
        run_at(first + rest, first, 0),
        has_run(first + rest, first),
{
    assert((first + rest).subrange(0, first.len() as int) =~= first);
}

/// What occurs in a part occurs in the whole.
pub proof fn lemma_run_within(whole: Seq<char>, part: Seq<char>, needle: Seq<char>)
    requires
        has_run(whole, part),
        has_run(part, needle),
    ensures
        has_run(whole, needle),
{
    let a = choose|a: int| run_at(whole, part, a);
    let b = choose|b: int| run_at(part, needle, b);
    let window = whole.subrange(a, a + part.len());
    assert(window == part);
    assert(window.subrange(b, b + needle.len()) =~= whole.subrange(
        a + b,
        a + b + needle.len(),
    ));
    assert(run_at(whole, needle, a + b));
}

fn matches_at(hay: &Vec<char>, needle: &Vec<char>, at: usize) -> (hit: bool)
    requires
        at + needle.len() <= hay.len(),
    ensures
        hit == run_at(hay@, needle@, at as int),
{
    let mut k: usize = 0;
    while k < needle.len()
        invariant
            k <= needle.len(),
            at + needle.len() <= hay.len(),
            forall|j: int| 0 <= j < k ==> hay@[at + j] == needle@[j],
        decreases needle.len() - k,
    {
        if hay[at + k] != needle[k] {
            proof {
                let window = hay@.subrange(at as int, at + needle.len());
                assert(window[k as int] == hay@[at + k]);
            }
            return false;
        }
        k += 1;
    }
    assert(hay@.subrange(at as int, at + needle.len()) =~= needle@);
    true
}

/// Substring search.
pub fn contains_run(hay: &Vec<char>, needle: &Vec<char>) -> (found: bool)
    ensures
        found == has_run(hay@, needle@),
{
    if needle.len() > hay.len() {
        return false;
    }
    let last: usize = hay.len() - needle.len();
    let mut at: usize = 0;
    loop
        invariant
            last == hay.len() - needle.len(),
            at <= last,
            forall|j: int| 0 <= j < at ==> !run_at(hay@, needle@, j),
        decreases last - at,
    {
        if matches_at(hay, needle, at) {
            return true;
        }
        if at == last {
            return false;
        }
        at += 1;
    }
}

/// Whether `needle` occurs in the text of `hay`.
pub fn str_contains(hay: &str, needle: &str) -> (found: bool)
    ensures
        found == has_run(hay@, needle@),
{
    let h = chars_of(hay);
    let n = chars_of(needle);
    contains_run(&h, &n)
}

/// Character-wise equality of a slice of `v` with `w`.
pub fn range_equals(v: &Vec<char>, from: usize, to: usize, w: &Vec<char>) -> (same: bool)
    requires
        from <= to <= v.len(),
    ensures
        same == (v@.subrange(from as int, to as int) == w@),
{
    if to - from != w.len() {
        return false;
    }
    let hit = matches_at(v, w, from);
    hit
}

} // verus!
