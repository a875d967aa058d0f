//! Scanning of tool output and log text: whitespace, words, lines, tails
//! and decimal numerals.

use vstd::prelude::*;
use crate::text::{chars_of, string_of_range};

verus! {

/// Unicode white space.
pub open spec fn is_space(c: char) -> bool {
    let u = c as u32;
    u == 0x20 || (0x09 <= u && u <= 0x0d) || u == 0x85 || u == 0xa0 || u == 0x1680 || (0x2000 <= u
        && u <= 0x200a) || u == 0x2028 || u == 0x2029 || u == 0x202f || u == 0x205f || u == 0x3000
}

/// Whether `c` is white space.
pub fn space(c: char) -> (yes: bool)
    ensures
        yes == is_space(c),
{
    let u = c as u32;
    u == 0x20 || (0x09 <= u && u <= 0x0d) || u == 0x85 || u == 0xa0 || u == 0x1680 || (0x2000 <= u
        && u <= 0x200a) || u == 0x2028 || u == 0x2029 || u == 0x202f || u == 0x205f || u == 0x3000
}

/// The first index at or after `from` that holds no white space, or the length.
pub open spec fn skip_spaces(s: Seq<char>, from: int) -> int
    decreases s.len() - from,
{
    if 0 <= from < s.len() && is_space(s[from]) {
        skip_spaces(s, from + 1)
    } else {
        from
    }
}

/// The first index at or after `from` that holds white space, or the length.
pub open spec fn skip_word(s: Seq<char>, from: int) -> int
    decreases s.len() - from,
{
    if 0 <= from < s.len() && !is_space(s[from]) {
        skip_word(s, from + 1)
    } else {
        from
    }
}

/// The end of the text once trailing white space before `to` is dropped.
pub open spec fn trim_end(s: Seq<char>, to: int) -> int
    decreases to,
{
    if 0 < to <= s.len() && is_space(s[to - 1]) {
        trim_end(s, to - 1)
    } else {
        to
    }
}

/// `s` without leading and trailing white space.
pub open spec fn trimmed(s: Seq<char>) -> Seq<char> {
    let a = skip_spaces(s, 0);
    let b = trim_end(s, s.len() as int);
    if a < b {
        s.subrange(a, b)
    } else {
        Seq::empty()
    }
}

/// Advances past white space.
pub fn after_spaces(v: &Vec<char>, from: usize) -> (at: usize)
    requires
        from <= v.len(),
    ensures
        at == skip_spaces(v@, from as int),
        from <= at <= v.len(),
{
    let mut at = from;
    while at < v.len() && space(v[at])
        invariant
            from <= at <= v.len(),
            skip_spaces(v@, from as int) == skip_spaces(v@, at as int),
        decreases v.len() - at,
    {
        at += 1;
    }
    at
}

/// Advances past a word.
pub fn after_word(v: &Vec<char>, from: usize) -> (at: usize)
    requires
        from <= v.len(),
    ensures
        at == skip_word(v@, from as int),
        from <= at <= v.len(),
{
    let mut at = from;
    while at < v.len() && !space(v[at])
        invariant
            from <= at <= v.len(),
            skip_word(v@, from as int) == skip_word(v@, at as int),
        decreases v.len() - at,
    {
        at += 1;
    }
    at
}

/// Retreats past trailing white space.
pub fn before_spaces(v: &Vec<char>, to: usize) -> (at: usize)
    requires
        to <= v.len(),
    ensures
        at == trim_end(v@, to as int),
        at <= to,
{
    let mut at = to;
    while at > 0 && space(v[at - 1])
        invariant
            at <= to <= v.len(),
            trim_end(v@, to as int) == trim_end(v@, at as int),
        decreases at,
    {
        at -= 1;
    }
    at
}

/// The bounds of the trimmed text within `v[from..to]`.
pub fn trim_span(v: &Vec<char>) -> (span: (usize, usize))
    ensures
        span.0 <= span.1 <= v.len(),
        v@.subrange(span.0 as int, span.1 as int) == trimmed(v@),
{
    let a = after_spaces(v, 0);
    let b = before_spaces(v, v.len());
    if a < b {
        (a, b)
    } else {
        assert(v@.subrange(a as int, a as int) =~= Seq::<char>::empty());
        (a, a)
    }
}

/// The first white-space separated word of `s`, if there is one.
pub open spec fn first_word(s: Seq<char>) -> Option<Seq<char>> {
    let a = skip_spaces(s, 0);
    if a < s.len() {
        Some(s.subrange(a, skip_word(s, a)))
    } else {
        None
    }
}

/// The second white-space separated word of `s`; empty if there is none.
pub open spec fn second_word(s: Seq<char>) -> Seq<char> {
    let a = skip_spaces(s, 0);
    let b = skip_word(s, a);
    let c = skip_spaces(s, b);
    if a < s.len() && c < s.len() {
        s.subrange(c, skip_word(s, c))
    } else {
        Seq::empty()
    }
}

/// The first index at or after `from` that holds a line feed, or the length.
pub open spec fn next_break(s: Seq<char>, from: int) -> int
    decreases s.len() - from,
{
    if 0 <= from < s.len() && s[from] != '\n' {
        next_break(s, from + 1)
    } else {
        from
    }
}

/// A line without the carriage return that preceded its line feed.
pub open spec fn strip_cr(line: Seq<char>) -> Seq<char> {
    if line.len() > 0 && line.last() == '\r' {
        line.drop_last()
    } else {
        line
    }
}

/// The lines of `s` from index `from` on. Lines end at a line feed, or at a
/// carriage return directly followed by one; the last line needs no ending,
/// and an ending at the very end starts no further line.
pub open spec fn lines_from(s: Seq<char>, from: int) -> Seq<Seq<char>>
    decreases s.len() - from,
{
    if 0 <= from < s.len() {
        let e = next_break(s, from);
        if from <= e < s.len() {
            seq![strip_cr(s.subrange(from, e))] + lines_from(s, e + 1)
        } else {
            seq![s.subrange(from, s.len() as int)]
        }
    } else {
        Seq::empty()
    }
}

/// The lines of `s`.
pub open spec fn split_lines(s: Seq<char>) -> Seq<Seq<char>> {
    lines_from(s, 0)
}

/// `lines` joined by single line feeds.
pub open spec fn join_lines(lines: Seq<Seq<char>>) -> Seq<char>
    decreases lines.len(),
{
    if lines.len() == 0 {
        Seq::empty()
    } else if lines.len() == 1 {
        lines[0]
    } else {
        join_lines(lines.drop_last()) + seq!['\n'] + lines.last()
    }
}

/// The last `keep` elements of `lines`, or all of them if there are fewer.
pub open spec fn last_lines(lines: Seq<Seq<char>>, keep: nat) -> Seq<Seq<char>> {
    if lines.len() > keep {
        lines.subrange(lines.len() - keep, lines.len() as int)
    } else {
        lines
    }
}

/// Advances to the next line feed.
pub fn find_break(v: &Vec<char>, from: usize) -> (at: usize)
    requires
        from <= v.len(),
    ensures
        at == next_break(v@, from as int),
        from <= at <= v.len(),
        at < v.len() ==> v@[at as int] == '\n',
{
    let mut at = from;
    while at < v.len() && v[at] != '\n'
        invariant
            from <= at <= v.len(),
            next_break(v@, from as int) == next_break(v@, at as int),
        decreases v.len() - at,
    {
        at += 1;
    }
    at
}

/// The half-open index range of one line within its text.
#[derive(Clone, Copy, Debug)]
pub struct Span {
    pub start: usize,
    pub end: usize,
}

/// The texts that `spans` cut out of `s`.
pub open spec fn cut(s: Seq<char>, spans: Seq<Span>) -> Seq<Seq<char>> {
    Seq::new(spans.len(), |i: int| s.subrange(spans[i].start as int, spans[i].end as int))
}

/// Whether every span lies within a text of length `len`.
pub open spec fn spans_within(spans: Seq<Span>, len: nat) -> bool {
    forall|i: int| 0 <= i < spans.len() ==> (#[trigger] spans[i]).start <= spans[i].end <= len
}

/// Finds the lines of `v` from index `from` on.
pub fn line_spans(v: &Vec<char>, from: usize) -> (spans: Vec<Span>)
    requires
        from <= v.len(),
    ensures
        spans_within(spans@, v@.len()),
        cut(v@, spans@) == lines_from(v@, from as int),
{
    let mut spans: Vec<Span> = Vec::new();
    let mut pos: usize = from;
    assert(cut(v@, spans@) =~= Seq::<Seq<char>>::empty());
    while pos < v.len()
        invariant
            from <= pos <= v.len(),
            spans_within(spans@, v@.len()),
            lines_from(v@, from as int) == cut(v@, spans@) + lines_from(v@, pos as int),
        decreases v.len() - pos,
    {
        let e = find_break(v, pos);
        let ghost before = spans@;
        if e < v.len() {
            let end = if e > pos && v[e - 1] == '\r' {
                e - 1
            } else {
                e
            };
            spans.push(Span { start: pos, end });
            proof {
                let raw = v@.subrange(pos as int, e as int);
                assert(strip_cr(raw) =~= v@.subrange(pos as int, end as int));
                assert(cut(v@, spans@) =~= cut(v@, before) + seq![strip_cr(raw)]);
                assert(lines_from(v@, pos as int) == seq![strip_cr(raw)] + lines_from(
                    v@,
                    e + 1,
                ));
                assert(cut(v@, before) + (seq![strip_cr(raw)] + lines_from(v@, e + 1)) =~= cut(
                    v@,
                    before,
                ) + seq![strip_cr(raw)] + lines_from(v@, e + 1));
            }
            pos = e + 1;
        } else {
            spans.push(Span { start: pos, end: e });
            proof {
                let raw = v@.subrange(pos as int, v@.len() as int);
                assert(cut(v@, spans@) =~= cut(v@, before) + seq![raw]);
                assert(lines_from(v@, pos as int) == seq![raw]);
                assert(lines_from(v@, v@.len() as int) == Seq::<Seq<char>>::empty());
                assert(cut(v@, before) + seq![raw] =~= cut(v@, before) + seq![raw]
                    + Seq::<Seq<char>>::empty());
            }
            pos = e;
        }
    }
    proof {
        assert(lines_from(v@, pos as int) == Seq::<Seq<char>>::empty());
        assert(cut(v@, spans@) + Seq::<Seq<char>>::empty() =~= cut(v@, spans@));
    }
    spans
}

/// Where a tail starts reading: at the beginning, or, when the text was
/// clipped at its head, just after the first line feed (at the end if the
/// clipped text holds none).
pub open spec fn tail_start(s: Seq<char>, clipped: bool) -> int {
    if clipped {
        let e = next_break(s, 0);
        if e < s.len() {
            e + 1
        } else {
            s.len() as int
        }
    } else {
        0
    }
}

/// The last `keep` lines of `s`, joined by line feeds.
pub open spec fn tail_of(s: Seq<char>, keep: nat, clipped: bool) -> Seq<char> {
    join_lines(last_lines(lines_from(s, tail_start(s, clipped)), keep))
}

/// Returns the last `keep` lines of `content`, joined by line feeds.
///
/// `clipped` says that `content` is the end of a longer text and may begin in
/// the middle of a line; that partial line is then dropped first.
pub fn tail_file(content: &str, keep: usize, clipped: bool) -> (out: String)
    ensures
        out@ == tail_of(content@, keep as nat, clipped),
{
    let v = chars_of(content);
    let start: usize = if clipped {
        let e = find_break(&v, 0);
        if e < v.len() {
            e + 1
        } else {
            v.len()
        }
    } else {
        0
    };
    let spans = line_spans(&v, start);
    let n = spans.len();
    let first: usize = if n > keep {
        n - keep
    } else {
        0
    };
    let ghost lines = lines_from(v@, start as int);
    let ghost kept = last_lines(lines, keep as nat);
    assert(kept =~= lines.subrange(first as int, n as int));
    let mut out = String::new();
    let mut i: usize = first;
    assert(lines.subrange(first as int, first as int) =~= Seq::<Seq<char>>::empty());
    while i < n
        invariant
            first <= i <= n,
            n == spans.len(),
            spans_within(spans@, v@.len()),
            lines == cut(v@, spans@),
            out@ == join_lines(lines.subrange(first as int, i as int)),
        decreases n - i,
    {
        let span = spans[i];
        let piece = string_of_range(&v, span.start, span.end);
        let ghost so_far = lines.subrange(first as int, i as int);
        let ghost next = lines.subrange(first as int, i + 1);
        proof {
            assert(next.drop_last() =~= so_far);
            assert(next.last() == lines[i as int]);
            assert(piece@ == lines[i as int]);
        }
        if i > first {
            out.push('\n');
            out.append(piece.as_str());
            assert(out@ =~= join_lines(so_far) + seq!['\n'] + lines[i as int]);
        } else {
            out.append(piece.as_str());
            assert(so_far.len() == 0);
            assert(out@ =~= lines[i as int]);
            assert(next.len() == 1);
        }
        i += 1;
    }
    out
}

/// Whether `c` is an ASCII decimal digit.
pub open spec fn is_digit(c: char) -> bool {
    0x30 <= c as u32 <= 0x39
}

/// The value of a digit character; zero for any other character.
pub open spec fn digit_val(c: char) -> nat {
    if is_digit(c) {
        (c as u32 - 0x30) as nat
    } else {
        0
    }
}

/// Whether `s` consists of decimal digits only.
pub open spec fn all_digits(s: Seq<char>) -> bool {
    forall|i: int| 0 <= i < s.len() ==> is_digit(#[trigger] s[i])
}

/// The number that a digit string denotes.
pub open spec fn digits_value(s: Seq<char>) -> nat
    decreases s.len(),
{
    if s.len() == 0 {
        0
    } else {
        digits_value(s.drop_last()) * 10 + digit_val(s.last())
    }
}

/// The number denoted by `s` when it is a non-empty digit string, with an
/// optional plus sign in front, whose value is at most `max`.
pub open spec fn parse_unsigned(s: Seq<char>, max: nat) -> Option<nat> {
    let body = if s.len() > 0 && s[0] == '+' {
        s.subrange(1, s.len() as int)
    } else {
        s
    };
    if body.len() > 0 && all_digits(body) && digits_value(body) <= max {
        Some(digits_value(body))
    } else {
        None
    }
}

/// The number denoted by `s` when it is a non-empty digit string, with an
/// optional sign in front, whose value lies in `min..=max`.
pub open spec fn parse_signed(s: Seq<char>, min: int, max: int) -> Option<int> {
    let signed = s.len() > 0 && (s[0] == '+' || s[0] == '-');
    let body = if signed {
        s.subrange(1, s.len() as int)
    } else {
        s
    };
    let magnitude = digits_value(body) as int;
    let value = if s.len() > 0 && s[0] == '-' {
        -magnitude
    } else {
        magnitude
    };
    if body.len() > 0 && all_digits(body) && min <= value <= max {
        Some(value)
    } else {
        None
    }
}

/// A digit string denotes at least what any of its beginnings denotes.
pub proof fn lemma_digits_value_grows(s: Seq<char>, k: int)
    requires
        0 <= k <= s.len(),
    ensures
        digits_value(s.subrange(0, k)) <= digits_value(s),
    decreases s.len() - k,
{
    if k == s.len() {
        assert(s.subrange(0, k) =~= s);
    } else {
        lemma_digits_value_grows(s.drop_last(), k);
        assert(s.drop_last().subrange(0, k) =~= s.subrange(0, k));
    }
}

/// Reads `v[from..to]` as a digit string of value at most `cap`.
fn scan_digits(v: &Vec<char>, from: usize, to: usize, cap: u64) -> (out: Option<u64>)
    requires
        from <= to <= v.len(),
    ensures
        ({
            let body = v@.subrange(from as int, to as int);
            out == (if body.len() > 0 && all_digits(body) && digits_value(body) <= cap {
                Some(digits_value(body) as u64)
            } else {
                None
            })
        }),
{
    let ghost body = v@.subrange(from as int, to as int);
    if from == to {
        return None;
    }
    let mut acc: u128 = 0;
    let mut i: usize = from;
    assert(body.subrange(0, 0) =~= Seq::<char>::empty());
    while i < to
        invariant
            from <= i <= to <= v.len(),
            body == v@.subrange(from as int, to as int),
            all_digits(body.subrange(0, i - from)),
            acc == digits_value(body.subrange(0, i - from)),
            acc <= cap,
        decreases to - i,
    {
        let c = v[i];
        let u = c as u32;
        let ghost head = body.subrange(0, i - from);
        let ghost more = body.subrange(0, i - from + 1);
        proof {
            assert(body[i - from] == c);
            assert(more.drop_last() =~= head);
            assert(more.last() == c);
        }
        if u < 0x30 || u > 0x39 {
            assert(!is_digit(body[i - from]));
            return None;
        }
        let d: u128 = (u - 0x30) as u128;
        let next: u128 = acc * 10 + d;
        if next > cap as u128 {
            proof {
                assert(digits_value(more) == next);
                lemma_digits_value_grows(body, i - from + 1);
            }
            return None;
        }
        acc = next;
        i += 1;
        proof {
            assert forall|j: int| 0 <= j < more.len() implies is_digit(#[trigger] more[j]) by {
                if j < head.len() {
                    assert(more[j] == head[j]);
                }
            }
        }
    }
    assert(body.subrange(0, to - from) =~= body);
    Some(acc as u64)
}

/// Parses an unsigned 64-bit decimal numeral.
pub fn parse_u64(v: &Vec<char>) -> (out: Option<u64>)
    ensures
        out == match parse_unsigned(v@, u64::MAX as nat) {
            Some(n) => Some(n as u64),
            None => None,
        },
{
    let from: usize = if v.len() > 0 && v[0] == '+' {
        1
    } else {
        0
    };
    proof {
        if from == 0 {
            assert(v@.subrange(0, v@.len() as int) =~= v@);
        }
    }
    scan_digits(v, from, v.len(), u64::MAX)
}

/// Parses an unsigned 16-bit decimal numeral.
pub fn parse_u16(v: &Vec<char>) -> (out: Option<u16>)
    ensures
        out == match parse_unsigned(v@, u16::MAX as nat) {
            Some(n) => Some(n as u16),
            None => None,
        },
{
    let from: usize = if v.len() > 0 && v[0] == '+' {
        1
    } else {
        0
    };
    proof {
        if from == 0 {
            assert(v@.subrange(0, v@.len() as int) =~= v@);
        }
    }
    match scan_digits(v, from, v.len(), 0xffff) {
        Some(n) => Some(n as u16),
        None => None,
    }
}

/// Parses a signed 32-bit decimal numeral found in `v[from..to]`.
pub fn parse_i32_in(v: &Vec<char>, from: usize, to: usize) -> (out: Option<i32>)
    requires
        from <= to <= v.len(),
    ensures
        out == match parse_signed(
            v@.subrange(from as int, to as int),
            i32::MIN as int,
            i32::MAX as int,
        ) {
            Some(n) => Some(n as i32),
            None => None,
        },
{
    let ghost s = v@.subrange(from as int, to as int);
    if from == to {
        assert(s.len() == 0);
        return None;
    }
    let sign = v[from];
    assert(s[0] == sign);
    let negative = sign == '-';
    let start: usize = if sign == '+' || sign == '-' {
        from + 1
    } else {
        from
    };
    proof {
        if start == from {
            assert(s.subrange(0, s.len() as int) =~= s);
        } else {
            assert(s.subrange(1, s.len() as int) =~= v@.subrange(start as int, to as int));
        }
    }
    if negative {
        match scan_digits(v, start, to, 0x8000_0000) {
            Some(n) => {
                let wide: i64 = -(n as i64);
                Some(wide as i32)
            },
            None => None,
        }
    } else {
        match scan_digits(v, start, to, 0x7fff_ffff) {
            Some(n) => Some(n as i32),
            None => None,
        }
    }
}

} // verus!
