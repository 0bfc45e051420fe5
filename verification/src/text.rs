//! String building blocks shared by the renderers and parsers.
//!
//! Everything here works on the character view of a string (`Seq<char>`), so a
//! contract can say exactly which text comes out.

use vstd::prelude::*;

verus! {

/// `String::push` of std: appends one character to the end of the string.
pub assume_specification[ String::push ](s: &mut String, ch: char)
    ensures
        final(s)@ == old(s)@.push(ch),
;

/// `String::push_str` of std: appends the whole slice to the end of the string.
pub assume_specification[ String::push_str ](s: &mut String, other: &str)
    ensures
        final(s)@ == old(s)@ + other@,
;

/// `==` on two string slices (std's `PartialEq` for `str`): true exactly when
/// both hold the same characters.
pub assume_specification[ <str as PartialEq>::eq ](a: &str, b: &str) -> (same: bool)
    ensures
        same == (a@ == b@),
;

/// Whether two slices hold the same text.
pub fn same_text(a: &str, b: &str) -> (same: bool)
    ensures
        same == (a@ == b@),
{
    a.eq(b)
}

/// Whether std's `char::is_whitespace` holds of a character (the Unicode
/// property `White_Space`).
pub uninterp spec fn is_whitespace(c: char) -> bool;

/// `char::is_whitespace` of std; its answer is the named property.
pub assume_specification[ char::is_whitespace ](c: char) -> (white: bool)
    ensures
        white == is_whitespace(c),
;

/// The characters of `s` in a vector, for indexed access.
pub fn chars_of(s: &str) -> (v: Vec<char>)
    ensures
        v@ == s@,
{
    let mut v: Vec<char> = Vec::new();
    for c in iter: s.chars()
        invariant
            iter.seq() == s@,
            v@ == s@.take(iter.index()),
    {
        proof {
            assert(s@.take(iter.index() + 1) =~= s@.take(iter.index()).push(c));
        }
        v.push(c);
    }
    proof {
        assert(s@.take(s@.len() as int) =~= s@);
    }
    v
}

/// A string holding the characters `v[from..to]`.
pub fn string_of(v: &Vec<char>, from: usize, to: usize) -> (s: String)
    requires
        from <= to <= v.len(),
    ensures
        s@ == v@.subrange(from as int, to as int),
{
    let mut s = String::new();
    let mut i: usize = from;
    while i < to
        invariant
            from <= i <= to <= v.len(),
            s@ == v@.subrange(from as int, i as int),
        decreases to - i,
    {
        proof {
            assert(v@.subrange(from as int, i + 1) =~= v@.subrange(from as int, i as int).push(
                v@[i as int],
            ));
        }
        s.push(v[i]);
        i += 1;
    }
    s
}

/// `a` followed by `b`.
pub fn concat2(a: &str, b: &str) -> (s: String)
    ensures
        s@ == a@ + b@,
{
    let mut s = a.to_owned();
    s.push_str(b);
    s
}

/// `a`, `b` and `c` in a row.
pub fn concat3(a: &str, b: &str, c: &str) -> (s: String)
    ensures
        s@ == a@ + b@ + c@,
{
    let mut s = a.to_owned();
    s.push_str(b);
    s.push_str(c);
    s
}

/// `s` with every occurrence of `pat` replaced by `to`, scanning from the left
/// and never matching inside text that was already replaced. An empty pattern
/// replaces nothing.
pub open spec fn replaced(s: Seq<char>, pat: Seq<char>, to: Seq<char>) -> Seq<char>
    decreases s.len(),
{
    if pat.len() == 0 || s.len() == 0 {
        s
    } else if pat.is_prefix_of(s) {
        to + replaced(s.skip(pat.len() as int), pat, to)
    } else {
        seq![s[0]] + replaced(s.skip(1), pat, to)
    }
}

/// Whether `pat` stands in `v` at position `at`.
fn matches_at(v: &Vec<char>, at: usize, pat: &Vec<char>) -> (hit: bool)
    requires
        at <= v.len(),
    ensures
        hit == pat@.is_prefix_of(v@.skip(at as int)),
{
    if pat.len() > v.len() - at {
        return false;
    }
    let mut j: usize = 0;
    while j < pat.len()
        invariant
            at + pat.len() <= v.len(),
            j <= pat.len(),
            forall|k: int| 0 <= k < j ==> pat@[k] == v@[at + k],
        decreases pat.len() - j,
    {
        if pat[j] != v[at + j] {
            proof {
                let rest = v@.skip(at as int);
                assert(rest.subrange(0, pat@.len() as int)[j as int] == v@[at + j]);
            }
            return false;
        }
        j += 1;
    }
    proof {
        let rest = v@.skip(at as int);
        assert(pat@ =~= rest.subrange(0, pat@.len() as int));
    }
    true
}

/// Replaces every occurrence of `pat` in `s` by `to`.
pub fn replace(s: &str, pat: &str, to: &str) -> (out: String)
    ensures
        out@ == replaced(s@, pat@, to@),
{
    let v = chars_of(s);
    let p = chars_of(pat);
    if p.len() == 0 {
        return s.to_owned();
    }
    let mut out = String::new();
    let mut i: usize = 0;
    proof {
        assert(v@.skip(0) =~= v@);
    }
    while i < v.len()
        invariant
            i <= v.len(),
            p@ == pat@,
            v@ == s@,
            p.len() > 0,
            out@ + replaced(v@.skip(i as int), p@, to@) == replaced(v@, p@, to@),
        decreases v.len() - i,
    {
        let ghost rest = v@.skip(i as int);
        if matches_at(&v, i, &p) {
            proof {
                assert(rest.skip(p@.len() as int) =~= v@.skip(i + p@.len()));
                assert(out@ + to@ + replaced(v@.skip(i + p@.len()), p@, to@) =~= out@ + (to@
                    + replaced(v@.skip(i + p@.len()), p@, to@)));
            }
            out.push_str(to);
            i += p.len();
        } else {
            proof {
                assert(rest.skip(1) =~= v@.skip(i + 1));
                assert(rest[0] == v@[i as int]);
                assert(out@.push(v@[i as int]) + replaced(v@.skip(i + 1), p@, to@) =~= out@ + (
                seq![v@[i as int]] + replaced(v@.skip(i + 1), p@, to@)));
            }
            out.push(v[i]);
            i += 1;
        }
    }
    proof {
        assert(v@.skip(v@.len() as int) =~= Seq::<char>::empty());
        assert(out@ + Seq::<char>::empty() =~= out@);
    }
    out
}

/// The decimal digit for `d`, which is below ten.
pub open spec fn digit_char(d: nat) -> char {
    if d == 0 {
        '0'
    } else if d == 1 {
        '1'
    } else if d == 2 {
        '2'
    } else if d == 3 {
        '3'
    } else if d == 4 {
        '4'
    } else if d == 5 {
        '5'
    } else if d == 6 {
        '6'
    } else if d == 7 {
        '7'
    } else if d == 8 {
        '8'
    } else {
        '9'
    }
}

/// The value of a decimal digit, `None` for any other character.
pub open spec fn digit_value(c: char) -> Option<nat> {
    if c == '0' {
        Some(0)
    } else if c == '1' {
        Some(1)
    } else if c == '2' {
        Some(2)
    } else if c == '3' {
        Some(3)
    } else if c == '4' {
        Some(4)
    } else if c == '5' {
        Some(5)
    } else if c == '6' {
        Some(6)
    } else if c == '7' {
        Some(7)
    } else if c == '8' {
        Some(8)
    } else if c == '9' {
        Some(9)
    } else {
        None
    }
}

/// `n` written in base ten without leading zeros.
pub open spec fn decimal(n: nat) -> Seq<char>
    decreases n,
{
    if n < 10 {
        seq![digit_char(n)]
    } else {
        decimal(n / 10).push(digit_char(n % 10))
    }
}

/// A signed number in base ten: a minus sign in front of a negative one.
pub open spec fn signed_decimal(i: int) -> Seq<char> {
    if i < 0 {
        seq!['-'] + decimal((-i) as nat)
    } else {
        decimal(i as nat)
    }
}

fn digit_of(d: u64) -> (c: char)
    requires
        d < 10,
    ensures
        c == digit_char(d as nat),
        digit_value(c) == Some(d as nat),
{
    if d == 0 {
        '0'
    } else if d == 1 {
        '1'
    } else if d == 2 {
        '2'
    } else if d == 3 {
        '3'
    } else if d == 4 {
        '4'
    } else if d == 5 {
        '5'
    } else if d == 6 {
        '6'
    } else if d == 7 {
        '7'
    } else if d == 8 {
        '8'
    } else {
        '9'
    }
}

fn value_of(c: char) -> (d: Option<u64>)
    ensures
        d is Some == digit_value(c) is Some,
        d matches Some(x) ==> x < 10 && digit_value(c) == Some(x as nat),
{
    if c == '0' {
        Some(0)
    } else if c == '1' {
        Some(1)
    } else if c == '2' {
        Some(2)
    } else if c == '3' {
        Some(3)
    } else if c == '4' {
        Some(4)
    } else if c == '5' {
        Some(5)
    } else if c == '6' {
        Some(6)
    } else if c == '7' {
        Some(7)
    } else if c == '8' {
        Some(8)
    } else if c == '9' {
        Some(9)
    } else {
        None
    }
}

/// Writes `n` in base ten.
pub fn decimal_string(n: u64) -> (s: String)
    ensures
        s@ == decimal(n as nat),
{
    // Digits come out lowest first; `rev` holds them in that order.
    let mut rev: Vec<char> = Vec::new();
    let mut rest: u64 = n;
    while rest >= 10
        invariant
            forall|tail: Seq<char>| #[trigger]
                (decimal(rest as nat) + rev@.reverse() + tail) == decimal(n as nat) + tail,
        decreases rest,
    {
        let d: u64 = rest % 10;
        let ghost before = rev@;
        rev.push(digit_of(d));
        proof {
            let next = (rest / 10) as nat;
            assert(decimal(rest as nat) == decimal(next).push(digit_char(d as nat)));
            assert(rev@.reverse() =~= seq![digit_char(d as nat)] + before.reverse());
            assert forall|tail: Seq<char>| #[trigger]
                (decimal(next) + rev@.reverse() + tail) == decimal(n as nat) + tail by {
                assert(decimal(next) + rev@.reverse() + tail =~= decimal(rest as nat)
                    + before.reverse() + tail);
            }
        }
        rest = rest / 10;
    }
    let mut s = String::new();
    s.push(digit_of(rest));
    let mut i: usize = rev.len();
    proof {
        assert(rev@.reverse().take(0) =~= Seq::<char>::empty());
        assert(s@ =~= decimal(rest as nat) + rev@.reverse().take(0));
    }
    while i > 0
        invariant
            i <= rev.len(),
            s@ == decimal(rest as nat) + rev@.reverse().take(rev.len() - i),
        decreases i,
    {
        i -= 1;
        proof {
            let r = rev@.reverse();
            let k = rev.len() - i - 1;
            assert(r[k] == rev@[i as int]);
            assert(r.take(k + 1) =~= r.take(k).push(r[k]));
            assert((decimal(rest as nat) + r.take(k)).push(r[k]) =~= decimal(rest as nat) + r.take(
                k + 1,
            ));
        }
        s.push(rev[i]);
    }
    proof {
        let r = rev@.reverse();
        assert(r.take(rev.len() as int) =~= r);
        assert(decimal(rest as nat) + r + Seq::<char>::empty() =~= decimal(rest as nat) + r);
        assert(decimal(n as nat) + Seq::<char>::empty() =~= decimal(n as nat));
    }
    s
}

/// Writes a signed number in base ten.
pub fn signed_decimal_string(i: i64) -> (s: String)
    ensures
        s@ == signed_decimal(i as int),
{
    if i < 0 {
        let magnitude: u64 = if i == i64::MIN {
            9223372036854775808u64
        } else {
            (-i) as u64
        };
        let digits = decimal_string(magnitude);
        let mut s = String::new();
        s.push('-');
        s.push_str(digits.as_str());
        proof {
            assert(s@ =~= seq!['-'] + digits@);
        }
        s
    } else {
        decimal_string(i as u64)
    }
}

/// Whether every character is a decimal digit.
pub open spec fn all_digits(s: Seq<char>) -> bool {
    forall|i: int| 0 <= i < s.len() ==> digit_value(#[trigger] s[i]) is Some
}

/// The number that a run of decimal digits stands for.
pub open spec fn digits_value(s: Seq<char>) -> nat
    decreases s.len(),
{
    if s.len() == 0 {
        0
    } else {
        match digit_value(s.last()) {
            Some(d) => digits_value(s.drop_last()) * 10 + d,
            None => 0,
        }
    }
}

/// What parsing `s` as an unsigned number no larger than `max` gives: an
/// optional `+`, then one or more decimal digits and nothing else; `None`
/// when the text has another shape or the number is above `max`.
pub open spec fn parsed_unsigned(s: Seq<char>, max: nat) -> Option<nat> {
    let body = if s.len() > 0 && s[0] == '+' {
        s.skip(1)
    } else {
        s
    };
    if body.len() > 0 && all_digits(body) && digits_value(body) <= max {
        Some(digits_value(body))
    } else {
        None
    }
}

/// A run of digits is worth at least as much as any of its prefixes.
proof fn digits_value_grows(s: Seq<char>, k: int)
    requires
        0 <= k <= s.len(),
        all_digits(s),
    ensures
        digits_value(s.take(k)) <= digits_value(s),
    decreases s.len() - k,
{
    if k == s.len() {
        assert(s.take(k) =~= s);
    } else {
        digits_value_grows(s, k + 1);
        let longer = s.take(k + 1);
        assert(longer.drop_last() =~= s.take(k));
        assert(longer.last() == s[k]);
    }
}

/// Parses an unsigned decimal number that may not exceed `max`.
pub fn parse_unsigned(s: &str, max: u64) -> (r: Option<u64>)
    ensures
        r is Some == parsed_unsigned(s@, max as nat) is Some,
        r matches Some(n) ==> parsed_unsigned(s@, max as nat) == Some(n as nat),
{
    let v = chars_of(s);
    let start: usize = if v.len() > 0 && v[0] == '+' {
        1
    } else {
        0
    };
    let ghost body = v@.skip(start as int);
    if start == v.len() {
        return None;
    }
    let mut acc: u64 = 0;
    let mut i: usize = start;
    proof {
        assert(v@.skip(0) =~= v@);
        assert(body.take(0) =~= Seq::<char>::empty());
    }
    while i < v.len()
        invariant
            start <= i <= v.len(),
            start < v.len(),
            body == v@.skip(start as int),
            body == (if s@.len() > 0 && s@[0] == '+' {
                s@.skip(1)
            } else {
                s@
            }),
            all_digits(body.take(i - start)),
            acc == digits_value(body.take(i - start)),
            acc <= max,
        decreases v.len() - i,
    {
        let ghost k = i - start;
        proof {
            assert(body[k] == v@[i as int]);
            assert(body.take(k + 1).drop_last() =~= body.take(k));
            assert(body.take(k + 1).last() == body[k]);
        }
        match value_of(v[i]) {
            None => {
                proof {
                    assert(digit_value(body[k]) is None);
                }
                return None;
            },
            Some(d) => {
                proof {
                    assert forall|j: int| 0 <= j < k + 1 implies digit_value(
                        #[trigger] body.take(k + 1)[j],
                    ) is Some by {
                        if j < k {
                            assert(body.take(k)[j] == body.take(k + 1)[j]);
                        }
                    }
                }
                if d > max || acc > (max - d) / 10 {
                    proof {
                        assert(digits_value(body.take(k + 1)) == acc * 10 + d);
                        assert(acc * 10 + d > max);
                        if all_digits(body) {
                            digits_value_grows(body, k + 1);
                        }
                    }
                    return None;
                }
                acc = acc * 10 + d;
            },
        }
        i += 1;
    }
    proof {
        assert(body.take(body.len() as int) =~= body);
    }
    Some(acc)
}

/// A number written in base ten is a run of digits that stands for the number.
pub proof fn decimal_is_digits(n: nat)
    ensures
        decimal(n).len() > 0,
        all_digits(decimal(n)),
        digits_value(decimal(n)) == n,
    decreases n,
{
    if n < 10 {
        assert(decimal(n).drop_last() =~= Seq::<char>::empty());
        assert(digits_value(decimal(n).drop_last()) == 0);
    } else {
        decimal_is_digits(n / 10);
        let head = decimal(n / 10);
        let whole = decimal(n);
        assert(whole.drop_last() =~= head);
        assert(whole.last() == digit_char(n % 10));
        assert forall|i: int| 0 <= i < whole.len() implies digit_value(#[trigger] whole[i]) is Some by {
            if i < head.len() {
                assert(whole[i] == head[i]);
            }
        }
    }
}

/// What `decimal_string` writes, `parse_unsigned` reads back, where the
/// number is within the bound.
pub proof fn decimal_parses_back(n: nat, max: nat)
    requires
        n <= max,
    ensures
        parsed_unsigned(decimal(n), max) == Some(n),
{
    decimal_is_digits(n);
    assert(digit_value(decimal(n)[0]) is Some);
}

/// What joining `parts` with `sep` between neighbours gives.
pub open spec fn joined(parts: Seq<Seq<char>>, sep: Seq<char>) -> Seq<char>
    decreases parts.len(),
{
    if parts.len() == 0 {
        Seq::empty()
    } else if parts.len() == 1 {
        parts[0]
    } else {
        joined(parts.drop_last(), sep) + sep + parts.last()
    }
}

/// The character views of a vector of strings.
pub open spec fn views(parts: Seq<String>) -> Seq<Seq<char>> {
    parts.map_values(|s: String| s@)
}

/// Joins `parts`, putting `sep` between neighbours.
pub fn join(parts: &Vec<String>, sep: &str) -> (out: String)
    ensures
        out@ == joined(views(parts@), sep@),
{
    let mut out = String::new();
    let mut i: usize = 0;
    let ghost all = views(parts@);
    proof {
        assert(all.take(0) =~= Seq::<Seq<char>>::empty());
    }
    while i < parts.len()
        invariant
            i <= parts.len(),
            all == views(parts@),
            out@ == joined(all.take(i as int), sep@),
        decreases parts.len() - i,
    {
        proof {
            let now = all.take(i + 1);
            assert(now.drop_last() =~= all.take(i as int));
            assert(now.last() == parts@[i as int]@);
            if i == 0 {
                assert(Seq::<char>::empty() + parts@[0]@ =~= parts@[0]@);
            }
        }
        if i > 0 {
            out.push_str(sep);
        }
        out.push_str(parts[i].as_str());
        i += 1;
    }
    proof {
        assert(all.take(parts.len() as int) =~= all);
    }
    out
}

/// `s` without the whitespace at its end.
pub open spec fn trimmed_end(s: Seq<char>) -> Seq<char>
    decreases s.len(),
{
    if s.len() > 0 && is_whitespace(s.last()) {
        trimmed_end(s.drop_last())
    } else {
        s
    }
}

/// Removes the whitespace at the end of `s`.
pub fn trim_end(s: &str) -> (out: String)
    ensures
        out@ == trimmed_end(s@),
{
    let v = chars_of(s);
    let mut end: usize = v.len();
    proof {
        assert(v@.take(v.len() as int) =~= v@);
    }
    while end > 0 && v[end - 1].is_whitespace()
        invariant
            end <= v.len(),
            trimmed_end(v@.take(end as int)) == trimmed_end(v@),
        decreases end,
    {
        proof {
            assert(v@.take(end as int).drop_last() =~= v@.take(end - 1));
        }
        end -= 1;
    }
    proof {
        assert(v@.take(end as int) =~= v@.subrange(0, end as int));
    }
    string_of(&v, 0, end)
}

} // verus!
