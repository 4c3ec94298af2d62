//! Character-level helpers for string slices: comparison, search, and
//! decimal numbers.

use vstd::prelude::*;
use vstd::string::StringExecFns;
use vstd::string::StringSliceAdditionalSpecFns;

verus! {

/// Whether `pat` stands in `s` at position `at`.
pub open spec fn matches_at(s: Seq<char>, at: int, pat: Seq<char>) -> bool {
    0 <= at && at + pat.len() <= s.len() && s.subrange(at, at + pat.len()) == pat
}

/// Whether `pat` occurs somewhere in `s`.
pub open spec fn contains(s: Seq<char>, pat: Seq<char>) -> bool {
    exists|at: int| matches_at(s, at, pat)
}

/// The index of the first `c` in `s`, or the length of `s` if there is none.
pub open spec fn find(s: Seq<char>, c: char) -> int
    decreases s.len(),
{
    if s.len() == 0 || s[0] == c {
        0
    } else {
        1 + find(s.skip(1), c)
    }
}

/// `find` returns the least index that holds `c`, and the length when no
/// index does.
pub proof fn lemma_find(s: Seq<char>, c: char)
    ensures
        0 <= find(s, c) <= s.len(),
        forall|k: int| 0 <= k < find(s, c) ==> s[k] != c,
        find(s, c) < s.len() ==> s[find(s, c)] == c,
    decreases s.len(),
{
    if s.len() != 0 && s[0] != c {
        lemma_find(s.skip(1), c);
        assert forall|k: int| 0 <= k < find(s, c) implies s[k] != c by {
            if k > 0 {
                assert(s.skip(1)[k - 1] == s[k]);
            }
        }
    }
}

/// An index that holds the first `c` of `s`, or is the length of a sequence
/// without any, is what `find` returns.
pub proof fn lemma_find_is(s: Seq<char>, c: char, at: int)
    requires
        0 <= at <= s.len(),
        forall|k: int| 0 <= k < at ==> s[k] != c,
        at < s.len() ==> s[at] == c,
    ensures
        find(s, c) == at,
{
    lemma_find(s, c);
}

/// The pieces into which the separator `sep` cuts `s`. There is always at
/// least one piece, and a piece may be empty.
pub open spec fn split(s: Seq<char>, sep: char) -> Seq<Seq<char>>
    decreases s.len(),
{
    let at = find(s, sep);
    if 0 <= at < s.len() {
        seq![s.take(at)] + split(s.skip(at + 1), sep)
    } else {
        seq![s]
    }
}

/// The pieces put together again, with `sep` between each two.
pub open spec fn join(pieces: Seq<Seq<char>>, sep: char) -> Seq<char>
    decreases pieces.len(),
{
    if pieces.len() == 0 {
        Seq::empty()
    } else if pieces.len() == 1 {
        pieces[0]
    } else {
        pieces[0] + seq![sep] + join(pieces.skip(1), sep)
    }
}

/// `split` cuts at every separator and nowhere else: no piece holds a
/// separator, and the pieces joined by the separator are the text that was
/// cut.
pub proof fn lemma_split(s: Seq<char>, sep: char)
    ensures
        split(s, sep).len() >= 1,
        forall|k: int|
            0 <= k < split(s, sep).len() ==> find(#[trigger] split(s, sep)[k], sep) == split(
                s,
                sep,
            )[k].len(),
        join(split(s, sep), sep) == s,
    decreases s.len(),
{
    let at = find(s, sep);
    let pieces = split(s, sep);
    lemma_find(s, sep);
    if at < s.len() {
        let rest = s.skip(at + 1);
        let tail = split(rest, sep);
        lemma_split(rest, sep);
        lemma_find_is(s.take(at), sep, at);
        assert(pieces.skip(1) =~= tail);
        assert forall|k: int| 0 <= k < pieces.len() implies find(#[trigger] pieces[k], sep)
            == pieces[k].len() by {
            if k > 0 {
                assert(pieces[k] == tail[k - 1]);
            }
        }
        assert(s.take(at) + seq![sep] + rest =~= s);
    } else {
        assert(pieces =~= seq![s]);
    }
}

/// The value of a decimal digit, if `c` is one.
pub open spec fn digit_value(c: char) -> Option<nat> {
    if c == '0' {
        Some(0)
    } else if c == '1' {
        Some(1)
    } else if c == '2' {
        Some(2)
    } else if c == '3' {
        Some(3)
    } else if c == '4' {
        Some(4)
    } else if c == '5' {
        Some(5)
    } else if c == '6' {
        Some(6)
    } else if c == '7' {
        Some(7)
    } else if c == '8' {
        Some(8)
    } else if c == '9' {
        Some(9)
    } else {
        None
    }
}

/// Whether every character of `s` is a decimal digit.
pub open spec fn all_digits(s: Seq<char>) -> bool {
    forall|k: int| 0 <= k < s.len() ==> digit_value(#[trigger] s[k]) is Some
}

/// The number that a sequence of decimal digits writes out.
pub open spec fn digits_value(s: Seq<char>) -> nat
    decreases s.len(),
{
    if s.len() == 0 {
        0
    } else {
        digits_value(s.drop_last()) * 10 + digit_value(s.last()).unwrap_or(0)
    }
}

/// The number that `s` writes out in decimal: an optional `+`, then one or
/// more digits and nothing else. Numbers above `limit` are not read.
pub open spec fn parse_number(s: Seq<char>, limit: nat) -> Option<nat> {
    let digits = if s.len() > 0 && s[0] == '+' {
        s.skip(1)
    } else {
        s
    };
    if digits.len() > 0 && all_digits(digits) && digits_value(digits) <= limit {
        Some(digits_value(digits))
    } else {
        None
    }
}

/// The character that writes the digit `d`.
pub open spec fn digit_char(d: nat) -> char {
    if d == 0 {
        '0'
    } else if d == 1 {
        '1'
    } else if d == 2 {
        '2'
    } else if d == 3 {
        '3'
    } else if d == 4 {
        '4'
    } else if d == 5 {
        '5'
    } else if d == 6 {
        '6'
    } else if d == 7 {
        '7'
    } else if d == 8 {
        '8'
    } else {
        '9'
    }
}

/// The decimal digits of `n`, without leading zeros.
pub open spec fn decimal(n: nat) -> Seq<char>
    decreases n,
{
    if n < 10 {
        seq![digit_char(n)]
    } else {
        decimal(n / 10).push(digit_char(n % 10))
    }
}

/// A number written in decimal is read back as the same number, as long as
/// it is within the limit.
pub proof fn lemma_decimal_reads_back(n: nat, limit: nat)
    requires
        n <= limit,
    ensures
        parse_number(decimal(n), limit) == Some(n),
{
    lemma_decimal_is_digits(n);
}

/// The decimal digits of a number are digits, and write that number.
proof fn lemma_decimal_is_digits(n: nat)
    ensures
        decimal(n).len() > 0,
        all_digits(decimal(n)),
        digits_value(decimal(n)) == n,
    decreases n,
{
    let last = decimal(n).last();
    assert(digit_value(last) == Some(n % 10));
    if n < 10 {
        assert(decimal(n).drop_last() =~= Seq::<char>::empty());
        assert(digits_value(decimal(n).drop_last()) == 0);
    } else {
        lemma_decimal_is_digits(n / 10);
        assert(decimal(n).drop_last() =~= decimal(n / 10));
    }
}

/// Whether two string slices hold the same characters.
pub fn str_eq(a: &str, b: &str) -> (same: bool)
    ensures
        same == (a@ == b@),
{
    let x = a.as_bytes();
    let y = b.as_bytes();
    proof {
        vstd::utf8::encode_utf8_decode_utf8(a@);
        vstd::utf8::encode_utf8_decode_utf8(b@);
    }
    if x.len() != y.len() {
        return false;
    }
    let mut i: usize = 0;
    while i < x.len()
        invariant
            i <= x.len(),
            x.len() == y.len(),
            x@ == a.spec_bytes(),
            y@ == b.spec_bytes(),
            forall|k: int| 0 <= k < i ==> x@[k] == y@[k],
        decreases x.len() - i,
    {
        if x[i] != y[i] {
            return false;
        }
        i += 1;
    }
    assert(x@ =~= y@);
    true
}

/// The characters of a string slice, in order.
pub fn chars_of(s: &str) -> (chars: Vec<char>)
    ensures
        chars@ == s@,
{
    let mut out: Vec<char> = Vec::new();
    for c in it: s.chars()
        invariant
            out@ == it.seq().take(it.index() as int),
            it.seq() == s@,
    {
        out.push(c);
    }
    out
}

/// Whether `pat` stands in `hay` at position `at`.
pub fn has_at(hay: &Vec<char>, at: usize, pat: &Vec<char>) -> (found: bool)
    ensures
        found == matches_at(hay@, at as int, pat@),
{
    if pat.len() > hay.len() || at > hay.len() - pat.len() {
        return false;
    }
    let mut i: usize = 0;
    while i < pat.len()
        invariant
            i <= pat.len(),
            at + pat.len() <= hay.len(),
            forall|k: int| 0 <= k < i ==> hay@[at + k] == pat@[k],
        decreases pat.len() - i,
    {
        if hay[at + i] != pat[i] {
            assert(hay@.subrange(at as int, at + pat.len())[i as int] != pat@[i as int]);
            return false;
        }
        i += 1;
    }
    assert(hay@.subrange(at as int, at + pat.len()) =~= pat@);
    true
}

/// Whether `pat` occurs somewhere in `hay`.
pub fn has(hay: &Vec<char>, pat: &str) -> (found: bool)
    ensures
        found == contains(hay@, pat@),
{
    let needle = chars_of(pat);
    if needle.len() > hay.len() {
        return false;
    }
    let last: usize = hay.len() - needle.len();
    let mut at: usize = 0;
    loop
        invariant
            at <= last,
            last == hay.len() - needle.len(),
            needle@ == pat@,
            forall|k: int| 0 <= k < at ==> !matches_at(hay@, k, pat@),
        decreases last - at,
    {
        if has_at(hay, at, &needle) {
            return true;
        }
        if at == last {
            return false;
        }
        at += 1;
    }
}

/// The index of the first `c` at or after `from`, or the length of `hay` if
/// there is none.
pub fn find_from(hay: &Vec<char>, from: usize, c: char) -> (at: usize)
    requires
        from <= hay.len(),
    ensures
        from <= at <= hay.len(),
        at - from == find(hay@.skip(from as int), c),
{
    let mut at: usize = from;
    while at < hay.len() && hay[at] != c
        invariant
            from <= at <= hay.len(),
            forall|k: int| from <= k < at ==> hay@[k] != c,
        decreases hay.len() - at,
    {
        at += 1;
    }
    proof {
        lemma_find_is(hay@.skip(from as int), c, at - from);
    }
    at
}

/// Cutting digits off the end never makes the number larger.
pub proof fn lemma_digits_value_grows(s: Seq<char>, k: int)
    requires
        0 <= k <= s.len(),
    ensures
        digits_value(s.take(k)) <= digits_value(s),
    decreases s.len() - k,
{
    if k == s.len() {
        assert(s.take(k) =~= s);
    } else {
        lemma_digits_value_grows(s.drop_last(), k);
        assert(s.drop_last().take(k) =~= s.take(k));
    }
}

/// The value of a decimal digit, if `c` is one.
pub fn digit_of(c: char) -> (digit: Option<usize>)
    ensures
        match digit {
            Some(d) => digit_value(c) == Some(d as nat),
            None => digit_value(c) is None,
        },
{
    if c == '0' {
        Some(0)
    } else if c == '1' {
        Some(1)
    } else if c == '2' {
        Some(2)
    } else if c == '3' {
        Some(3)
    } else if c == '4' {
        Some(4)
    } else if c == '5' {
        Some(5)
    } else if c == '6' {
        Some(6)
    } else if c == '7' {
        Some(7)
    } else if c == '8' {
        Some(8)
    } else if c == '9' {
        Some(9)
    } else {
        None
    }
}

/// Reads a decimal number as `parse_number` describes it; numbers that do
/// not fit in a `usize` are not read.
pub fn read_number(s: &Vec<char>) -> (number: Option<usize>)
    ensures
        match number {
            Some(n) => parse_number(s@, usize::MAX as nat) == Some(n as nat),
            None => parse_number(s@, usize::MAX as nat) is None,
        },
{
    let start: usize = if s.len() > 0 && s[0] == '+' {
        1
    } else {
        0
    };
    if start == s.len() {
        return None;
    }
    let ghost digits = s@.skip(start as int);
    assert(s@.skip(0) =~= s@);
    let mut value: usize = 0;
    let mut i: usize = start;
    assert(digits.take(0) =~= Seq::<char>::empty());
    while i < s.len()
        invariant
            start <= i <= s.len(),
            0 < digits.len(),
            digits == s@.skip(start as int),
            digits == (if s@.len() > 0 && s@[0] == '+' {
                s@.skip(1)
            } else {
                s@
            }),
            all_digits(digits.take(i - start)),
            value == digits_value(digits.take(i - start)),
        decreases s.len() - i,
    {
        let c: char = s[i];
        let ghost next = digits.take(i - start + 1);
        proof {
            assert(next.drop_last() =~= digits.take(i - start));
            assert(digits[i - start] == c);
            lemma_digits_value_grows(digits, i - start + 1);
        }
        let digit: usize = match digit_of(c) {
            Some(digit) => digit,
            None => {
                return None;
            },
        };
        assert(digits_value(next) == value * 10 + digit) by {
            assert(next.last() == c);
        }
        let scaled: usize = match value.checked_mul(10) {
            Some(scaled) => scaled,
            None => {
                return None;
            },
        };
        value = match scaled.checked_add(digit) {
            Some(sum) => sum,
            None => {
                return None;
            },
        };
        assert forall|k: int| 0 <= k < next.len() implies digit_value(
            #[trigger] next[k],
        ) is Some by {
            if k < next.len() - 1 {
                assert(next[k] == digits.take(i - start)[k]);
            }
        }
        i += 1;
    }
    assert(digits.take(i - start) =~= digits);
    Some(value)
}

/// The one-character string that writes the digit `d`.
pub fn digit_str(d: usize) -> (s: &'static str)
    requires
        d < 10,
    ensures
        s@ == seq![digit_char(d as nat)],
{
    proof {
        reveal_strlit("0");
        reveal_strlit("1");
        reveal_strlit("2");
        reveal_strlit("3");
        reveal_strlit("4");
        reveal_strlit("5");
        reveal_strlit("6");
        reveal_strlit("7");
        reveal_strlit("8");
        reveal_strlit("9");
    }
    let s = if d == 0 {
        "0"
    } else if d == 1 {
        "1"
    } else if d == 2 {
        "2"
    } else if d == 3 {
        "3"
    } else if d == 4 {
        "4"
    } else if d == 5 {
        "5"
    } else if d == 6 {
        "6"
    } else if d == 7 {
        "7"
    } else if d == 8 {
        "8"
    } else {
        "9"
    };
    assert(s@ =~= seq![digit_char(d as nat)]);
    s
}

/// Appends the decimal digits of `n` to `out`.
pub fn push_decimal(out: &mut String, n: usize)
    ensures
        final(out)@ == old(out)@ + decimal(n as nat),
    decreases n,
{
    if n >= 10 {
        push_decimal(out, n / 10);
    }
    out.append(digit_str(n % 10));
    assert(decimal(n as nat) =~= if n < 10 {
        seq![digit_char(n as nat)]
    } else {
        decimal((n / 10) as nat) + seq![digit_char((n % 10) as nat)]
    });
}


} // verus!
