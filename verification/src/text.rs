//! Character-level helpers shared by the rest of the crate.
//!
//! Every contract in this crate speaks of strings through their view, a
//! `Seq<char>`. The functions here move between `str`/`String` and character
//! vectors and implement the handful of text operations the other modules
//! need, each against a small mathematical definition.

use vstd::prelude::*;
use vstd::string::*;

verus! {

/// `String::push` appends exactly one character at the end of the string and
/// leaves everything before it untouched.
pub assume_specification[ String::push ](s: &mut String, ch: char)
    ensures
        final(s)@ == old(s)@.push(ch),
;

/// The texts that a list of strings holds.
pub open spec fn texts(list: Seq<String>) -> Seq<Seq<char>> {
    Seq::new(list.len(), |i: int| list[i]@)
}

/// The characters of `s`, in order.
pub fn to_chars(s: &str) -> (v: Vec<char>)
    ensures
        v@ == s@,
{
    broadcast use vstd::string::group_string_axioms;

    let mut v: Vec<char> = Vec::new();
    for c in it: s.chars()
        invariant
            it.seq() == s@,
            v@ == s@.subrange(0, it.index() as int),
    {
        v.push(c);
    }
    assert(s@.subrange(0, s@.len() as int) == s@);
    v
}

/// A string made of the characters `v[from..to]`.
pub fn text_of_range(v: &Vec<char>, from: usize, to: usize) -> (s: String)
    requires
        from <= to <= v.len(),
    ensures
        s@ == v@.subrange(from as int, to as int),
{
    let mut s = String::new();
    let mut i: usize = from;
    while i < to
        invariant
            from <= i <= to <= v.len(),
            s@ == v@.subrange(from as int, i as int),
        decreases to - i,
    {
        s.push(v[i]);
        i = i + 1;
        assert(s@ == v@.subrange(from as int, i as int));
    }
    s
}

/// Whether two string slices hold the same characters.
pub fn same_text(a: &str, b: &str) -> (r: bool)
    ensures
        r == (a@ == b@),
{
    let x = a.to_owned();
    let y = b.to_owned();
    x == y
}

/// Whether `v[at..]` begins with `p`.
pub fn chars_match_at(v: &Vec<char>, at: usize, p: &Vec<char>) -> (r: bool)
    requires
        at <= v.len(),
    ensures
        r == p@.is_prefix_of(v@.skip(at as int)),
{
    if p.len() > v.len() - at {
        return false;
    }
    let mut i: usize = 0;
    while i < p.len()
        invariant
            at <= v.len(),
            p.len() <= v.len() - at,
            i <= p.len(),
            forall|k: int| 0 <= k < i ==> p@[k] == v@[at + k],
        decreases p.len() - i,
    {
        if v[at + i] != p[i] {
            assert(v@.skip(at as int).subrange(0, p.len() as int)[i as int] != p@[i as int]);
            return false;
        }
        i = i + 1;
    }
    assert(p@ =~= v@.skip(at as int).subrange(0, p.len() as int));
    true
}

/// Whether `s` begins with `prefix`.
pub fn text_starts_with(s: &str, prefix: &str) -> (r: bool)
    ensures
        r == prefix@.is_prefix_of(s@),
{
    let v = to_chars(s);
    let p = to_chars(prefix);
    assert(v@.skip(0) == v@);
    chars_match_at(&v, 0, &p)
}

/// Whether `s` ends with `suffix`.
pub fn text_ends_with(s: &str, suffix: &str) -> (r: bool)
    ensures
        r == suffix@.is_suffix_of(s@),
{
    let v = to_chars(s);
    let p = to_chars(suffix);
    if p.len() > v.len() {
        return false;
    }
    let at = v.len() - p.len();
    let r = chars_match_at(&v, at, &p);
    assert(v@.skip(at as int).subrange(0, p.len() as int) =~= v@.subrange(
        at as int,
        v.len() as int,
    ));
    r
}

/// `needle` occurs in `s` starting at index `i`.
pub open spec fn occurs_at(s: Seq<char>, needle: Seq<char>, i: int) -> bool {
    0 <= i && i + needle.len() <= s.len() && s.subrange(i, i + needle.len()) == needle
}

/// `needle` occurs somewhere in `s`.
pub open spec fn contains_text(s: Seq<char>, needle: Seq<char>) -> bool {
    exists|i: int| occurs_at(s, needle, i)
}

/// Whether `needle` occurs somewhere in `s`.
pub fn text_contains(s: &str, needle: &str) -> (r: bool)
    ensures
        r == contains_text(s@, needle@),
{
    let v = to_chars(s);
    let p = to_chars(needle);
    if p.len() > v.len() {
        assert forall|i: int| !occurs_at(s@, needle@, i) by {}
        return false;
    }
    let last = v.len() - p.len();
    let mut at: usize = 0;
    while at <= last
        invariant
            v@ == s@,
            p@ == needle@,
            p.len() <= v.len(),
            last == v.len() - p.len(),
            at <= last + 1,
            forall|i: int| 0 <= i < at ==> !occurs_at(s@, needle@, i),
        decreases last + 1 - at,
    {
        if chars_match_at(&v, at, &p) {
            assert(v@.skip(at as int).subrange(0, p.len() as int) =~= v@.subrange(
                at as int,
                at + p.len(),
            ));
            assert(occurs_at(s@, needle@, at as int));
            return true;
        }
        assert(!occurs_at(s@, needle@, at as int)) by {
            assert(v@.skip(at as int).subrange(0, p.len() as int) =~= v@.subrange(
                at as int,
                at + p.len(),
            ));
        }
        at = at + 1;
    }
    assert forall|i: int| !occurs_at(s@, needle@, i) by {}
    false
}

/// The character that writes the decimal digit `d`.
pub open spec fn digit_char(d: nat) -> char {
    if d == 0 {
        '0'
    } else if d == 1 {
        '1'
    } else if d == 2 {
        '2'
    } else if d == 3 {
        '3'
    } else if d == 4 {
        '4'
    } else if d == 5 {
        '5'
    } else if d == 6 {
        '6'
    } else if d == 7 {
        '7'
    } else if d == 8 {
        '8'
    } else {
        '9'
    }
}

/// The decimal digit that `c` writes, if it writes one.
pub open spec fn digit_value(c: char) -> Option<nat> {
    if c == '0' {
        Some(0)
    } else if c == '1' {
        Some(1)
    } else if c == '2' {
        Some(2)
    } else if c == '3' {
        Some(3)
    } else if c == '4' {
        Some(4)
    } else if c == '5' {
        Some(5)
    } else if c == '6' {
        Some(6)
    } else if c == '7' {
        Some(7)
    } else if c == '8' {
        Some(8)
    } else if c == '9' {
        Some(9)
    } else {
        None
    }
}

/// The usual decimal notation of `n`: no sign, no leading zero except for
/// zero itself.
pub open spec fn decimal(n: nat) -> Seq<char>
    decreases n,
{
    if n < 10 {
        seq![digit_char(n)]
    } else {
        decimal(n / 10).push(digit_char(n % 10))
    }
}

fn digit_of(d: u64) -> (c: char)
    requires
        d < 10,
    ensures
        c == digit_char(d as nat),
{
    if d == 0 {
        '0'
    } else if d == 1 {
        '1'
    } else if d == 2 {
        '2'
    } else if d == 3 {
        '3'
    } else if d == 4 {
        '4'
    } else if d == 5 {
        '5'
    } else if d == 6 {
        '6'
    } else if d == 7 {
        '7'
    } else if d == 8 {
        '8'
    } else {
        '9'
    }
}

/// Appends the decimal notation of `n` to `out`.
pub fn push_decimal(out: &mut String, n: u64)
    ensures
        final(out)@ == old(out)@ + decimal(n as nat),
    decreases n,
{
    if n < 10 {
        out.push(digit_of(n));
        assert(old(out)@.push(digit_char(n as nat)) =~= old(out)@ + decimal(n as nat));
    } else {
        push_decimal(out, n / 10);
        out.push(digit_of(n % 10));
        assert((old(out)@ + decimal((n / 10) as nat)).push(digit_char((n % 10) as nat)) =~= old(
            out,
        )@ + decimal(n as nat));
    }
}

/// Index of the first occurrence of `c` in `s`, if there is one.
pub open spec fn first_index_of(s: Seq<char>, c: char) -> Option<int>
    decreases s.len(),
{
    if s.len() == 0 {
        None
    } else if s[0] == c {
        Some(0)
    } else {
        match first_index_of(s.drop_first(), c) {
            Some(i) => Some(i + 1),
            None => None,
        }
    }
}

/// `first_index_of` finds an occurrence, and nothing before it is one; it
/// finds none only where there is none.
pub proof fn first_index_of_is_first(s: Seq<char>, c: char)
    ensures
        match first_index_of(s, c) {
            Some(i) => 0 <= i < s.len() && s[i] == c && forall|k: int| 0 <= k < i ==> s[k] != c,
            None => forall|k: int| 0 <= k < s.len() ==> s[k] != c,
        },
    decreases s.len(),
{
    if s.len() > 0 && s[0] != c {
        let rest = s.drop_first();
        first_index_of_is_first(rest, c);
        match first_index_of(rest, c) {
            Some(i) => {
                assert forall|k: int| 0 <= k < i + 1 implies s[k] != c by {
                    if k > 0 {
                        assert(rest[k - 1] == s[k]);
                    }
                }
            },
            None => {
                assert forall|k: int| 0 <= k < s.len() implies s[k] != c by {
                    if k > 0 {
                        assert(rest[k - 1] == s[k]);
                    }
                }
            },
        }
    }
}

/// Position of the first `c` at or after `from`, or `v.len()` when there is
/// none.
pub fn find_char(v: &Vec<char>, from: usize, c: char) -> (at: usize)
    requires
        from <= v.len(),
    ensures
        from <= at <= v.len(),
        at < v.len() ==> v@[at as int] == c,
        forall|k: int| from <= k < at ==> v@[k] != c,
        match first_index_of(v@.skip(from as int), c) {
            Some(i) => at == from + i && at < v.len(),
            None => at == v.len(),
        },
{
    let mut at: usize = from;
    while at < v.len() && v[at] != c
        invariant
            from <= at <= v.len(),
            forall|k: int| from <= k < at ==> v@[k] != c,
        decreases v.len() - at,
    {
        at = at + 1;
    }
    proof {
        let tail = v@.skip(from as int);
        first_index_of_is_first(tail, c);
        match first_index_of(tail, c) {
            Some(i) => {
                assert(tail[i] == v@[from + i]);
                if at < from + i {
                    assert(tail[at - from] == v@[at as int]);
                }
            },
            None => {
                if at < v.len() {
                    assert(tail[at - from] == v@[at as int]);
                }
            },
        }
    }
    at
}

/// Whether every character of `s` is a decimal digit.
pub open spec fn all_digits(s: Seq<char>) -> bool {
    forall|i: int| 0 <= i < s.len() ==> (#[trigger] digit_value(s[i])) is Some
}

/// The number that a run of decimal digits writes; leading zeros count for
/// nothing and the empty run stands for zero.
pub open spec fn digits_number(s: Seq<char>) -> nat
    decreases s.len(),
{
    if s.len() == 0 {
        0
    } else {
        digits_number(s.drop_last()) * 10 + match digit_value(s.last()) {
            Some(d) => d,
            None => 0,
        }
    }
}

/// What reading `s` as an unsigned 64-bit decimal number gives: an optional
/// leading `+`, then at least one digit and nothing else, and a value that
/// fits. Anything else is not a number.
pub open spec fn parsed_u64(s: Seq<char>) -> Option<u64> {
    let digits = if s.len() > 0 && s[0] == '+' {
        s.skip(1)
    } else {
        s
    };
    if digits.len() > 0 && all_digits(digits) && digits_number(digits) <= u64::MAX {
        Some(digits_number(digits) as u64)
    } else {
        None
    }
}

proof fn digits_number_grows(s: Seq<char>, k: int)
    requires
        0 <= k <= s.len(),
    ensures
        digits_number(s.take(k)) <= digits_number(s),
    decreases s.len() - k,
{
    if k < s.len() {
        digits_number_grows(s, k + 1);
        assert(s.take(k + 1).drop_last() =~= s.take(k));
    } else {
        assert(s.take(k) =~= s);
    }
}

fn digit_to_number(c: char) -> (d: Option<u64>)
    ensures
        match d {
            Some(x) => digit_value(c) == Some(x as nat) && x < 10,
            None => digit_value(c) is None,
        },
{
    if c == '0' {
        Some(0)
    } else if c == '1' {
        Some(1)
    } else if c == '2' {
        Some(2)
    } else if c == '3' {
        Some(3)
    } else if c == '4' {
        Some(4)
    } else if c == '5' {
        Some(5)
    } else if c == '6' {
        Some(6)
    } else if c == '7' {
        Some(7)
    } else if c == '8' {
        Some(8)
    } else if c == '9' {
        Some(9)
    } else {
        None
    }
}

/// Reads `v[from..]` as an unsigned 64-bit decimal number.
pub fn parse_u64_from(v: &Vec<char>, from: usize) -> (r: Option<u64>)
    requires
        from <= v.len(),
    ensures
        r == parsed_u64(v@.skip(from as int)),
{
    let ghost whole = v@.skip(from as int);
    let mut i: usize = from;
    if i < v.len() && v[i] == '+' {
        i = i + 1;
    }
    let start = i;
    let ghost digits = v@.skip(start as int);
    assert(digits =~= if whole.len() > 0 && whole[0] == '+' {
        whole.skip(1)
    } else {
        whole
    });
    if start == v.len() {
        return None;
    }
    let mut acc: u64 = 0;
    while i < v.len()
        invariant
            start <= i <= v.len(),
            from <= v.len(),
            whole == v@.skip(from as int),
            digits == v@.skip(start as int),
            digits.len() > 0,
            digits == if whole.len() > 0 && whole[0] == '+' {
                whole.skip(1)
            } else {
                whole
            },
            all_digits(digits.take(i - start)),
            acc == digits_number(digits.take(i - start)),
        decreases v.len() - i,
    {
        let ghost k = i - start;
        proof {
            assert(digits.take(k + 1).drop_last() =~= digits.take(k));
            assert(digits.take(k + 1).last() == v@[i as int]);
        }
        let d = match digit_to_number(v[i]) {
            Some(d) => d,
            None => {
                assert(digit_value(digits[k]) is None);
                return None;
            },
        };
        let next = match acc.checked_mul(10) {
            Some(m) => m.checked_add(d),
            None => None,
        };
        match next {
            Some(n) => {
                acc = n;
            },
            None => {
                proof {
                    assert(digits_number(digits.take(k + 1)) > u64::MAX);
                    digits_number_grows(digits, k + 1);
                }
                return None;
            },
        }
        proof {
            assert forall|j: int| 0 <= j < k + 1 implies (#[trigger] digit_value(
                digits.take(k + 1)[j],
            )) is Some by {
                if j < k {
                    assert(digits.take(k)[j] == digits.take(k + 1)[j]);
                }
            }
        }
        i = i + 1;
    }
    assert(digits.take(i - start) =~= digits);
    Some(acc)
}

/// The lowercase form of a text as `str::to_lowercase` computes it from the
/// Unicode case tables.
pub uninterp spec fn unicode_lowercase(s: Seq<char>) -> Seq<char>;

/// Calls `str::to_lowercase`. The result depends on the characters of `s`
/// alone; the contract names it and claims nothing else about it.
#[verifier::external_body]
pub(crate) fn lowercase(s: &str) -> (r: String)
    ensures
        r@ == unicode_lowercase(s@),
{
    s.to_lowercase()
}

/// The lowercase form of an ASCII capital letter; every other character is
/// its own.
pub open spec fn ascii_lower(c: char) -> char {
    if 'A' <= c <= 'Z' {
        ((c as u8) + 32) as char
    } else {
        c
    }
}

/// Whether two texts are equal up to the case of their ASCII letters.
pub open spec fn same_ignoring_ascii_case(a: Seq<char>, b: Seq<char>) -> bool {
    a.len() == b.len() && forall|i: int|
        0 <= i < a.len() ==> ascii_lower(#[trigger] a[i]) == ascii_lower(b[i])
}

/// `s` with its ASCII capital letters in lowercase.
pub open spec fn ascii_lowercase(s: Seq<char>) -> Seq<char> {
    Seq::new(s.len(), |i: int| ascii_lower(s[i]))
}

/// The lowercase form of `c` if it is an ASCII capital letter, else `c`.
pub fn to_ascii_lower(c: char) -> (l: char)
    ensures
        l == ascii_lower(c),
{
    if 'A' <= c && c <= 'Z' {
        ((c as u8) + 32) as char
    } else {
        c
    }
}

/// Whether `a` and `b` are equal up to the case of their ASCII letters.
pub fn chars_eq_ignore_ascii_case(a: &Vec<char>, b: &Vec<char>) -> (r: bool)
    ensures
        r == same_ignoring_ascii_case(a@, b@),
{
    if a.len() != b.len() {
        return false;
    }
    let mut i: usize = 0;
    while i < a.len()
        invariant
            a.len() == b.len(),
            i <= a.len(),
            forall|k: int| 0 <= k < i ==> ascii_lower(#[trigger] a@[k]) == ascii_lower(b@[k]),
        decreases a.len() - i,
    {
        if to_ascii_lower(a[i]) != to_ascii_lower(b[i]) {
            return false;
        }
        i = i + 1;
    }
    true
}

/// `s` with its ASCII capital letters in lowercase.
pub fn to_ascii_lowercase(s: &str) -> (r: String)
    ensures
        r@ == ascii_lowercase(s@),
{
    let v = to_chars(s);
    let mut r = String::new();
    let mut i: usize = 0;
    while i < v.len()
        invariant
            i <= v.len(),
            v@ == s@,
            r@ == ascii_lowercase(s@).take(i as int),
        decreases v.len() - i,
    {
        r.push(to_ascii_lower(v[i]));
        i = i + 1;
        assert(r@ =~= ascii_lowercase(s@).take(i as int));
    }
    assert(ascii_lowercase(s@).take(v.len() as int) =~= ascii_lowercase(s@));
    r
}

/// Whether `c` is white space in the sense of Unicode's `White_Space`
/// property.
pub open spec fn is_space(c: char) -> bool {
    ||| '\u{9}' <= c <= '\u{D}'
    ||| c == ' '
    ||| c == '\u{85}'
    ||| c == '\u{A0}'
    ||| c == '\u{1680}'
    ||| '\u{2000}' <= c <= '\u{200A}'
    ||| c == '\u{2028}'
    ||| c == '\u{2029}'
    ||| c == '\u{202F}'
    ||| c == '\u{205F}'
    ||| c == '\u{3000}'
}

/// `s` without the white space at its start.
pub open spec fn trim_start_of(s: Seq<char>) -> Seq<char>
    decreases s.len(),
{
    if s.len() > 0 && is_space(s[0]) {
        trim_start_of(s.drop_first())
    } else {
        s
    }
}

/// `s` without the white space at its end.
pub open spec fn trim_end_of(s: Seq<char>) -> Seq<char>
    decreases s.len(),
{
    if s.len() > 0 && is_space(s.last()) {
        trim_end_of(s.drop_last())
    } else {
        s
    }
}

/// `s` without the white space at both ends.
pub open spec fn trimmed(s: Seq<char>) -> Seq<char> {
    trim_end_of(trim_start_of(s))
}

proof fn trim_start_is_skip(s: Seq<char>, n: int)
    requires
        0 <= n <= s.len(),
        forall|k: int| 0 <= k < n ==> is_space(s[k]),
        n == s.len() || !is_space(s[n]),
    ensures
        trim_start_of(s) == s.skip(n),
    decreases n,
{
    if n == 0 {
        assert(s.skip(0) =~= s);
    } else {
        let rest = s.drop_first();
        assert forall|k: int| 0 <= k < n - 1 implies is_space(rest[k]) by {
            assert(rest[k] == s[k + 1]);
        }
        trim_start_is_skip(rest, n - 1);
        assert(rest.skip(n - 1) =~= s.skip(n));
    }
}

proof fn trim_end_is_take(s: Seq<char>, n: int)
    requires
        0 <= n <= s.len(),
        forall|k: int| n <= k < s.len() ==> is_space(s[k]),
        n == 0 || !is_space(s[n - 1]),
    ensures
        trim_end_of(s) == s.take(n),
    decreases s.len() - n,
{
    if n == s.len() {
        assert(s.take(n) =~= s);
    } else {
        let rest = s.drop_last();
        trim_end_is_take(rest, n);
        assert(rest.take(n) =~= s.take(n));
    }
}

/// Whether `c` is white space.
pub fn is_whitespace(c: char) -> (r: bool)
    ensures
        r == is_space(c),
{
    ('\u{9}' <= c && c <= '\u{D}') || c == ' ' || c == '\u{85}' || c == '\u{A0}' || c == '\u{1680}'
        || ('\u{2000}' <= c && c <= '\u{200A}') || c == '\u{2028}' || c == '\u{2029}' || c
        == '\u{202F}' || c == '\u{205F}' || c == '\u{3000}'
}

/// `s` without the white space at both ends.
pub fn trim(s: &str) -> (r: String)
    ensures
        r@ == trimmed(s@),
{
    let v = to_chars(s);
    let mut from: usize = 0;
    while from < v.len() && is_whitespace(v[from])
        invariant
            from <= v.len(),
            forall|k: int| 0 <= k < from ==> is_space(v@[k]),
        decreases v.len() - from,
    {
        from = from + 1;
    }
    let mut to: usize = v.len();
    while to > from && is_whitespace(v[to - 1])
        invariant
            from <= to <= v.len(),
            forall|k: int| to <= k < v.len() ==> is_space(v@[k]),
        decreases to,
    {
        to = to - 1;
    }
    proof {
        trim_start_is_skip(v@, from as int);
        let rest = v@.skip(from as int);
        assert forall|k: int| to - from <= k < rest.len() implies is_space(rest[k]) by {
            assert(rest[k] == v@[k + from]);
        }
        if to > from {
            assert(rest[to - from - 1] == v@[to - 1]);
        }
        trim_end_is_take(rest, to - from);
        assert(rest.take(to - from) =~= v@.subrange(from as int, to as int));
    }
    text_of_range(&v, from, to)
}

/// `s` with every leading repetition of `prefix` removed.
pub open spec fn strip_leading(s: Seq<char>, prefix: Seq<char>) -> Seq<char>
    decreases s.len(),
{
    if prefix.len() > 0 && prefix.is_prefix_of(s) {
        strip_leading(s.skip(prefix.len() as int), prefix)
    } else {
        s
    }
}

/// `s` without any repetition of `prefix` at its start.
pub fn trim_start_matches(s: &str, prefix: &str) -> (r: String)
    ensures
        r@ == strip_leading(s@, prefix@),
{
    let v = to_chars(s);
    let p = to_chars(prefix);
    let mut from: usize = 0;
    assert(v@.skip(0) =~= v@);
    if p.len() > 0 {
        while chars_match_at(&v, from, &p)
            invariant
                from <= v.len(),
                p.len() > 0,
                v@ == s@,
                p@ == prefix@,
                strip_leading(s@, prefix@) == strip_leading(v@.skip(from as int), prefix@),
            decreases v.len() - from,
        {
            assert(v@.skip(from as int).skip(p.len() as int) =~= v@.skip(from + p.len()));
            from = from + p.len();
        }
    }
    assert(v@.subrange(from as int, v.len() as int) =~= v@.skip(from as int));
    text_of_range(&v, from, v.len())
}

/// The largest character boundary of `bytes` that is not beyond `limit`.
pub open spec fn floor_boundary(bytes: Seq<u8>, limit: int) -> int
    decreases limit,
{
    if limit <= 0 {
        0
    } else if vstd::utf8::is_char_boundary(bytes, limit) {
        limit
    } else {
        floor_boundary(bytes, limit - 1)
    }
}

/// The beginning of `s` that fits into `limit` bytes without cutting a
/// character in two; `s` has to be longer than that.
pub fn byte_prefix(s: &str, limit: usize) -> (head: String)
    requires
        s.spec_bytes().len() > limit,
    ensures
        head@ == vstd::utf8::decode_utf8(
            s.spec_bytes().subrange(0, floor_boundary(s.spec_bytes(), limit as int)),
        ),
{
    broadcast use vstd::utf8::group_utf8_lib;

    let ghost bytes = s.spec_bytes();
    let mut cut: usize = limit;
    while cut > 0 && !s.is_char_boundary(cut)
        invariant
            bytes == s.spec_bytes(),
            0 <= cut <= limit < bytes.len(),
            floor_boundary(bytes, limit as int) == floor_boundary(bytes, cut as int),
        decreases cut,
    {
        cut = cut - 1;
    }
    assert(vstd::utf8::is_char_boundary(bytes, cut as int));
    assert(floor_boundary(bytes, cut as int) == cut);
    let parts = s.split_at(cut);
    assert(parts.0@ == vstd::utf8::decode_utf8(vstd::utf8::encode_utf8(parts.0@)));
    String::from_str(parts.0)
}

/// `s` without the run of `c` at its end.
pub open spec fn strip_trailing(s: Seq<char>, c: char) -> Seq<char>
    decreases s.len(),
{
    if s.len() > 0 && s.last() == c {
        strip_trailing(s.drop_last(), c)
    } else {
        s
    }
}

/// `s` without any `c` at its end.
pub fn trim_end_matches_char(s: &str, c: char) -> (r: String)
    ensures
        r@ == strip_trailing(s@, c),
{
    let v = to_chars(s);
    let mut to: usize = v.len();
    assert(v@.take(to as int) =~= v@);
    while to > 0 && v[to - 1] == c
        invariant
            to <= v.len(),
            strip_trailing(v@, c) == strip_trailing(v@.take(to as int), c),
        decreases to,
    {
        assert(v@.take(to as int).drop_last() =~= v@.take(to - 1));
        to = to - 1;
    }
    assert(v@.subrange(0, to as int) =~= v@.take(to as int));
    text_of_range(&v, 0, to)
}

} // verus!
