//! Text operations, stated over sequences of characters.

use vstd::prelude::*;

verus! {

/// `String::push` appends the given character to the end of the string.
pub assume_specification[ String::push ](s: &mut String, c: char)
    ensures
        final(s)@ == old(s)@.push(c),
;

// ---------------------------------------------------------------------------
// White space
// ---------------------------------------------------------------------------
/// Whether `c` has the Unicode property `White_Space`.
pub open spec fn is_white_space(c: char) -> bool {
    ||| '\u{9}' <= c <= '\u{d}'
    ||| c == '\u{20}'
    ||| c == '\u{85}'
    ||| c == '\u{a0}'
    ||| c == '\u{1680}'
    ||| '\u{2000}' <= c <= '\u{200a}'
    ||| c == '\u{2028}'
    ||| c == '\u{2029}'
    ||| c == '\u{202f}'
    ||| c == '\u{205f}'
    ||| c == '\u{3000}'
}

/// White space is made of these twenty-five characters, and no others.
pub proof fn lemma_white_space_characters(c: char)
    ensures
        is_white_space(c) <==> seq![
            0x9int, 0xa, 0xb, 0xc, 0xd, 0x20, 0x85, 0xa0, 0x1680, 0x2000, 0x2001, 0x2002, 0x2003,
            0x2004, 0x2005, 0x2006, 0x2007, 0x2008, 0x2009, 0x200a, 0x2028, 0x2029, 0x202f, 0x205f,
            0x3000,
        ].contains(c as int),
{
    let points = seq![
        0x9int, 0xa, 0xb, 0xc, 0xd, 0x20, 0x85, 0xa0, 0x1680, 0x2000, 0x2001, 0x2002, 0x2003,
        0x2004, 0x2005, 0x2006, 0x2007, 0x2008, 0x2009, 0x200a, 0x2028, 0x2029, 0x202f, 0x205f,
        0x3000,
    ];
    if is_white_space(c) {
        let k: int = if c <= '\u{d}' {
            c as int - 0x9
        } else if c == '\u{20}' {
            5
        } else if c == '\u{85}' {
            6
        } else if c == '\u{a0}' {
            7
        } else if c == '\u{1680}' {
            8
        } else if c <= '\u{200a}' {
            c as int - 0x2000 + 9
        } else if c == '\u{2028}' {
            20
        } else if c == '\u{2029}' {
            21
        } else if c == '\u{202f}' {
            22
        } else if c == '\u{205f}' {
            23
        } else {
            24
        };
        assert(points[k] == c as int);
    }
}

/// Whether every character of `s` is white space.
pub open spec fn all_white_space(s: Seq<char>) -> bool {
    forall|i: int| 0 <= i < s.len() ==> is_white_space(#[trigger] s[i])
}

/// `s` without the white space that it starts with.
pub open spec fn trim_start(s: Seq<char>) -> Seq<char>
    decreases s.len(),
{
    if s.len() > 0 && is_white_space(s.first()) {
        trim_start(s.drop_first())
    } else {
        s
    }
}

/// `s` without the white space that it ends with.
pub open spec fn trim_end(s: Seq<char>) -> Seq<char>
    decreases s.len(),
{
    if s.len() > 0 && is_white_space(s.last()) {
        trim_end(s.drop_last())
    } else {
        s
    }
}

/// `s` without the white space at either end.
pub open spec fn trim(s: Seq<char>) -> Seq<char> {
    trim_end(trim_start(s))
}

/// Whether `s` neither starts nor ends with white space.
pub open spec fn is_trimmed(s: Seq<char>) -> bool {
    s.len() > 0 ==> !is_white_space(s.first()) && !is_white_space(s.last())
}

proof fn lemma_trim_start(s: Seq<char>)
    ensures
        trim_start(s).len() <= s.len(),
        trim_start(s) == s.skip(s.len() - trim_start(s).len()),
        all_white_space(s.take(s.len() - trim_start(s).len())),
        trim_start(s).len() > 0 ==> !is_white_space(trim_start(s).first()),
    decreases s.len(),
{
    if s.len() > 0 && is_white_space(s.first()) {
        let rest = s.drop_first();
        lemma_trim_start(rest);
        let n = s.len() - trim_start(s).len();
        assert(rest.skip(n - 1) =~= s.skip(n));
        assert forall|i: int| 0 <= i < n implies is_white_space(#[trigger] s.take(n)[i]) by {
            if i > 0 {
                assert(s.take(n)[i] == rest.take(n - 1)[i - 1]);
            }
        }
    } else {
        assert(s.skip(0) =~= s);
    }
}

/// Trimming the end cuts white space off there, and nothing else: what is left is the beginning
/// of the text, it does not end with white space, and all that was cut off is white space.
pub proof fn lemma_trim_end(s: Seq<char>)
    ensures
        trim_end(s).len() <= s.len(),
        trim_end(s) == s.take(trim_end(s).len() as int),
        all_white_space(s.skip(trim_end(s).len() as int)),
        trim_end(s).len() > 0 ==> !is_white_space(trim_end(s).last()),
    decreases s.len(),
{
    if s.len() > 0 && is_white_space(s.last()) {
        let rest = s.drop_last();
        lemma_trim_end(rest);
        let n = trim_end(s).len() as int;
        assert(rest.take(n) =~= s.take(n));
        assert forall|i: int| 0 <= i < s.len() - n implies is_white_space(
            #[trigger] s.skip(n)[i],
        ) by {
            if i < s.len() - n - 1 {
                assert(s.skip(n)[i] == rest.skip(n)[i]);
            }
        }
    } else {
        assert(s.take(s.len() as int) =~= s);
    }
}

/// Trimming cuts white space, and nothing else, off the two ends: what is left is one
/// stretch of the text, neither end of it is white space, and all that was cut off is.
pub proof fn lemma_trim_cuts_white_space(s: Seq<char>)
    ensures
        is_trimmed(trim(s)),
        exists|from: int, to: int|
            0 <= from <= to <= s.len() && trim(s) == #[trigger] s.subrange(from, to)
                && all_white_space(s.take(from)) && all_white_space(s.skip(to)),
{
    let left = trim_start(s);
    let from = s.len() - left.len();
    let to = from + trim(s).len();
    lemma_trim_start(s);
    lemma_trim_end(left);
    assert(trim(s) =~= s.subrange(from, to));
    if trim(s).len() > 0 {
        assert(trim(s).first() == left.first());
    }
    assert forall|i: int| 0 <= i < s.len() - to implies is_white_space(#[trigger] s.skip(to)[i]) by {
        assert(s.skip(to)[i] == left.skip(trim(s).len() as int)[i]);
    }
}

/// Trimming a text that is already trimmed changes nothing.
pub proof fn lemma_trim_of_trimmed(s: Seq<char>)
    requires
        is_trimmed(s),
    ensures
        trim(s) == s,
{
}

/// Nothing is left of a text after trimming exactly when it is all white space.
pub proof fn lemma_trim_is_empty(s: Seq<char>)
    ensures
        trim(s).len() == 0 <==> all_white_space(s),
{
    lemma_trim_start(s);
    lemma_trim_end(trim_start(s));
    let left = trim_start(s);
    let from = s.len() - left.len();
    if trim(s).len() == 0 {
        assert forall|i: int| 0 <= i < s.len() implies is_white_space(#[trigger] s[i]) by {
            if i < from {
                assert(s.take(from)[i] == s[i]);
            } else {
                assert(left.skip(0)[i - from] == s[i]);
            }
        }
    } else {
        assert(left[0] == s[from]);
    }
}

/// Tells whether `c` is white space.
pub fn check_white_space(c: char) -> (res: bool)
    ensures
        res == is_white_space(c),
{
    ('\u{9}' <= c && c <= '\u{d}') || c == '\u{20}' || c == '\u{85}' || c == '\u{a0}' || c
        == '\u{1680}' || ('\u{2000}' <= c && c <= '\u{200a}') || c == '\u{2028}' || c == '\u{2029}'
        || c == '\u{202f}' || c == '\u{205f}' || c == '\u{3000}'
}

// ---------------------------------------------------------------------------
// Characters in and out of strings
// ---------------------------------------------------------------------------
/// The characters of `s`, in order.
pub fn to_chars(s: &str) -> (chars: Vec<char>)
    ensures
        chars@ == s@,
{
    let mut chars: Vec<char> = Vec::new();
    for c in it: s.chars()
        invariant
            chars@ == it.seq().take(it.index()),
            it.seq() == s@,
    {
        chars.push(c);
    }
    assert(s@.take(s@.len() as int) == s@);
    chars
}

/// The text made of the characters from `from` up to, but not including, `to`.
pub fn from_chars(chars: &Vec<char>, from: usize, to: usize) -> (text: String)
    requires
        from <= to <= chars.len(),
    ensures
        text@ == chars@.subrange(from as int, to as int),
{
    let mut text = String::new();
    let mut i: usize = from;
    while i < to
        invariant
            from <= i <= to <= chars.len(),
            text@ == chars@.subrange(from as int, i as int),
        decreases to - i,
    {
        text.push(chars[i]);
        i = i + 1;
    }
    text
}

/// Tells whether two texts are the same.
pub fn same_text(a: &str, b: &str) -> (res: bool)
    ensures
        res == (a@ == b@),
{
    let left = to_chars(a);
    let right = to_chars(b);
    if left.len() != right.len() {
        return false;
    }
    let mut i: usize = 0;
    while i < left.len()
        invariant
            i <= left.len() == right.len(),
            left@ == a@,
            right@ == b@,
            forall|j: int| 0 <= j < i ==> a@[j] == b@[j],
        decreases left.len() - i,
    {
        if left[i] != right[i] {
            return false;
        }
        i = i + 1;
    }
    assert(a@ =~= b@);
    true
}

/// `s` without the white space that it ends with.
pub fn trim_end_text(s: &str) -> (text: String)
    ensures
        text@ == trim_end(s@),
{
    let chars = to_chars(s);
    let mut to: usize = chars.len();
    assert(s@.take(to as int) =~= s@);
    while to > 0 && check_white_space(chars[to - 1])
        invariant
            to <= chars.len(),
            chars@ == s@,
            trim_end(s@.take(to as int)) == trim_end(s@),
        decreases to,
    {
        assert(s@.take(to as int).drop_last() =~= s@.take(to - 1));
        to = to - 1;
    }
    let text = from_chars(&chars, 0, to);
    assert(s@.subrange(0, to as int) =~= s@.take(to as int));
    text
}

/// `s` without the white space at either end.
pub fn trim_text(s: &str) -> (text: String)
    ensures
        text@ == trim(s@),
{
    let chars = to_chars(s);
    let mut from: usize = 0;
    assert(s@.skip(0) =~= s@);
    while from < chars.len() && check_white_space(chars[from])
        invariant
            from <= chars.len(),
            chars@ == s@,
            trim_start(s@.skip(from as int)) == trim_start(s@),
        decreases chars.len() - from,
    {
        assert(s@.skip(from as int).drop_first() =~= s@.skip(from + 1));
        from = from + 1;
    }
    let left = from_chars(&chars, from, chars.len());
    assert(left@ =~= s@.skip(from as int));
    trim_end_text(left.as_str())
}

// ---------------------------------------------------------------------------
// ASCII letter case
// ---------------------------------------------------------------------------
/// The lower-case letter for an upper-case ASCII letter, and any other character itself.
pub open spec fn lower_char(c: char) -> char {
    if 'A' <= c <= 'Z' {
        (c as u8 + 32) as char
    } else {
        c
    }
}

/// The letters from `A` to `Z` turn into those from `a` to `z`, and nothing else is changed.
pub proof fn lemma_lower_char(c: char)
    ensures
        'A' <= c <= 'Z' ==> 'a' <= lower_char(c) <= 'z' && lower_char(c) as int - 'a' as int
            == c as int - 'A' as int,
        !('A' <= c <= 'Z') ==> lower_char(c) == c,
{
}

/// A text in lower case has the same characters in the same order, each in lower case.
pub proof fn lemma_lower(s: Seq<char>)
    ensures
        lower(s).len() == s.len(),
        forall|i: int| 0 <= i < s.len() ==> #[trigger] lower(s)[i] == lower_char(s[i]),
        lower(lower(s)) == lower(s),
{
    assert(lower(lower(s)) =~= lower(s));
}

/// `s` with its ASCII letters in lower case.
pub open spec fn lower(s: Seq<char>) -> Seq<char> {
    s.map_values(|c: char| lower_char(c))
}

/// The lower-case letter for an upper-case ASCII letter, and any other character itself.
pub fn to_lower_char(c: char) -> (res: char)
    ensures
        res == lower_char(c),
{
    if 'A' <= c && c <= 'Z' {
        (c as u8 + 32) as char
    } else {
        c
    }
}

/// `s` with its ASCII letters in lower case.
pub fn to_ascii_lowercase(s: &str) -> (text: String)
    ensures
        text@ == lower(s@),
{
    let chars = to_chars(s);
    let mut text = String::new();
    let mut i: usize = 0;
    while i < chars.len()
        invariant
            i <= chars.len(),
            chars@ == s@,
            text@ == lower(s@.take(i as int)),
        decreases chars.len() - i,
    {
        text.push(to_lower_char(chars[i]));
        i = i + 1;
        assert(text@ =~= lower(s@.take(i as int)));
    }
    assert(s@.take(i as int) =~= s@);
    text
}

/// Tells whether two texts differ in nothing but the case of ASCII letters.
pub fn eq_ignore_ascii_case(a: &str, b: &str) -> (res: bool)
    ensures
        res == (lower(a@) == lower(b@)),
{
    let left = to_ascii_lowercase(a);
    let right = to_ascii_lowercase(b);
    left == right
}

// ---------------------------------------------------------------------------
// Numbers
// ---------------------------------------------------------------------------
/// The decimal digit of value `d`.
pub open spec fn digit(d: nat) -> char
    recommends
        d < 10,
{
    (48 + d) as char
}

/// The decimal digits of `n`, the most significant first, without leading zeros.
pub open spec fn digits(n: nat) -> Seq<char>
    decreases n,
{
    if n < 10 {
        seq![digit(n)]
    } else {
        digits(n / 10).push(digit(n % 10))
    }
}

/// `n` in decimal notation, with a minus sign where it is negative.
pub open spec fn decimal(n: int) -> Seq<char> {
    if n < 0 {
        seq!['-'] + digits((-n) as nat)
    } else {
        digits(n as nat)
    }
}

/// Appends the decimal digits of `n` to `text`.
fn push_digits(text: &mut String, n: u64)
    ensures
        final(text)@ == old(text)@ + digits(n as nat),
    decreases n,
{
    if n >= 10 {
        push_digits(text, n / 10);
    }
    let d: u8 = (n % 10) as u8;
    text.push((48 + d) as char);
    assert(text@ =~= old(text)@ + digits(n as nat));
}

/// `n` in decimal notation.
pub fn decimal_text(n: i32) -> (text: String)
    ensures
        text@ == decimal(n as int),
{
    let mut text = String::new();
    if n < 0 {
        text.push('-');
        push_digits(&mut text, (-(n as i64)) as u64);
    } else {
        push_digits(&mut text, n as u64);
    }
    assert(text@ =~= decimal(n as int));
    text
}

/// Different values have different digits.
proof fn lemma_digit_injective(a: nat, b: nat)
    requires
        a < 10,
        b < 10,
        digit(a) == digit(b),
    ensures
        a == b,
{
    assert(digit(a) as int == 48 + a);
    assert(digit(b) as int == 48 + b);
}

/// A natural number has at least one digit, and every character of its notation is one.
pub proof fn lemma_digits_are_digits(n: nat)
    ensures
        digits(n).len() > 0,
        forall|i: int| 0 <= i < digits(n).len() ==> '0' <= #[trigger] digits(n)[i] <= '9',
    decreases n,
{
    if n >= 10 {
        lemma_digits_are_digits(n / 10);
    }
}

/// Different numbers have different digits.
pub proof fn lemma_digits_injective(m: nat, n: nat)
    requires
        digits(m) == digits(n),
    ensures
        m == n,
    decreases m,
{
    lemma_digits_are_digits(m / 10);
    lemma_digits_are_digits(n / 10);
    if m < 10 && n < 10 {
        assert(digits(m)[0] == digit(m));
        assert(digits(n)[0] == digit(n));
        lemma_digit_injective(m, n);
    } else if m >= 10 && n >= 10 {
        assert(digits(m).drop_last() =~= digits(m / 10));
        assert(digits(n).drop_last() =~= digits(n / 10));
        assert(digits(m).last() == digit(m % 10));
        assert(digits(n).last() == digit(n % 10));
        lemma_digit_injective(m % 10, n % 10);
        lemma_digits_injective(m / 10, n / 10);
    } else if m < 10 {
        assert(digits(m).len() == 1);
        assert(digits(n).len() == digits(n / 10).len() + 1);
    } else {
        assert(digits(n).len() == 1);
        assert(digits(m).len() == digits(m / 10).len() + 1);
    }
}

/// The number that a sequence of decimal digits stands for.
pub open spec fn value_of_digits(s: Seq<char>) -> int
    decreases s.len(),
{
    if s.len() == 0 {
        0
    } else {
        value_of_digits(s.drop_last()) * 10 + (s.last() as int - '0' as int)
    }
}

proof fn lemma_digits_read_back(n: nat)
    ensures
        value_of_digits(digits(n)) == n,
        digits(n).len() > 1 ==> digits(n).first() != '0',
        n > 0 ==> digits(n).first() != '0',
    decreases n,
{
    lemma_digits_are_digits(n / 10);
    if n < 10 {
        assert(digits(n).drop_last() =~= Seq::empty());
        assert(digits(n).last() as int == 48 + n);
        assert(value_of_digits(digits(n).drop_last()) == 0);
    } else {
        lemma_digits_read_back(n / 10);
        assert(digits(n).drop_last() =~= digits(n / 10));
        assert(digits(n).last() as int == 48 + n % 10);
        assert(digits(n).first() == digits(n / 10).first());
    }
}

/// The decimal notation of a number stands for that number: it starts with a minus sign exactly
/// where the number is negative, the rest are digits that have its absolute value, and there is
/// no zero in front of them.
pub proof fn lemma_decimal_reads_back(n: int)
    ensures
        decimal(n).len() > 0,
        decimal(n).first() == '-' <==> n < 0,
        n >= 0 ==> value_of_digits(decimal(n)) == n,
        n < 0 ==> value_of_digits(decimal(n).drop_first()) == -n,
        n >= 0 ==> forall|i: int| 0 <= i < decimal(n).len() ==> '0' <= #[trigger] decimal(n)[i] <= '9',
        n < 0 ==> forall|i: int| 0 < i < decimal(n).len() ==> '0' <= #[trigger] decimal(n)[i] <= '9',
        n > 0 ==> decimal(n).first() != '0',
        n < 0 ==> decimal(n).len() > 1 && decimal(n)[1] != '0',
        n == 0 ==> decimal(n).len() == 1,
{
    let a = (if n < 0 { -n } else { n }) as nat;
    lemma_digits_read_back(a);
    lemma_digits_are_digits(a);
    assert('0' <= digits(a)[0] <= '9');
    if n < 0 {
        assert(decimal(n).drop_first() =~= digits(a));
        assert(decimal(n)[1] == digits(a)[0]);
        assert forall|i: int| 0 < i < decimal(n).len() implies '0' <= #[trigger] decimal(n)[i]
            <= '9' by {
            assert(decimal(n)[i] == digits(a)[i - 1]);
        }
    }
}

/// Different integers have different decimal notations.
pub proof fn lemma_decimal_injective(m: int, n: int)
    requires
        decimal(m) == decimal(n),
    ensures
        m == n,
{
    let a = if m < 0 { -m } else { m };
    let b = if n < 0 { -n } else { n };
    lemma_digits_are_digits(a as nat);
    lemma_digits_are_digits(b as nat);
    assert(decimal(m)[0] == decimal(n)[0]);
    assert('0' <= digits(a as nat)[0] <= '9');
    assert('0' <= digits(b as nat)[0] <= '9');
    if m < 0 && n < 0 {
        assert(decimal(m).drop_first() =~= digits(a as nat));
        assert(decimal(n).drop_first() =~= digits(b as nat));
    }
    if (m < 0) == (n < 0) {
        lemma_digits_injective(a as nat, b as nat);
    }
}

// ---------------------------------------------------------------------------
// Parts of a text
// ---------------------------------------------------------------------------
/// What stands in `s` before the first `c`; all of `s` where there is none.
pub open spec fn before_first(s: Seq<char>, c: char) -> Seq<char>
    decreases s.len(),
{
    if s.len() == 0 || s.first() == c {
        Seq::empty()
    } else {
        seq![s.first()] + before_first(s.drop_first(), c)
    }
}

/// What stands before the first `c` is followed by `c`, or is all there is.
pub proof fn lemma_before_first(s: Seq<char>, c: char, n: int)
    requires
        0 <= n <= s.len(),
        forall|i: int| 0 <= i < n ==> s[i] != c,
        n < s.len() ==> s[n] == c,
    ensures
        before_first(s, c) == s.take(n),
    decreases s.len(),
{
    if s.len() > 0 && n > 0 {
        let rest = s.drop_first();
        assert forall|i: int| 0 <= i < n - 1 implies rest[i] != c by {
            assert(s[i + 1] != c);
        }
        lemma_before_first(rest, c, n - 1);
        assert(s.take(n) =~= seq![s.first()] + rest.take(n - 1));
    } else {
        assert(s.take(0) =~= Seq::empty());
    }
}

/// What stands in `s` before the first `c`; all of `s` where there is none.
pub fn text_before_first(s: &str, c: char) -> (text: String)
    ensures
        text@ == before_first(s@, c),
{
    let chars = to_chars(s);
    let mut n: usize = 0;
    while n < chars.len() && chars[n] != c
        invariant
            n <= chars.len(),
            chars@ == s@,
            forall|i: int| 0 <= i < n ==> s@[i] != c,
        decreases chars.len() - n,
    {
        n = n + 1;
    }
    proof {
        lemma_before_first(s@, c, n as int);
    }
    let text = from_chars(&chars, 0, n);
    assert(text@ =~= s@.take(n as int));
    text
}

/// What stands before the first `c` is the beginning of the text, holds no `c`, and has a `c`
/// after it unless it is the whole text.
pub proof fn lemma_before_first_is_prefix(s: Seq<char>, c: char)
    ensures
        before_first(s, c).is_prefix_of(s),
        !before_first(s, c).contains(c),
        before_first(s, c).len() < s.len() ==> s[before_first(s, c).len() as int] == c,
    decreases s.len(),
{
    if s.len() > 0 && s.first() != c {
        let rest = s.drop_first();
        lemma_before_first_is_prefix(rest, c);
        let found = before_first(s, c);
        assert forall|i: int| 0 <= i < found.len() implies found[i] == s[i] && found[i] != c by {
            if i > 0 {
                assert(found[i] == before_first(rest, c)[i - 1]);
                assert(before_first(rest, c).contains(found[i]));
            }
        }
    }
}

/// What follows a `c` has no influence on what stands before the first one.
pub proof fn lemma_before_first_of_more(s: Seq<char>, c: char, rest: Seq<char>)
    ensures
        before_first(s + seq![c] + rest, c) == before_first(s, c),
    decreases s.len(),
{
    let whole = s + seq![c] + rest;
    if s.len() == 0 {
        assert(whole.first() == c);
    } else {
        assert(whole.first() == s.first());
        assert(whole.drop_first() =~= s.drop_first() + seq![c] + rest);
        lemma_before_first_of_more(s.drop_first(), c, rest);
    }
}

/// A text that holds no `c`, put before a `c`, is what stands before the first one.
pub proof fn lemma_before_first_of_concat(s: Seq<char>, c: char, rest: Seq<char>)
    requires
        !s.contains(c),
    ensures
        before_first(s + seq![c] + rest, c) == s,
        before_first(s, c) == s,
{
    let whole = s + seq![c] + rest;
    assert forall|i: int| 0 <= i < s.len() implies whole[i] != c && s[i] != c by {
        assert(s.contains(s[i]));
    }
    lemma_before_first(whole, c, s.len() as int);
    lemma_before_first(s, c, s.len() as int);
    assert(whole.take(s.len() as int) =~= s);
    assert(s.take(s.len() as int) =~= s);
}

} // verus!
