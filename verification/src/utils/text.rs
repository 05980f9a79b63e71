//! Small verified helpers on strings, stated over their views as
//! sequences of characters.

use vstd::prelude::*;

verus! {

/// `suffix` ends `s`.
pub open spec fn is_suffix(s: Seq<char>, suffix: Seq<char>) -> bool {
    suffix.len() <= s.len() && s.subrange(s.len() - suffix.len(), s.len() as int) == suffix
}

/// `prefix` starts `s`.
pub open spec fn is_prefix(s: Seq<char>, prefix: Seq<char>) -> bool {
    prefix.len() <= s.len() && s.subrange(0, prefix.len() as int) == prefix
}

/// The lower-case form of an ASCII letter; every other character is kept.
pub open spec fn lower_char(c: char) -> char {
    if 'A' <= c && c <= 'Z' {
        ((c as u8) + 32) as char
    } else {
        c
    }
}

/// `s` with each ASCII upper-case letter replaced by its lower-case form.
pub open spec fn ascii_lower(s: Seq<char>) -> Seq<char> {
    Seq::new(s.len(), |i: int| lower_char(s[i]))
}

/// Equality up to the case of ASCII letters.
pub open spec fn eq_ignore_case(a: Seq<char>, b: Seq<char>) -> bool {
    ascii_lower(a) == ascii_lower(b)
}

/// Whether two strings hold the same characters.
pub fn str_eq(a: &str, b: &str) -> (res: bool)
    ensures
        res == (a@ == b@),
{
    let n: usize = a.unicode_len();
    if n != b.unicode_len() {
        return false;
    }
    let mut i: usize = 0;
    while i < n
        invariant
            n == a@.len(),
            n == b@.len(),
            i <= n,
            a@.subrange(0, i as int) == b@.subrange(0, i as int),
        decreases n - i,
    {
        if a.get_char(i) != b.get_char(i) {
            return false;
        }
        proof {
            assert(a@.subrange(0, i + 1) == a@.subrange(0, i as int).push(a@[i as int]));
            assert(b@.subrange(0, i + 1) == b@.subrange(0, i as int).push(b@[i as int]));
        }
        i = i + 1;
    }
    proof {
        assert(a@.subrange(0, n as int) == a@);
        assert(b@.subrange(0, n as int) == b@);
    }
    true
}

/// `String::push` appends one character.
pub assume_specification[ String::push ](s: &mut String, c: char)
    ensures
        final(s)@ == old(s)@.push(c),
;

/// The decimal digit for `d`, which is below ten.
pub open spec fn digit_char(d: int) -> char {
    (48 + d) as u8 as char
}

/// The decimal numeral of `n`, without leading zeros.
pub open spec fn decimal(n: nat) -> Seq<char>
    decreases n,
{
    if n < 10 {
        seq![digit_char(n as int)]
    } else {
        decimal(n / 10).push(digit_char((n % 10) as int))
    }
}

/// Appends the decimal numeral of `n` to `out`.
pub fn push_decimal(out: &mut String, n: u64)
    ensures
        final(out)@ == old(out)@ + decimal(n as nat),
    decreases n,
{
    if n >= 10 {
        push_decimal(out, n / 10);
    }
    let d: u8 = (n % 10) as u8;
    out.push((48 + d) as char);
    proof {
        if n >= 10 {
            assert(old(out)@ + decimal(n as nat) =~= (old(out)@ + decimal((n / 10) as nat)).push(
                digit_char((n % 10) as int),
            ));
        } else {
            assert(old(out)@ + decimal(n as nat) =~= old(out)@.push(digit_char(n as int)));
        }
    }
}

/// The decimal numeral of `n` as a string.
pub fn decimal_string(n: u64) -> (res: String)
    ensures
        res@ == decimal(n as nat),
{
    let mut out = String::new();
    push_decimal(&mut out, n);
    assert(Seq::<char>::empty() + decimal(n as nat) =~= decimal(n as nat));
    out
}

/// The decimal numeral of `n`, with a minus sign where it is negative.
pub open spec fn signed_decimal(n: int) -> Seq<char> {
    if n < 0 {
        seq!['-'] + decimal((-n) as nat)
    } else {
        decimal(n as nat)
    }
}

/// Appends the decimal numeral of `n` to `out`.
pub fn push_signed_decimal(out: &mut String, n: i64)
    ensures
        final(out)@ == old(out)@ + signed_decimal(n as int),
{
    if n < 0 {
        out.push('-');
        let magnitude: u64 = if n == i64::MIN {
            9223372036854775808u64
        } else {
            (-n) as u64
        };
        push_decimal(out, magnitude);
        proof {
            assert(out@ =~= old(out)@ + signed_decimal(n as int));
        }
    } else {
        push_decimal(out, n as u64);
    }
}

/// A character has the Unicode property `White_Space`: it is a tab, a line
/// feed, a vertical tab, a form feed, a carriage return, a space, the next
/// line control, a no-break space, the Ogham space mark, one of the spaces
/// from en quad to hair space, the line or the paragraph separator, the
/// narrow no-break space, the medium mathematical space or the ideographic
/// space.
pub open spec fn is_whitespace(c: char) -> bool {
    let u = c as u32;
    (0x09 <= u <= 0x0D) || u == 0x20 || u == 0x85 || u == 0xA0 || u == 0x1680 || (0x2000 <= u
        <= 0x200A) || u == 0x2028 || u == 0x2029 || u == 0x202F || u == 0x205F || u == 0x3000
}

/// `char::is_whitespace` tells whether a character has the Unicode property
/// `White_Space`, which is the list that `is_whitespace` writes out.
pub assume_specification[ char::is_whitespace ](c: char) -> (res: bool)
    ensures
        res == is_whitespace(c),
;

/// `s` holds a white-space character.
pub open spec fn has_whitespace(s: Seq<char>) -> bool {
    exists|i: int| 0 <= i < s.len() && is_whitespace(#[trigger] s[i])
}

/// Whether `s` holds a white-space character.
pub fn contains_whitespace(s: &str) -> (res: bool)
    ensures
        res == has_whitespace(s@),
{
    let n: usize = s.unicode_len();
    let mut i: usize = 0;
    while i < n
        invariant
            n == s@.len(),
            i <= n,
            forall|j: int| 0 <= j < i ==> !is_whitespace(#[trigger] s@[j]),
        decreases n - i,
    {
        if s.get_char(i).is_whitespace() {
            return true;
        }
        i = i + 1;
    }
    false
}

/// `needle` occurs in `s` at position `at`.
pub open spec fn occurs_at(s: Seq<char>, needle: Seq<char>, at: int) -> bool {
    0 <= at && at + needle.len() <= s.len() && s.subrange(at, at + needle.len()) == needle
}

/// `needle` occurs somewhere in `s`.
pub open spec fn has_substring(s: Seq<char>, needle: Seq<char>) -> bool {
    exists|at: int| occurs_at(s, needle, at)
}

/// Whether `needle` occurs in `s` at the position `at`, which leaves room
/// for it.
fn matches_at(s: &str, needle: &str, at: usize) -> (res: bool)
    requires
        at + needle@.len() <= s@.len(),
    ensures
        res == occurs_at(s@, needle@, at as int),
{
    let n: usize = s.unicode_len();
    let m: usize = needle.unicode_len();
    let mut i: usize = 0;
    while i < m
        invariant
            n == s@.len(),
            m == needle@.len(),
            at + m <= n,
            i <= m,
            s@.subrange(at as int, at + i) == needle@.subrange(0, i as int),
        decreases m - i,
    {
        if s.get_char(at + i) != needle.get_char(i) {
            proof {
                assert(s@.subrange(at as int, at + m)[i as int] == s@[at + i]);
            }
            return false;
        }
        proof {
            assert(s@.subrange(at as int, at + i + 1) == s@.subrange(at as int, at + i).push(
                s@[at + i],
            ));
            assert(needle@.subrange(0, i + 1) == needle@.subrange(0, i as int).push(
                needle@[i as int],
            ));
        }
        i = i + 1;
    }
    proof {
        assert(needle@.subrange(0, m as int) == needle@);
    }
    true
}

/// Whether `needle` occurs somewhere in `s`.
pub fn contains(s: &str, needle: &str) -> (res: bool)
    ensures
        res == has_substring(s@, needle@),
{
    let n: usize = s.unicode_len();
    let m: usize = needle.unicode_len();
    if m > n {
        return false;
    }
    let last: usize = n - m;
    let mut at: usize = 0;
    while at < last
        invariant
            n == s@.len(),
            m == needle@.len(),
            last == n - m,
            at <= last,
            forall|j: int| 0 <= j < at ==> !occurs_at(s@, needle@, j),
        decreases last - at,
    {
        if matches_at(s, needle, at) {
            return true;
        }
        at = at + 1;
    }
    matches_at(s, needle, last)
}

/// The truth value that a text names: `true` or `false`, spelled exactly.
pub open spec fn bool_of(s: Seq<char>) -> Option<bool> {
    if s == "true"@ {
        Some(true)
    } else if s == "false"@ {
        Some(false)
    } else {
        None
    }
}

/// The truth value that a text names.
pub fn parse_bool(s: &str) -> (res: Option<bool>)
    ensures
        res == bool_of(s@),
{
    if str_eq(s, "true") {
        Some(true)
    } else if str_eq(s, "false") {
        Some(false)
    } else {
        None
    }
}

/// `c` is a decimal digit.
pub open spec fn is_digit(c: char) -> bool {
    '0' <= c && c <= '9'
}

/// Every character of `s` is a decimal digit.
pub open spec fn all_digits(s: Seq<char>) -> bool {
    forall|i: int| 0 <= i < s.len() ==> is_digit(#[trigger] s[i])
}

/// The number that a string of decimal digits writes.
pub open spec fn digits_value(s: Seq<char>) -> nat
    decreases s.len(),
{
    if s.len() == 0 {
        0
    } else {
        digits_value(s.drop_last()) * 10 + (s.last() as u8 - 48) as nat
    }
}

/// The digits of a numeral: what follows the plus sign, where it starts
/// with one.
pub open spec fn unsigned_part(s: Seq<char>) -> Seq<char> {
    if s.len() > 0 && s[0] == '+' {
        s.skip(1)
    } else {
        s
    }
}

/// The port that a text names: an optional plus sign and then decimal
/// digits, at least one, that write a number up to 65535. Anything else,
/// white space included, names none.
pub open spec fn u16_of(s: Seq<char>) -> Option<u16> {
    let digits = unsigned_part(s);
    if digits.len() > 0 && all_digits(digits) && digits_value(digits) <= 65535 {
        Some(digits_value(digits) as u16)
    } else {
        None
    }
}

/// More digits never write a smaller number.
proof fn lemma_digits_value_grows(s: Seq<char>, n: int)
    requires
        0 <= n <= s.len(),
    ensures
        digits_value(s.take(n)) <= digits_value(s),
    decreases s.len() - n,
{
    if n < s.len() {
        lemma_digits_value_grows(s, n + 1);
        assert(s.take(n + 1).drop_last() =~= s.take(n));
    } else {
        assert(s.take(n) =~= s);
    }
}

/// The port that a text names.
pub fn parse_u16(s: &str) -> (res: Option<u16>)
    ensures
        res == u16_of(s@),
{
    let n: usize = s.unicode_len();
    let start: usize = if n > 0 && s.get_char(0) == '+' {
        1
    } else {
        0
    };
    let ghost digits = unsigned_part(s@);
    if start == n {
        return None;
    }
    let mut value: u32 = 0;
    let mut i: usize = start;
    while i < n
        invariant
            n == s@.len(),
            start <= i <= n,
            digits == s@.skip(start as int),
            digits == unsigned_part(s@),
            all_digits(digits.take(i - start)),
            value == digits_value(digits.take(i - start)),
            value <= 65535,
        decreases n - i,
    {
        let c = s.get_char(i);
        proof {
            assert(digits[i - start] == c);
            assert(digits.take(i - start + 1).drop_last() =~= digits.take(i - start));
            assert(digits.take(i - start + 1).last() == c);
        }
        if !('0' <= c && c <= '9') {
            return None;
        }
        let d: u32 = (c as u8 - 48) as u32;
        value = value * 10 + d;
        if value > 65535 {
            proof {
                if all_digits(digits) {
                    lemma_digits_value_grows(digits, i - start + 1);
                }
            }
            return None;
        }
        proof {
            assert forall|j: int| 0 <= j < i - start + 1 implies is_digit(
                #[trigger] digits.take(i - start + 1)[j],
            ) by {
                if j < i - start {
                    assert(digits.take(i - start + 1)[j] == digits.take(i - start)[j]);
                }
            }
        }
        i = i + 1;
    }
    proof {
        assert(digits.take(n - start) =~= digits);
    }
    Some(value as u16)
}

/// Position of the first `sep` in `s`, or the length of `s` where there is
/// none.
pub open spec fn first_sep(s: Seq<char>, sep: char) -> int
    decreases s.len(),
{
    if s.len() == 0 || s[0] == sep {
        0
    } else {
        1 + first_sep(s.skip(1), sep)
    }
}

/// The pieces of `s` between the occurrences of `sep`. A text without
/// `sep` is one piece, and so is the empty text.
pub open spec fn split_on(s: Seq<char>, sep: char) -> Seq<Seq<char>>
    decreases s.len(),
{
    let at = first_sep(s, sep);
    if 0 <= at < s.len() {
        seq![s.take(at)] + split_on(s.skip(at + 1), sep)
    } else {
        seq![s]
    }
}

proof fn lemma_first_sep(s: Seq<char>, sep: char)
    ensures
        0 <= first_sep(s, sep) <= s.len(),
        forall|j: int| 0 <= j < first_sep(s, sep) ==> s[j] != sep,
        first_sep(s, sep) < s.len() ==> s[first_sep(s, sep)] == sep,
    decreases s.len(),
{
    if s.len() > 0 && s[0] != sep {
        lemma_first_sep(s.skip(1), sep);
        assert(forall|j: int| 1 <= j < s.len() ==> s[j] == s.skip(1)[j - 1]);
    }
}

proof fn lemma_first_sep_is(s: Seq<char>, sep: char, at: int)
    requires
        0 <= at <= s.len(),
        forall|j: int| 0 <= j < at ==> s[j] != sep,
        at < s.len() ==> s[at] == sep,
    ensures
        first_sep(s, sep) == at,
{
    lemma_first_sep(s, sep);
}

/// The pieces of `s` between the occurrences of `sep`.
pub fn split(s: &str, sep: char) -> (res: Vec<String>)
    ensures
        res.deep_view() == split_on(s@, sep),
{
    let n: usize = s.unicode_len();
    let mut out: Vec<String> = Vec::new();
    let mut piece = String::new();
    let mut begin: usize = 0;
    let mut i: usize = 0;
    proof {
        assert(out.deep_view() =~= seq![]);
        assert(s@.skip(0) =~= s@);
    }
    while i < n
        invariant
            n == s@.len(),
            begin <= i <= n,
            piece@ == s@.subrange(begin as int, i as int),
            forall|j: int| begin <= j < i ==> s@[j] != sep,
            split_on(s@, sep) == out.deep_view() + split_on(s@.skip(begin as int), sep),
        decreases n - i,
    {
        let c = s.get_char(i);
        if c == sep {
            let ghost rest = s@.skip(begin as int);
            let ghost before = out.deep_view();
            let ghost taken = piece@;
            proof {
                lemma_first_sep_is(rest, sep, i - begin);
                assert(rest.take(i - begin) =~= taken);
                assert(rest.skip(i - begin + 1) =~= s@.skip(i + 1));
                assert(split_on(rest, sep) == seq![taken] + split_on(s@.skip(i + 1), sep));
            }
            out.push(piece);
            piece = String::new();
            begin = i + 1;
            proof {
                assert(out.deep_view() =~= before.push(taken));
                assert(split_on(s@, sep) =~= out.deep_view() + split_on(
                    s@.skip(begin as int),
                    sep,
                ));
                assert(piece@ =~= s@.subrange(begin as int, begin as int));
            }
        } else {
            piece.push(c);
            proof {
                assert(s@.subrange(begin as int, i + 1) =~= s@.subrange(
                    begin as int,
                    i as int,
                ).push(c));
            }
        }
        i = i + 1;
    }
    let ghost rest = s@.skip(begin as int);
    let ghost before = out.deep_view();
    proof {
        lemma_first_sep_is(rest, sep, n - begin);
        assert(rest =~= piece@);
    }
    out.push(piece);
    proof {
        assert(out.deep_view() =~= before.push(rest));
    }
    out
}

/// Whether `s` ends with `suffix`.
pub fn ends_with(s: &str, suffix: &str) -> (res: bool)
    ensures
        res == is_suffix(s@, suffix@),
{
    let n: usize = s.unicode_len();
    let m: usize = suffix.unicode_len();
    if m > n {
        return false;
    }
    let start: usize = n - m;
    let mut i: usize = 0;
    while i < m
        invariant
            n == s@.len(),
            m == suffix@.len(),
            m <= n,
            start == n - m,
            i <= m,
            s@.subrange(start as int, start + i) == suffix@.subrange(0, i as int),
        decreases m - i,
    {
        if s.get_char(start + i) != suffix.get_char(i) {
            proof {
                assert(s@.subrange(start as int, n as int)[i as int] == s@[start + i]);
            }
            return false;
        }
        proof {
            assert(s@.subrange(start as int, start + i + 1) == s@.subrange(
                start as int,
                start + i,
            ).push(s@[start + i]));
            assert(suffix@.subrange(0, i + 1) == suffix@.subrange(0, i as int).push(
                suffix@[i as int],
            ));
        }
        i = i + 1;
    }
    proof {
        assert(suffix@.subrange(0, m as int) == suffix@);
    }
    true
}

/// Whether `s` starts with `prefix`.
pub fn starts_with(s: &str, prefix: &str) -> (res: bool)
    ensures
        res == is_prefix(s@, prefix@),
{
    let n: usize = s.unicode_len();
    let m: usize = prefix.unicode_len();
    if m > n {
        return false;
    }
    let mut i: usize = 0;
    while i < m
        invariant
            n == s@.len(),
            m == prefix@.len(),
            m <= n,
            i <= m,
            s@.subrange(0, i as int) == prefix@.subrange(0, i as int),
        decreases m - i,
    {
        if s.get_char(i) != prefix.get_char(i) {
            proof {
                assert(s@.subrange(0, m as int)[i as int] == s@[i as int]);
            }
            return false;
        }
        proof {
            assert(s@.subrange(0, i + 1) == s@.subrange(0, i as int).push(s@[i as int]));
            assert(prefix@.subrange(0, i + 1) == prefix@.subrange(0, i as int).push(
                prefix@[i as int],
            ));
        }
        i = i + 1;
    }
    proof {
        assert(prefix@.subrange(0, m as int) == prefix@);
    }
    true
}

/// `s` in lower case, as `ascii_lower` defines it.
pub fn to_ascii_lowercase(s: &str) -> (res: String)
    ensures
        res@ == ascii_lower(s@),
{
    let n: usize = s.unicode_len();
    let mut out = String::new();
    let mut i: usize = 0;
    while i < n
        invariant
            n == s@.len(),
            i <= n,
            out@ == ascii_lower(s@.subrange(0, i as int)),
        decreases n - i,
    {
        let c = to_lower_char(s.get_char(i));
        out.push(c);
        proof {
            assert(ascii_lower(s@.subrange(0, i + 1)) =~= ascii_lower(
                s@.subrange(0, i as int),
            ).push(lower_char(s@[i as int])));
        }
        i = i + 1;
    }
    proof {
        assert(s@.subrange(0, n as int) == s@);
    }
    out
}

/// Whether two strings are equal up to the case of ASCII letters.
pub fn eq_ignore_ascii_case(a: &str, b: &str) -> (res: bool)
    ensures
        res == eq_ignore_case(a@, b@),
{
    let n: usize = a.unicode_len();
    if n != b.unicode_len() {
        proof {
            assert(ascii_lower(a@).len() != ascii_lower(b@).len());
        }
        return false;
    }
    let mut i: usize = 0;
    while i < n
        invariant
            n == a@.len(),
            n == b@.len(),
            i <= n,
            forall|j: int| 0 <= j < i ==> lower_char(a@[j]) == lower_char(b@[j]),
        decreases n - i,
    {
        if to_lower_char(a.get_char(i)) != to_lower_char(b.get_char(i)) {
            proof {
                assert(ascii_lower(a@)[i as int] != ascii_lower(b@)[i as int]);
            }
            return false;
        }
        i = i + 1;
    }
    proof {
        assert(ascii_lower(a@) =~= ascii_lower(b@));
    }
    true
}

/// A copy of an optional string.
pub fn clone_opt_string(o: &Option<String>) -> (res: Option<String>)
    ensures
        res == *o,
{
    match o {
        Some(s) => Some(s.clone()),
        None => None,
    }
}

/// A copy of a list of strings.
pub fn clone_strings(v: &Vec<String>) -> (res: Vec<String>)
    ensures
        res@ == v@,
{
    let mut out: Vec<String> = Vec::new();
    let mut i: usize = 0;
    while i < v.len()
        invariant
            i <= v.len(),
            out@ == v@.subrange(0, i as int),
        decreases v.len() - i,
    {
        out.push(v[i].clone());
        proof {
            assert(v@.subrange(0, i + 1) == v@.subrange(0, i as int).push(v@[i as int]));
        }
        i = i + 1;
    }
    proof {
        assert(v@.subrange(0, v.len() as int) == v@);
    }
    out
}

/// A copy of an optional list of strings.
pub fn clone_opt_strings(o: &Option<Vec<String>>) -> (res: Option<Vec<String>>)
    ensures
        res.is_some() == o.is_some(),
        res.is_some() ==> res.unwrap()@ == o.unwrap()@,
{
    match o {
        Some(v) => Some(clone_strings(v)),
        None => None,
    }
}

/// The lower-case form of one character, as `lower_char` defines it.
pub fn to_lower_char(c: char) -> (res: char)
    ensures
        res == lower_char(c),
{
    if 'A' <= c && c <= 'Z' {
        ((c as u8) + 32) as char
    } else {
        c
    }
}

} // verus!
