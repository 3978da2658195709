//! Small verified text utilities shared across the crate: character-level
//! string access, decimal rendering of integers, and decimal/boolean parsing.

use vstd::prelude::*;
use vstd::string::{StrSliceExecFns, StringExecFns};

verus! {

/// Compares two string slices character by character.
pub fn str_eq(a: &str, b: &str) -> (r: bool)
    ensures
        r == (a@ == b@),
{
    let alen = a.unicode_len();
    let blen = b.unicode_len();
    if alen != blen {
        assert(a@.len() != b@.len());
        return false;
    }
    let mut i: usize = 0;
    while i < alen
        invariant
            alen == a@.len(),
            blen == b@.len(),
            alen == blen,
            i <= alen,
            forall|j: int| 0 <= j < i ==> a@[j] == b@[j],
        decreases alen - i,
    {
        if a.get_char(i) != b.get_char(i) {
            return false;
        }
        i += 1;
    }
    assert(a@ =~= b@);
    true
}

/// The characters of a string slice, in order.
pub fn string_chars(s: &str) -> (r: Vec<char>)
    ensures
        r@ == s@,
{
    let len = s.unicode_len();
    let mut r: Vec<char> = Vec::new();
    let mut i: usize = 0;
    while i < len
        invariant
            len == s@.len(),
            i <= len,
            r@ =~= s@.take(i as int),
        decreases len - i,
    {
        r.push(s.get_char(i));
        i += 1;
    }
    assert(r@ =~= s@);
    r
}

/// Relies on `String::from_iter` over `char`: collecting characters yields
/// the string with exactly those characters in order.
#[verifier::external_body]
pub(crate) fn chars_to_string(v: &Vec<char>) -> (r: String)
    ensures
        r@ == v@,
{
    v.iter().collect()
}

/// The decimal digit character for a value below ten.
pub open spec fn spec_digit_char(d: int) -> char {
    if d == 0 {
        '0'
    } else if d == 1 {
        '1'
    } else if d == 2 {
        '2'
    } else if d == 3 {
        '3'
    } else if d == 4 {
        '4'
    } else if d == 5 {
        '5'
    } else if d == 6 {
        '6'
    } else if d == 7 {
        '7'
    } else if d == 8 {
        '8'
    } else {
        '9'
    }
}

/// The decimal rendering of a non-negative integer, most significant digit
/// first, without leading zeros (`0` renders as `"0"`).
pub open spec fn spec_dec_str(n: int) -> Seq<char>
    decreases n,
{
    if n < 10 {
        seq![spec_digit_char(n)]
    } else {
        spec_dec_str(n / 10).push(spec_digit_char(n % 10))
    }
}

/// The decimal rendering of a signed integer: a minus sign followed by the
/// magnitude when negative.
pub open spec fn spec_dec_str_signed(n: int) -> Seq<char> {
    if n < 0 {
        seq!['-'].add(spec_dec_str(-n))
    } else {
        spec_dec_str(n)
    }
}

fn digit_char(d: u64) -> (c: char)
    requires
        d < 10,
    ensures
        c == spec_digit_char(d as int),
{
    match d {
        0 => '0',
        1 => '1',
        2 => '2',
        3 => '3',
        4 => '4',
        5 => '5',
        6 => '6',
        7 => '7',
        8 => '8',
        _ => '9',
    }
}

fn push_dec_digits(n: u64, out: &mut Vec<char>)
    ensures
        final(out)@ == old(out)@ + spec_dec_str(n as int),
    decreases n,
{
    if n >= 10 {
        push_dec_digits(n / 10, out);
    }
    out.push(digit_char(n % 10));
}

/// Renders an unsigned integer in decimal.
pub fn u64_to_string(n: u64) -> (r: String)
    ensures
        r@ == spec_dec_str(n as int),
{
    let mut digits: Vec<char> = Vec::new();
    push_dec_digits(n, &mut digits);
    chars_to_string(&digits)
}

/// Renders a signed integer in decimal, with a leading minus sign when
/// negative.
pub fn i64_to_string(n: i64) -> (r: String)
    ensures
        r@ == spec_dec_str_signed(n as int),
{
    if n >= 0 {
        u64_to_string(n as u64)
    } else {
        // Avoids overflow at the minimum value: -(n + 1) fits in i64.
        let magnitude: u64 = (-(n + 1)) as u64 + 1;
        assert(magnitude == -(n as int));
        let mut digits: Vec<char> = Vec::new();
        digits.push('-');
        push_dec_digits(magnitude, &mut digits);
        chars_to_string(&digits)
    }
}

/// Whether every character of `s` is a decimal digit.
pub open spec fn spec_all_digits(s: Seq<char>) -> bool {
    forall|i: int| 0 <= i < s.len() ==> '0' <= #[trigger] s[i] <= '9'
}

/// The numeric value of a sequence of decimal digits, most significant first.
pub open spec fn spec_dec_value(s: Seq<char>) -> int
    decreases s.len(),
{
    if s.len() == 0 {
        0
    } else {
        spec_dec_value(s.drop_last()) * 10 + (s.last() as int - '0' as int)
    }
}

/// Parses a decimal numeral into a `u16`.
///
/// Returns `Some` exactly when the input is a non-empty, all-digit string
/// whose value fits in a `u16`.
pub fn parse_u16(s: &str) -> (r: Option<u16>)
    ensures
        match r {
            Some(v) => s@.len() > 0 && spec_all_digits(s@) && v as int == spec_dec_value(s@)
                && spec_dec_value(s@) <= u16::MAX as int,
            None => s@.len() == 0 || !spec_all_digits(s@) || spec_dec_value(s@) > u16::MAX as int,
        },
{
    let len = s.unicode_len();
    if len == 0 {
        return None;
    }
    let mut value: u32 = 0;
    let mut i: usize = 0;
    while i < len
        invariant
            len == s@.len(),
            i <= len,
            spec_all_digits(s@.take(i as int)),
            value as int == spec_dec_value(s@.take(i as int)),
            value <= u16::MAX,
        decreases len - i,
    {
        let c = s.get_char(i);
        if c < '0' || c > '9' {
            assert(!spec_all_digits(s@)) by {
                assert(s@[i as int] == c);
            }
            return None;
        }
        let d: u32 = (c as u32) - ('0' as u32);
        assert(d < 10);
        let next: u32 = value * 10 + d;
        assert(s@.take(i + 1 as int).drop_last() =~= s@.take(i as int));
        assert(s@.take(i + 1 as int).last() == s@[i as int]);
        if next > u16::MAX as u32 {
            assert(spec_dec_value(s@.take(i + 1 as int)) > u16::MAX as int);
            proof {
                if spec_all_digits(s@) {
                    lemma_dec_value_monotonic(s@, i + 1 as int);
                }
            }
            return None;
        }
        value = next;
        i += 1;
        assert(spec_all_digits(s@.take(i as int)));
    }
    assert(s@.take(len as int) =~= s@);
    Some(value as u16)
}

/// A digit string's value never decreases when digits are appended.
proof fn lemma_dec_value_monotonic(s: Seq<char>, k: int)
    requires
        0 <= k <= s.len(),
        spec_all_digits(s),
        spec_dec_value(s.take(k)) > u16::MAX as int,
    ensures
        spec_dec_value(s) > u16::MAX as int,
    decreases s.len() - k,
{
    if k < s.len() {
        assert(s.take(k + 1).drop_last() =~= s.take(k));
        assert(s.take(k + 1).last() == s[k]);
        assert('0' <= s[k] <= '9');
        assert(spec_dec_value(s.take(k + 1)) == spec_dec_value(s.take(k)) * 10 + (s[k] as int
            - '0' as int));
        assert(spec_dec_value(s.take(k + 1)) > u16::MAX as int);
        lemma_dec_value_monotonic(s, k + 1);
    } else {
        assert(s.take(k) =~= s);
    }
}

/// Compares a character vector against a string slice.
pub fn chars_eq_str(t: &Vec<char>, lit: &str) -> (r: bool)
    ensures
        r == (t@ == lit@),
{
    let len = lit.unicode_len();
    if t.len() != len {
        assert(t@.len() != lit@.len());
        return false;
    }
    let mut i: usize = 0;
    while i < len
        invariant
            len == lit@.len(),
            t@.len() == len,
            i <= len,
            forall|j: int| 0 <= j < i ==> t@[j] == lit@[j],
        decreases len - i,
    {
        if t[i] != lit.get_char(i) {
            return false;
        }
        i += 1;
    }
    assert(t@ =~= lit@);
    true
}

/// ASCII whitespace, as used by token splitting.
pub open spec fn spec_is_space(c: char) -> bool {
    c == ' ' || c == '\t' || c == '\n' || c == '\r'
}

/// The separator predicate used when splitting: whitespace alone, or
/// whitespace and commas.
pub open spec fn spec_sep_pred(with_commas: bool) -> spec_fn(char) -> bool {
    if with_commas {
        |c: char| spec_is_space(c) || c == ','
    } else {
        |c: char| spec_is_space(c)
    }
}

/// The index of the first separator character of `s`, or `s.len()` when
/// there is none.
pub open spec fn spec_first_sep(s: Seq<char>, sep: spec_fn(char) -> bool) -> int
    decreases s.len(),
{
    if s.len() == 0 {
        0
    } else if sep(s[0]) {
        0
    } else {
        1 + spec_first_sep(s.drop_first(), sep)
    }
}

proof fn lemma_first_sep_bounds(s: Seq<char>, sep: spec_fn(char) -> bool)
    ensures
        0 <= spec_first_sep(s, sep) <= s.len(),
        forall|j: int| 0 <= j < spec_first_sep(s, sep) ==> !sep(#[trigger] s[j]),
        spec_first_sep(s, sep) < s.len() ==> sep(s[spec_first_sep(s, sep)]),
    decreases s.len(),
{
    if s.len() > 0 && !sep(s[0]) {
        lemma_first_sep_bounds(s.drop_first(), sep);
        assert forall|j: int| 0 <= j < spec_first_sep(s, sep) implies !sep(#[trigger] s[j]) by {
            if j > 0 {
                assert(s.drop_first()[j - 1] == s[j]);
            }
        }
        if spec_first_sep(s, sep) < s.len() {
            assert(s.drop_first()[spec_first_sep(s.drop_first(), sep)] == s[spec_first_sep(
                s,
                sep,
            )]);
        }
    }
}

/// The maximal non-empty separator-free tokens of `s`, in order.
pub open spec fn spec_tokens(s: Seq<char>, sep: spec_fn(char) -> bool) -> Seq<Seq<char>>
    decreases s.len(),
    via spec_tokens_decreases
{
    if s.len() == 0 {
        Seq::empty()
    } else if sep(s[0]) {
        spec_tokens(s.drop_first(), sep)
    } else {
        seq![s.take(spec_first_sep(s, sep))] + spec_tokens(s.skip(spec_first_sep(s, sep)), sep)
    }
}

#[via_fn]
proof fn spec_tokens_decreases(s: Seq<char>, sep: spec_fn(char) -> bool) {
    if s.len() > 0 && !sep(s[0]) {
        lemma_first_sep_bounds(s.drop_first(), sep);
        assert(spec_first_sep(s, sep) >= 1);
    }
}

/// Splits `v` into its maximal non-empty tokens, at whitespace alone or at
/// whitespace and commas.
pub fn tokenize(v: &Vec<char>, with_commas: bool) -> (r: Vec<Vec<char>>)
    ensures
        r@.map_values(|t: Vec<char>| t@) == spec_tokens(v@, spec_sep_pred(with_commas)),
{
    let r = tokenize_from(v, 0, with_commas);
    assert(v@.skip(0) =~= v@);
    r
}

fn is_sep_char(c: char, with_commas: bool) -> (r: bool)
    ensures
        r == spec_sep_pred(with_commas)(c),
{
    c == ' ' || c == '\t' || c == '\n' || c == '\r' || (with_commas && c == ',')
}

fn tokenize_from(v: &Vec<char>, from: usize, with_commas: bool) -> (r: Vec<Vec<char>>)
    requires
        from <= v@.len(),
    ensures
        r@.map_values(|t: Vec<char>| t@) == spec_tokens(v@.skip(from as int), spec_sep_pred(
            with_commas,
        )),
    decreases v@.len() - from,
{
    let ghost sep = spec_sep_pred(with_commas);
    if from >= v.len() {
        let r: Vec<Vec<char>> = Vec::new();
        assert(r@.map_values(|t: Vec<char>| t@) =~= spec_tokens(v@.skip(from as int), sep));
        return r;
    }
    if is_sep_char(v[from], with_commas) {
        assert(v@.skip(from as int).drop_first() =~= v@.skip(from + 1 as int));
        return tokenize_from(v, from + 1, with_commas);
    }
    // Scan to the end of the current token.
    let mut end: usize = from;
    while end < v.len() && !is_sep_char(v[end], with_commas)
        invariant
            from <= end <= v@.len(),
            forall|j: int| from <= j < end ==> !sep(#[trigger] v@[j]),
            sep == spec_sep_pred(with_commas),
        decreases v@.len() - end,
    {
        end += 1;
    }
    proof {
        lemma_first_sep_at(v@.skip(from as int), sep, end - from);
    }
    let mut tok: Vec<char> = Vec::new();
    let mut j: usize = from;
    while j < end
        invariant
            from <= j <= end <= v@.len(),
            tok@ =~= v@.subrange(from as int, j as int),
        decreases end - j,
    {
        tok.push(v[j]);
        j += 1;
    }
    assert(tok@ =~= v@.skip(from as int).take(end - from as int));
    let mut rest = tokenize_from(v, end, with_commas);
    rest.insert(0, tok);
    assert(v@.skip(from as int).skip(end - from as int) =~= v@.skip(end as int));
    assert(rest@.map_values(|t: Vec<char>| t@) =~= spec_tokens(v@.skip(from as int), sep));
    rest
}

/// Pins down `spec_first_sep` from a scan: if no separator occurs before
/// `k` and `k` is the end or a separator, the first separator index is `k`.
proof fn lemma_first_sep_at(s: Seq<char>, sep: spec_fn(char) -> bool, k: int)
    requires
        0 <= k <= s.len(),
        forall|j: int| 0 <= j < k ==> !sep(#[trigger] s[j]),
        k < s.len() ==> sep(s[k]),
    ensures
        spec_first_sep(s, sep) == k,
    decreases s.len(),
{
    if s.len() > 0 && k > 0 {
        assert(!sep(s[0]));
        assert forall|j: int| 0 <= j < k - 1 implies !sep(#[trigger] s.drop_first()[j]) by {
            assert(s.drop_first()[j] == s[j + 1]);
        }
        if k - 1 < s.drop_first().len() {
            assert(s.drop_first()[k - 1] == s[k]);
        }
        lemma_first_sep_at(s.drop_first(), sep, k - 1);
    }
}

/// Copies a vector of strings element by element.
pub fn clone_strings(v: &Vec<String>) -> (r: Vec<String>)
    ensures
        r@.map_values(|s: String| s@) == v@.map_values(|s: String| s@),
{
    let mut r: Vec<String> = Vec::new();
    let mut i: usize = 0;
    while i < v.len()
        invariant
            i <= v@.len(),
            r@.len() == i,
            forall|j: int| 0 <= j < i ==> #[trigger] r@[j]@ == v@[j]@,
        decreases v@.len() - i,
    {
        r.push(v[i].clone());
        i += 1;
    }
    assert(r@.map_values(|s: String| s@) =~= v@.map_values(|s: String| s@));
    r
}

/// The space-joined concatenation of a list of strings; empty for an
/// empty list.
pub open spec fn spec_join_spaces(ss: Seq<Seq<char>>) -> Seq<char>
    decreases ss.len(),
{
    if ss.len() == 0 {
        Seq::empty()
    } else if ss.len() == 1 {
        ss[0]
    } else {
        ss[0] + seq![' '] + spec_join_spaces(ss.drop_first())
    }
}

/// Joins strings with single spaces.
pub fn join_spaces(items: &Vec<String>) -> (r: String)
    ensures
        r@ == spec_join_spaces(items@.map_values(|s: String| s@)),
{
    let ghost ss = items@.map_values(|s: String| s@);
    let mut out = String::new();
    let mut i: usize = 0;
    proof {
        assert(ss.skip(0) =~= ss);
        assert(out@ + spec_join_spaces(ss) =~= spec_join_spaces(ss));
    }
    while i < items.len()
        invariant
            i <= items@.len(),
            ss == items@.map_values(|s: String| s@),
            spec_join_spaces(ss) == out@ + spec_join_spaces(ss.skip(i as int)),
        decreases items@.len() - i,
    {
        proof {
            assert(ss.skip(i as int)[0] == ss[i as int]);
            assert(ss[i as int] == items@[i as int]@);
        }
        out.append(items[i].as_str());
        if i + 1 < items.len() {
            out.append(" ");
            proof {
                reveal_strlit(" ");
                assert(" "@ =~= seq![' ']);
            }
        }
        i += 1;
        proof {
            assert(ss.skip(i - 1 as int).drop_first() =~= ss.skip(i as int));
        }
    }
    assert(ss.skip(i as int) =~= Seq::<Seq<char>>::empty());
    assert(out@ + Seq::<char>::empty() =~= out@);
    out
}

/// Parses the literal strings `"true"` and `"false"`.
pub fn parse_bool(s: &str) -> (r: Option<bool>)
    ensures
        r == Some(true) <==> s@ == "true"@,
        r == Some(false) <==> s@ == "false"@,
        r is None <==> (s@ != "true"@ && s@ != "false"@),
{
    proof {
        reveal_strlit("true");
        reveal_strlit("false");
        assert("true"@.len() == 4);
        assert("false"@.len() == 5);
        assert("true"@ != "false"@);
    }
    if str_eq(s, "true") {
        Some(true)
    } else if str_eq(s, "false") {
        Some(false)
    } else {
        None
    }
}

} // verus!
