//! Character-level helpers: decimal rendering and parsing of `u64` values,
//! conversion between strings and character vectors, and searching.
//!
//! Session tokens are built and taken apart at the character level, so the
//! whole token grammar rests on the exact specifications here.

use vstd::prelude::*;
use vstd::string::StrSliceExecFns;

verus! {

/// Whether `c` is a decimal digit.
pub open spec fn spec_is_digit(c: char) -> bool {
    c == '0' || c == '1' || c == '2' || c == '3' || c == '4' || c == '5' || c == '6' || c == '7'
        || c == '8' || c == '9'
}

/// The value of a decimal digit character.
pub open spec fn spec_digit_val(c: char) -> u64 {
    if c == '0' {
        0
    } else if c == '1' {
        1
    } else if c == '2' {
        2
    } else if c == '3' {
        3
    } else if c == '4' {
        4
    } else if c == '5' {
        5
    } else if c == '6' {
        6
    } else if c == '7' {
        7
    } else if c == '8' {
        8
    } else {
        9
    }
}

/// The character of a decimal digit value below ten.
pub open spec fn spec_digit_char(d: u64) -> char {
    if d == 0 {
        '0'
    } else if d == 1 {
        '1'
    } else if d == 2 {
        '2'
    } else if d == 3 {
        '3'
    } else if d == 4 {
        '4'
    } else if d == 5 {
        '5'
    } else if d == 6 {
        '6'
    } else if d == 7 {
        '7'
    } else if d == 8 {
        '8'
    } else {
        '9'
    }
}

fn digit_char(d: u64) -> (c: char)
    requires
        d < 10,
    ensures
        c == spec_digit_char(d),
{
    if d == 0 {
        '0'
    } else if d == 1 {
        '1'
    } else if d == 2 {
        '2'
    } else if d == 3 {
        '3'
    } else if d == 4 {
        '4'
    } else if d == 5 {
        '5'
    } else if d == 6 {
        '6'
    } else if d == 7 {
        '7'
    } else if d == 8 {
        '8'
    } else {
        '9'
    }
}

fn digit_val(c: char) -> (r: Option<u64>)
    ensures
        r is Some <==> spec_is_digit(c),
        r matches Some(d) ==> d == spec_digit_val(c) && d < 10,
{
    if c == '0' {
        Some(0)
    } else if c == '1' {
        Some(1)
    } else if c == '2' {
        Some(2)
    } else if c == '3' {
        Some(3)
    } else if c == '4' {
        Some(4)
    } else if c == '5' {
        Some(5)
    } else if c == '6' {
        Some(6)
    } else if c == '7' {
        Some(7)
    } else if c == '8' {
        Some(8)
    } else if c == '9' {
        Some(9)
    } else {
        None
    }
}

/// The decimal rendering of `n`, most significant digit first, no leading
/// zeros (a single `'0'` for zero).
pub open spec fn spec_dec(n: u64) -> Seq<char>
    decreases n,
{
    if n < 10 {
        seq![spec_digit_char(n)]
    } else {
        spec_dec(n / 10) + seq![spec_digit_char(n % 10)]
    }
}

/// The `u64` value of a non-empty all-digit string, read most significant
/// digit first; `None` on an empty string, a non-digit, or overflow.
pub open spec fn spec_parse_dec(s: Seq<char>) -> Option<u64>
    decreases s.len(),
{
    if s.len() == 0 {
        None
    } else {
        let c = s[s.len() - 1];
        if !spec_is_digit(c) {
            None
        } else if s.len() == 1 {
            Some(spec_digit_val(c))
        } else {
            match spec_parse_dec(s.drop_last()) {
                Option::None => None,
                Option::Some(v) => if v * 10 + spec_digit_val(c) > u64::MAX {
                    None
                } else {
                    Some((v * 10 + spec_digit_val(c)) as u64)
                },
            }
        }
    }
}

/// Every character of a decimal rendering is a digit.
pub proof fn lemma_dec_digits(n: u64)
    ensures
        spec_dec(n).len() >= 1,
        forall|i: int| 0 <= i < spec_dec(n).len() ==> spec_is_digit(#[trigger] spec_dec(n)[i]),
    decreases n,
{
    if n >= 10 {
        lemma_dec_digits(n / 10);
    }
}

/// Rendering then parsing gives the value back.
pub proof fn lemma_dec_roundtrip(n: u64)
    ensures
        spec_parse_dec(spec_dec(n)) == Some(n),
    decreases n,
{
    if n < 10 {
        assert(spec_dec(n) =~= seq![spec_digit_char(n)]);
    } else {
        lemma_dec_roundtrip(n / 10);
        lemma_dec_digits(n / 10);
        let s = spec_dec(n);
        assert(s.drop_last() =~= spec_dec(n / 10));
        assert(s[s.len() - 1] == spec_digit_char(n % 10));
        assert(n / 10 * 10 + n % 10 == n) by (nonlinear_arith);
        assert(spec_digit_val(spec_digit_char(n % 10)) == n % 10);
    }
}

/// Appends the decimal rendering of `n` to `out`.
pub fn push_dec(n: u64, out: &mut Vec<char>)
    ensures
        final(out)@ == old(out)@ + spec_dec(n),
    decreases n,
{
    if n < 10 {
        out.push(digit_char(n));
        assert(out@ =~= old(out)@ + spec_dec(n));
    } else {
        assert(n / 10 < n) by (nonlinear_arith)
            requires
                n >= 10,
        ;
        push_dec(n / 10, out);
        out.push(digit_char(n % 10));
        assert(out@ =~= old(out)@ + spec_dec(n));
    }
}

/// Parses the character range `[from, to)` of `v` as a decimal number.
pub fn parse_dec_range(v: &Vec<char>, from: usize, to: usize) -> (r: Option<u64>)
    requires
        from <= to <= v@.len(),
    ensures
        r == spec_parse_dec(v@.subrange(from as int, to as int)),
{
    if from == to {
        assert(v@.subrange(from as int, to as int).len() == 0);
        return None;
    }
    let first = match digit_val(v[from]) {
        Option::Some(d) => d,
        Option::None => {
            proof {
                lemma_parse_dec_bad_digit(v@.subrange(from as int, to as int), 0);
            }
            return None;
        },
    };
    let mut acc: u64 = first;
    let mut i: usize = from + 1;
    assert(v@.subrange(from as int, from + 1 as int) =~= seq![v@[from as int]]);
    while i < to
        invariant
            from < i <= to <= v@.len(),
            spec_parse_dec(v@.subrange(from as int, i as int)) == Some(acc),
        decreases to - i,
    {
        let ghost sub = v@.subrange(from as int, i + 1 as int);
        proof {
            assert(sub.drop_last() =~= v@.subrange(from as int, i as int));
            assert(sub[sub.len() - 1] == v@[i as int]);
        }
        let d = match digit_val(v[i]) {
            Option::Some(d) => d,
            Option::None => {
                proof {
                    assert(v@.subrange(from as int, to as int).subrange(0, i + 1 - from)
                        =~= v@.subrange(from as int, i + 1 as int));
                    lemma_parse_dec_bad_prefix(v@.subrange(from as int, to as int), i - from);
                }
                return None;
            },
        };
        if acc > (u64::MAX - d) / 10 {
            proof {
                assert(acc * 10 + d > u64::MAX) by (nonlinear_arith)
                    requires
                        acc > (u64::MAX - d) / 10,
                        d < 10,
                ;
                assert(v@.subrange(from as int, to as int).subrange(0, i + 1 - from)
                    =~= v@.subrange(from as int, i + 1 as int));
                lemma_parse_dec_bad_prefix(v@.subrange(from as int, to as int), i - from);
            }
            return None;
        }
        proof {
            assert(acc * 10 + d <= u64::MAX) by (nonlinear_arith)
                requires
                    acc <= (u64::MAX - d) / 10,
                    d < 10,
            ;
        }
        acc = acc * 10 + d;
        i = i + 1;
    }
    assert(v@.subrange(from as int, to as int) =~= v@.subrange(from as int, i as int));
    Some(acc)
}

/// If some prefix of `s` already fails to parse, the whole string fails.
proof fn lemma_parse_dec_bad_prefix(s: Seq<char>, k: int)
    requires
        0 < k < s.len(),
        spec_parse_dec(s.subrange(0, k + 1)) is None,
    ensures
        spec_parse_dec(s) is None,
    decreases s.len(),
{
    if k + 1 == s.len() {
        assert(s.subrange(0, k + 1) =~= s);
    } else {
        assert(s.drop_last() =~= s.subrange(0, s.len() - 1));
        assert(s.subrange(0, s.len() - 1).subrange(0, k + 1) =~= s.subrange(0, k + 1));
        lemma_parse_dec_bad_prefix(s.subrange(0, s.len() - 1), k);
    }
}

/// A non-digit anywhere makes the parse fail.
proof fn lemma_parse_dec_bad_digit(s: Seq<char>, k: int)
    requires
        0 <= k < s.len(),
        !spec_is_digit(s[k]),
    ensures
        spec_parse_dec(s) is None,
    decreases s.len(),
{
    if k == s.len() - 1 {
    } else {
        assert(s.drop_last() =~= s.subrange(0, s.len() - 1));
        lemma_parse_dec_bad_digit(s.subrange(0, s.len() - 1), k);
    }
}

/// The characters of `s`, in order.
pub fn chars_of(s: &str) -> (r: Vec<char>)
    ensures
        r@ == s@,
{
    let n = s.unicode_len();
    let mut out: Vec<char> = Vec::new();
    let mut i: usize = 0;
    while i < n
        invariant
            i <= n,
            n == s@.len(),
            out@ == s@.subrange(0, i as int),
        decreases n - i,
    {
        out.push(s.get_char(i));
        assert(out@ =~= s@.subrange(0, i + 1 as int));
        i = i + 1;
    }
    assert(out@ =~= s@);
    out
}

/// Relies on `core::iter::Iterator::collect` for `String`: collecting
/// characters builds the string of exactly those characters.
#[verifier::external_body]
pub fn string_from_chars(v: &Vec<char>) -> (r: String)
    ensures
        r@ == v@,
{
    v.iter().collect()
}

/// The position of the first `c` at or after `from` in `s`.
pub open spec fn spec_find(s: Seq<char>, c: char, from: nat) -> Option<int>
    decreases s.len() - from,
{
    if from >= s.len() {
        None
    } else if s[from as int] == c {
        Some(from as int)
    } else {
        spec_find(s, c, from + 1)
    }
}

/// What a successful or failed find means, position by position.
pub proof fn lemma_find_spec(s: Seq<char>, c: char, from: nat)
    requires
        from <= s.len(),
    ensures
        spec_find(s, c, from) matches Some(j) ==> from <= j < s.len() && s[j] == c && (forall|k:
            int|
            from <= k < j ==> s[k] != c),
        spec_find(s, c, from) is None ==> forall|k: int| from <= k < s.len() ==> s[k] != c,
    decreases s.len() - from,
{
    if from < s.len() && s[from as int] != c {
        lemma_find_spec(s, c, from + 1);
    }
}

/// Finds the first `c` at or after `from`.
pub fn find_char(v: &Vec<char>, c: char, from: usize) -> (r: Option<usize>)
    requires
        from <= v@.len(),
    ensures
        match r {
            Option::Some(j) => spec_find(v@, c, from as nat) == Some(j as int),
            Option::None => spec_find(v@, c, from as nat) is None,
        },
{
    let mut i: usize = from;
    while i < v.len()
        invariant
            from <= i <= v@.len(),
            spec_find(v@, c, from as nat) == spec_find(v@, c, i as nat),
        decreases v@.len() - i,
    {
        if v[i] == c {
            return Some(i);
        }
        i = i + 1;
    }
    None
}

} // verus!
