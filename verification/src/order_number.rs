//! Order-number generation: `EXP-<year>-<seq>` with the sequence part
//! zero-padded to three digits.
//!
//! The next number is derived from the most recently issued one: its
//! trailing numeric segment (after the last dash) is parsed and
//! incremented. Only the absence of any prior order, or an unparsable
//! trailing segment, resets the sequence to one — a prior-year number is
//! deliberately continued, never reset.

use vstd::prelude::*;

verus! {

/// The digit character for a value in zero to nine.
pub open spec fn spec_digit_char(d: int) -> char {
    ((48 + d) as u32) as char
}

/// The numeric value of a digit character, `-1` for any other character.
pub open spec fn spec_digit_val(c: char) -> int {
    if 48 <= c as u32 <= 57 {
        c as u32 - 48
    } else {
        -1
    }
}

/// Whether a character is a decimal digit.
pub open spec fn spec_is_digit(c: char) -> bool {
    spec_digit_val(c) >= 0
}

/// Whether every character of the sequence is a decimal digit.
pub open spec fn spec_all_digits(s: Seq<char>) -> bool {
    forall|i: int| 0 <= i < s.len() ==> spec_is_digit(#[trigger] s[i])
}

/// The decimal representation of a number, without leading zeros
/// (a lone zero for zero).
pub open spec fn spec_dec_rep(n: nat) -> Seq<char>
    decreases n,
{
    if n < 10 {
        seq![spec_digit_char(n as int)]
    } else {
        spec_dec_rep(n / 10).push(spec_digit_char((n % 10) as int))
    }
}

/// The numeric value of a digit string (most significant digit first).
pub open spec fn spec_dec_value(s: Seq<char>) -> int
    decreases s.len(),
{
    if s.len() == 0 {
        0
    } else {
        spec_dec_value(s.drop_last()) * 10 + spec_digit_val(s.last())
    }
}

/// The segment of a string after its last dash; the whole string when it
/// has no dash.
pub open spec fn spec_suffix_after_dash(s: Seq<char>) -> Seq<char>
    decreases s.len(),
{
    if s.len() == 0 {
        s
    } else if s.last() == '-' {
        Seq::empty()
    } else {
        spec_suffix_after_dash(s.drop_last()).push(s.last())
    }
}

/// How an order number's trailing segment parses: the digits after the
/// last dash, accepted exactly when they are non-empty, all decimal, and
/// their value fits a 32-bit signed integer.
pub open spec fn spec_parse_sequence(s: Seq<char>) -> Option<u32> {
    let t = spec_suffix_after_dash(s);
    if t.len() == 0 || !spec_all_digits(t) {
        None
    } else if spec_dec_value(t) > i32::MAX {
        None
    } else {
        Some(spec_dec_value(t) as u32)
    }
}

/// A digit string padded with leading zeros to at least three characters.
pub open spec fn spec_zero_pad3(s: Seq<char>) -> Seq<char> {
    if s.len() >= 3 {
        s
    } else if s.len() == 2 {
        seq!['0'] + s
    } else if s.len() == 1 {
        seq!['0', '0'] + s
    } else {
        seq!['0', '0', '0']
    }
}

/// The characters of a (possibly negative) year.
pub open spec fn spec_year_chars(y: int) -> Seq<char> {
    if y >= 0 {
        spec_dec_rep(y as nat)
    } else {
        seq!['-'] + spec_dec_rep((-y) as nat)
    }
}

/// The characters of a full order number: `EXP-<year>-<seq>` with the
/// sequence zero-padded to three digits.
pub open spec fn spec_order_number_chars(year: int, seq_num: nat) -> Seq<char> {
    "EXP-"@ + spec_year_chars(year) + seq!['-'] + spec_zero_pad3(spec_dec_rep(seq_num))
}

/// The number issued after a given latest order number: its trailing
/// sequence incremented by one, or a fresh sequence of one when there is
/// no prior number or its trailing segment does not parse. The year part
/// is always the current year.
pub open spec fn spec_next_order_number(latest: Option<Seq<char>>, year: int) -> Seq<char> {
    match latest {
        None => spec_order_number_chars(year, 1),
        Some(s) => match spec_parse_sequence(s) {
            None => spec_order_number_chars(year, 1),
            Some(k) => spec_order_number_chars(year, k as nat + 1),
        },
    }
}

/// The view of an optional string slice.
pub open spec fn spec_opt_chars(o: Option<&str>) -> Option<Seq<char>> {
    match o {
        Some(s) => Some(s@),
        None => None,
    }
}

/// The single-character string for a digit value.
fn digit_to_str(d: u8) -> (r: &'static str)
    requires
        d < 10,
    ensures
        r@ == seq![spec_digit_char(d as int)],
{
    let r: &'static str = match d {
        0 => "0",
        1 => "1",
        2 => "2",
        3 => "3",
        4 => "4",
        5 => "5",
        6 => "6",
        7 => "7",
        8 => "8",
        _ => "9",
    };
    proof {
        reveal_strlit("0");
        reveal_strlit("1");
        reveal_strlit("2");
        reveal_strlit("3");
        reveal_strlit("4");
        reveal_strlit("5");
        reveal_strlit("6");
        reveal_strlit("7");
        reveal_strlit("8");
        reveal_strlit("9");
        assert(r@ =~= seq![spec_digit_char(d as int)]);
    }
    r
}

/// Formats a number in decimal, matching `spec_dec_rep`.
pub fn format_u32_decimal(n: u32) -> (s: String)
    ensures
        s@ == spec_dec_rep(n as nat),
    decreases n,
{
    if n < 10 {
        let s: String = String::from_str(digit_to_str(n as u8));
        s
    } else {
        let mut s = format_u32_decimal(n / 10);
        let last = digit_to_str((n % 10) as u8);
        proof {
            assert(spec_dec_rep((n / 10) as nat).push(spec_digit_char((n % 10) as int)) =~=
                spec_dec_rep((n / 10) as nat) + seq![spec_digit_char((n % 10) as int)]);
        }
        s.append(last);
        s
    }
}

/// Every character of a decimal representation is a digit, and there is
/// at least one.
pub proof fn lemma_dec_rep_digits(n: nat)
    ensures
        spec_dec_rep(n).len() >= 1,
        spec_all_digits(spec_dec_rep(n)),
    decreases n,
{
    if n < 10 {
        assert(spec_digit_val(spec_digit_char(n as int)) == n);
    } else {
        lemma_dec_rep_digits(n / 10);
        assert(spec_digit_val(spec_digit_char((n % 10) as int)) == n % 10);
        let s = spec_dec_rep(n);
        let p = spec_dec_rep(n / 10);
        assert forall|i: int| 0 <= i < s.len() implies spec_is_digit(#[trigger] s[i]) by {
            if i < p.len() {
                assert(s[i] == p[i]);
            }
        }
    }
}

/// The decimal representation evaluates back to its number.
pub proof fn lemma_dec_rep_value(n: nat)
    ensures
        spec_dec_value(spec_dec_rep(n)) == n,
    decreases n,
{
    if n < 10 {
        assert(spec_digit_val(spec_digit_char(n as int)) == n);
        assert(spec_dec_rep(n).drop_last() =~= Seq::<char>::empty());
        assert(spec_dec_value(Seq::<char>::empty()) == 0);
        assert(spec_dec_value(spec_dec_rep(n)) == spec_dec_value(Seq::<char>::empty()) * 10
            + spec_digit_val(spec_dec_rep(n).last()));
    } else {
        lemma_dec_rep_value(n / 10);
        lemma_dec_rep_digits(n / 10);
        let s = spec_dec_rep(n);
        assert(s.drop_last() =~= spec_dec_rep(n / 10));
        assert(s.last() == spec_digit_char((n % 10) as int));
        assert(spec_digit_val(spec_digit_char((n % 10) as int)) == n % 10);
        assert(spec_dec_value(s) == spec_dec_value(s.drop_last()) * 10 + spec_digit_val(s.last()));
        assert(n / 10 * 10 + n % 10 == n);
    }
}

/// Leading zeros do not change a digit string's value.
pub proof fn lemma_zero_prefix_value(z: Seq<char>, s: Seq<char>)
    requires
        forall|i: int| 0 <= i < z.len() ==> #[trigger] z[i] == '0',
    ensures
        spec_dec_value(z + s) == spec_dec_value(s),
    decreases s.len(),
{
    if s.len() == 0 {
        lemma_all_zeros_value(z);
        assert(z + s =~= z);
    } else {
        lemma_zero_prefix_value(z, s.drop_last());
        assert((z + s).drop_last() =~= z + s.drop_last());
        assert((z + s).last() == s.last());
    }
}

/// A string of zeros has value zero.
proof fn lemma_all_zeros_value(z: Seq<char>)
    requires
        forall|i: int| 0 <= i < z.len() ==> #[trigger] z[i] == '0',
    ensures
        spec_dec_value(z) == 0,
    decreases z.len(),
{
    if z.len() > 0 {
        lemma_all_zeros_value(z.drop_last());
        assert(spec_digit_val(z.last()) == 0);
    }
}

/// Padding preserves both digitness and value.
pub proof fn lemma_zero_pad3_keeps(s: Seq<char>)
    requires
        spec_all_digits(s),
        s.len() >= 1,
    ensures
        spec_all_digits(spec_zero_pad3(s)),
        spec_zero_pad3(s).len() >= 3,
        spec_dec_value(spec_zero_pad3(s)) == spec_dec_value(s),
{
    let p = spec_zero_pad3(s);
    assert(spec_digit_val('0') == 0);
    if s.len() == 2 {
        lemma_zero_prefix_value(seq!['0'], s);
        assert forall|i: int| 0 <= i < p.len() implies spec_is_digit(#[trigger] p[i]) by {
            if i >= 1 {
                assert(p[i] == s[i - 1]);
            }
        }
    } else if s.len() == 1 {
        lemma_zero_prefix_value(seq!['0', '0'], s);
        assert forall|i: int| 0 <= i < p.len() implies spec_is_digit(#[trigger] p[i]) by {
            if i >= 2 {
                assert(p[i] == s[i - 2]);
            }
        }
    }
}

/// The suffix after the last dash of `a + ['-'] + t` is `t` itself, for a
/// dash-free `t`.
pub proof fn lemma_suffix_after_dash_concat(a: Seq<char>, t: Seq<char>)
    requires
        forall|i: int| 0 <= i < t.len() ==> #[trigger] t[i] != '-',
    ensures
        spec_suffix_after_dash(a + seq!['-'] + t) == t,
    decreases t.len(),
{
    let s = a + seq!['-'] + t;
    if t.len() == 0 {
        assert(s.last() == '-');
        assert(spec_suffix_after_dash(s) =~= t);
    } else {
        lemma_suffix_after_dash_concat(a, t.drop_last());
        assert(s.last() == t.last());
        assert(s.last() != '-');
        assert(s.drop_last() =~= a + seq!['-'] + t.drop_last());
        assert(spec_suffix_after_dash(s) =~= t);
    }
}

/// When no dash occurs at or after position `k`, and `k` is the string's
/// start or preceded by a dash, the suffix after the last dash is the
/// string from `k` on.
pub proof fn lemma_suffix_after_dash_skip(s: Seq<char>, k: int)
    requires
        0 <= k <= s.len(),
        k == 0 || s[k - 1] == '-',
        forall|j: int| k <= j < s.len() ==> #[trigger] s[j] != '-',
    ensures
        spec_suffix_after_dash(s) == s.skip(k),
    decreases s.len() - k,
{
    if k == 0 {
        if s.len() == 0 {
            assert(spec_suffix_after_dash(s) =~= s.skip(0));
        } else {
            assert(s.last() != '-');
            lemma_suffix_after_dash_skip(s.drop_last(), 0);
            assert(s.drop_last().skip(0) =~= s.drop_last());
            assert(spec_suffix_after_dash(s) =~= s.skip(0));
        }
    } else {
        let a = s.take(k - 1);
        let t = s.skip(k);
        assert(s =~= a + seq!['-'] + t);
        lemma_suffix_after_dash_concat(a, t);
    }
}

/// Digit strings have non-negative values.
pub proof fn lemma_dec_value_nonneg(s: Seq<char>)
    requires
        spec_all_digits(s),
    ensures
        spec_dec_value(s) >= 0,
    decreases s.len(),
{
    if s.len() > 0 {
        assert(forall|i: int|
            0 <= i < s.drop_last().len() ==> spec_is_digit(#[trigger] s.drop_last()[i]));
        lemma_dec_value_nonneg(s.drop_last());
        assert(spec_digit_val(s.last()) >= 0);
    }
}

/// A digit string is worth at least any of its prefixes.
pub proof fn lemma_dec_value_take_monotone(s: Seq<char>, k: int)
    requires
        spec_all_digits(s),
        0 <= k <= s.len(),
    ensures
        spec_dec_value(s) >= spec_dec_value(s.take(k)),
    decreases s.len() - k,
{
    if k < s.len() {
        lemma_dec_value_take_monotone(s, k + 1);
        assert(s.take(k + 1).drop_last() =~= s.take(k));
        assert(forall|i: int| 0 <= i < s.take(k).len() ==> spec_is_digit(#[trigger] s.take(k)[i]));
        lemma_dec_value_nonneg(s.take(k));
        assert(spec_digit_val(s.take(k + 1).last()) >= 0);
        assert(spec_dec_value(s.take(k + 1)) == spec_dec_value(s.take(k)) * 10 + spec_digit_val(
            s[k],
        ));
    } else {
        assert(s.take(k) =~= s);
    }
}

/// Parses the trailing numeric segment of an order number: the characters
/// after the last dash, accepted exactly when non-empty, all digits, and
/// within 32-bit signed range.
pub fn parse_trailing_sequence(s: &str) -> (r: Option<u32>)
    ensures
        r == spec_parse_sequence(s@),
        r matches Some(k) ==> k <= i32::MAX as u32,
{
    let n = s.unicode_len();
    let mut start: usize = 0;
    let mut j: usize = 0;
    while j < n
        invariant
            0 <= j <= n,
            n == s@.len(),
            0 <= start <= j,
            start == 0 || s@[start as int - 1] == '-',
            forall|k: int| start as int <= k < j as int ==> s@[k] != '-',
        decreases n - j,
    {
        let c = s.get_char(j);
        if c == '-' {
            start = j + 1;
        }
        j = j + 1;
    }
    proof {
        lemma_suffix_after_dash_skip(s@, start as int);
    }
    let ghost t = s@.skip(start as int);
    if start == n {
        proof {
            assert(t.len() == 0);
        }
        return None;
    }
    let mut acc: u64 = 0;
    let mut i: usize = start;
    while i < n
        invariant
            start <= i <= n,
            n == s@.len(),
            start < n,
            t == s@.skip(start as int),
            spec_suffix_after_dash(s@) == t,
            forall|k: int| 0 <= k < i as int - start as int ==> spec_is_digit(#[trigger] t[k]),
            acc == spec_dec_value(t.take(i as int - start as int)),
            acc <= i32::MAX,
        decreases n - i,
    {
        let c = s.get_char(i);
        let u = c as u32;
        proof {
            assert(t[i as int - start as int] == s@[i as int]);
        }
        if u < 48 || u > 57 {
            proof {
                assert(!spec_is_digit(s@[i as int]));
                assert(!spec_all_digits(t));
            }
            return None;
        }
        let d: u64 = (u - 48) as u64;
        proof {
            assert(spec_digit_val(s@[i as int]) == d);
            assert(t.take(i as int - start as int + 1).drop_last() =~= t.take(
                i as int - start as int,
            ));
            assert(t.take(i as int - start as int + 1).last() == t[i as int - start as int]);
        }
        acc = acc * 10 + d;
        if acc > 0x7fff_ffff {
            proof {
                if spec_all_digits(t) {
                    lemma_dec_value_take_monotone(t, i as int - start as int + 1);
                    assert(spec_dec_value(t) > i32::MAX);
                }
            }
            return None;
        }
        i = i + 1;
    }
    proof {
        assert(t.take(n as int - start as int) =~= t);
        assert forall|k: int| 0 <= k < t.len() implies spec_is_digit(#[trigger] t[k]) by {}
        assert(spec_all_digits(t));
    }
    Some(acc as u32)
}

/// Formats `EXP-<year>-<seq>` with the sequence zero-padded to three
/// digits; a negative year keeps its sign, as plain formatting would.
pub fn format_order_number(year: i32, seq_num: u32) -> (r: String)
    ensures
        r@ == spec_order_number_chars(year as int, seq_num as nat),
{
    let mut s: String = String::from_str("EXP-");
    if year < 0 {
        let dash: &'static str = "-";
        proof {
            reveal_strlit("-");
            assert(dash@ =~= seq!['-']);
        }
        s.append(dash);
        let mag: u32 = (-(year as i64)) as u32;
        let year_digits = format_u32_decimal(mag);
        s.append(year_digits.as_str());
        proof {
            assert(s@ =~= "EXP-"@ + spec_year_chars(year as int));
        }
    } else {
        let year_digits = format_u32_decimal(year as u32);
        s.append(year_digits.as_str());
    }
    let dash: &'static str = "-";
    proof {
        reveal_strlit("-");
        assert(dash@ =~= seq!['-']);
    }
    s.append(dash);
    let digits = format_u32_decimal(seq_num);
    let len = digits.as_str().unicode_len();
    proof {
        lemma_dec_rep_digits(seq_num as nat);
    }
    if len == 1 {
        let pad: &'static str = "00";
        proof {
            reveal_strlit("00");
            assert(pad@ =~= seq!['0', '0']);
        }
        s.append(pad);
    } else if len == 2 {
        let pad: &'static str = "0";
        proof {
            reveal_strlit("0");
            assert(pad@ =~= seq!['0']);
        }
        s.append(pad);
    }
    s.append(digits.as_str());
    proof {
        let d = spec_dec_rep(seq_num as nat);
        if d.len() == 1 {
            assert(seq!['0', '0'] + d =~= spec_zero_pad3(d));
        } else if d.len() == 2 {
            assert(seq!['0'] + d =~= spec_zero_pad3(d));
        }
        assert(s@ =~= spec_order_number_chars(year as int, seq_num as nat));
    }
    s
}

/// The next order number for the current year, derived from the most
/// recently issued number: its trailing segment incremented by one, or a
/// fresh sequence of one when no prior order exists or the segment does
/// not parse. A prior-year number is continued, not reset.
pub fn next_order_number(latest: Option<&str>, year: i32) -> (r: String)
    ensures
        r@ == spec_next_order_number(spec_opt_chars(latest), year as int),
{
    match latest {
        None => format_order_number(year, 1),
        Some(prev) => match parse_trailing_sequence(prev) {
            None => format_order_number(year, 1),
            Some(k) => format_order_number(year, k + 1),
        },
    }
}

/// Order numbers issued in sequence are consecutive: feeding the number
/// for sequence `k` back into the generator yields the number for
/// sequence `k + 1` — strictly increasing by one, with no gaps, for any
/// year, as long as the sequence fits 32-bit signed range.
pub proof fn lemma_order_numbers_consecutive(year: int, k: u32)
    requires
        1 <= k < i32::MAX,
    ensures
        spec_next_order_number(Some(spec_order_number_chars(year, k as nat)), year)
            == spec_order_number_chars(year, k as nat + 1),
{
    let num = spec_order_number_chars(year, k as nat);
    let d = spec_dec_rep(k as nat);
    let p = spec_zero_pad3(d);
    lemma_dec_rep_digits(k as nat);
    lemma_dec_rep_value(k as nat);
    lemma_zero_pad3_keeps(d);
    assert(forall|i: int| 0 <= i < p.len() ==> #[trigger] p[i] != '-') by {
        assert(spec_digit_val('-') == -1);
    }
    let a = "EXP-"@ + spec_year_chars(year);
    assert(num =~= a + seq!['-'] + p);
    lemma_suffix_after_dash_concat(a, p);
    assert(spec_suffix_after_dash(num) == p);
    assert(spec_dec_value(p) == k);
    assert(spec_parse_sequence(num) == Some(k));
}

} // verus!
