//! Verified text utilities: decimal rendering of numbers, decimal parsing
//! into `i32` with an [`ErrorValue`] on failure, whitespace trimming and
//! prefix tests.

use vstd::prelude::*;

use crate::error::ErrorValue;
use crate::error::Kind;

verus! {

/// The character for a single decimal digit value.
pub open spec fn dec_digit(d: nat) -> char {
    if d == 0 {
        '0'
    } else if d == 1 {
        '1'
    } else if d == 2 {
        '2'
    } else if d == 3 {
        '3'
    } else if d == 4 {
        '4'
    } else if d == 5 {
        '5'
    } else if d == 6 {
        '6'
    } else if d == 7 {
        '7'
    } else if d == 8 {
        '8'
    } else {
        '9'
    }
}

/// The usual decimal rendering of a number, without leading zeroes.
pub open spec fn dec_str(n: nat) -> Seq<char>
    decreases n,
{
    if n < 10 {
        seq![dec_digit(n)]
    } else {
        dec_str(n / 10) + seq![dec_digit(n % 10)]
    }
}

fn digit_str(d: u64) -> (r: &'static str)
    requires
        d < 10,
    ensures
        r@ == seq![dec_digit(d as nat)],
{
    proof {
        reveal_strlit("0");
        reveal_strlit("1");
        reveal_strlit("2");
        reveal_strlit("3");
        reveal_strlit("4");
        reveal_strlit("5");
        reveal_strlit("6");
        reveal_strlit("7");
        reveal_strlit("8");
        reveal_strlit("9");
    }
    let r = match d {
        0 => "0",
        1 => "1",
        2 => "2",
        3 => "3",
        4 => "4",
        5 => "5",
        6 => "6",
        7 => "7",
        8 => "8",
        _ => "9",
    };
    proof {
        assert(r@ =~= seq![dec_digit(d as nat)]);
    }
    r
}

/// Renders a number in decimal.
pub fn u64_string(n: u64) -> (r: String)
    ensures
        r@ == dec_str(n as nat),
    decreases n,
{
    if n < 10 {
        String::from_str(digit_str(n))
    } else {
        let mut s = u64_string(n / 10);
        s.append(digit_str(n % 10));
        s
    }
}

/// Whether the character is a decimal digit.
pub open spec fn is_dec_digit(c: char) -> bool {
    48 <= c as int <= 57
}

/// The value of a decimal digit character.
pub open spec fn digit_val(c: char) -> nat {
    (c as int - 48) as nat
}

/// Whether every character of the sequence is a decimal digit.
pub open spec fn all_digits(s: Seq<char>) -> bool {
    forall|i: int| 0 <= i < s.len() ==> is_dec_digit(#[trigger] s[i])
}

/// The value of a sequence of decimal digits, most significant first.
pub open spec fn dec_val(s: Seq<char>) -> nat
    decreases s.len(),
{
    if s.len() == 0 {
        0
    } else {
        dec_val(s.drop_last()) * 10 + digit_val(s.last())
    }
}

/// Appending digits never lowers the value.
proof fn lemma_dec_val_prefix_le(s: Seq<char>, i: int)
    requires
        0 <= i <= s.len(),
    ensures
        dec_val(s.take(i)) <= dec_val(s),
    decreases s.len() - i,
{
    if i < s.len() {
        lemma_dec_val_prefix_le(s, i + 1);
        assert(s.take(i + 1).drop_last() =~= s.take(i));
        assert(dec_val(s.take(i)) <= dec_val(s.take(i)) * 10 + digit_val(s.take(i + 1).last()));
    } else {
        assert(s.take(i) =~= s);
    }
}

/// The digits of an integer literal, after any single leading sign.
pub open spec fn digits_part(s: Seq<char>) -> Seq<char> {
    if s.len() > 0 && (s[0] == '-' || s[0] == '+') {
        s.skip(1)
    } else {
        s
    }
}

/// Whether the literal carries a leading minus sign.
pub open spec fn is_negative_literal(s: Seq<char>) -> bool {
    s.len() > 0 && s[0] == '-'
}

/// The mathematical value an integer literal denotes.
pub open spec fn int_literal_val(s: Seq<char>) -> int {
    if is_negative_literal(s) {
        -(dec_val(digits_part(s)) as int)
    } else {
        dec_val(digits_part(s)) as int
    }
}

/// Whether the text is an optionally signed run of decimal digits whose
/// value fits a 32-bit signed integer.
pub open spec fn is_i32_literal(s: Seq<char>) -> bool {
    &&& digits_part(s).len() > 0
    &&& all_digits(digits_part(s))
    &&& i32::MIN <= int_literal_val(s) <= i32::MAX
}

/// The message of the error that [`parse_i32`] reports.
pub open spec fn bad_number_note() -> Seq<char> {
    "not a 32-bit decimal integer"@
}

fn parse_failure(capture: bool) -> (r: ErrorValue)
    ensures
        r.wf(),
        r@.len() == 1,
        r@[0].kind == Kind::Parse,
        r@[0].type_id == crate::error::ID_PARSE,
        r@[0].message == bad_number_note(),
        r@[0].context is None,
        r@[0].backtrace is Some <==> capture,
{
    proof {
        reveal_strlit("not a 32-bit decimal integer");
    }
    ErrorValue::new(Kind::Parse, String::from_str("not a 32-bit decimal integer"), None, capture)
}

/// Parses an optionally signed decimal integer. Succeeds exactly on the
/// literals whose value fits a 32-bit signed integer, and reports a `Parse`
/// error on everything else.
pub fn parse_i32(s: &str, capture: bool) -> (r: Result<i32, ErrorValue>)
    ensures
        r is Ok <==> is_i32_literal(s@),
        r matches Ok(v) ==> v as int == int_literal_val(s@),
        r matches Err(e) ==> {
            &&& e.wf()
            &&& e@.len() == 1
            &&& e@[0].kind == Kind::Parse
            &&& e@[0].type_id == crate::error::ID_PARSE
            &&& e@[0].message == bad_number_note()
            &&& (e@[0].backtrace is Some <==> capture)
        },
{
    let len = s.unicode_len();
    let mut i: usize = 0;
    let mut negative = false;
    if len > 0 {
        let c0 = s.get_char(0);
        if c0 == '-' {
            negative = true;
            i = 1;
        } else if c0 == '+' {
            i = 1;
        }
    }
    let ghost digits = digits_part(s@);
    proof {
        assert(digits =~= s@.skip(i as int));
    }
    if i >= len {
        return Err(parse_failure(capture));
    }
    let mut acc: u64 = 0;
    while i < len
        invariant
            len == s@.len(),
            0 < len,
            i <= len,
            digits == digits_part(s@),
            digits =~= s@.skip(len - digits.len()),
            i >= len - digits.len(),
            negative == is_negative_literal(s@),
            all_digits(digits.take(i - (len - digits.len()))),
            acc == dec_val(digits.take(i - (len - digits.len()))),
            acc <= 0x8000_0000,
        decreases len - i,
    {
        let ghost start = len - digits.len();
        let ghost prefix = digits.take(i - start);
        let c = s.get_char(i);
        let u = c as u32;
        proof {
            assert(digits[i - start] == s@[i as int]);
        }
        if u < 48 || u > 57 {
            proof {
                assert(!is_dec_digit(digits[i - start]));
            }
            return Err(parse_failure(capture));
        }
        let d = (u - 48) as u64;
        let next = acc * 10 + d;
        proof {
            assert(digits.take(i + 1 - start).drop_last() =~= prefix);
            assert(digits.take(i + 1 - start).last() == digits[i - start]);
            assert(next == dec_val(digits.take(i + 1 - start)));
        }
        if next > 0x8000_0000 {
            // Too large already, whatever follows: if the remaining text is
            // not all digits the literal is malformed, and if it is, its
            // value lies outside the 32-bit range in either sign.
            proof {
                if all_digits(digits) {
                    lemma_dec_val_prefix_le(digits, i + 1 - start);
                    assert(dec_val(digits) > 0x8000_0000);
                }
            }
            return Err(parse_failure(capture));
        }
        acc = next;
        i = i + 1;
    }
    proof {
        assert(digits.take(digits.len() as int) =~= digits);
    }
    if negative {
        if acc == 0x8000_0000 {
            Ok(i32::MIN)
        } else {
            Ok(-(acc as i32))
        }
    } else {
        if acc > 0x7fff_ffff {
            return Err(parse_failure(capture));
        }
        Ok(acc as i32)
    }
}

/// How often the character occurs in the sequence.
pub open spec fn count_char(s: Seq<char>, c: char) -> nat
    decreases s.len(),
{
    if s.len() == 0 {
        0
    } else {
        count_char(s.drop_last(), c) + (if s.last() == c {
            1nat
        } else {
            0nat
        })
    }
}

/// Occurrences in a concatenation are the occurrences in the parts.
pub proof fn lemma_count_char_concat(a: Seq<char>, b: Seq<char>, c: char)
    ensures
        count_char(a + b, c) == count_char(a, c) + count_char(b, c),
    decreases b.len(),
{
    if b.len() == 0 {
        assert(a + b =~= a);
    } else {
        lemma_count_char_concat(a, b.drop_last(), c);
        assert((a + b).drop_last() =~= a + b.drop_last());
        assert((a + b).last() == b.last());
    }
}

/// A character that occurs at no position occurs zero times.
pub proof fn lemma_count_char_absent(s: Seq<char>, c: char)
    requires
        forall|i: int| 0 <= i < s.len() ==> s[i] != c,
    ensures
        count_char(s, c) == 0,
    decreases s.len(),
{
    if s.len() > 0 {
        lemma_count_char_absent(s.drop_last(), c);
    }
}

/// A decimal rendering consists of digits alone.
pub proof fn lemma_dec_str_digits(n: nat)
    ensures
        forall|i: int| 0 <= i < dec_str(n).len() ==> is_dec_digit(#[trigger] dec_str(n)[i]),
    decreases n,
{
    if n < 10 {
        assert(is_dec_digit(dec_digit(n)));
    } else {
        lemma_dec_str_digits(n / 10);
        assert(is_dec_digit(dec_digit(n % 10)));
        assert forall|i: int| 0 <= i < dec_str(n).len() implies is_dec_digit(
            #[trigger] dec_str(n)[i],
        ) by {
            if i < dec_str(n / 10).len() {
                assert(dec_str(n)[i] == dec_str(n / 10)[i]);
            } else {
                assert(dec_str(n)[i] == dec_digit(n % 10));
            }
        }
    }
}

/// The whitespace characters that [`trim`] strips.
pub open spec fn is_space_char(c: char) -> bool {
    c == ' ' || c == '\t' || c == '\r' || c == '\n'
}

/// The sequence with its leading whitespace removed.
pub open spec fn trim_start_view(s: Seq<char>) -> Seq<char>
    decreases s.len(),
{
    if s.len() > 0 && is_space_char(s[0]) {
        trim_start_view(s.skip(1))
    } else {
        s
    }
}

/// The sequence with its trailing whitespace removed.
pub open spec fn trim_end_view(s: Seq<char>) -> Seq<char>
    decreases s.len(),
{
    if s.len() > 0 && is_space_char(s.last()) {
        trim_end_view(s.drop_last())
    } else {
        s
    }
}

/// The sequence with whitespace removed from both ends.
pub open spec fn trim_view(s: Seq<char>) -> Seq<char> {
    trim_end_view(trim_start_view(s))
}

fn is_space(c: char) -> (r: bool)
    ensures
        r == is_space_char(c),
{
    c == ' ' || c == '\t' || c == '\r' || c == '\n'
}

/// Strips leading and trailing whitespace.
pub fn trim(s: &str) -> (r: &str)
    ensures
        r@ == trim_view(s@),
{
    let len = s.unicode_len();
    let mut a: usize = 0;
    proof {
        assert(s@.skip(0) =~= s@);
    }
    while a < len && is_space(s.get_char(a))
        invariant
            a <= len,
            len == s@.len(),
            trim_start_view(s@) == trim_start_view(s@.skip(a as int)),
        decreases len - a,
    {
        proof {
            assert(s@.skip(a as int).skip(1) =~= s@.skip(a + 1));
        }
        a = a + 1;
    }
    proof {
        if a == len {
            assert(s@.skip(a as int) =~= Seq::<char>::empty());
        }
        assert(trim_start_view(s@) == s@.skip(a as int));
        assert(s@.skip(a as int) =~= s@.subrange(a as int, len as int));
    }
    let mut b: usize = len;
    while b > a && is_space(s.get_char(b - 1))
        invariant
            a <= b <= len,
            len == s@.len(),
            trim_end_view(s@.subrange(a as int, len as int)) == trim_end_view(
                s@.subrange(a as int, b as int),
            ),
        decreases b,
    {
        proof {
            assert(s@.subrange(a as int, b as int).last() == s@[b - 1]);
            assert(s@.subrange(a as int, b as int).drop_last() =~= s@.subrange(a as int, b - 1));
        }
        b = b - 1;
    }
    let r = s.substring_char(a, b);
    proof {
        assert(trim_end_view(s@.subrange(a as int, b as int)) == s@.subrange(a as int, b as int));
    }
    r
}

/// Whether `prefix` is an initial run of `s`.
pub fn starts_with(s: &str, prefix: &str) -> (r: bool)
    ensures
        r == prefix@.is_prefix_of(s@),
{
    let n = prefix.unicode_len();
    let m = s.unicode_len();
    if n > m {
        return false;
    }
    let mut i: usize = 0;
    while i < n
        invariant
            i <= n <= m,
            n == prefix@.len(),
            m == s@.len(),
            forall|j: int| 0 <= j < i ==> prefix@[j] == s@[j],
        decreases n - i,
    {
        if s.get_char(i) != prefix.get_char(i) {
            proof {
                assert(prefix@[i as int] != s@.subrange(0, n as int)[i as int]);
            }
            return false;
        }
        i = i + 1;
    }
    proof {
        assert(prefix@ =~= s@.subrange(0, n as int));
    }
    true
}

} // verus!
