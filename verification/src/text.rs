//! Small text operations that the rules of the application rest on:
//! comparing, trimming, and writing and reading decimal numbers.

use vstd::prelude::*;
use vstd::std_specs::iter::IteratorSpec;
use vstd::string::StringExecFns;

verus! {

/// Whether a character is whitespace: one of the characters with the
/// Unicode property `White_Space`.
pub open spec fn is_whitespace(c: char) -> bool {
    let code = c as u32;
    ||| 0x09 <= code <= 0x0D
    ||| code == 0x20
    ||| code == 0x85
    ||| code == 0xA0
    ||| code == 0x1680
    ||| 0x2000 <= code <= 0x200A
    ||| code == 0x2028
    ||| code == 0x2029
    ||| code == 0x202F
    ||| code == 0x205F
    ||| code == 0x3000
}

/// `s` without its leading whitespace.
pub open spec fn trimmed_start(s: Seq<char>) -> Seq<char>
    decreases s.len(),
{
    if s.len() > 0 && is_whitespace(s.first()) {
        trimmed_start(s.drop_first())
    } else {
        s
    }
}

/// `s` without its trailing whitespace.
pub open spec fn trimmed_end(s: Seq<char>) -> Seq<char>
    decreases s.len(),
{
    if s.len() > 0 && is_whitespace(s.last()) {
        trimmed_end(s.drop_last())
    } else {
        s
    }
}

/// `s` without its leading and trailing whitespace.
pub open spec fn trimmed(s: Seq<char>) -> Seq<char> {
    trimmed_end(trimmed_start(s))
}

/// `s` without leading and trailing whitespace.
///
/// Trusted: calls `str::trim`. The contract states what the standard
/// library documents of it: the result is `s` with the whitespace removed
/// from both ends, where whitespace is what has the Unicode property
/// `White_Space`.
#[verifier::external_body]
pub(crate) fn trim<'a>(s: &'a str) -> (r: &'a str)
    ensures
        r@ == trimmed(s@),
{
    s.trim()
}

/// A text that neither begins nor ends with whitespace is left as it is.
pub proof fn lemma_trimmed_keeps_tight_text(s: Seq<char>)
    requires
        s.len() > 0 ==> !is_whitespace(s.first()) && !is_whitespace(s.last()),
    ensures
        trimmed(s) == s,
{
}

/// The decimal digit of a number below ten.
pub open spec fn digit_char(d: int) -> char {
    if d == 0 {
        '0'
    } else if d == 1 {
        '1'
    } else if d == 2 {
        '2'
    } else if d == 3 {
        '3'
    } else if d == 4 {
        '4'
    } else if d == 5 {
        '5'
    } else if d == 6 {
        '6'
    } else if d == 7 {
        '7'
    } else if d == 8 {
        '8'
    } else {
        '9'
    }
}

/// The number that a decimal digit stands for; `None` for any other
/// character.
pub open spec fn digit_value(c: char) -> Option<int> {
    if c == '0' {
        Some(0)
    } else if c == '1' {
        Some(1)
    } else if c == '2' {
        Some(2)
    } else if c == '3' {
        Some(3)
    } else if c == '4' {
        Some(4)
    } else if c == '5' {
        Some(5)
    } else if c == '6' {
        Some(6)
    } else if c == '7' {
        Some(7)
    } else if c == '8' {
        Some(8)
    } else if c == '9' {
        Some(9)
    } else {
        None
    }
}

/// The decimal text of a natural number, without leading zeros.
pub open spec fn nat_text(n: nat) -> Seq<char>
    decreases n,
{
    if n < 10 {
        seq![digit_char(n as int)]
    } else {
        nat_text(n / 10).push(digit_char((n % 10) as int))
    }
}

/// The decimal text of an integer: a minus sign before a negative number,
/// no sign otherwise.
pub open spec fn decimal_text(n: int) -> Seq<char> {
    if n < 0 {
        seq!['-'] + nat_text((-n) as nat)
    } else {
        nat_text(n as nat)
    }
}

/// Whether every character is a decimal digit.
pub open spec fn all_digits(s: Seq<char>) -> bool {
    forall|i: int| 0 <= i < s.len() ==> digit_value(#[trigger] s[i]) is Some
}

/// The number that a text of decimal digits stands for.
pub open spec fn digits_value(s: Seq<char>) -> int
    decreases s.len(),
{
    if s.len() == 0 {
        0
    } else {
        digits_value(s.drop_last()) * 10 + match digit_value(s.last()) {
            Some(d) => d,
            None => 0,
        }
    }
}

/// The `i64` that a text reads as: an optional `+` or `-`, then one or more
/// decimal digits and nothing else, for a number that an `i64` holds. Any
/// other text reads as none.
pub open spec fn parsed_i64(s: Seq<char>) -> Option<i64> {
    let negative = s.len() > 0 && s[0] == '-';
    let signed = s.len() > 0 && (s[0] == '-' || s[0] == '+');
    let digits = if signed {
        s.drop_first()
    } else {
        s
    };
    let value = if negative {
        -digits_value(digits)
    } else {
        digits_value(digits)
    };
    if digits.len() > 0 && all_digits(digits) && i64::MIN <= value <= i64::MAX {
        Some(value as i64)
    } else {
        None
    }
}

/// The greatest magnitude of an `i64`: that of its least value.
pub const MAGNITUDE_LIMIT: u64 = 9223372036854775808;

/// The number that a decimal digit stands for.
fn digit_of(c: char) -> (d: Option<u64>)
    ensures
        d is Some <==> digit_value(c) is Some,
        d matches Some(n) ==> n < 10 && digit_value(c) == Some(n as int),
{
    if c == '0' {
        Some(0)
    } else if c == '1' {
        Some(1)
    } else if c == '2' {
        Some(2)
    } else if c == '3' {
        Some(3)
    } else if c == '4' {
        Some(4)
    } else if c == '5' {
        Some(5)
    } else if c == '6' {
        Some(6)
    } else if c == '7' {
        Some(7)
    } else if c == '8' {
        Some(8)
    } else if c == '9' {
        Some(9)
    } else {
        None
    }
}

/// A text of digits stands for a number that is not negative, and for no
/// less than any of its beginnings does.
pub proof fn lemma_digits_value_grows(s: Seq<char>, k: int)
    requires
        0 <= k <= s.len(),
    ensures
        0 <= digits_value(s.take(k)) <= digits_value(s),
    decreases s.len(),
{
    if s.len() == 0 {
        assert(s.take(k) =~= s);
    } else if k == s.len() {
        assert(s.take(k) =~= s);
        lemma_digits_value_grows(s.drop_last(), k - 1);
    } else {
        lemma_digits_value_grows(s.drop_last(), k);
        assert(s.drop_last().take(k) =~= s.take(k));
    }
}

/// Reads `s` as a decimal `i64`: an optional sign, then digits only, for a
/// number that an `i64` holds.
pub fn parse_i64(s: &str) -> (r: Option<i64>)
    ensures
        r == parsed_i64(s@),
{
    let mut chars = s.chars();
    let first = match chars.next() {
        Some(c) => c,
        None => {
            return None;
        },
    };
    let negative = first == '-';
    let signed = negative || first == '+';
    let ghost digits = if signed {
        s@.drop_first()
    } else {
        s@
    };
    let ghost mut k: int = 0;
    let mut any = false;
    let mut magnitude: u64 = 0;
    if !signed {
        match digit_of(first) {
            Some(d) => {
                magnitude = d;
                any = true;
                proof {
                    k = 1;
                    assert(digits.take(1).drop_last() =~= Seq::<char>::empty());
                    assert(digits.take(1).last() == first);
                    assert(digits_value(Seq::<char>::empty()) == 0);
                    assert(digits_value(digits.take(1)) == d);
                    assert(digits.skip(1) =~= s@.drop_first());
                }
            },
            None => {
                return None;
            },
        }
    } else {
        proof {
            assert(digits.skip(0) =~= digits);
            assert(digits.take(0) =~= Seq::<char>::empty());
            assert(digits_value(digits.take(0)) == 0);
        }
    }
    let mut done = false;
    while !done
        invariant
            0 <= k <= digits.len(),
            digits == (if signed {
                s@.drop_first()
            } else {
                s@
            }),
            s@.len() > 0,
            signed == (s@[0] == '-' || s@[0] == '+'),
            negative == (s@[0] == '-'),
            chars.remaining() == digits.skip(k),
            done ==> k == digits.len(),
            any == (k > 0),
            all_digits(digits.take(k)),
            magnitude == digits_value(digits.take(k)),
            magnitude <= MAGNITUDE_LIMIT,
        decreases digits.len() - k + (if done { 0int } else { 1int }),
    {
        match chars.next() {
            None => {
                done = true;
            },
            Some(c) => {
                proof {
                    assert(digits.skip(k)[0] == digits[k]);
                    assert(digits.skip(k).drop_first() =~= digits.skip(k + 1));
                    assert(digits.take(k + 1).drop_last() =~= digits.take(k));
                    assert(digits.take(k + 1).last() == digits[k]);
                }
                match digit_of(c) {
                    None => {
                        return None;
                    },
                    Some(d) => {
                        if magnitude > (MAGNITUDE_LIMIT - d) / 10 {
                            proof {
                                if all_digits(digits) {
                                    lemma_digits_value_grows(digits, k + 1);
                                }
                            }
                            return None;
                        }
                        magnitude = magnitude * 10 + d;
                        any = true;
                        proof {
                            assert forall|i: int| 0 <= i < k + 1 implies digit_value(
                                #[trigger] digits.take(k + 1)[i],
                            ) is Some by {
                                if i < k {
                                    assert(digits.take(k)[i] == digits.take(k + 1)[i]);
                                }
                            }
                            k = k + 1;
                        }
                    },
                }
            },
        }
    }
    proof {
        assert(digits.take(k) =~= digits);
    }
    if !any {
        None
    } else if negative {
        if magnitude == MAGNITUDE_LIMIT {
            Some(i64::MIN)
        } else {
            Some(-(magnitude as i64))
        }
    } else if magnitude == MAGNITUDE_LIMIT {
        None
    } else {
        Some(magnitude as i64)
    }
}

/// The text of one decimal digit.
fn digit_text(d: u64) -> (r: &'static str)
    requires
        d < 10,
    ensures
        r@ == seq![digit_char(d as int)],
{
    proof {
        reveal_strlit("0");
        reveal_strlit("1");
        reveal_strlit("2");
        reveal_strlit("3");
        reveal_strlit("4");
        reveal_strlit("5");
        reveal_strlit("6");
        reveal_strlit("7");
        reveal_strlit("8");
        reveal_strlit("9");
    }
    let r = if d == 0 {
        "0"
    } else if d == 1 {
        "1"
    } else if d == 2 {
        "2"
    } else if d == 3 {
        "3"
    } else if d == 4 {
        "4"
    } else if d == 5 {
        "5"
    } else if d == 6 {
        "6"
    } else if d == 7 {
        "7"
    } else if d == 8 {
        "8"
    } else {
        "9"
    };
    assert(r@ =~= seq![digit_char(d as int)]);
    r
}

/// Appends the decimal text of `n` to `out`.
fn push_decimal(out: &mut String, n: u64)
    ensures
        final(out)@ == old(out)@ + nat_text(n as nat),
    decreases n,
{
    if n >= 10 {
        push_decimal(out, n / 10);
    }
    out.append(digit_text(n % 10));
    assert(out@ =~= old(out)@ + nat_text(n as nat));
}

/// The decimal text of `n`.
pub fn decimal(n: i64) -> (r: String)
    ensures
        r@ == decimal_text(n as int),
{
    let mut r = String::new();
    if n < 0 {
        proof {
            reveal_strlit("-");
        }
        r.append("-");
        assert(r@ =~= seq!['-']);
        let magnitude: u64 = ((-(n + 1)) as u64) + 1;
        push_decimal(&mut r, magnitude);
    } else {
        push_decimal(&mut r, n as u64);
        assert(r@ =~= nat_text(n as nat));
    }
    r
}

/// The decimal text of a natural number is made of digits, is not empty,
/// and stands for that number.
pub proof fn lemma_nat_text_reads_back(n: nat)
    ensures
        nat_text(n).len() > 0,
        all_digits(nat_text(n)),
        digits_value(nat_text(n)) == n,
    decreases n,
{
    if n < 10 {
        assert(nat_text(n).drop_last() =~= Seq::<char>::empty());
        assert(digits_value(nat_text(n).drop_last()) == 0);
    } else {
        lemma_nat_text_reads_back(n / 10);
        let shorter = nat_text(n / 10);
        let last = digit_char((n % 10) as int);
        assert(nat_text(n) == shorter.push(last));
        assert(nat_text(n).drop_last() =~= shorter);
        assert(nat_text(n).last() == last);
        assert forall|i: int| 0 <= i < nat_text(n).len() implies digit_value(
            #[trigger] nat_text(n)[i],
        ) is Some by {
            if i < shorter.len() {
                assert(nat_text(n)[i] == shorter[i]);
            }
        }
    }
}

/// Reading the decimal text of an `i64` gives the number back.
pub proof fn lemma_decimal_reads_back(n: i64)
    ensures
        parsed_i64(decimal_text(n as int)) == Some(n),
{
    if n < 0 {
        let magnitude = (-(n as int)) as nat;
        lemma_nat_text_reads_back(magnitude);
        let text = decimal_text(n as int);
        assert(text[0] == '-');
        assert(text.drop_first() =~= nat_text(magnitude));
    } else {
        lemma_nat_text_reads_back(n as nat);
        let text = decimal_text(n as int);
        assert(digit_value(text[0]) is Some);
    }
}

/// Whether two texts hold the same characters.
pub fn same_text(a: &str, b: &str) -> (r: bool)
    ensures
        r == (a@ == b@),
{
    let left = a.to_owned();
    let right = b.to_owned();
    left == right
}

/// The text of an optional string, empty where there is none.
pub fn text_or_empty(value: Option<String>) -> (r: String)
    ensures
        r@ == option_text(value),
{
    match value {
        Some(s) => s,
        None => String::new(),
    }
}

/// The characters of an optional string, none where it is absent.
pub open spec fn option_text(value: Option<String>) -> Seq<char> {
    match value {
        Some(s) => s@,
        None => Seq::empty(),
    }
}

/// The view of an optional string.
pub open spec fn option_view(value: Option<String>) -> Option<Seq<char>> {
    match value {
        Some(s) => Some(s@),
        None => None,
    }
}

} // verus!
