//! Numbers and texts: decimal rendering, decimal parsing and splitting at a byte.

use vstd::arithmetic::power::*;
use vstd::prelude::*;
use vstd::utf8::*;

verus! {

/// The character of the decimal digit `d`.
pub open spec fn digit_char(d: int) -> char {
    (0x30 + d) as char
}

/// `n` in decimal, without leading zeros.
pub open spec fn nat_text(n: nat) -> Seq<char>
    decreases n,
{
    if n < 10 {
        seq![digit_char(n as int)]
    } else {
        nat_text(n / 10).push(digit_char((n % 10) as int))
    }
}

/// `i` in decimal, with a minus sign before a negative number.
pub open spec fn int_text(i: int) -> Seq<char> {
    if i < 0 {
        seq!['-'] + nat_text((-i) as nat)
    } else {
        nat_text(i as nat)
    }
}

/// `n` in decimal, in two digits at least.
pub open spec fn padded_text(n: nat) -> Seq<char> {
    if n < 10 {
        seq!['0'] + nat_text(n)
    } else {
        nat_text(n)
    }
}

/// `c` is an ASCII decimal digit.
pub open spec fn is_digit(c: char) -> bool {
    '0' <= c <= '9'
}

/// `s` is one digit or more, and nothing else.
pub open spec fn all_digits(s: Seq<char>) -> bool {
    &&& s.len() > 0
    &&& forall|i: int| 0 <= i < s.len() ==> is_digit(#[trigger] s[i])
}

/// The number that a sequence of digits writes in decimal.
pub open spec fn digits_value(s: Seq<char>) -> int
    decreases s.len(),
{
    if s.len() == 0 {
        0
    } else {
        digits_value(s.drop_last()) * 10 + (s.last() as int - 0x30)
    }
}

/// `s` opens with a sign.
pub open spec fn is_signed(s: Seq<char>) -> bool {
    s.len() > 0 && (s[0] == '-' || s[0] == '+')
}

/// What stands behind the sign of `s`, if it has one.
pub open spec fn unsigned_part(s: Seq<char>) -> Seq<char> {
    if is_signed(s) {
        s.drop_first()
    } else {
        s
    }
}

/// The number that `s` writes: digits behind an optional sign.
pub open spec fn parsed_int(s: Seq<char>) -> Option<int> {
    let digits = unsigned_part(s);
    if !all_digits(digits) {
        None
    } else if s[0] == '-' {
        Some(-digits_value(digits))
    } else {
        Some(digits_value(digits))
    }
}

/// The 32-bit number that `s` writes, if it writes one.
pub open spec fn parsed_i32(s: Seq<char>) -> Option<i32> {
    match parsed_int(s) {
        Some(v) if i32::MIN <= v <= i32::MAX => Some(v as i32),
        _ => None,
    }
}

/// `s` cut in two behind its first `n` bytes of UTF-8, where a character ends there.
pub open spec fn split_text(s: Seq<char>, n: int) -> Option<(Seq<char>, Seq<char>)> {
    let bytes = encode_utf8(s);
    if is_char_boundary(bytes, n) {
        Some(
            (
                decode_utf8(bytes.subrange(0, n)),
                decode_utf8(bytes.subrange(n, bytes.len() as int)),
            ),
        )
    } else {
        None
    }
}

/// One digit as text.
fn digit_text(d: u64) -> (r: &'static str)
    requires
        d < 10,
    ensures
        r@ == seq![digit_char(d as int)],
{
    proof {
        reveal_strlit("0");
        reveal_strlit("1");
        reveal_strlit("2");
        reveal_strlit("3");
        reveal_strlit("4");
        reveal_strlit("5");
        reveal_strlit("6");
        reveal_strlit("7");
        reveal_strlit("8");
        reveal_strlit("9");
    }
    match d {
        0 => "0",
        1 => "1",
        2 => "2",
        3 => "3",
        4 => "4",
        5 => "5",
        6 => "6",
        7 => "7",
        8 => "8",
        _ => "9",
    }
}

/// Writes `n` in decimal.
pub fn u64_text(n: u64) -> (r: String)
    ensures
        r@ == nat_text(n as nat),
    decreases n,
{
    if n < 10 {
        digit_text(n).to_owned()
    } else {
        let mut text = u64_text(n / 10);
        text.append(digit_text(n % 10));
        text
    }
}

/// Writes `n` in decimal, in two digits at least.
pub fn padded_u64_text(n: u64) -> (r: String)
    ensures
        r@ == padded_text(n as nat),
{
    if n < 10 {
        let mut text = "0".to_owned();
        proof {
            reveal_strlit("0");
        }
        text.append(u64_text(n).as_str());
        text
    } else {
        u64_text(n)
    }
}

/// Writes `i` in decimal.
pub fn i32_text(i: i32) -> (r: String)
    ensures
        r@ == int_text(i as int),
{
    if i < 0 {
        let mut text = "-".to_owned();
        proof {
            reveal_strlit("-");
        }
        text.append(u64_text((-(i as i64)) as u64).as_str());
        text
    } else {
        u64_text(i as u64)
    }
}

/// Whether two texts are the same.
pub fn same_text(a: &str, b: &str) -> (r: bool)
    ensures
        r == (a@ == b@),
{
    a.to_owned() == b.to_owned()
}

/// The text that `String::from_utf8_lossy` makes of `bytes`.
pub uninterp spec fn lossy_text(bytes: Seq<u8>) -> Seq<char>;

/// Calls `String::from_utf8_lossy`. Trusted: the text depends on the bytes alone, and where the
/// bytes are valid UTF-8 it is the text that they encode. Which replacement characters stand for
/// invalid bytes is not stated.
#[verifier::external_body]
pub(crate) fn to_lossy_text(bytes: &[u8]) -> (r: String)
    ensures
        r@ == lossy_text(bytes@),
        valid_utf8(bytes@) ==> r@ == decode_utf8(bytes@),
{
    String::from_utf8_lossy(bytes).into_owned()
}

/// Calls `String::from_utf8`. Trusted: it gives the text that the bytes encode where they are
/// valid UTF-8, and an error where they are not.
#[verifier::external_body]
pub(crate) fn to_text(bytes: Vec<u8>) -> (r: Option<String>)
    ensures
        match r {
            Some(text) => valid_utf8(bytes@) && text@ == decode_utf8(bytes@),
            None => !valid_utf8(bytes@),
        },
{
    String::from_utf8(bytes).ok()
}

/// `a` followed by `b`.
pub fn join(a: &str, b: &str) -> (r: String)
    ensures
        r@ == a@ + b@,
{
    a.to_owned().concat(b)
}

proof fn lemma_digits_value_prefix(s: Seq<char>, k: int)
    requires
        forall|i: int| 0 <= i < s.len() ==> is_digit(#[trigger] s[i]),
        0 <= k <= s.len(),
    ensures
        0 <= digits_value(s.take(k)) <= digits_value(s),
    decreases s.len(),
{
    if k == s.len() {
        assert(s.take(k) =~= s);
        if k > 0 {
            lemma_digits_value_prefix(s.drop_last(), k - 1);
            assert(s.drop_last().take(k - 1) =~= s.drop_last());
            assert(is_digit(s[k - 1]));
        }
    } else {
        lemma_digits_value_prefix(s.drop_last(), k);
        assert(s.drop_last().take(k) =~= s.take(k));
        assert(is_digit(s.last()));
    }
}

/// Reads a 32-bit number: decimal digits behind an optional sign.
pub fn parse_i32(s: &str) -> (r: Option<i32>)
    ensures
        r == parsed_i32(s@),
{
    if !s.is_ascii() {
        proof {
            let k = choose|k: int| 0 <= k < s@.len() && !('\0' <= #[trigger] s@[k] <= '\u{7f}');
            let digits = unsigned_part(s@);
            if is_signed(s@) {
                assert(digits[k - 1] == s@[k]);
                assert(!is_digit(digits[k - 1]));
            } else {
                assert(!is_digit(digits[k]));
            }
        }
        return None;
    }
    let bytes = s.as_bytes();
    proof {
        is_ascii_chars_encode_utf8(s@);
    }
    let ghost digits = unsigned_part(s@);
    let len: usize = bytes.len();
    if len == 0 {
        return None;
    }
    let negative: bool = bytes[0] == 0x2d;
    let start: usize = if negative || bytes[0] == 0x2b {
        1
    } else {
        0
    };
    assert(s@[0] as u8 == bytes@[0]);
    assert(digits =~= s@.skip(start as int));
    if start == len {
        return None;
    }
    assert forall|k: int| 0 <= k < digits.len() implies #[trigger] digits[k] as int == bytes@[start
        + k] by {
        assert(digits[k] == s@[start + k]);
        assert(s@[start + k] as u8 == bytes@[start + k]);
    }
    let mut value: i64 = 0;
    let mut i: usize = start;
    while i < len
        invariant
            start <= i <= len,
            len == bytes@.len(),
            len == start + digits.len(),
            digits == unsigned_part(s@),
            forall|k: int|
                0 <= k < digits.len() ==> #[trigger] digits[k] as int == bytes@[start + k],
            forall|k: int| 0 <= k < i - start ==> is_digit(#[trigger] digits[k]),
            value == digits_value(digits.take(i - start)),
            0 <= value <= 0x8000_0000,
        decreases len - i,
    {
        let byte: u8 = bytes[i];
        assert(digits[i - start] as int == byte);
        if byte < 0x30 || byte > 0x39 {
            assert(!is_digit(digits[i - start]));
            return None;
        }
        assert(is_digit(digits[i - start]));
        assert(digits.take(i - start + 1).drop_last() =~= digits.take(i - start));
        value = value * 10 + (byte - 0x30) as i64;
        i = i + 1;
        if value > 0x8000_0000 {
            proof {
                if all_digits(digits) {
                    lemma_digits_value_prefix(digits, i - start);
                }
            }
            return None;
        }
    }
    assert(digits.take(len - start) =~= digits);
    assert(all_digits(digits));
    if negative {
        Some((-value) as i32)
    } else if value <= 0x7fff_ffff {
        Some(value as i32)
    } else {
        None
    }
}

/// Cuts `s` behind its first `n` bytes, where a character ends there.
pub fn split_at_byte(s: &str, n: usize) -> (r: Option<(&str, &str)>)
    ensures
        match r {
            Some((head, tail)) => split_text(s@, n as int) == Some((head@, tail@)),
            None => split_text(s@, n as int) is None,
        },
{
    if s.is_char_boundary(n) {
        let (head, tail) = s.split_at(n);
        proof {
            encode_utf8_decode_utf8(head@);
            encode_utf8_decode_utf8(tail@);
        }
        Some((head, tail))
    } else {
        None
    }
}

proof fn lemma_encode_concat(a: Seq<char>, b: Seq<char>)
    ensures
        encode_utf8(a + b) == encode_utf8(a) + encode_utf8(b),
    decreases a.len(),
{
    if a.len() == 0 {
        assert(a + b =~= b);
        assert(encode_utf8(a) + encode_utf8(b) =~= encode_utf8(b));
    } else {
        lemma_encode_concat(a.drop_first(), b);
        assert((a + b).drop_first() =~= a.drop_first() + b);
        assert((a + b)[0] == a[0]);
        assert(encode_utf8(a + b) =~= encode_utf8(a) + encode_utf8(b));
    }
}

/// A text put together from two parts is cut into them right behind the bytes of the first.
pub proof fn law_split_of_joined(head: Seq<char>, tail: Seq<char>)
    ensures
        split_text(head + tail, encode_utf8(head).len() as int) == Some((head, tail)),
{
    let n = encode_utf8(head).len() as int;
    let bytes = encode_utf8(head + tail);
    lemma_encode_concat(head, tail);
    encode_utf8_valid_utf8(head + tail);
    encode_utf8_valid_utf8(tail);
    encode_utf8_decode_utf8(head);
    encode_utf8_decode_utf8(tail);
    assert(bytes.subrange(0, n) =~= encode_utf8(head));
    assert(bytes.subrange(n, bytes.len() as int) =~= encode_utf8(tail));
    if tail.len() == 0 {
        is_char_boundary_start_end_of_seq(bytes);
    } else {
        encode_utf8_first_scalar(tail);
        assert(bytes[n] == encode_utf8(tail)[0]);
        is_char_boundary_iff_not_is_continuation_byte(bytes, n);
    }
}

/// The two parts that a text is cut into make up the text, and the first has the bytes that were
/// asked for.
pub proof fn law_split_parts_join(s: Seq<char>, n: int)
    requires
        split_text(s, n) is Some,
    ensures
        ({
            let (head, tail) = split_text(s, n)->0;
            &&& head + tail == s
            &&& encode_utf8(head).len() == n
        }),
{
    let bytes = encode_utf8(s);
    let head = bytes.subrange(0, n);
    let tail = bytes.subrange(n, bytes.len() as int);
    encode_utf8_valid_utf8(s);
    valid_utf8_split(bytes, n);
    decode_utf8_encode_utf8(head);
    decode_utf8_encode_utf8(tail);
    lemma_encode_concat(decode_utf8(head), decode_utf8(tail));
    assert(head + tail =~= bytes);
    encode_utf8_decode_utf8(s);
    encode_utf8_decode_utf8(decode_utf8(head) + decode_utf8(tail));
}

/// A text that starts with an ASCII part is cut right behind that part.
pub proof fn lemma_split_ascii(head: Seq<char>, tail: Seq<char>)
    requires
        is_ascii_chars(head),
    ensures
        split_text(head + tail, head.len() as int) == Some((head, tail)),
{
    is_ascii_chars_encode_utf8(head);
    law_split_of_joined(head, tail);
}

proof fn lemma_nat_text_digits(n: nat)
    ensures
        all_digits(nat_text(n)),
        digits_value(nat_text(n)) == n,
    decreases n,
{
    if n < 10 {
        assert(nat_text(n).drop_last() =~= seq![]);
        assert(digits_value(seq![]) == 0);
    } else {
        lemma_nat_text_digits(n / 10);
        assert(nat_text(n).drop_last() =~= nat_text(n / 10));
    }
}

/// Reading a number back from its decimal text gives the number.
pub proof fn lemma_decimal_round_trip(i: i32)
    ensures
        parsed_i32(int_text(i as int)) == Some(i),
{
    if i < 0 {
        lemma_nat_text_digits((-i) as nat);
        assert(unsigned_part(int_text(i as int)) =~= nat_text((-i) as nat));
    } else {
        lemma_nat_text_digits(i as nat);
        assert(is_digit(nat_text(i as nat)[0]));
        assert(unsigned_part(int_text(i as int)) =~= nat_text(i as nat));
    }
}

/// The digits are the ten characters from `0` to `9`, and each writes its place among them.
pub proof fn law_digits(d: int, c: char)
    requires
        0 <= d < 10,
    ensures
        is_digit("0123456789"@[d]),
        digits_value(seq!["0123456789"@[d]]) == d,
        is_digit(c) ==> "0123456789"@.contains(c),
{
    reveal_strlit("0123456789");
    assert(seq!["0123456789"@[d]].drop_last() =~= seq![]);
    assert(digits_value(seq![]) == 0);
    if is_digit(c) {
        assert("0123456789"@[c as int - '0' as int] == c);
    }
}

/// Digits put behind others shift those by as many places.
pub proof fn law_digits_value_joined(a: Seq<char>, b: Seq<char>)
    ensures
        digits_value(a + b) == digits_value(a) * pow(10, b.len()) + digits_value(b),
    decreases b.len(),
{
    reveal(pow);
    if b.len() == 0 {
        assert(a + b =~= a);
        lemma_pow0(10);
    } else {
        let (x, y) = (digits_value(a), pow(10, (b.len() - 1) as nat));
        law_digits_value_joined(a, b.drop_last());
        assert((a + b).drop_last() =~= a + b.drop_last());
        assert(pow(10, b.len()) == 10 * y);
        assert(x * y * 10 == x * (10 * y)) by (nonlinear_arith);
    }
}

/// The decimal text of a number is digits without a leading zero, behind a minus sign where the
/// number is negative, and the digits write the number.
pub proof fn law_decimal_text(i: int)
    ensures
        ({
            let text = int_text(i);
            let digits = if i < 0 {
                text.drop_first()
            } else {
                text
            };
            &&& all_digits(digits)
            &&& digits_value(digits) == if i < 0 {
                -i
            } else {
                i
            }
            &&& digits.len() > 1 ==> digits[0] != '0'
            &&& i < 0 ==> text[0] == '-'
        }),
{
    let n = (if i < 0 {
        -i
    } else {
        i
    }) as nat;
    lemma_nat_text_digits(n);
    lemma_no_leading_zero(n);
    assert(i < 0 ==> int_text(i).drop_first() =~= nat_text(n));
}

proof fn lemma_zero_in_front(digits: Seq<char>)
    ensures
        digits_value(seq!['0'] + digits) == digits_value(digits),
{
    law_digits_value_joined(seq!['0'], digits);
    assert(seq!['0'].drop_last() =~= seq![]);
    assert(digits_value(seq![]) == 0);
    let (zero, places) = (digits_value(seq!['0']), pow(10, digits.len()));
    assert(zero * places == 0) by (nonlinear_arith)
        requires
            zero == 0,
    ;
}

proof fn lemma_no_leading_zero(n: nat)
    ensures
        n > 0 ==> nat_text(n)[0] != '0',
        nat_text(n).len() > 1 ==> n > 0,
    decreases n,
{
    if n >= 10 {
        lemma_no_leading_zero(n / 10);
        lemma_nat_text_digits(n / 10);
        assert(nat_text(n)[0] == nat_text(n / 10)[0]);
    }
}

/// The padded text of a number is two digits or more, without a leading zero beyond two, and the
/// digits write the number.
pub proof fn law_padded_text(n: nat)
    ensures
        all_digits(padded_text(n)),
        digits_value(padded_text(n)) == n,
        padded_text(n).len() >= 2,
        padded_text(n).len() > 2 ==> padded_text(n)[0] != '0',
        n < 100 <==> padded_text(n).len() == 2,
{
    lemma_nat_text_digits(n);
    lemma_no_leading_zero(n);
    if n < 10 {
        lemma_zero_in_front(nat_text(n));
        assert forall|i: int| 0 <= i < padded_text(n).len() implies is_digit(
            #[trigger] padded_text(n)[i],
        ) by {
            if i > 0 {
                assert(padded_text(n)[i] == nat_text(n)[i - 1]);
            }
        }
    } else {
        assert(nat_text(n / 10).len() >= 1) by {
            lemma_nat_text_digits(n / 10);
        }
        if n >= 100 {
            lemma_nat_text_digits(n / 100);
            assert(n / 10 / 10 == n / 100);
        }
    }
}

/// Digits are read as the number that they write, behind a plus sign as without one, and behind a
/// minus sign as its negative, where 32 bits can hold it. Leading zeros do not matter.
pub proof fn law_digits_are_read(digits: Seq<char>)
    requires
        digits.len() > 0,
        forall|i: int| 0 <= i < digits.len() ==> '0' <= #[trigger] digits[i] <= '9',
    ensures
        ({
            let value = digits_value(digits);
            &&& parsed_i32(digits) == if value <= 0x7fff_ffff {
                Some(value as i32)
            } else {
                None
            }
            &&& parsed_i32(seq!['+'] + digits) == parsed_i32(digits)
            &&& parsed_i32(seq!['-'] + digits) == if value <= 0x8000_0000 {
                Some((-value) as i32)
            } else {
                None
            }
            &&& parsed_i32(seq!['0'] + digits) == parsed_i32(digits)
        }),
{
    lemma_digits_value_prefix(digits, digits.len() as int);
    assert(digits.take(digits.len() as int) =~= digits);
    assert((seq!['+'] + digits).drop_first() =~= digits);
    assert((seq!['-'] + digits).drop_first() =~= digits);
    assert(is_digit(digits[0]));
    let zero = seq!['0'] + digits;
    lemma_zero_in_front(digits);
    assert forall|i: int| 0 <= i < zero.len() implies is_digit(#[trigger] zero[i]) by {
        if i > 0 {
            assert(zero[i] == digits[i - 1]);
        }
    }
}

/// Nothing is read but digits behind at most one sign.
pub proof fn law_only_digits_are_read(s: Seq<char>)
    requires
        parsed_i32(s) is Some,
    ensures
        s.len() > 0,
        ({
            let signed = s[0] == '-' || s[0] == '+';
            &&& signed ==> s.len() > 1
            &&& forall|i: int|
                (if signed {
                    1int
                } else {
                    0
                }) <= i < s.len() ==> '0' <= #[trigger] s[i] <= '9'
        }),
{
    let digits = unsigned_part(s);
    assert forall|i: int|
        (if is_signed(s) {
            1int
        } else {
            0
        }) <= i < s.len() implies '0' <= #[trigger] s[i] <= '9' by {
        let k = if is_signed(s) {
            i - 1
        } else {
            i
        };
        assert(is_digit(digits[k]));
    }
}

} // verus!
