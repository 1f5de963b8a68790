//! Small text tools: comparing and building strings, and reading and writing
//! decimal numbers.

use vstd::prelude::*;
use vstd::string::*;

verus! {

/// `String::push`: appends one character.
#[verifier::external_body]
pub(crate) fn push_char(text: &mut String, c: char)
    ensures
        final(text)@ == old(text)@.push(c),
{
    text.push(c)
}

/// `String::pop`: removes the last character and returns it; an empty
/// string stays empty and gives `None`.
#[verifier::external_body]
pub(crate) fn pop_char(text: &mut String) -> (r: Option<char>)
    ensures
        old(text)@.len() == 0 ==> r.is_none() && final(text)@ == old(text)@,
        old(text)@.len() > 0 ==> r == Some(old(text)@.last()) && final(text)@ == old(text)@.drop_last(),
{
    text.pop()
}

/// Tells whether two strings hold the same characters.
pub fn same_text(a: &str, b: &str) -> (r: bool)
    ensures
        r == (a@ == b@),
{
    let la = a.unicode_len();
    let lb = b.unicode_len();
    if la != lb {
        return false;
    }
    let mut k: usize = 0;
    while k < la
        invariant
            k <= la,
            la == a@.len(),
            lb == b@.len(),
            la == lb,
            forall|i: int| 0 <= i < k ==> a@[i] == b@[i],
        decreases la - k,
    {
        if a.get_char(k) != b.get_char(k) {
            return false;
        }
        k = k + 1;
    }
    assert(a@ =~= b@);
    true
}

/// The character that writes the digit `d`.
pub open spec fn digit_char(d: int) -> char {
    if d == 0 {
        '0'
    } else if d == 1 {
        '1'
    } else if d == 2 {
        '2'
    } else if d == 3 {
        '3'
    } else if d == 4 {
        '4'
    } else if d == 5 {
        '5'
    } else if d == 6 {
        '6'
    } else if d == 7 {
        '7'
    } else if d == 8 {
        '8'
    } else {
        '9'
    }
}

/// The digit that `c` writes, if it is one of `0` to `9`.
pub open spec fn digit_value(c: char) -> Option<int> {
    if c == '0' {
        Some(0)
    } else if c == '1' {
        Some(1)
    } else if c == '2' {
        Some(2)
    } else if c == '3' {
        Some(3)
    } else if c == '4' {
        Some(4)
    } else if c == '5' {
        Some(5)
    } else if c == '6' {
        Some(6)
    } else if c == '7' {
        Some(7)
    } else if c == '8' {
        Some(8)
    } else if c == '9' {
        Some(9)
    } else {
        None
    }
}

/// A natural number written in decimal, without leading zeros.
pub open spec fn decimal(n: nat) -> Seq<char>
    decreases n,
{
    if n < 10 {
        seq![digit_char(n as int)]
    } else {
        decimal(n / 10).push(digit_char((n % 10) as int))
    }
}

/// An integer written in decimal, with a minus sign when it is negative.
pub open spec fn signed_decimal(i: int) -> Seq<char> {
    if i < 0 {
        seq!['-'] + decimal((-i) as nat)
    } else {
        decimal(i as nat)
    }
}

/// Whether every character is a decimal digit.
pub open spec fn all_digits(s: Seq<char>) -> bool {
    forall|i: int| 0 <= i < s.len() ==> (#[trigger] digit_value(s[i])).is_some()
}

/// The number that a run of digits writes; a character that is no digit
/// counts as zero.
pub open spec fn digits_number(s: Seq<char>) -> nat
    decreases s.len(),
{
    if s.len() == 0 {
        0
    } else {
        let d = match digit_value(s.last()) {
            Some(d) => d as nat,
            None => 0,
        };
        digits_number(s.drop_last()) * 10 + d
    }
}

/// What is left of a number's text once an optional leading plus sign is
/// taken off.
pub open spec fn unsigned_body(s: Seq<char>) -> Seq<char> {
    if s.len() > 0 && s[0] == '+' {
        s.drop_first()
    } else {
        s
    }
}

/// The reading of `s` as an unsigned 32-bit number: an optional plus sign,
/// then one digit or more and nothing else, the whole no greater than the
/// largest such number.
pub open spec fn parsed_u32(s: Seq<char>) -> Option<u32> {
    let body = unsigned_body(s);
    if body.len() > 0 && all_digits(body) && digits_number(body) <= u32::MAX {
        Some(digits_number(body) as u32)
    } else {
        None
    }
}

/// What is left of a number's text once an optional leading sign is taken
/// off.
pub open spec fn signed_body(s: Seq<char>) -> Seq<char> {
    if s.len() > 0 && (s[0] == '+' || s[0] == '-') {
        s.drop_first()
    } else {
        s
    }
}

/// The integer that the text `s` writes, where it writes one at all: the
/// number of its digits, negated where the text starts with a minus sign.
pub open spec fn signed_number(s: Seq<char>) -> int {
    if s.len() > 0 && s[0] == '-' {
        -(digits_number(signed_body(s)) as int)
    } else {
        digits_number(signed_body(s)) as int
    }
}

/// The reading of `s` as a signed 32-bit number: an optional plus or minus
/// sign, then one digit or more and nothing else, the whole within the range
/// of such numbers.
pub open spec fn parsed_i32(s: Seq<char>) -> Option<i32> {
    let body = signed_body(s);
    if body.len() > 0 && all_digits(body) && i32::MIN <= signed_number(s) <= i32::MAX {
        Some(signed_number(s) as i32)
    } else {
        None
    }
}

/// The reading of a text that is digits from end to end as a number no
/// greater than `limit`.
pub open spec fn parsed_digits(body: Seq<char>, limit: u32) -> Option<u32> {
    if body.len() > 0 && all_digits(body) && digits_number(body) <= limit {
        Some(digits_number(body) as u32)
    } else {
        None
    }
}

/// A longer run of digits writes a number at least as large as any of its
/// beginnings.
proof fn lemma_digits_number_grows(s: Seq<char>, k: int)
    requires
        0 <= k <= s.len(),
    ensures
        digits_number(s.take(k)) <= digits_number(s),
    decreases s.len(),
{
    if k == s.len() {
        assert(s.take(k) =~= s);
    } else {
        lemma_digits_number_grows(s.drop_last(), k);
        assert(s.drop_last().take(k) =~= s.take(k));
    }
}

fn digit_of(c: char) -> (r: Option<u32>)
    ensures
        match r {
            Some(d) => digit_value(c) == Some(d as int) && d < 10,
            None => digit_value(c).is_none(),
        },
{
    if c == '0' {
        Some(0)
    } else if c == '1' {
        Some(1)
    } else if c == '2' {
        Some(2)
    } else if c == '3' {
        Some(3)
    } else if c == '4' {
        Some(4)
    } else if c == '5' {
        Some(5)
    } else if c == '6' {
        Some(6)
    } else if c == '7' {
        Some(7)
    } else if c == '8' {
        Some(8)
    } else if c == '9' {
        Some(9)
    } else {
        None
    }
}

fn char_of_digit(d: u32) -> (c: char)
    requires
        d < 10,
    ensures
        c == digit_char(d as int),
{
    if d == 0 {
        '0'
    } else if d == 1 {
        '1'
    } else if d == 2 {
        '2'
    } else if d == 3 {
        '3'
    } else if d == 4 {
        '4'
    } else if d == 5 {
        '5'
    } else if d == 6 {
        '6'
    } else if d == 7 {
        '7'
    } else if d == 8 {
        '8'
    } else {
        '9'
    }
}

/// Reads the digits of `s` from the character at `start` to the end as a
/// number no greater than `limit`.
fn parse_digits(s: &str, start: usize, limit: u32) -> (r: Option<u32>)
    requires
        start <= s@.len(),
        limit >= 9,
    ensures
        r == parsed_digits(s@.subrange(start as int, s@.len() as int), limit),
{
    let n = s.unicode_len();
    let ghost body = s@.subrange(start as int, n as int);
    if start == n {
        return None;
    }
    let mut value: u32 = 0;
    let mut k: usize = start;
    while k < n
        invariant
            start <= k <= n,
            n == s@.len(),
            limit >= 9,
            body == s@.subrange(start as int, n as int),
            all_digits(body.take(k - start)),
            value == digits_number(body.take(k - start)),
            value <= limit,
        decreases n - k,
    {
        let c = s.get_char(k);
        let ghost shorter = body.take(k - start);
        let ghost longer = body.take(k - start + 1);
        assert(longer.drop_last() =~= shorter);
        assert(longer.last() == c);
        match digit_of(c) {
            None => {
                assert(digit_value(body[k - start]).is_none());
                return None;
            },
            Some(d) => {
                proof {
                    lemma_digits_number_grows(body, k - start + 1);
                }
                assert(digits_number(longer) == value * 10 + d);
                if value > (limit - d) / 10 {
                    assert(digits_number(longer) > limit);
                    return None;
                }
                value = value * 10 + d;
                assert forall|i: int| 0 <= i < longer.len() implies (#[trigger] digit_value(
                    longer[i],
                )).is_some() by {
                    if i < shorter.len() {
                        assert(longer[i] == shorter[i]);
                    }
                }
            },
        }
        k = k + 1;
    }
    assert(body.take(n - start) =~= body);
    Some(value)
}

/// Reads an unsigned 32-bit number from its decimal text.
pub fn parse_u32(s: &str) -> (r: Option<u32>)
    ensures
        r == parsed_u32(s@),
{
    let n = s.unicode_len();
    let start: usize = if n > 0 && s.get_char(0) == '+' {
        1
    } else {
        0
    };
    assert(unsigned_body(s@) =~= s@.subrange(start as int, n as int));
    parse_digits(s, start, u32::MAX)
}

/// Reads a signed 32-bit number from its decimal text.
pub fn parse_i32(s: &str) -> (r: Option<i32>)
    ensures
        r == parsed_i32(s@),
{
    let n = s.unicode_len();
    if n == 0 {
        return None;
    }
    let first = s.get_char(0);
    let negative = first == '-';
    let start: usize = if first == '-' || first == '+' {
        1
    } else {
        0
    };
    assert(signed_body(s@) =~= s@.subrange(start as int, n as int));
    if negative {
        match parse_digits(s, start, 2147483648u32) {
            Some(magnitude) => {
                if magnitude == 2147483648u32 {
                    Some(i32::MIN)
                } else {
                    Some(-(magnitude as i32))
                }
            },
            None => None,
        }
    } else {
        match parse_digits(s, start, 2147483647u32) {
            Some(magnitude) => Some(magnitude as i32),
            None => None,
        }
    }
}

/// The decimal text of a number is digits from end to end and writes that
/// number.
pub proof fn lemma_decimal_is_digits(n: nat)
    ensures
        decimal(n).len() > 0,
        all_digits(decimal(n)),
        digits_number(decimal(n)) == n,
        digit_value(decimal(n)[0]).is_some(),
    decreases n,
{
    if n < 10 {
        let text = decimal(n);
        assert(text.len() == 1);
        assert(text.drop_last().len() == 0);
        assert(digits_number(text.drop_last()) == 0);
        assert(digit_value(digit_char(n as int)) == Some(n as int));
    } else {
        let head = decimal(n / 10);
        let text = decimal(n);
        lemma_decimal_is_digits(n / 10);
        assert(text == head.push(digit_char((n % 10) as int)));
        assert(text.drop_last() =~= head);
        assert(text.last() == digit_char((n % 10) as int));
        assert(digit_value(digit_char((n % 10) as int)) == Some((n % 10) as int));
        assert(text[0] == head[0]);
        assert forall|i: int| 0 <= i < text.len() implies (#[trigger] digit_value(text[i])).is_some() by {
            if i < head.len() {
                assert(text[i] == head[i]);
            }
        }
    }
}

/// A number written in decimal reads back as that number.
pub proof fn lemma_decimal_reads_back(n: u32)
    ensures
        parsed_u32(decimal(n as nat)) == Some(n),
{
    lemma_decimal_is_digits(n as nat);
}

/// An integer written in decimal reads back as that integer.
pub proof fn lemma_signed_decimal_reads_back(i: i32)
    ensures
        parsed_i32(signed_decimal(i as int)) == Some(i),
{
    if i < 0 {
        let digits = decimal((-i) as nat);
        let text = signed_decimal(i as int);
        lemma_decimal_is_digits((-i) as nat);
        assert(text == seq!['-'] + digits);
        assert(text[0] == '-');
        assert(text.drop_first() =~= digits);
    } else {
        lemma_decimal_is_digits(i as nat);
    }
}

/// Writes a natural number in decimal.
pub fn decimal_text(n: u32) -> (text: String)
    ensures
        text@ == decimal(n as nat),
{
    let mut digits: Vec<u32> = Vec::new();
    let mut rest: u32 = n;
    // The digits of `n`, last one first.
    while rest >= 10
        invariant
            forall|i: int| 0 <= i < digits.len() ==> digits[i] < 10,
            decimal(n as nat) == decimal(rest as nat) + Seq::new(
                digits.len() as nat,
                |i: int| digit_char(digits[digits.len() - 1 - i] as int),
            ),
        decreases rest,
    {
        let ghost before = digits@;
        let ghost tail = Seq::new(
            before.len() as nat,
            |i: int| digit_char(before[before.len() - 1 - i] as int),
        );
        digits.push(rest % 10);
        proof {
            let now = Seq::new(
                digits.len() as nat,
                |i: int| digit_char(digits[digits.len() - 1 - i] as int),
            );
            assert(now =~= seq![digit_char((rest % 10) as int)] + tail);
            assert(decimal(rest as nat) == decimal((rest / 10) as nat).push(
                digit_char((rest % 10) as int),
            ));
            assert(decimal(n as nat) =~= decimal((rest / 10) as nat) + now);
        }
        rest = rest / 10;
    }
    let mut text = String::new();
    push_char(&mut text, char_of_digit(rest));
    let ghost head = decimal(rest as nat);
    assert(text@ =~= head);
    let mut k: usize = digits.len();
    while k > 0
        invariant
            k <= digits.len(),
            forall|i: int| 0 <= i < digits.len() ==> digits[i] < 10,
            text@ == head + Seq::new(
                (digits.len() - k) as nat,
                |i: int| digit_char(digits[digits.len() - 1 - i] as int),
            ),
        decreases k,
    {
        k = k - 1;
        let ghost before = text@;
        push_char(&mut text, char_of_digit(digits[k]));
        assert(text@ =~= head + Seq::new(
            (digits.len() - k) as nat,
            |i: int| digit_char(digits[digits.len() - 1 - i] as int),
        ));
    }
    text
}

/// Writes an integer in decimal, with a minus sign when it is negative.
pub fn signed_decimal_text(i: i32) -> (text: String)
    ensures
        text@ == signed_decimal(i as int),
{
    if i < 0 {
        let magnitude: u32 = if i == i32::MIN {
            2147483648u32
        } else {
            (-i) as u32
        };
        let digits = decimal_text(magnitude);
        let mut text = String::new();
        push_char(&mut text, '-');
        text.append(digits.as_str());
        assert(text@ =~= seq!['-'] + decimal((-i) as nat));
        text
    } else {
        decimal_text(i as u32)
    }
}

} // verus!
