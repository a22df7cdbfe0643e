//! Text handling shared by the extraction rules: trimming, fixed prefixes
//! and decimal numbers, all over sequences of characters.

use vstd::prelude::*;
use vstd::string::*;

verus! {

/// Whether `c` is white space as Unicode defines it.
pub open spec fn is_white_space(c: char) -> bool {
    let code = c as u32;
    ||| 0x09 <= code <= 0x0D
    ||| code == 0x20
    ||| code == 0x85
    ||| code == 0xA0
    ||| code == 0x1680
    ||| 0x2000 <= code <= 0x200A
    ||| code == 0x2028
    ||| code == 0x2029
    ||| code == 0x202F
    ||| code == 0x205F
    ||| code == 0x3000
}

/// `s` without its leading white space.
pub open spec fn trim_start(s: Seq<char>) -> Seq<char>
    decreases s.len(),
{
    if s.len() > 0 && is_white_space(s[0]) {
        trim_start(s.skip(1))
    } else {
        s
    }
}

/// `s` without its trailing white space.
pub open spec fn trim_end(s: Seq<char>) -> Seq<char>
    decreases s.len(),
{
    if s.len() > 0 && is_white_space(s.last()) {
        trim_end(s.drop_last())
    } else {
        s
    }
}

/// `s` without leading and trailing white space.
pub open spec fn trimmed(s: Seq<char>) -> Seq<char> {
    trim_end(trim_start(s))
}

/// The characters of an optional string slice.
pub open spec fn slice_text(text: Option<&str>) -> Option<Seq<char>> {
    match text {
        Some(t) => Some(t@),
        None => None,
    }
}

/// The characters of each string slice, in order.
pub open spec fn slice_texts(slices: Seq<&str>) -> Seq<Seq<char>> {
    slices.map_values(|s: &str| s@)
}

/// The pieces of text written one after the other.
pub open spec fn joined(pieces: Seq<Seq<char>>) -> Seq<char>
    decreases pieces.len(),
{
    if pieces.len() == 0 {
        Seq::empty()
    } else {
        joined(pieces.drop_last()) + pieces.last()
    }
}

/// What follows the first `n` characters of `s`, if it has that many.
pub open spec fn after_prefix(s: Seq<char>, n: nat) -> Option<Seq<char>> {
    if s.len() >= n {
        Some(s.skip(n as int))
    } else {
        None
    }
}

/// Whether `c` is one of the ten ASCII digits.
pub open spec fn is_digit(c: char) -> bool {
    0x30 <= c as u32 <= 0x39
}

/// The value of a digit.
pub open spec fn digit_value(c: char) -> nat {
    if is_digit(c) {
        (c as u32 - 0x30) as nat
    } else {
        0
    }
}

/// Whether `s` holds digits only.
pub open spec fn all_digits(s: Seq<char>) -> bool {
    forall|i: int| 0 <= i < s.len() ==> is_digit(#[trigger] s[i])
}

/// The number that a run of digits denotes in base ten.
pub open spec fn digits_value(s: Seq<char>) -> nat
    decreases s.len(),
{
    if s.len() == 0 {
        0
    } else {
        10 * digits_value(s.drop_last()) + digit_value(s.last())
    }
}

/// `s` without one leading plus sign.
pub open spec fn unsigned_part(s: Seq<char>) -> Seq<char> {
    if s.len() > 0 && s[0] == '+' {
        s.skip(1)
    } else {
        s
    }
}

/// The number that `s` denotes: an optional plus sign and then at least one
/// digit, nothing else, with a value that fits the machine word.
pub open spec fn number_of(s: Seq<char>) -> Option<nat> {
    let digits = unsigned_part(s);
    if digits.len() > 0 && all_digits(digits) && digits_value(digits) <= usize::MAX {
        Some(digits_value(digits))
    } else {
        None
    }
}

/// The character of a digit below ten.
pub open spec fn digit_char(d: nat) -> char {
    if d == 0 {
        '0'
    } else if d == 1 {
        '1'
    } else if d == 2 {
        '2'
    } else if d == 3 {
        '3'
    } else if d == 4 {
        '4'
    } else if d == 5 {
        '5'
    } else if d == 6 {
        '6'
    } else if d == 7 {
        '7'
    } else if d == 8 {
        '8'
    } else {
        '9'
    }
}

/// The decimal digits of `n`, without leading zeros.
pub open spec fn decimal(n: nat) -> Seq<char>
    decreases n,
{
    if n < 10 {
        seq![digit_char(n)]
    } else {
        decimal(n / 10).push(digit_char(n % 10))
    }
}

/// The value of a prefix of a run of digits never exceeds that of the run.
pub proof fn lemma_digits_value_grows(s: Seq<char>, k: int)
    requires
        0 <= k <= s.len(),
    ensures
        digits_value(s.take(k)) <= digits_value(s),
    decreases s.len(),
{
    if k < s.len() {
        lemma_digits_value_grows(s.drop_last(), k);
        assert(s.drop_last().take(k) =~= s.take(k));
    } else {
        assert(s.take(k) =~= s);
    }
}

/// Tells white space from other characters.
pub fn white_space(c: char) -> (white: bool)
    ensures
        white == is_white_space(c),
{
    let code: u32 = c as u32;
    (0x09 <= code && code <= 0x0D) || code == 0x20 || code == 0x85 || code == 0xA0 || code
        == 0x1680 || (0x2000 <= code && code <= 0x200A) || code == 0x2028 || code == 0x2029
        || code == 0x202F || code == 0x205F || code == 0x3000
}

/// Cuts leading and trailing white space off `text`.
pub fn trim<'a>(text: &'a str) -> (cut: &'a str)
    ensures
        cut@ == trimmed(text@),
{
    let len: usize = text.unicode_len();
    let mut start: usize = 0;
    assert(text@.skip(0) =~= text@);
    while start < len && white_space(text.get_char(start))
        invariant
            start <= len,
            len == text@.len(),
            trim_start(text@) == trim_start(text@.skip(start as int)),
        decreases len - start,
    {
        assert(text@.skip(start as int).skip(1) =~= text@.skip(start as int + 1));
        start += 1;
    }
    let mut end: usize = len;
    assert(text@.subrange(start as int, len as int) =~= text@.skip(start as int));
    while end > start && white_space(text.get_char(end - 1))
        invariant
            start <= end <= len,
            len == text@.len(),
            trim_start(text@) == text@.skip(start as int),
            trimmed(text@) == trim_end(text@.subrange(start as int, end as int)),
        decreases end,
    {
        assert(text@.subrange(start as int, end as int).drop_last() =~= text@.subrange(
            start as int,
            end as int - 1,
        ));
        end -= 1;
    }
    text.substring_char(start, end)
}

/// Writes the pieces of text one after the other, with nothing between them.
pub fn join(pieces: &Vec<&str>) -> (text: String)
    ensures
        text@ == joined(slice_texts(pieces@)),
{
    let mut text = String::new();
    let mut i: usize = 0;
    assert(slice_texts(pieces@).take(0) =~= Seq::empty());
    while i < pieces.len()
        invariant
            i <= pieces.len(),
            text@ == joined(slice_texts(pieces@).take(i as int)),
        decreases pieces.len() - i,
    {
        assert(slice_texts(pieces@).take(i + 1).drop_last() =~= slice_texts(pieces@).take(
            i as int,
        ));
        text.append(pieces[i]);
        i += 1;
    }
    assert(slice_texts(pieces@).take(pieces.len() as int) =~= slice_texts(pieces@));
    text
}

/// Drops the first `n` characters of `text`; absent where `text` is shorter.
pub fn skip_prefix<'a>(text: &'a str, n: usize) -> (rest: Option<&'a str>)
    ensures
        slice_text(rest) == after_prefix(text@, n as nat),
{
    let len: usize = text.unicode_len();
    if len >= n {
        let rest = text.substring_char(n, len);
        assert(text@.subrange(n as int, len as int) =~= text@.skip(n as int));
        Some(rest)
    } else {
        None
    }
}

/// Reads a decimal number as the standard parser for machine words does.
pub fn parse_number(text: &str) -> (number: Option<usize>)
    ensures
        number.is_some() == number_of(text@).is_some(),
        number.is_some() ==> number.unwrap() as nat == number_of(text@).unwrap(),
{
    let len: usize = text.unicode_len();
    let first: usize = if len > 0 && text.get_char(0) == '+' {
        1
    } else {
        0
    };
    if first == len {
        return None;
    }
    let ghost digits = unsigned_part(text@);
    assert(digits =~= text@.skip(first as int));
    let mut value: usize = 0;
    let mut i: usize = first;
    assert(digits.take(0) =~= Seq::<char>::empty());
    while i < len
        invariant
            first <= i <= len,
            len == text@.len(),
            digits == text@.skip(first as int),
            digits == unsigned_part(text@),
            all_digits(digits.take(i - first)),
            value as nat == digits_value(digits.take(i - first)),
        decreases len - i,
    {
        let c: char = text.get_char(i);
        let code: u32 = c as u32;
        proof {
            assert(digits[i - first] == c);
            assert(digits.take(i - first + 1).drop_last() =~= digits.take(i - first));
            assert(digits.take(i - first + 1).last() == c);
            assert(digits_value(digits.take(i - first + 1)) == 10 * value + digit_value(c));
            lemma_digits_value_grows(digits, i - first + 1);
        }
        if code < 0x30 || code > 0x39 {
            assert(!is_digit(digits[i - first]));
            return None;
        }
        let digit: usize = (code - 0x30) as usize;
        let scaled: usize = match value.checked_mul(10) {
            Some(v) => v,
            None => {
                return None;
            },
        };
        value = match scaled.checked_add(digit) {
            Some(v) => v,
            None => {
                return None;
            },
        };
        assert forall|j: int| 0 <= j < i - first + 1 implies is_digit(
            #[trigger] digits.take(i - first + 1)[j],
        ) by {
            if j < i - first {
                assert(digits.take(i - first + 1)[j] == digits.take(i - first)[j]);
            }
        }
        i += 1;
    }
    assert(digits.take(len - first) =~= digits);
    Some(value)
}

/// The text of one digit.
fn digit_text(d: usize) -> (text: &'static str)
    requires
        d < 10,
    ensures
        text@ == seq![digit_char(d as nat)],
{
    proof {
        reveal_strlit("0");
        reveal_strlit("1");
        reveal_strlit("2");
        reveal_strlit("3");
        reveal_strlit("4");
        reveal_strlit("5");
        reveal_strlit("6");
        reveal_strlit("7");
        reveal_strlit("8");
        reveal_strlit("9");
    }
    let text = match d {
        0 => "0",
        1 => "1",
        2 => "2",
        3 => "3",
        4 => "4",
        5 => "5",
        6 => "6",
        7 => "7",
        8 => "8",
        _ => "9",
    };
    assert(text@ =~= seq![digit_char(d as nat)]);
    text
}

/// Writes the decimal digits of `n` at the end of `out`.
pub fn append_decimal(out: &mut String, n: usize)
    ensures
        final(out)@ == old(out)@ + decimal(n as nat),
    decreases n,
{
    if n >= 10 {
        append_decimal(out, n / 10);
    }
    out.append(digit_text(n % 10));
    assert(out@ =~= old(out)@ + decimal(n as nat));
}

} // verus!
