//! Small verified helpers on text.

use vstd::prelude::*;

verus! {

/// `a` followed by `b`.
pub fn join2(a: &str, b: &str) -> (text: String)
    ensures
        text@ == a@ + b@,
{
    String::from_str(a).concat(b)
}

/// `a`, `b` and `c` in a row.
pub fn join3(a: &str, b: &str, c: &str) -> (text: String)
    ensures
        text@ == a@ + b@ + c@,
{
    String::from_str(a).concat(b).concat(c)
}

/// Whether two texts hold the same characters.
pub fn text_eq(a: &str, b: &str) -> (same: bool)
    ensures
        same == (a@ == b@),
{
    let left = String::from_str(a);
    let right = String::from_str(b);
    left == right
}

/// A copy of an optional string.
pub fn copy_optional_text(value: &Option<String>) -> (copy: Option<String>)
    ensures
        copy is Some == value is Some,
        copy matches Some(c) ==> value matches Some(v) && c@ == v@,
{
    match value {
        Some(text) => Some(text.clone()),
        None => None,
    }
}

/// The view of an optional string slice.
pub open spec fn optional_str(value: Option<&str>) -> Option<Seq<char>> {
    match value {
        Some(text) => Some(text@),
        None => None,
    }
}

/// The view of an optional string.
pub open spec fn optional_text(value: Option<String>) -> Option<Seq<char>> {
    match value {
        Some(text) => Some(text@),
        None => None,
    }
}

/// Whether `text` begins with `prefix`.
pub open spec fn has_prefix(text: Seq<char>, prefix: Seq<char>) -> bool {
    prefix.len() <= text.len() && text.subrange(0, prefix.len() as int) == prefix
}

/// `text` without every leading repetition of `prefix`.
pub open spec fn without_leading(text: Seq<char>, prefix: Seq<char>) -> Seq<char>
    decreases text.len(),
{
    if prefix.len() > 0 && has_prefix(text, prefix) {
        without_leading(text.skip(prefix.len() as int), prefix)
    } else {
        text
    }
}

/// `text` without every trailing repetition of the character `tail`.
pub open spec fn without_trailing(text: Seq<char>, tail: char) -> Seq<char>
    decreases text.len(),
{
    if text.len() > 0 && text.last() == tail {
        without_trailing(text.drop_last(), tail)
    } else {
        text
    }
}

/// Whether `text` begins with `prefix`.
pub fn starts_with(text: &str, prefix: &str) -> (found: bool)
    ensures
        found == has_prefix(text@, prefix@),
{
    let text_len = text.unicode_len();
    let prefix_len = prefix.unicode_len();
    if prefix_len > text_len {
        return false;
    }
    let mut i: usize = 0;
    while i < prefix_len
        invariant
            i <= prefix_len <= text_len,
            prefix_len == prefix@.len(),
            text_len == text@.len(),
            forall|k: int| 0 <= k < i ==> text@[k] == prefix@[k],
        decreases prefix_len - i,
    {
        if text.get_char(i) != prefix.get_char(i) {
            return false;
        }
        i += 1;
    }
    assert(text@.subrange(0, prefix@.len() as int) =~= prefix@);
    true
}

/// `text` without every leading repetition of `prefix`.
pub fn trim_start_matches<'a>(text: &'a str, prefix: &str) -> (rest: &'a str)
    ensures
        rest@ == without_leading(text@, prefix@),
{
    let prefix_len = prefix.unicode_len();
    let mut rest = text;
    if prefix_len == 0 {
        return rest;
    }
    while starts_with(rest, prefix)
        invariant
            prefix_len == prefix@.len(),
            prefix_len > 0,
            without_leading(rest@, prefix@) == without_leading(text@, prefix@),
        decreases rest@.len(),
    {
        let rest_len = rest.unicode_len();
        let shorter = rest.substring_char(prefix_len, rest_len);
        rest = shorter;
    }
    rest
}

/// `text` without every trailing repetition of the character `tail`.
pub fn trim_end_matches<'a>(text: &'a str, tail: char) -> (rest: &'a str)
    ensures
        rest@ == without_trailing(text@, tail),
{
    let mut end: usize = text.unicode_len();
    assert(text@.take(end as int) =~= text@);
    while end > 0 && text.get_char(end - 1) == tail
        invariant
            end <= text@.len(),
            without_trailing(text@.take(end as int), tail) == without_trailing(text@, tail),
        decreases end,
    {
        assert(text@.take(end as int).drop_last() =~= text@.take(end - 1));
        end -= 1;
    }
    text.substring_char(0, end)
}

/// The first position at which `mark` stands in `text`.
pub open spec fn first_index(text: Seq<char>, mark: char) -> Option<int>
    decreases text.len(),
{
    if text.len() == 0 {
        None
    } else if text[0] == mark {
        Some(0)
    } else {
        match first_index(text.skip(1), mark) {
            Some(i) => Some(i + 1),
            None => None,
        }
    }
}

/// `first_index`, from what stands before a position.
pub proof fn lemma_first_index(text: Seq<char>, mark: char, upto: int)
    requires
        0 <= upto <= text.len(),
        forall|k: int| 0 <= k < upto ==> text[k] != mark,
    ensures
        upto < text.len() && text[upto] == mark ==> first_index(text, mark) == Some(upto),
        upto == text.len() ==> first_index(text, mark) is None,
        first_index(text, mark) matches Some(i) ==> upto <= i < text.len() && text[i] == mark,
    decreases text.len(),
{
    if text.len() > 0 {
        let rest = text.skip(1);
        if upto > 0 {
            lemma_first_index(rest, mark, upto - 1);
        } else {
            lemma_first_index(rest, mark, 0);
        }
    }
}

/// The first position at which `mark` stands in `text`.
pub fn find_char(text: &str, mark: char) -> (position: Option<usize>)
    ensures
        match position {
            Some(i) => first_index(text@, mark) == Some(i as int) && i < text@.len(),
            None => first_index(text@, mark) is None,
        },
{
    let len = text.unicode_len();
    let mut i: usize = 0;
    while i < len
        invariant
            i <= len,
            len == text@.len(),
            forall|k: int| 0 <= k < i ==> text@[k] != mark,
        decreases len - i,
    {
        if text.get_char(i) == mark {
            proof {
                lemma_first_index(text@, mark, i as int);
            }
            return Some(i);
        }
        i += 1;
    }
    proof {
        lemma_first_index(text@, mark, len as int);
    }
    None
}

/// The decimal digit for a value below ten.
pub open spec fn digit_char(digit: int) -> char {
    if digit == 0 {
        '0'
    } else if digit == 1 {
        '1'
    } else if digit == 2 {
        '2'
    } else if digit == 3 {
        '3'
    } else if digit == 4 {
        '4'
    } else if digit == 5 {
        '5'
    } else if digit == 6 {
        '6'
    } else if digit == 7 {
        '7'
    } else if digit == 8 {
        '8'
    } else {
        '9'
    }
}

/// The decimal digits of a natural number, without leading zeros.
pub open spec fn decimal_digits(number: nat) -> Seq<char>
    decreases number,
{
    if number < 10 {
        seq![digit_char(number as int)]
    } else {
        decimal_digits(number / 10).push(digit_char((number % 10) as int))
    }
}

/// The decimal text of an integer, with a minus sign where it is negative.
pub open spec fn decimal_text(number: int) -> Seq<char> {
    if number < 0 {
        seq!['-'] + decimal_digits((-number) as nat)
    } else {
        decimal_digits(number as nat)
    }
}

/// The text of one decimal digit.
fn digit_str(digit: u64) -> (text: &'static str)
    requires
        digit < 10,
    ensures
        text@ == seq![digit_char(digit as int)],
{
    proof {
        reveal_strlit("0");
        reveal_strlit("1");
        reveal_strlit("2");
        reveal_strlit("3");
        reveal_strlit("4");
        reveal_strlit("5");
        reveal_strlit("6");
        reveal_strlit("7");
        reveal_strlit("8");
        reveal_strlit("9");
    }
    let text = if digit == 0 {
        "0"
    } else if digit == 1 {
        "1"
    } else if digit == 2 {
        "2"
    } else if digit == 3 {
        "3"
    } else if digit == 4 {
        "4"
    } else if digit == 5 {
        "5"
    } else if digit == 6 {
        "6"
    } else if digit == 7 {
        "7"
    } else if digit == 8 {
        "8"
    } else {
        "9"
    };
    text
}

/// The decimal text of an unsigned number.
pub fn u64_text(number: u64) -> (text: String)
    ensures
        text@ == decimal_text(number as int),
    decreases number,
{
    if number < 10 {
        String::from_str(digit_str(number))
    } else {
        let mut text = u64_text(number / 10);
        text.append(digit_str(number % 10));
        text
    }
}

/// The decimal text of a signed number.
pub fn i64_text(number: i64) -> (text: String)
    ensures
        text@ == decimal_text(number as int),
{
    if number < 0 {
        let magnitude: u64 = (-(number as i128)) as u64;
        let digits = u64_text(magnitude);
        proof {
            reveal_strlit("-");
        }
        String::from_str("-").concat(digits.as_str())
    } else {
        u64_text(number as u64)
    }
}

/// The text of a byte string, where the bytes are UTF-8. This is
/// `String::from_utf8` of the standard library, which gives the text exactly
/// when the bytes are valid UTF-8.
#[verifier::external_body]
pub(crate) fn text_of_utf8(bytes: Vec<u8>) -> (text: Option<String>)
    ensures
        match text {
            Some(decoded) => vstd::utf8::valid_utf8(bytes@) && decoded@ == vstd::utf8::decode_utf8(
                bytes@,
            ),
            None => !vstd::utf8::valid_utf8(bytes@),
        },
{
    String::from_utf8(bytes).ok()
}

/// The text, or the empty text where there is none.
pub open spec fn or_empty(text: Option<Seq<char>>) -> Seq<char> {
    match text {
        Some(given) => given,
        None => Seq::empty(),
    }
}

/// The text, or the empty text where there is none.
pub fn text_or_empty(text: Option<String>) -> (given: String)
    ensures
        given@ == or_empty(optional_text(text)),
{
    match text {
        Some(given) => given,
        None => String::new(),
    }
}

/// `text` with every occurrence of `from` replaced by `to`, read from the
/// left. An empty `from` occurs nowhere.
pub open spec fn replaced(text: Seq<char>, from: Seq<char>, to: Seq<char>) -> Seq<char>
    decreases text.len(),
{
    if text.len() == 0 || from.len() == 0 {
        text
    } else if has_prefix(text, from) {
        to + replaced(text.skip(from.len() as int), from, to)
    } else {
        seq![text[0]] + replaced(text.skip(1), from, to)
    }
}

/// `text` with every occurrence of `from` replaced by `to`.
pub fn replace_all(text: &str, from: &str, to: &str) -> (result: String)
    ensures
        result@ == replaced(text@, from@, to@),
{
    let length = text.unicode_len();
    let from_length = from.unicode_len();
    if from_length == 0 {
        return String::from_str(text);
    }
    let mut result = String::new();
    let mut i: usize = 0;
    assert(text@.skip(0) =~= text@);
    while i < length
        invariant
            i <= length,
            length == text@.len(),
            from_length == from@.len(),
            from_length > 0,
            result@ + replaced(text@.skip(i as int), from@, to@) == replaced(text@, from@, to@),
        decreases length - i,
    {
        let rest = text.substring_char(i, length);
        if starts_with(rest, from) {
            result.append(to);
            assert(text@.skip(i as int).skip(from@.len() as int) =~= text@.skip(i + from_length));
            i += from_length;
        } else {
            let one = text.substring_char(i, i + 1);
            result.append(one);
            assert(text@.skip(i as int).skip(1) =~= text@.skip(i + 1));
            i += 1;
        }
    }
    result
}

} // verus!
