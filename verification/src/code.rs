//! The session code in its one canonical form: a number below a million,
//! shown to people as six digits with leading zeros.

use vstd::prelude::*;

verus! {

/// Number of digits of a code as shown.
pub const CODE_DIGITS: usize = 6;

/// The least number that is no code.
pub const CODE_LIMIT: usize = 1_000_000;

/// The character of a decimal digit.
pub open spec fn digit_char(digit: int) -> char {
    if digit == 0 {
        '0'
    } else if digit == 1 {
        '1'
    } else if digit == 2 {
        '2'
    } else if digit == 3 {
        '3'
    } else if digit == 4 {
        '4'
    } else if digit == 5 {
        '5'
    } else if digit == 6 {
        '6'
    } else if digit == 7 {
        '7'
    } else if digit == 8 {
        '8'
    } else {
        '9'
    }
}

/// The decimal digit that a character stands for, if it stands for one.
pub open spec fn digit_of(c: char) -> Option<int> {
    if c == '0' {
        Some(0)
    } else if c == '1' {
        Some(1)
    } else if c == '2' {
        Some(2)
    } else if c == '3' {
        Some(3)
    } else if c == '4' {
        Some(4)
    } else if c == '5' {
        Some(5)
    } else if c == '6' {
        Some(6)
    } else if c == '7' {
        Some(7)
    } else if c == '8' {
        Some(8)
    } else if c == '9' {
        Some(9)
    } else {
        None
    }
}

/// A code as shown: its six decimal digits, the most significant first.
pub open spec fn code_text(code: int) -> Seq<char> {
    seq![
        digit_char(code / 100000 % 10),
        digit_char(code / 10000 % 10),
        digit_char(code / 1000 % 10),
        digit_char(code / 100 % 10),
        digit_char(code / 10 % 10),
        digit_char(code % 10),
    ]
}

/// The text shows a code: it is six decimal digits and nothing else.
pub open spec fn is_code_text(text: Seq<char>) -> bool {
    &&& text.len() == CODE_DIGITS
    &&& digit_of(text[0]) is Some
    &&& digit_of(text[1]) is Some
    &&& digit_of(text[2]) is Some
    &&& digit_of(text[3]) is Some
    &&& digit_of(text[4]) is Some
    &&& digit_of(text[5]) is Some
}

/// The code that six digits show.
pub open spec fn code_value(text: Seq<char>) -> int {
    digit_of(text[0])->0 * 100000 + digit_of(text[1])->0 * 10000 + digit_of(text[2])->0 * 1000
        + digit_of(text[3])->0 * 100 + digit_of(text[4])->0 * 10 + digit_of(text[5])->0
}

/// The text of one decimal digit.
fn digit_text(digit: usize) -> (text: &'static str)
    requires
        digit < 10,
    ensures
        text@ == seq![digit_char(digit as int)],
{
    proof {
        reveal_strlit("0");
        reveal_strlit("1");
        reveal_strlit("2");
        reveal_strlit("3");
        reveal_strlit("4");
        reveal_strlit("5");
        reveal_strlit("6");
        reveal_strlit("7");
        reveal_strlit("8");
        reveal_strlit("9");
    }
    let text = if digit == 0 {
        "0"
    } else if digit == 1 {
        "1"
    } else if digit == 2 {
        "2"
    } else if digit == 3 {
        "3"
    } else if digit == 4 {
        "4"
    } else if digit == 5 {
        "5"
    } else if digit == 6 {
        "6"
    } else if digit == 7 {
        "7"
    } else if digit == 8 {
        "8"
    } else {
        "9"
    };
    assert(text@ =~= seq![digit_char(digit as int)]);
    text
}

/// The decimal digit that a character stands for, if it stands for one.
fn digit_value(c: char) -> (digit: Option<usize>)
    ensures
        digit is Some <==> digit_of(c) is Some,
        digit matches Some(d) ==> digit_of(c) == Some(d as int) && d < 10,
{
    if c == '0' {
        Some(0)
    } else if c == '1' {
        Some(1)
    } else if c == '2' {
        Some(2)
    } else if c == '3' {
        Some(3)
    } else if c == '4' {
        Some(4)
    } else if c == '5' {
        Some(5)
    } else if c == '6' {
        Some(6)
    } else if c == '7' {
        Some(7)
    } else if c == '8' {
        Some(8)
    } else if c == '9' {
        Some(9)
    } else {
        None
    }
}

/// Writes a code as six digits with leading zeros; a number of a million or
/// more is no code and has no such form.
pub fn format_code(code: usize) -> (text: Option<String>)
    ensures
        match text {
            Some(shown) => code < CODE_LIMIT && shown@ == code_text(code as int),
            None => code >= CODE_LIMIT,
        },
{
    if code >= CODE_LIMIT {
        return None;
    }
    let mut shown = String::new();
    shown.append(digit_text(code / 100000 % 10));
    shown.append(digit_text(code / 10000 % 10));
    shown.append(digit_text(code / 1000 % 10));
    shown.append(digit_text(code / 100 % 10));
    shown.append(digit_text(code / 10 % 10));
    shown.append(digit_text(code % 10));
    assert(shown@ =~= code_text(code as int));
    Some(shown)
}

/// Reads a code from its six digits; any other text shows no code.
pub fn parse_code(text: &str) -> (code: Option<usize>)
    ensures
        match code {
            Some(value) => is_code_text(text@) && value == code_value(text@) && value < CODE_LIMIT,
            None => !is_code_text(text@),
        },
{
    if text.unicode_len() != CODE_DIGITS {
        return None;
    }
    let d0 = match digit_value(text.get_char(0)) {
        Some(d) => d,
        None => {
            return None;
        },
    };
    let d1 = match digit_value(text.get_char(1)) {
        Some(d) => d,
        None => {
            return None;
        },
    };
    let d2 = match digit_value(text.get_char(2)) {
        Some(d) => d,
        None => {
            return None;
        },
    };
    let d3 = match digit_value(text.get_char(3)) {
        Some(d) => d,
        None => {
            return None;
        },
    };
    let d4 = match digit_value(text.get_char(4)) {
        Some(d) => d,
        None => {
            return None;
        },
    };
    let d5 = match digit_value(text.get_char(5)) {
        Some(d) => d,
        None => {
            return None;
        },
    };
    Some(d0 * 100000 + d1 * 10000 + d2 * 1000 + d3 * 100 + d4 * 10 + d5)
}

/// A digit's character stands for that digit.
proof fn lemma_digit_char_read(digit: int)
    requires
        0 <= digit < 10,
    ensures
        digit_of(digit_char(digit)) == Some(digit),
{
}

/// A character that stands for a digit is that digit's character.
proof fn lemma_digit_char_unique(c: char)
    requires
        digit_of(c) is Some,
    ensures
        0 <= digit_of(c)->0 < 10,
        digit_char(digit_of(c)->0) == c,
{
}

/// The digits of a number below a million, each weighted by its place, add
/// up to the number.
proof fn lemma_places_add_up(code: int)
    requires
        0 <= code < CODE_LIMIT,
    ensures
        code == (code / 100000 % 10) * 100000 + (code / 10000 % 10) * 10000 + (code / 1000 % 10)
            * 1000 + (code / 100 % 10) * 100 + (code / 10 % 10) * 10 + code % 10,
{
    let q1 = code / 10;
    let q2 = q1 / 10;
    let q3 = q2 / 10;
    let q4 = q3 / 10;
    let q5 = q4 / 10;
    assert(q2 == code / 100 && q3 == code / 1000 && q4 == code / 10000 && q5 == code / 100000);
    assert(q5 < 10);
}

/// Six digits weighted by their places are the digits of their sum.
proof fn lemma_places_read_back(d0: int, d1: int, d2: int, d3: int, d4: int, d5: int)
    requires
        0 <= d0 < 10,
        0 <= d1 < 10,
        0 <= d2 < 10,
        0 <= d3 < 10,
        0 <= d4 < 10,
        0 <= d5 < 10,
    ensures
        ({
            let code = d0 * 100000 + d1 * 10000 + d2 * 1000 + d3 * 100 + d4 * 10 + d5;
            &&& 0 <= code < CODE_LIMIT
            &&& code / 100000 % 10 == d0
            &&& code / 10000 % 10 == d1
            &&& code / 1000 % 10 == d2
            &&& code / 100 % 10 == d3
            &&& code / 10 % 10 == d4
            &&& code % 10 == d5
        }),
{
    let code = d0 * 100000 + d1 * 10000 + d2 * 1000 + d3 * 100 + d4 * 10 + d5;
    assert(code / 100000 == d0);
    assert(code / 10000 == d0 * 10 + d1);
    assert(code / 1000 == d0 * 100 + d1 * 10 + d2);
    assert(code / 100 == d0 * 1000 + d1 * 100 + d2 * 10 + d3);
    assert(code / 10 == d0 * 10000 + d1 * 1000 + d2 * 100 + d3 * 10 + d4);
}

/// Writing a code and reading it back gives the code.
pub proof fn lemma_code_round_trip(code: int)
    requires
        0 <= code < CODE_LIMIT,
    ensures
        is_code_text(code_text(code)),
        code_value(code_text(code)) == code,
{
    lemma_digit_char_read(code / 100000 % 10);
    lemma_digit_char_read(code / 10000 % 10);
    lemma_digit_char_read(code / 1000 % 10);
    lemma_digit_char_read(code / 100 % 10);
    lemma_digit_char_read(code / 10 % 10);
    lemma_digit_char_read(code % 10);
    lemma_places_add_up(code);
}

/// Reading a code and writing it again gives the text that was read: a code
/// has one form only.
pub proof fn lemma_code_text_unique(text: Seq<char>)
    requires
        is_code_text(text),
    ensures
        0 <= code_value(text) < CODE_LIMIT,
        code_text(code_value(text)) == text,
{
    lemma_digit_char_unique(text[0]);
    lemma_digit_char_unique(text[1]);
    lemma_digit_char_unique(text[2]);
    lemma_digit_char_unique(text[3]);
    lemma_digit_char_unique(text[4]);
    lemma_digit_char_unique(text[5]);
    lemma_places_read_back(
        digit_of(text[0])->0,
        digit_of(text[1])->0,
        digit_of(text[2])->0,
        digit_of(text[3])->0,
        digit_of(text[4])->0,
        digit_of(text[5])->0,
    );
    assert(code_text(code_value(text)) =~= text);
}

} // verus!
