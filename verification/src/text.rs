//! Text helpers shared by the registry: line terminators and decimal numbers.
//!
//! Everything here is stated over `Seq<char>`, the view of `str` and `String`.

use vstd::prelude::*;

verus! {

/// `String::push` of the standard library. Its documentation promises that
/// the given character is appended to the end of the string; nothing else of
/// the string changes.
pub assume_specification[ String::push ](s: &mut String, ch: char)
    ensures
        final(s)@ == old(s)@.push(ch),
;

/// `String::pop` of the standard library. Its documentation promises that
/// the last character is removed from the string and returned, and that
/// `None` is returned when the string is empty, which then stays empty.
pub assume_specification[ String::pop ](s: &mut String) -> (last: Option<char>)
    ensures
        old(s)@.len() == 0 ==> last is None && final(s)@ == old(s)@,
        old(s)@.len() > 0 ==> last == Some(old(s)@.last()) && final(s)@ == old(s)@.drop_last(),
;

/// The character that ends a line on the wire.
pub open spec fn line_feed() -> char {
    '\n'
}

/// Line feed and carriage return: the characters a forwarded line is freed of.
pub open spec fn is_line_terminator(c: char) -> bool {
    c == '\n' || c == '\r'
}

/// Whether `text` already ends with a line feed.
pub open spec fn ends_with_line_feed(text: Seq<char>) -> bool {
    text.len() > 0 && text.last() == line_feed()
}

/// `text` with a line feed appended unless one is already its last character.
pub open spec fn normalized(text: Seq<char>) -> Seq<char> {
    if ends_with_line_feed(text) {
        text
    } else {
        text.push(line_feed())
    }
}

/// `text` without the line terminators at its end: the longest prefix of
/// `text` that does not end in a line feed or a carriage return.
pub open spec fn stripped(text: Seq<char>) -> Seq<char>
    decreases text.len(),
{
    if text.len() > 0 && is_line_terminator(text.last()) {
        stripped(text.drop_last())
    } else {
        text
    }
}

/// The decimal digit that stands for `d`, for `d` below ten.
pub open spec fn digit(d: nat) -> char
    recommends
        d < 10,
{
    if d == 0 {
        '0'
    } else if d == 1 {
        '1'
    } else if d == 2 {
        '2'
    } else if d == 3 {
        '3'
    } else if d == 4 {
        '4'
    } else if d == 5 {
        '5'
    } else if d == 6 {
        '6'
    } else if d == 7 {
        '7'
    } else if d == 8 {
        '8'
    } else {
        '9'
    }
}

/// The decimal numeral of `n`, without sign and without leading zeros.
pub open spec fn decimal(n: nat) -> Seq<char>
    decreases n,
{
    if n < 10 {
        seq![digit(n)]
    } else {
        decimal(n / 10).push(digit(n % 10))
    }
}

/// Makes `message` a complete line: appends a line feed unless the message
/// already ends with one.
pub fn normalize_message(message: &str) -> (line: String)
    ensures
        line@ == normalized(message@),
{
    let count: usize = message.unicode_len();
    let mut line = String::from_str(message);
    if count == 0 || message.get_char(count - 1) != '\n' {
        line.push('\n');
    }
    line
}

/// Frees `line` of the line terminators at its end.
pub fn strip_line_end(line: String) -> (bare: String)
    ensures
        bare@ == stripped(line@),
{
    let mut bare = line;
    loop
        invariant
            stripped(bare@) == stripped(line@),
        ensures
            bare@ == stripped(line@),
        decreases bare@.len(),
    {
        let ghost before = bare@;
        match bare.pop() {
            None => {
                break ;
            },
            Some(c) => {
                if c != '\n' && c != '\r' {
                    bare.push(c);
                    assert(bare@ =~= before);
                    break ;
                }
            },
        }
    }
    bare
}

/// The character of one decimal digit.
fn digit_char(d: u64) -> (c: char)
    requires
        d < 10,
    ensures
        c == digit(d as nat),
{
    if d == 0 {
        '0'
    } else if d == 1 {
        '1'
    } else if d == 2 {
        '2'
    } else if d == 3 {
        '3'
    } else if d == 4 {
        '4'
    } else if d == 5 {
        '5'
    } else if d == 6 {
        '6'
    } else if d == 7 {
        '7'
    } else if d == 8 {
        '8'
    } else {
        '9'
    }
}

/// Appends the decimal numeral of `n` to `out`.
pub fn push_decimal(out: &mut String, n: u64)
    ensures
        final(out)@ == old(out)@ + decimal(n as nat),
    decreases n,
{
    if n >= 10 {
        push_decimal(out, n / 10);
    }
    out.push(digit_char(n % 10));
    assert(final(out)@ =~= old(out)@ + decimal(n as nat));
}

/// The decimal numeral of `n` as a string.
pub fn decimal_string(n: u64) -> (text: String)
    ensures
        text@ == decimal(n as nat),
{
    let mut text = String::new();
    push_decimal(&mut text, n);
    assert(Seq::<char>::empty() + decimal(n as nat) =~= decimal(n as nat));
    text
}

} // verus!
