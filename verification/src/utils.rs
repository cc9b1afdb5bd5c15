//! Small helpers shared by the other modules.

use vstd::prelude::*;
use vstd::string::*;

verus! {

/// Whether `c` has the Unicode property White_Space.
pub open spec fn is_whitespace(c: char) -> bool {
    let u = c as u32;
    ||| 0x09 <= u <= 0x0D
    ||| u == 0x20
    ||| u == 0x85
    ||| u == 0xA0
    ||| u == 0x1680
    ||| 0x2000 <= u <= 0x200A
    ||| u == 0x2028
    ||| u == 0x2029
    ||| u == 0x202F
    ||| u == 0x205F
    ||| u == 0x3000
}

/// Whether a word starts at position `i` of `s`: a character that is not
/// white space, at the start or right after white space.
pub open spec fn word_starts_at(s: Seq<char>, i: int) -> bool {
    &&& 0 <= i < s.len()
    &&& !is_whitespace(s[i])
    &&& (i == 0 || is_whitespace(s[i - 1]))
}

/// The number of words among the first `n` characters of `s`, a word being
/// a maximal run of characters that are not white space.
pub open spec fn word_count_upto(s: Seq<char>, n: int) -> nat
    decreases n,
{
    if n <= 0 {
        0
    } else {
        word_count_upto(s, n - 1) + if word_starts_at(s, n - 1) {
            1nat
        } else {
            0nat
        }
    }
}

/// The number of white-space separated words of `s`.
pub open spec fn word_count(s: Seq<char>) -> nat {
    word_count_upto(s, s.len() as int)
}

/// The message of a rejected schedule expression.
pub open spec fn cron_parts_error() -> Seq<char> {
    "L'expression cron doit contenir exactement 6 parties"@
}

/// Tests `c` for the Unicode property White_Space.
pub fn is_whitespace_char(c: char) -> (r: bool)
    ensures
        r == is_whitespace(c),
{
    let u: u32 = c as u32;
    (0x09 <= u && u <= 0x0D) || u == 0x20 || u == 0x85 || u == 0xA0 || u == 0x1680 || (0x2000 <= u
        && u <= 0x200A) || u == 0x2028 || u == 0x2029 || u == 0x202F || u == 0x205F || u == 0x3000
}

/// Counts the white-space separated words of `text`.
pub fn count_words(text: &str) -> (n: usize)
    ensures
        n == word_count(text@),
{
    let len: usize = text.unicode_len();
    let mut count: usize = 0;
    let mut previous_is_space: bool = true;
    let mut i: usize = 0;
    while i < len
        invariant
            len == text@.len(),
            i <= len,
            count == word_count_upto(text@, i as int),
            count <= i,
            previous_is_space == (i == 0 || is_whitespace(text@[i - 1])),
        decreases len - i,
    {
        let c: char = text.get_char(i);
        let space: bool = is_whitespace_char(c);
        if !space && previous_is_space {
            count = count + 1;
        }
        previous_is_space = space;
        i = i + 1;
    }
    count
}

/// Accepts a schedule expression that has exactly six white-space
/// separated parts, and rejects any other with an explanation.
pub fn validate_cron_expression(expression: &str) -> (r: Result<(), String>)
    ensures
        r is Ok <==> word_count(expression@) == 6,
        r matches Err(msg) ==> msg@ == cron_parts_error(),
{
    if count_words(expression) != 6 {
        return Err(String::from_str("L'expression cron doit contenir exactement 6 parties"));
    }
    Ok(())
}

/// The character that stands for the decimal digit `d`.
pub open spec fn digit_char(d: int) -> char {
    if d == 0 {
        '0'
    } else if d == 1 {
        '1'
    } else if d == 2 {
        '2'
    } else if d == 3 {
        '3'
    } else if d == 4 {
        '4'
    } else if d == 5 {
        '5'
    } else if d == 6 {
        '6'
    } else if d == 7 {
        '7'
    } else if d == 8 {
        '8'
    } else {
        '9'
    }
}

/// The decimal numeral of `n`, without leading zeros.
pub open spec fn decimal_text(n: nat) -> Seq<char>
    decreases n,
{
    if n < 10 {
        seq![digit_char(n as int)]
    } else {
        decimal_text(n / 10).push(digit_char((n % 10) as int))
    }
}

/// The one-character text of the decimal digit `d`.
pub fn digit_text(d: u64) -> (text: &'static str)
    requires
        d < 10,
    ensures
        text@ == seq![digit_char(d as int)],
{
    proof {
        reveal_strlit("0");
        reveal_strlit("1");
        reveal_strlit("2");
        reveal_strlit("3");
        reveal_strlit("4");
        reveal_strlit("5");
        reveal_strlit("6");
        reveal_strlit("7");
        reveal_strlit("8");
        reveal_strlit("9");
    }
    let text = if d == 0 {
        "0"
    } else if d == 1 {
        "1"
    } else if d == 2 {
        "2"
    } else if d == 3 {
        "3"
    } else if d == 4 {
        "4"
    } else if d == 5 {
        "5"
    } else if d == 6 {
        "6"
    } else if d == 7 {
        "7"
    } else if d == 8 {
        "8"
    } else {
        "9"
    };
    text
}

/// Writes `n` as a decimal numeral.
pub fn decimal_string(n: u64) -> (text: String)
    ensures
        text@ == decimal_text(n as nat),
    decreases n,
{
    if n < 10 {
        String::from_str(digit_text(n))
    } else {
        let text = decimal_string(n / 10).concat(digit_text(n % 10));
        text
    }
}

/// Whether two texts are the same.
pub fn text_equals(a: &str, b: &str) -> (same: bool)
    ensures
        same == (a@ == b@),
{
    String::from_str(a) == String::from_str(b)
}

/// What `chrono::DateTime::from_timestamp` and `format` make of the
/// instant `seconds` after the epoch under the pattern
/// `%Y-%m-%d %H:%M:%S UTC`: the date and time in words of digits, or
/// `None` where chrono has no date for the instant.
pub uninterp spec fn chrono_utc_text(seconds: i64) -> Option<Seq<char>>;

/// Calls `chrono::DateTime::from_timestamp` on `seconds` and zero
/// nanoseconds, and `format` with the pattern `%Y-%m-%d %H:%M:%S UTC` on
/// what comes back. Trusted: the result is the one chrono gives for this
/// instant.
#[verifier::external_body]
fn chrono_format_utc(seconds: i64) -> (text: Option<String>)
    ensures
        match text {
            Some(t) => chrono_utc_text(seconds) == Some(t@),
            None => chrono_utc_text(seconds) is None,
        },
{
    match chrono::DateTime::from_timestamp(seconds, 0) {
        Some(moment) => Some(moment.format("%Y-%m-%d %H:%M:%S UTC").to_string()),
        None => None,
    }
}

/// The text shown where an instant has no date.
pub open spec fn undated_text() -> Seq<char> {
    "date inconnue"@
}

/// The date and time of the instant `seconds` after the epoch as it is
/// shown in reports.
pub open spec fn timestamp_text(seconds: i64) -> Seq<char> {
    match chrono_utc_text(seconds) {
        Some(text) => text,
        None => undated_text(),
    }
}

/// Picks what is shown for an instant from what the formatter handed back.
pub fn shown_timestamp(formatted: Option<String>) -> (text: String)
    ensures
        match formatted {
            Some(t) => text@ == t@,
            None => text@ == undated_text(),
        },
{
    match formatted {
        Some(text) => text,
        None => String::from_str("date inconnue"),
    }
}

/// Writes the date and time of the instant `seconds` after the epoch.
pub fn format_timestamp(seconds: i64) -> (text: String)
    ensures
        text@ == timestamp_text(seconds),
{
    shown_timestamp(chrono_format_utc(seconds))
}

/// A line of the console log: the date and time in brackets, a sign for
/// the kind of line, and the message.
pub open spec fn log_line(seconds: i64, sign: Seq<char>, message: Seq<char>) -> Seq<char> {
    "["@ + timestamp_text(seconds) + "] "@ + sign + " "@ + message
}

/// The line that reports `message` at the instant `seconds` after the epoch.
pub fn log_info(seconds: i64, message: &str) -> (line: String)
    ensures
        line@ == log_line(seconds, "ℹ️"@, message@),
{
    let mut line = String::from_str("[");
    line.append(format_timestamp(seconds).as_str());
    line.append("] ");
    line.append("ℹ️");
    line.append(" ");
    line.append(message);
    line
}

/// The line that reports the error `message` at the instant `seconds`
/// after the epoch.
pub fn log_error(seconds: i64, message: &str) -> (line: String)
    ensures
        line@ == log_line(seconds, "❌"@, message@),
{
    let mut line = String::from_str("[");
    line.append(format_timestamp(seconds).as_str());
    line.append("] ");
    line.append("❌");
    line.append(" ");
    line.append(message);
    line
}

/// The line that reports the warning `message` at the instant `seconds`
/// after the epoch.
pub fn log_warning(seconds: i64, message: &str) -> (line: String)
    ensures
        line@ == log_line(seconds, "⚠️"@, message@),
{
    let mut line = String::from_str("[");
    line.append(format_timestamp(seconds).as_str());
    line.append("] ");
    line.append("⚠️");
    line.append(" ");
    line.append(message);
    line
}

} // verus!
