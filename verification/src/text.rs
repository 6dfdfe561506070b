//! Small verified helpers on strings.

use vstd::prelude::*;
use vstd::string::{StrSliceExecFns, StringExecFns};

verus! {

/// The decimal digit for a value below ten.
pub open spec fn digit_char(d: nat) -> char {
    if d == 0 {
        '0'
    } else if d == 1 {
        '1'
    } else if d == 2 {
        '2'
    } else if d == 3 {
        '3'
    } else if d == 4 {
        '4'
    } else if d == 5 {
        '5'
    } else if d == 6 {
        '6'
    } else if d == 7 {
        '7'
    } else if d == 8 {
        '8'
    } else {
        '9'
    }
}

/// The decimal numeral of `n`, most significant digit first, without padding.
pub open spec fn decimal_digits(n: nat) -> Seq<char>
    decreases n,
{
    if n < 10 {
        seq![digit_char(n)]
    } else {
        decimal_digits(n / 10).push(digit_char(n % 10))
    }
}

fn digit_str(d: u64) -> (text: &'static str)
    requires
        d < 10,
    ensures
        text@ == seq![digit_char(d as nat)],
{
    proof {
        reveal_strlit("0");
        reveal_strlit("1");
        reveal_strlit("2");
        reveal_strlit("3");
        reveal_strlit("4");
        reveal_strlit("5");
        reveal_strlit("6");
        reveal_strlit("7");
        reveal_strlit("8");
        reveal_strlit("9");
    }
    let text = if d == 0 {
        "0"
    } else if d == 1 {
        "1"
    } else if d == 2 {
        "2"
    } else if d == 3 {
        "3"
    } else if d == 4 {
        "4"
    } else if d == 5 {
        "5"
    } else if d == 6 {
        "6"
    } else if d == 7 {
        "7"
    } else if d == 8 {
        "8"
    } else {
        "9"
    };
    assert(text@ =~= seq![digit_char(d as nat)]);
    text
}

/// Writes `n` in decimal.
pub fn decimal_string(n: u64) -> (text: String)
    ensures
        text@ == decimal_digits(n as nat),
    decreases n,
{
    if n < 10 {
        String::from_str(digit_str(n))
    } else {
        let mut text = decimal_string(n / 10);
        text.append(digit_str(n % 10));
        assert(text@ =~= decimal_digits((n / 10) as nat).push(digit_char((n % 10) as nat)));
        text
    }
}

/// Every numeral has at least one digit, and only digits.
pub proof fn lemma_decimal_digits_shape(n: nat)
    ensures
        decimal_digits(n).len() >= 1,
        forall|i: int|
            0 <= i < decimal_digits(n).len() ==> '0' <= #[trigger] decimal_digits(n)[i] <= '9',
    decreases n,
{
    if n >= 10 {
        lemma_decimal_digits_shape(n / 10);
    }
}

/// Whether `c` is whitespace: one of the twenty-five characters with the
/// Unicode property `White_Space`, which are the characters that
/// `char::is_whitespace` accepts.
pub open spec fn is_whitespace_char(c: char) -> bool {
    let code = c as u32;
    ||| 0x09 <= code <= 0x0D
    ||| code == 0x20
    ||| code == 0x85
    ||| code == 0xA0
    ||| code == 0x1680
    ||| 0x2000 <= code <= 0x200A
    ||| code == 0x2028
    ||| code == 0x2029
    ||| code == 0x202F
    ||| code == 0x205F
    ||| code == 0x3000
}

/// Whether `c` is whitespace.
pub fn is_whitespace(c: char) -> (blank: bool)
    ensures
        blank == is_whitespace_char(c),
{
    let code = c as u32;
    (0x09 <= code && code <= 0x0D) || code == 0x20 || code == 0x85 || code == 0xA0 || code
        == 0x1680 || (0x2000 <= code && code <= 0x200A) || code == 0x2028 || code == 0x2029
        || code == 0x202F || code == 0x205F || code == 0x3000
}

/// `text` without the whitespace at its front.
pub open spec fn without_leading_blank(text: Seq<char>) -> Seq<char>
    decreases text.len(),
{
    if text.len() > 0 && is_whitespace_char(text.first()) {
        without_leading_blank(text.drop_first())
    } else {
        text
    }
}

/// `text` without the whitespace at its end.
pub open spec fn without_trailing_blank(text: Seq<char>) -> Seq<char>
    decreases text.len(),
{
    if text.len() > 0 && is_whitespace_char(text.last()) {
        without_trailing_blank(text.drop_last())
    } else {
        text
    }
}

/// `text` without the whitespace at either end.
pub open spec fn trimmed(text: Seq<char>) -> Seq<char> {
    without_trailing_blank(without_leading_blank(text))
}

/// `text` without the whitespace at either end.
pub fn trim(text: &str) -> (inner: String)
    ensures
        inner@ == trimmed(text@),
{
    let n = text.unicode_len();
    let mut start: usize = 0;
    proof {
        assert(text@.subrange(0, n as int) =~= text@);
    }
    while start < n && is_whitespace(text.get_char(start))
        invariant
            n == text@.len(),
            start <= n,
            without_leading_blank(text@) == without_leading_blank(
                text@.subrange(start as int, n as int),
            ),
        decreases n - start,
    {
        proof {
            let rest = text@.subrange(start as int, n as int);
            assert(rest.first() == text@[start as int]);
            assert(rest.drop_first() =~= text@.subrange(start + 1, n as int));
        }
        start += 1;
    }
    let ghost body = text@.subrange(start as int, n as int);
    proof {
        if start < n {
            assert(body.first() == text@[start as int]);
        }
        assert(without_leading_blank(text@) == body);
    }
    let mut end: usize = n;
    while end > start && is_whitespace(text.get_char(end - 1))
        invariant
            n == text@.len(),
            start <= end <= n,
            body == text@.subrange(start as int, n as int),
            without_trailing_blank(body) == without_trailing_blank(
                text@.subrange(start as int, end as int),
            ),
        decreases end - start,
    {
        proof {
            let rest = text@.subrange(start as int, end as int);
            assert(rest.last() == text@[end - 1]);
            assert(rest.drop_last() =~= text@.subrange(start as int, end - 1));
        }
        end -= 1;
    }
    proof {
        let rest = text@.subrange(start as int, end as int);
        if end > start {
            assert(rest.last() == text@[end - 1]);
        }
        assert(without_trailing_blank(rest) == rest);
    }
    text.substring_char(start, end).to_owned()
}

/// The number of characters of `text` before its first line feed; the length
/// of `text` where it holds none.
pub open spec fn line_length(text: Seq<char>) -> nat
    decreases text.len(),
{
    if text.len() == 0 || text.first() == '\n' {
        0
    } else {
        1 + line_length(text.drop_first())
    }
}

/// The first line of `text`, without its line ending; `None` for an empty
/// text. A line ends at a line feed, or at a carriage return directly
/// followed by one; the last line needs no ending.
pub open spec fn first_line_spec(text: Seq<char>) -> Option<Seq<char>> {
    if text.len() == 0 {
        None
    } else {
        let cut = line_length(text) as int;
        if cut < text.len() && cut > 0 && text[cut - 1] == '\r' {
            Some(text.subrange(0, cut - 1))
        } else {
            Some(text.subrange(0, cut))
        }
    }
}

/// The length of the first line is within the text, no line feed precedes
/// it, and a line feed stands at it unless the text ends there.
pub proof fn lemma_line_length(text: Seq<char>)
    ensures
        line_length(text) <= text.len(),
        forall|i: int| 0 <= i < line_length(text) ==> #[trigger] text[i] != '\n',
        line_length(text) < text.len() ==> text[line_length(text) as int] == '\n',
    decreases text.len(),
{
    if text.len() > 0 && text.first() != '\n' {
        let rest = text.drop_first();
        lemma_line_length(rest);
        assert forall|i: int| 0 <= i < line_length(text) implies #[trigger] text[i] != '\n' by {
            if i > 0 {
                assert(text[i] == rest[i - 1]);
            }
        }
        if line_length(text) < text.len() {
            assert(text[line_length(text) as int] == rest[line_length(rest) as int]);
        }
    }
}

/// A position with a line feed, or the end of the text, that no line feed
/// precedes is the length of the first line.
pub proof fn lemma_line_length_unique(text: Seq<char>, cut: int)
    requires
        0 <= cut <= text.len(),
        forall|i: int| 0 <= i < cut ==> #[trigger] text[i] != '\n',
        cut < text.len() ==> text[cut] == '\n',
    ensures
        line_length(text) == cut,
{
    lemma_line_length(text);
    let found = line_length(text) as int;
    if found < cut {
        assert(text[found] != '\n');
    } else if cut < found {
        assert(text[cut] != '\n');
    }
}

/// The first line of `text`, without its line ending; `None` for an empty
/// text.
pub fn first_line(text: &str) -> (line: Option<String>)
    ensures
        line.deep_view() == first_line_spec(text@),
{
    let n = text.unicode_len();
    if n == 0 {
        return None;
    }
    let mut cut: usize = 0;
    while cut < n && text.get_char(cut) != '\n'
        invariant
            n == text@.len(),
            cut <= n,
            forall|i: int| 0 <= i < cut ==> #[trigger] text@[i] != '\n',
        decreases n - cut,
    {
        cut += 1;
    }
    proof {
        lemma_line_length_unique(text@, cut as int);
    }
    if cut < n && cut > 0 && text.get_char(cut - 1) == '\r' {
        Some(text.substring_char(0, cut - 1).to_owned())
    } else {
        Some(text.substring_char(0, cut).to_owned())
    }
}

/// `left` followed by `right`.
pub fn concatenate(left: &str, right: &str) -> (text: String)
    ensures
        text@ == left@ + right@,
{
    let mut text = String::from_str(left);
    text.append(right);
    text
}

/// An owned copy of an optional string.
pub fn duplicate_option(value: &Option<String>) -> (copy: Option<String>)
    ensures
        copy.deep_view() == value.deep_view(),
{
    match value {
        Some(text) => Some(text.clone()),
        None => None,
    }
}

} // verus!
