//! Comparing names and reading header values, character by character.

use vstd::prelude::*;
use vstd::string::*;
use vstd::utf8::*;

verus! {

/// Compares two byte strings.
pub fn same_bytes(x: &[u8], y: &[u8]) -> (r: bool)
    ensures
        r == (x@ == y@),
{
    if x.len() != y.len() {
        return false;
    }
    let mut i: usize = 0;
    while i < x.len()
        invariant
            i <= x.len(),
            x.len() == y.len(),
            forall|k: int| 0 <= k < i ==> x@[k] == y@[k],
        decreases x.len() - i,
    {
        if x[i] != y[i] {
            return false;
        }
        i += 1;
    }
    assert(x@ =~= y@);
    true
}

/// Compares two texts character by character.
pub fn same_text(a: &str, b: &str) -> (r: bool)
    ensures
        r == (a@ == b@),
{
    let equal = same_bytes(a.as_bytes(), b.as_bytes());
    proof {
        encode_utf8_decode_utf8(a@);
        encode_utf8_decode_utf8(b@);
    }
    equal
}

/// Whether a character can stand in a header value that is read as text:
/// the visible characters of ASCII, the space and the tab.
pub open spec fn header_char(c: char) -> bool {
    c == '\t' || (' ' <= c <= '~')
}

/// Whether a header value can be read as text.
pub open spec fn is_header_text(value: Seq<char>) -> bool {
    forall|i: int| 0 <= i < value.len() ==> header_char(#[trigger] value[i])
}

/// Decides whether a header value can be read as text.
pub fn header_text(value: &str) -> (r: bool)
    ensures
        r == is_header_text(value@),
        r ==> is_ascii_chars(value@),
{
    if !value.is_ascii() {
        assert(!is_header_text(value@)) by {
            if is_header_text(value@) {
                assert forall|i: int| 0 <= i < value@.len() implies '\0' <= #[trigger] value@[i] <= '\u{7f}' by {
                    assert(header_char(value@[i]));
                }
            }
        }
        return false;
    }
    let x = value.as_bytes();
    proof {
        is_ascii_chars_encode_utf8(value@);
    }
    let mut i: usize = 0;
    while i < x.len()
        invariant
            i <= x.len(),
            x.len() == value@.len(),
            is_ascii_chars(value@),
            forall|k: int| 0 <= k < value@.len() ==> value@[k] as u8 == #[trigger] x@[k],
            forall|k: int| 0 <= k < i ==> header_char(#[trigger] value@[k]),
        decreases x.len() - i,
    {
        let b: u8 = x[i];
        assert(b == value@[i as int] as u8);
        assert(b as char == value@[i as int]);
        if !(b == 9 || (32 <= b && b <= 126)) {
            assert(!header_char(value@[i as int]));
            return false;
        }
        i += 1;
    }
    true
}

/// The space and the tab: the blanks that a header value can hold.
pub open spec fn is_blank(c: char) -> bool {
    c == ' ' || c == '\t'
}

/// `text` without the blanks at its start.
pub open spec fn trim_start(text: Seq<char>) -> Seq<char>
    decreases text.len(),
{
    if text.len() > 0 && is_blank(text[0]) {
        trim_start(text.drop_first())
    } else {
        text
    }
}

/// `text` without the blanks at its end.
pub open spec fn trim_end(text: Seq<char>) -> Seq<char>
    decreases text.len(),
{
    if text.len() > 0 && is_blank(text.last()) {
        trim_end(text.drop_last())
    } else {
        text
    }
}

/// `text` without the blanks at its start and at its end.
pub open spec fn trimmed(text: Seq<char>) -> Seq<char> {
    trim_end(trim_start(text))
}

/// The word that announces a bearer token in an `Authorization` header.
pub open spec fn bearer_word() -> Seq<char> {
    seq!['B', 'e', 'a', 'r', 'e', 'r']
}

/// The token that the value of an `Authorization` header carries: what
/// follows the word `Bearer`, written just so, without the blanks around
/// it. A value that cannot be read as text or does not start with the word
/// carries none.
pub open spec fn bearer_token_spec(value: Seq<char>) -> Option<Seq<char>> {
    if is_header_text(value) && value.len() >= 6 && value.subrange(0, 6) == bearer_word() {
        Some(trimmed(value.skip(6)))
    } else {
        None
    }
}

/// Reads the bearer token from the value of an `Authorization` header.
pub fn bearer_token(value: &str) -> (r: Option<String>)
    ensures
        r matches Some(token) ==> bearer_token_spec(value@) == Some(token@),
        r is None ==> bearer_token_spec(value@) is None,
{
    if !header_text(value) {
        return None;
    }
    let x = value.as_bytes();
    proof {
        is_ascii_chars_encode_utf8(value@);
    }
    let n: usize = x.len();
    if n < 6 {
        return None;
    }
    if !(x[0] == 66 && x[1] == 101 && x[2] == 97 && x[3] == 114 && x[4] == 101 && x[5] == 114) {
        assert(value@.subrange(0, 6) != bearer_word()) by {
            let head = value@.subrange(0, 6);
            if head == bearer_word() {
                assert(head[0] == 'B' && head[1] == 'e' && head[2] == 'a');
                assert(head[3] == 'r' && head[4] == 'e' && head[5] == 'r');
                assert(value@[0] as u8 == x@[0] && value@[1] as u8 == x@[1] && value@[2] as u8 == x@[2]);
                assert(value@[3] as u8 == x@[3] && value@[4] as u8 == x@[4] && value@[5] as u8 == x@[5]);
            }
        }
        return None;
    }
    assert(value@.subrange(0, 6) =~= bearer_word()) by {
        assert(value@[0] as u8 == x@[0] && value@[1] as u8 == x@[1] && value@[2] as u8 == x@[2]);
        assert(value@[3] as u8 == x@[3] && value@[4] as u8 == x@[4] && value@[5] as u8 == x@[5]);
        assert(x@[0] as char == value@[0] && x@[1] as char == value@[1] && x@[2] as char == value@[2]);
        assert(x@[3] as char == value@[3] && x@[4] as char == value@[4] && x@[5] as char == value@[5]);
    }
    let mut start: usize = 6;
    while start < n && (x[start] == 32 || x[start] == 9)
        invariant
            6 <= start <= n,
            n == x.len(),
            n == value@.len(),
            is_ascii_chars(value@),
            forall|k: int| 0 <= k < value@.len() ==> value@[k] as u8 == #[trigger] x@[k],
            trim_start(value@.skip(6)) == trim_start(value@.skip(start as int)),
        decreases n - start,
    {
        proof {
            let rest = value@.skip(start as int);
            assert(x@[start as int] as char == value@[start as int]);
            assert(is_blank(rest[0]));
            assert(rest.drop_first() =~= value@.skip(start as int + 1));
        }
        start += 1;
    }
    proof {
        let rest = value@.skip(start as int);
        if start < n {
            assert(x@[start as int] as char == value@[start as int]);
            assert(!is_blank(rest[0]));
        }
        assert(trim_start(rest) == rest);
    }
    let mut end: usize = n;
    while end > start && (x[end - 1] == 32 || x[end - 1] == 9)
        invariant
            start <= end <= n,
            n == x.len(),
            n == value@.len(),
            is_ascii_chars(value@),
            forall|k: int| 0 <= k < value@.len() ==> value@[k] as u8 == #[trigger] x@[k],
            trim_end(value@.skip(start as int)) == trim_end(value@.subrange(start as int, end as int)),
        decreases end,
    {
        proof {
            let part = value@.subrange(start as int, end as int);
            assert(x@[end - 1] as char == value@[end - 1]);
            assert(is_blank(part.last()));
            assert(part.drop_last() =~= value@.subrange(start as int, end - 1));
        }
        end -= 1;
    }
    proof {
        let part = value@.subrange(start as int, end as int);
        if end > start {
            assert(x@[end - 1] as char == value@[end - 1]);
            assert(!is_blank(part.last()));
        }
        assert(trim_end(part) == part);
        assert(value@.skip(n as int) =~= value@.subrange(n as int, n as int));
        assert(value@.skip(start as int) =~= value@.subrange(start as int, n as int));
    }
    Some(value.substring_ascii(start, end).to_owned())
}

/// The character of a decimal digit.
pub open spec fn digit_char(digit: nat) -> char {
    if digit == 0 {
        '0'
    } else if digit == 1 {
        '1'
    } else if digit == 2 {
        '2'
    } else if digit == 3 {
        '3'
    } else if digit == 4 {
        '4'
    } else if digit == 5 {
        '5'
    } else if digit == 6 {
        '6'
    } else if digit == 7 {
        '7'
    } else if digit == 8 {
        '8'
    } else {
        '9'
    }
}

/// A number written in decimal digits, without leading zeros.
pub open spec fn decimal_spec(number: nat) -> Seq<char>
    decreases number,
{
    if number < 10 {
        seq![digit_char(number)]
    } else {
        decimal_spec(number / 10).push(digit_char(number % 10))
    }
}

/// Writes one decimal digit.
fn digit_text(digit: usize) -> (r: &'static str)
    requires
        digit < 10,
    ensures
        r@ == seq![digit_char(digit as nat)],
{
    proof {
        reveal_strlit("0");
        reveal_strlit("1");
        reveal_strlit("2");
        reveal_strlit("3");
        reveal_strlit("4");
        reveal_strlit("5");
        reveal_strlit("6");
        reveal_strlit("7");
        reveal_strlit("8");
        reveal_strlit("9");
    }
    let text = if digit == 0 {
        "0"
    } else if digit == 1 {
        "1"
    } else if digit == 2 {
        "2"
    } else if digit == 3 {
        "3"
    } else if digit == 4 {
        "4"
    } else if digit == 5 {
        "5"
    } else if digit == 6 {
        "6"
    } else if digit == 7 {
        "7"
    } else if digit == 8 {
        "8"
    } else {
        "9"
    };
    assert(text@ =~= seq![digit_char(digit as nat)]);
    text
}

/// Writes a number in decimal digits.
pub fn decimal(number: usize) -> (r: String)
    ensures
        r@ == decimal_spec(number as nat),
    decreases number,
{
    if number < 10 {
        digit_text(number).to_owned()
    } else {
        let mut text = decimal(number / 10);
        text.append(digit_text(number % 10));
        assert(text@ =~= decimal_spec((number / 10) as nat).push(digit_char((number % 10) as nat)));
        text
    }
}

} // verus!
