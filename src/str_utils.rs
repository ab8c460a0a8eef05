//! Splitting camel-case identifiers into words.

use crate::text::{chars_of, decimal, decimal_string, is_digit};
use vstd::prelude::*;
use vstd::string::*;

verus! {

/// Why a string could not be split.
#[derive(Debug, Clone, PartialEq, Eq)]
pub enum StrError {
    /// The string is empty.
    Empty,
    /// The string breaks the format; the message says how.
    InvalidFormat(String),
}

/// Which camel case a string is written in.
#[derive(Debug, Clone, Copy, PartialEq, Eq)]
pub enum CamelFormat {
    /// `UpperCamelCase`: the first letter is a capital.
    Upper,
    /// `lowerCamelCase`: the first letter is lower case.
    Lower,
}

pub open spec fn is_upper(c: char) -> bool {
    'A' as u32 <= c as u32 <= 'Z' as u32
}

pub open spec fn is_lower(c: char) -> bool {
    'a' as u32 <= c as u32 <= 'z' as u32
}

pub open spec fn is_alnum(c: char) -> bool {
    is_upper(c) || is_lower(c) || is_digit(c)
}

/// A capital right after a lower-case letter or a digit.
pub open spec fn follows_lower(c: Seq<char>, i: int) -> bool {
    0 < i < c.len() && is_upper(c[i]) && (is_lower(c[i - 1]) || is_digit(c[i - 1]))
}

/// The last capital of a run of capitals: it follows a capital and a
/// lower-case letter follows it.
pub open spec fn ends_acronym(c: Seq<char>, i: int) -> bool {
    &&& 0 < i
    &&& i + 1 < c.len()
    &&& is_upper(c[i - 1])
    &&& is_upper(c[i])
    &&& is_lower(c[i + 1])
}

/// Whether a word starts at `i`.
pub open spec fn word_start(c: Seq<char>, i: int) -> bool {
    i == 0 || follows_lower(c, i) || ends_acronym(c, i)
}

/// The pieces of `c` from `st` on, cut before every word start at or after
/// `i`.
pub open spec fn cut_words(c: Seq<char>, st: int, i: int) -> Seq<Seq<char>>
    decreases c.len() - i,
{
    if i >= c.len() {
        seq![c.subrange(st, c.len() as int)]
    } else if word_start(c, i) {
        seq![c.subrange(st, i)] + cut_words(c, i, i + 1)
    } else {
        cut_words(c, st, i + 1)
    }
}

/// The words of `c`: its pieces, cut before every word start.
pub open spec fn camel_words(c: Seq<char>) -> Seq<Seq<char>> {
    cut_words(c, 0, 1)
}

/// Index of the first character of `c` at or after `i` that is not an
/// ASCII letter or digit, or the length of `c`.
pub open spec fn first_invalid_from(c: Seq<char>, i: int) -> int
    decreases c.len() - i,
{
    if i >= c.len() {
        c.len() as int
    } else if !is_alnum(c[i]) {
        i
    } else {
        first_invalid_from(c, i + 1)
    }
}

pub open spec fn invalid_char_message(c: char, i: nat) -> Seq<char> {
    "Invalid character '"@ + seq![c] + "' at position "@ + decimal(i)
}

fn is_upper_char(c: char) -> (r: bool)
    ensures
        r == is_upper(c),
{
    'A' as u32 <= c as u32 && c as u32 <= 'Z' as u32
}

fn is_lower_char(c: char) -> (r: bool)
    ensures
        r == is_lower(c),
{
    'a' as u32 <= c as u32 && c as u32 <= 'z' as u32
}

fn is_digit_char(c: char) -> (r: bool)
    ensures
        r == is_digit(c),
{
    '0' as u32 <= c as u32 && c as u32 <= '9' as u32
}

fn invalid_char_error(s: &str, i: usize) -> (r: StrError)
    requires
        i < s@.len(),
    ensures
        r matches StrError::InvalidFormat(m) && m@ == invalid_char_message(s@[i as int], i as nat),
{
    let _ = s.unicode_len();
    let mut m = String::from_str("Invalid character '");
    m.append(s.substring_char(i, i + 1));
    m.append("' at position ");
    let pos = decimal_string(i as u64);
    m.append(pos.as_str());
    proof {
        assert(s@.subrange(i as int, i + 1) =~= seq![s@[i as int]]);
    }
    assert(m@ =~= invalid_char_message(s@[i as int], i as nat));
    StrError::InvalidFormat(m)
}

/// Splits the camel-case string `s` into its words. A word starts at every
/// capital that follows a lower-case letter or a digit, and at the last
/// capital of a run of capitals that a lower-case letter follows
/// (`HTTPServer` gives `HTTP` and `Server`). `s` must be
/// non-empty, start as `format` says and hold only ASCII letters and digits.
pub fn split_camel_case(s: &str, format: CamelFormat) -> (r: Result<Vec<String>, StrError>)
    ensures
        s@.len() == 0 ==> r == Err::<Vec<String>, StrError>(StrError::Empty),
        s@.len() > 0 && format == CamelFormat::Upper && !is_upper(s@[0]) ==> (r matches Err(
            StrError::InvalidFormat(m),
        ) && m@ == "First character must be uppercase"@),
        s@.len() > 0 && format == CamelFormat::Lower && !is_lower(s@[0]) ==> (r matches Err(
            StrError::InvalidFormat(m),
        ) && m@ == "First character must be lowercase"@),
        s@.len() > 0 && (format == CamelFormat::Upper ==> is_upper(s@[0])) && (format
            == CamelFormat::Lower ==> is_lower(s@[0])) ==> ({
            let k = first_invalid_from(s@, 0);
            if k < s@.len() {
                r matches Err(StrError::InvalidFormat(m)) && m@ == invalid_char_message(
                    s@[k],
                    k as nat,
                )
            } else {
                r matches Ok(v) && v.len() == camel_words(s@).len() && forall|j: int|
                    0 <= j < v.len() ==> #[trigger] v[j]@ == camel_words(s@)[j]
            }
        }),
{
    let c = chars_of(s);
    let n = c.len();
    if n == 0 {
        return Err(StrError::Empty);
    }
    match format {
        CamelFormat::Upper => if !is_upper_char(c[0]) {
            return Err(StrError::InvalidFormat(String::from_str("First character must be uppercase")));
        },
        CamelFormat::Lower => if !is_lower_char(c[0]) {
            return Err(StrError::InvalidFormat(String::from_str("First character must be lowercase")));
        },
    }
    let mut i: usize = 0;
    while i < n
        invariant
            c@ == s@,
            n == c.len(),
            i <= n,
            n > 0,
            format == CamelFormat::Upper ==> is_upper(s@[0]),
            format == CamelFormat::Lower ==> is_lower(s@[0]),
            first_invalid_from(s@, 0) == first_invalid_from(s@, i as int),
        decreases n - i,
    {
        if !(is_upper_char(c[i]) || is_lower_char(c[i]) || is_digit_char(c[i])) {
            return Err(invalid_char_error(s, i));
        }
        i += 1;
    }
    let ghost all = camel_words(s@);
    let ghost done: Seq<Seq<char>> = seq![];
    let mut words: Vec<String> = Vec::new();
    let mut st: usize = 0;
    let mut i: usize = 1;
    while i < n
        invariant
            c@ == s@,
            n == c.len(),
            n > 0,
            st < i <= n,
            all == camel_words(s@),
            done + cut_words(s@, st as int, i as int) == all,
            words.len() == done.len(),
            forall|j: int| 0 <= j < words.len() ==> #[trigger] words[j]@ == done[j],
        decreases n - i,
    {
        let starts = (is_upper_char(c[i]) && (is_lower_char(c[i - 1]) || is_digit_char(c[i - 1])))
            || (n - i > 1 && is_upper_char(c[i - 1]) && is_upper_char(c[i]) && is_lower_char(
            c[i + 1],
        ));
        assert(starts == word_start(s@, i as int));
        if starts {
            let w = String::from_str(s.substring_char(st, i));
            proof {
                assert(cut_words(s@, st as int, i as int) == seq![s@.subrange(st as int, i as int)]
                    + cut_words(s@, i as int, i + 1));
                done = done.push(s@.subrange(st as int, i as int));
                assert(done + cut_words(s@, i as int, i + 1) =~= all);
            }
            words.push(w);
            st = i;
        }
        i += 1;
    }
    let w = String::from_str(s.substring_char(st, n));
    proof {
        done = done.push(s@.subrange(st as int, n as int));
        assert(done =~= all);
    }
    words.push(w);
    Ok(words)
}

} // verus!
