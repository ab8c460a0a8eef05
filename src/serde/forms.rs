//! Values and written forms shared by the formats.

use crate::text::{
    all_digits, chars_of, decimal, decimal_string, digits_value, is_digit, lemma_decimal, trim,
    trimmed,
};
use vstd::prelude::*;
use vstd::string::*;

verus! {

/// A span of time: whole seconds and the nanoseconds beyond them.
#[derive(Debug, Clone, Copy, PartialEq, Eq)]
pub struct HumanDuration {
    pub secs: u64,
    pub nanos: u32,
}

/// The error type of `humantime::parse_duration`.
#[verifier::external_type_specification]
#[verifier::external_body]
pub struct ExDurationError(humantime::DurationError);

/// What `humantime::parse_duration` reads from the text `s`, if anything.
pub uninterp spec fn humantime_duration(s: Seq<char>) -> Option<HumanDuration>;

/// How many ASCII digits `s` holds.
pub open spec fn digit_count(s: Seq<char>) -> nat
    decreases s.len(),
{
    if s.len() == 0 {
        0
    } else {
        digit_count(s.drop_last()) + if is_digit(s.last()) {
            1nat
        } else {
            0nat
        }
    }
}

/// The most digits that duration text may hold. With this many, every
/// number in it is below 10^11 and every unit is at most a year of
/// 31,557,600 seconds, so the seconds total stays below 4 * 10^18, far from
/// `u64::MAX`.
pub const MAX_DURATION_DIGITS: usize = 11;

/// How many ASCII digits `s` holds.
pub fn count_digits(s: &str) -> (r: usize)
    ensures
        r == digit_count(s@),
{
    let c = chars_of(s);
    let mut k: usize = 0;
    let mut i: usize = 0;
    while i < c.len()
        invariant
            c@ == s@,
            i <= c.len(),
            k == digit_count(s@.subrange(0, i as int)),
            k <= i,
        decreases c.len() - i,
    {
        assert(s@.subrange(0, i + 1).drop_last() =~= s@.subrange(0, i as int));
        assert(s@.subrange(0, i + 1).last() == c@[i as int]);
        if '0' as u32 <= c[i] as u32 && c[i] as u32 <= '9' as u32 {
            k += 1;
        }
        i += 1;
    }
    assert(s@.subrange(0, c.len() as int) =~= s@);
    k
}

/// Text of one whole-seconds component: one or more digits, then `s`.
pub open spec fn is_plain_secs(s: Seq<char>) -> bool {
    s.len() >= 2 && s.last() == 's' && all_digits(s.drop_last())
}

/// The seconds that plain whole-seconds text names, where they fit a `u64`.
pub open spec fn plain_secs_value(s: Seq<char>) -> Option<u64> {
    if is_plain_secs(s) && digits_value(s.drop_last()) <= u64::MAX {
        Some(digits_value(s.drop_last()) as u64)
    } else {
        None
    }
}

/// Duration text that is handed to the parser: one whole-seconds component,
/// or text with at most `MAX_DURATION_DIGITS` digits.
pub open spec fn duration_admitted(s: Seq<char>) -> bool {
    is_plain_secs(s) || digit_count(s) <= MAX_DURATION_DIGITS
}

/// Whether `s` is one whole-seconds component, such as `100000000000s`.
pub fn is_plain_secs_text(s: &str) -> (r: bool)
    ensures
        r == is_plain_secs(s@),
{
    let c = chars_of(s);
    let n = c.len();
    if n < 2 || c[n - 1] != 's' {
        return false;
    }
    let mut i: usize = 0;
    while i < n - 1
        invariant
            c@ == s@,
            n == c.len(),
            n >= 2,
            i <= n - 1,
            forall|k: int| 0 <= k < i ==> is_digit(#[trigger] c@[k]),
        decreases n - 1 - i,
    {
        if !('0' as u32 <= c[i] as u32 && c[i] as u32 <= '9' as u32) {
            assert(!is_digit(s@.drop_last()[i as int]));
            return false;
        }
        i += 1;
    }
    assert(all_digits(s@.drop_last())) by {
        assert forall|k: int| 0 <= k < s@.drop_last().len() implies is_digit(
            #[trigger] s@.drop_last()[k],
        ) by {
            assert(s@.drop_last()[k] == c@[k]);
        }
    }
    true
}

/// Relies on `humantime::parse_duration`: reads durations such as `5s`,
/// `3m` or `1h 30m`; a function of the text alone. Its nanoseconds are below
/// one second, as `Duration::subsec_nanos` documents. It panics only where
/// its seconds total reaches `u64::MAX` (its `add_current` hands exactly
/// 10^9 nanoseconds to `Duration::new`, which carries them into the
/// seconds); text with at most `MAX_DURATION_DIGITS` digits stays far below.
/// One whole-seconds component never gets there: its digits are gathered
/// with `checked_mul`/`checked_add` (an overflow is `NumberOverflow`), and
/// its unit `s` adds those seconds with no nanoseconds (`parse_unit`,
/// `add_current`), which is how it is read.
#[verifier::external_body]
pub(crate) fn parse_duration(s: &str) -> (r: Result<HumanDuration, humantime::DurationError>)
    requires
        duration_admitted(s@),
    ensures
        plain_secs_value(s@) is Some ==> r is Ok && r->Ok_0.secs == plain_secs_value(s@)->0
            && r->Ok_0.nanos == 0,
        r is Ok <==> humantime_duration(s@) is Some,
        r matches Ok(d) ==> humantime_duration(s@) == Some(d) && d.nanos < 1_000_000_000,
{
    humantime::parse_duration(s).map(|d| HumanDuration { secs: d.as_secs(), nanos: d.subsec_nanos() })
}

/// Why a written form could not be read.
#[derive(Debug)]
pub enum FormatError {
    /// The text is no duration; the parser's own error.
    InvalidDuration(humantime::DurationError),
    /// The duration text holds more than `MAX_DURATION_DIGITS` digits and is
    /// not one whole-seconds component.
    DurationTooLong(String),
    /// The text, as given, names no log level.
    UnknownLogLevel(String),
    /// The text, trimmed and lower-cased, names no rotation.
    InvalidRotation(String),
}

/// Reads duration text: text that is neither one whole-seconds component
/// nor within `MAX_DURATION_DIGITS` digits fails with `DurationTooLong`,
/// text that `humantime` cannot read with `InvalidDuration`.
pub fn read_duration(text: &str) -> (r: Result<HumanDuration, FormatError>)
    ensures
        !duration_admitted(text@) ==> (r matches Err(FormatError::DurationTooLong(t)) && t@
            == text@),
        duration_admitted(text@) ==> match humantime_duration(text@) {
            Some(d) => r matches Ok(x) && x == d,
            None => r matches Err(FormatError::InvalidDuration(_)),
        },
        plain_secs_value(text@) matches Some(v) ==> (r matches Ok(x) && x.secs == v && x.nanos == 0),
{
    if !is_plain_secs_text(text) && count_digits(text) > MAX_DURATION_DIGITS {
        return Err(FormatError::DurationTooLong(String::from_str(text)));
    }
    match parse_duration(text) {
        Ok(d) => Ok(d),
        Err(e) => Err(FormatError::InvalidDuration(e)),
    }
}

/// What is written for a duration reads back as its whole seconds: the text
/// is one whole-seconds component naming `d.secs`.
pub proof fn lemma_written_duration_reads_back(d: HumanDuration)
    ensures
        is_plain_secs(secs_text(d)),
        duration_admitted(secs_text(d)),
        plain_secs_value(secs_text(d)) == Some(d.secs),
{
    lemma_decimal(d.secs as nat);
    assert(secs_text(d).drop_last() =~= decimal(d.secs as nat));
}

/// A duration written as its whole seconds followed by `s`.
pub open spec fn secs_text(d: HumanDuration) -> Seq<char> {
    decimal(d.secs as nat).push('s')
}

/// Writes `d` as its whole seconds followed by `s`, such as `5s`.
pub fn secs_string(d: &HumanDuration) -> (r: String)
    ensures
        r@ == secs_text(*d),
{
    let mut r = decimal_string(d.secs);
    r.append("s");
    proof {
        reveal_strlit("s");
    }
    assert(r@ =~= secs_text(*d));
    r
}

/// A list as it is written: one string, or a sequence of strings.
#[derive(Debug, Clone, PartialEq, Eq)]
pub enum ListInput {
    Str(String),
    Items(Vec<String>),
}

/// The pieces of `s` from `st` on, cut at every `,` at or after `i`.
pub open spec fn pieces_from(s: Seq<char>, st: int, i: int) -> Seq<Seq<char>>
    decreases s.len() - i,
{
    if i >= s.len() {
        seq![s.subrange(st, s.len() as int)]
    } else if s[i] == ',' {
        seq![s.subrange(st, i)] + pieces_from(s, i + 1, i + 1)
    } else {
        pieces_from(s, st, i + 1)
    }
}

/// The pieces of `s` between its commas, as `str::split(',')` gives them.
pub open spec fn comma_pieces(s: Seq<char>) -> Seq<Seq<char>> {
    pieces_from(s, 0, 0)
}

/// The items, each trimmed, without those that trim to nothing.
pub open spec fn kept_items(p: Seq<Seq<char>>) -> Seq<Seq<char>>
    decreases p.len(),
{
    if p.len() == 0 {
        Seq::empty()
    } else if trimmed(p.last()).len() > 0 {
        kept_items(p.drop_last()).push(trimmed(p.last()))
    } else {
        kept_items(p.drop_last())
    }
}

pub open spec fn views(v: Seq<String>) -> Seq<Seq<char>> {
    v.map_values(|x: String| x@)
}

/// The items of a comma-separated list: the pieces between commas, trimmed,
/// without empty ones.
pub fn split_list(s: &str) -> (r: Vec<String>)
    ensures
        views(r@) == kept_items(comma_pieces(s@)),
{
    let c = chars_of(s);
    let n = c.len();
    let ghost done: Seq<Seq<char>> = seq![];
    let mut out: Vec<String> = Vec::new();
    let mut st: usize = 0;
    let mut i: usize = 0;
    while i < n
        invariant
            c@ == s@,
            n == c.len(),
            st <= i <= n,
            done + pieces_from(s@, st as int, i as int) == comma_pieces(s@),
            views(out@) == kept_items(done),
        decreases n - i,
    {
        if c[i] == ',' {
            let piece = trim(s.substring_char(st, i));
            proof {
                let p = s@.subrange(st as int, i as int);
                assert((done.push(p)).drop_last() =~= done);
                done = done.push(p);
                assert(done + pieces_from(s@, i + 1, i + 1) =~= comma_pieces(s@));
            }
            if piece.unicode_len() > 0 {
                out.push(String::from_str(piece));
            }
            assert(views(out@) =~= kept_items(done));
            st = i + 1;
        }
        i += 1;
    }
    let piece = trim(s.substring_char(st, n));
    proof {
        let p = s@.subrange(st as int, n as int);
        assert((done.push(p)).drop_last() =~= done);
        done = done.push(p);
        assert(done =~= comma_pieces(s@));
    }
    if piece.unicode_len() > 0 {
        out.push(String::from_str(piece));
    }
    assert(views(out@) =~= kept_items(done));
    out
}

/// The items, each trimmed, without those that trim to nothing.
pub fn clean_list(items: &Vec<String>) -> (r: Vec<String>)
    ensures
        views(r@) == kept_items(views(items@)),
{
    let mut out: Vec<String> = Vec::new();
    let mut i: usize = 0;
    while i < items.len()
        invariant
            i <= items@.len(),
            views(out@) == kept_items(views(items@.subrange(0, i as int))),
        decreases items@.len() - i,
    {
        let piece = trim(items[i].as_str());
        proof {
            let p = views(items@.subrange(0, i + 1));
            assert(p.drop_last() =~= views(items@.subrange(0, i as int)));
            assert(p.last() == items@[i as int]@);
        }
        if piece.unicode_len() > 0 {
            out.push(String::from_str(piece));
        }
        assert(views(out@) =~= kept_items(views(items@.subrange(0, i + 1))));
        i += 1;
    }
    assert(items@.subrange(0, items@.len() as int) =~= items@);
    out
}

/// The items of a written list: a string is a comma-separated list; a
/// sequence is taken item by item.
pub open spec fn list_items(input: ListInput) -> Seq<Seq<char>> {
    match input {
        ListInput::Str(s) => kept_items(comma_pieces(s@)),
        ListInput::Items(v) => kept_items(views(v@)),
    }
}

/// The items of a written list, trimmed, without empty ones.
pub fn read_list(input: &ListInput) -> (r: Vec<String>)
    ensures
        views(r@) == list_items(*input),
{
    match input {
        ListInput::Str(s) => split_list(s.as_str()),
        ListInput::Items(v) => clean_list(v),
    }
}

} // verus!
