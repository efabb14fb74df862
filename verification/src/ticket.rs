//! Finding the ticket URL in the page that the sign-in endpoint returns.
//!
//! The page carries a script assignment `response_url = "<escaped URL>";`.
//! The URL is the first capture of the pattern
//! `response_url\s*=\s*"(https:[^"]+)"`, with every `\/` replaced by `/`.

use crate::error::AuthError;
use crate::text::chars_of;
use vstd::prelude::*;

verus! {

/// The name that the page assigns the ticket URL to.
pub const KEY: &'static str = "response_url";

/// What a ticket URL starts with.
pub const SCHEME: &'static str = "https:";

/// White space as the pattern's `\s` understands it: the characters with the
/// Unicode property `White_Space`.
pub open spec fn is_space(c: char) -> bool {
    let code = c as u32;
    ||| 0x09 <= code <= 0x0d
    ||| code == 0x20
    ||| code == 0x85
    ||| code == 0xa0
    ||| code == 0x1680
    ||| 0x2000 <= code <= 0x200a
    ||| code == 0x2028
    ||| code == 0x2029
    ||| code == 0x202f
    ||| code == 0x205f
    ||| code == 0x3000
}

/// Whether `pattern` stands in `text` at index `at`.
pub open spec fn starts_at(text: Seq<char>, at: int, pattern: Seq<char>) -> bool {
    &&& 0 <= at
    &&& at + pattern.len() <= text.len()
    &&& text.subrange(at, at + pattern.len()) == pattern
}

/// The first index at or after `from` that holds no white space (the length
/// of `text` where there is none).
pub open spec fn skip_spaces(text: Seq<char>, from: int) -> int
    decreases text.len() - from,
{
    if 0 <= from < text.len() && is_space(text[from]) {
        skip_spaces(text, from + 1)
    } else {
        from
    }
}

/// The first index at or after `from` that holds a double quote (the length
/// of `text` where there is none).
pub open spec fn quote_from(text: Seq<char>, from: int) -> int
    decreases text.len() - from,
{
    if 0 <= from < text.len() && text[from] != '"' {
        quote_from(text, from + 1)
    } else {
        from
    }
}

/// The capture of the pattern where it matches `text` starting at index `at`:
/// the range of the URL between the quotes, first index and end.
pub open spec fn capture_at(text: Seq<char>, at: int) -> Option<(int, int)> {
    let equals = skip_spaces(text, at + KEY@.len());
    let opening = skip_spaces(text, equals + 1);
    let from = opening + 1;
    let to = quote_from(text, from + SCHEME@.len());
    if starts_at(text, at, KEY@) && equals < text.len() && text[equals] == '=' && opening
        < text.len() && text[opening] == '"' && starts_at(text, from, SCHEME@) && from
        + SCHEME@.len() < to && to < text.len() {
        Some((from, to))
    } else {
        None
    }
}

/// The capture of the leftmost match that starts at or after `from`.
pub open spec fn first_capture(text: Seq<char>, from: int) -> Option<(int, int)>
    decreases text.len() - from,
{
    if from < 0 || from >= text.len() {
        None
    } else {
        match capture_at(text, from) {
            Some(range) => Some(range),
            None => first_capture(text, from + 1),
        }
    }
}

/// Whether the character at `at` stays when `text` is un-escaped: all stay
/// but a backslash that stands directly before a forward slash.
pub open spec fn stays(text: Seq<char>, at: int) -> bool {
    !(text[at] == '\\' && at + 1 < text.len() && text[at + 1] == '/')
}

/// The characters among the first `n` of `text` that stay when it is un-escaped.
pub open spec fn unescaped_prefix(text: Seq<char>, n: int) -> Seq<char>
    decreases n,
{
    if n <= 0 {
        Seq::empty()
    } else if stays(text, n - 1) {
        unescaped_prefix(text, n - 1).push(text[n - 1])
    } else {
        unescaped_prefix(text, n - 1)
    }
}

/// `text` with every `\/` replaced by `/`.
pub open spec fn unescaped(text: Seq<char>) -> Seq<char> {
    unescaped_prefix(text, text.len() as int)
}

/// The ticket URL that a sign-in page holds, if it holds one.
pub open spec fn ticket_url(page: Seq<char>) -> Option<Seq<char>> {
    match first_capture(page, 0) {
        Some((from, to)) => Some(unescaped(page.subrange(from, to))),
        None => None,
    }
}

/// The capture found is that of the leftmost match: the pattern matches where
/// the capture was taken and nowhere before, and where none is found the
/// pattern matches nowhere.
pub proof fn lemma_first_capture_is_leftmost(text: Seq<char>, from: int)
    requires
        0 <= from,
    ensures
        match first_capture(text, from) {
            Some(range) => exists|at: int|
                from <= at < text.len() && #[trigger] capture_at(text, at) == Some(range)
                    && forall|j: int| from <= j < at ==> capture_at(text, j) is None,
            None => forall|j: int| from <= j < text.len() ==> capture_at(text, j) is None,
        },
    decreases text.len() - from,
{
    if from < text.len() {
        match capture_at(text, from) {
            Some(range) => {
                assert(capture_at(text, from) == Some(range));
            },
            None => {
                lemma_first_capture_is_leftmost(text, from + 1);
                match first_capture(text, from + 1) {
                    Some(range) => {
                        let at = choose|at: int|
                            from + 1 <= at < text.len() && #[trigger] capture_at(text, at) == Some(
                                range,
                            ) && forall|j: int| from + 1 <= j < at ==> capture_at(text, j) is None;
                        assert forall|j: int| from <= j < at implies capture_at(text, j) is None by {
                            if j > from {
                                assert(from + 1 <= j < at);
                            }
                        }
                        assert(from <= at < text.len() && capture_at(text, at) == Some(range));
                    },
                    None => {
                        assert forall|j: int| from <= j < text.len() implies capture_at(
                            text,
                            j,
                        ) is None by {
                            if j > from {
                                assert(from + 1 <= j < text.len());
                            }
                        }
                    },
                }
            },
        }
    }
}

/// A capture holds a URL: it starts with the scheme, holds more than the
/// scheme and no double quote, and stands between double quotes.
pub proof fn lemma_capture_is_quoted(text: Seq<char>, at: int)
    requires
        capture_at(text, at) is Some,
    ensures
        ({
            let (from, to) = capture_at(text, at)->0;
            &&& 0 < from <= to < text.len()
            &&& text[from - 1] == '"'
            &&& text[to] == '"'
            &&& starts_at(text, from, SCHEME@)
            &&& from + SCHEME@.len() < to
            &&& forall|i: int| from + SCHEME@.len() <= i < to ==> text[i] != '"'
        }),
{
    let (from, to) = capture_at(text, at)->0;
    lemma_quote_from(text, from + SCHEME@.len());
    lemma_skip_spaces(text, at + KEY@.len());
    lemma_skip_spaces(text, skip_spaces(text, at + KEY@.len()) + 1);
}

proof fn lemma_quote_from(text: Seq<char>, from: int)
    requires
        0 <= from,
    ensures
        from <= quote_from(text, from),
        quote_from(text, from) < text.len() ==> text[quote_from(text, from)] == '"',
        forall|i: int| from <= i < quote_from(text, from) ==> text[i] != '"',
    decreases text.len() - from,
{
    if from < text.len() && text[from] != '"' {
        lemma_quote_from(text, from + 1);
    }
}

proof fn lemma_skip_spaces(text: Seq<char>, from: int)
    requires
        0 <= from,
    ensures
        from <= skip_spaces(text, from),
        forall|i: int| from <= i < skip_spaces(text, from) ==> is_space(text[i]),
    decreases text.len() - from,
{
    if from < text.len() && is_space(text[from]) {
        lemma_skip_spaces(text, from + 1);
    }
}

fn space(c: char) -> (b: bool)
    ensures
        b == is_space(c),
{
    let code: u32 = c as u32;
    (0x09 <= code && code <= 0x0d) || code == 0x20 || code == 0x85 || code == 0xa0 || code
        == 0x1680 || (0x2000 <= code && code <= 0x200a) || code == 0x2028 || code == 0x2029
        || code == 0x202f || code == 0x205f || code == 0x3000
}

fn found_at(text: &Vec<char>, at: usize, pattern: &Vec<char>) -> (found: bool)
    requires
        at <= text.len(),
    ensures
        found == starts_at(text@, at as int, pattern@),
{
    if pattern.len() > text.len() - at {
        return false;
    }
    let mut k: usize = 0;
    while k < pattern.len()
        invariant
            at + pattern.len() <= text.len(),
            k <= pattern.len(),
            forall|j: int| 0 <= j < k ==> text@[at + j] == pattern@[j],
        decreases pattern.len() - k,
    {
        if text[at + k] != pattern[k] {
            assert(text@.subrange(at as int, at + pattern.len())[k as int] != pattern@[k as int]);
            return false;
        }
        k += 1;
    }
    assert(text@.subrange(at as int, at + pattern.len()) =~= pattern@);
    true
}

fn spaces_end(text: &Vec<char>, from: usize) -> (end: usize)
    requires
        from <= text.len(),
    ensures
        end == skip_spaces(text@, from as int),
        from <= end <= text.len(),
{
    let mut i: usize = from;
    while i < text.len() && space(text[i])
        invariant
            from <= i <= text.len(),
            skip_spaces(text@, from as int) == skip_spaces(text@, i as int),
        decreases text.len() - i,
    {
        i += 1;
    }
    i
}

fn next_quote(text: &Vec<char>, from: usize) -> (end: usize)
    requires
        from <= text.len(),
    ensures
        end == quote_from(text@, from as int),
        from <= end <= text.len(),
{
    let mut i: usize = from;
    while i < text.len() && text[i] != '"'
        invariant
            from <= i <= text.len(),
            quote_from(text@, from as int) == quote_from(text@, i as int),
        decreases text.len() - i,
    {
        i += 1;
    }
    i
}

fn capture(text: &Vec<char>, at: usize, key: &Vec<char>, scheme: &Vec<char>) -> (range: Option<
    (usize, usize),
>)
    requires
        at <= text.len(),
        key@ == KEY@,
        scheme@ == SCHEME@,
    ensures
        match range {
            Some((from, to)) => capture_at(text@, at as int) == Some((from as int, to as int))
                && from <= to <= text.len(),
            None => capture_at(text@, at as int) is None,
        },
{
    if !found_at(text, at, key) {
        return None;
    }
    let equals = spaces_end(text, at + key.len());
    if equals >= text.len() || text[equals] != '=' {
        return None;
    }
    let opening = spaces_end(text, equals + 1);
    if opening >= text.len() || text[opening] != '"' {
        return None;
    }
    let from = opening + 1;
    if !found_at(text, from, scheme) {
        return None;
    }
    let to = next_quote(text, from + scheme.len());
    if to >= text.len() || to == from + scheme.len() {
        return None;
    }
    Some((from, to))
}

fn unescape(page: &str, text: &Vec<char>, from: usize, to: usize) -> (url: String)
    requires
        text@ == page@,
        from <= to <= text.len(),
    ensures
        url@ == unescaped(text@.subrange(from as int, to as int)),
{
    let ghost escaped = text@.subrange(from as int, to as int);
    let mut url = String::new();
    let mut kept: usize = from;
    let mut i: usize = from;
    while i < to
        invariant
            text@ == page@,
            from <= kept <= i <= to <= text.len(),
            escaped == text@.subrange(from as int, to as int),
            url@ + text@.subrange(kept as int, i as int) == unescaped_prefix(escaped, i - from),
        decreases to - i,
    {
        let ghost before = url@ + text@.subrange(kept as int, i as int);
        assert(escaped[i - from] == text@[i as int]);
        if text[i] == '\\' && i + 1 < to && text[i + 1] == '/' {
            assert(escaped[i + 1 - from] == text@[i + 1]);
            url.append(page.substring_char(kept, i));
            kept = i + 1;
            assert(url@ + text@.subrange(kept as int, i + 1) =~= before);
        } else {
            assert(stays(escaped, i - from));
            assert(url@ + text@.subrange(kept as int, i + 1) =~= before.push(text@[i as int]));
        }
        i += 1;
    }
    url.append(page.substring_char(kept, to));
    url
}

/// Extracts the ticket URL from a sign-in page.
///
/// Succeeds exactly when the page matches the pattern somewhere, with the
/// capture of the leftmost match, un-escaped.
pub fn extract_ticket_url(page: &str) -> (found: Result<String, AuthError>)
    ensures
        match found {
            Ok(url) => ticket_url(page@) == Some(url@),
            Err(e) => e == AuthError::TicketNotFound && ticket_url(page@) is None,
        },
{
    let text = chars_of(page);
    let key = chars_of(KEY);
    let scheme = chars_of(SCHEME);
    let mut at: usize = 0;
    while at < text.len()
        invariant
            text@ == page@,
            key@ == KEY@,
            scheme@ == SCHEME@,
            at <= text.len(),
            first_capture(text@, 0) == first_capture(text@, at as int),
        decreases text.len() - at,
    {
        match capture(&text, at, &key, &scheme) {
            Some((from, to)) => {
                return Ok(unescape(page, &text, from, to));
            },
            None => {},
        }
        at += 1;
    }
    Err(AuthError::TicketNotFound)
}

} // verus!
