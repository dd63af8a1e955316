//! Reading the expected digest out of a checksum resource of the form
//! `"<hex-digest> <filename>"`.
use vstd::prelude::*;

verus! {

/// ASCII whitespace: space, tab, line feed, vertical tab, form feed, carriage return.
pub open spec fn is_space(c: char) -> bool {
    c == ' ' || c == '\t' || c == '\n' || c == '\r' || c == '\x0b' || c == '\x0c'
}

/// The first index at or after `i` that does not hold whitespace (or the length).
pub open spec fn skip_space(s: Seq<char>, i: int) -> int
    decreases s.len() - i,
{
    if i < 0 || i >= s.len() {
        s.len() as int
    } else if is_space(s[i]) {
        skip_space(s, i + 1)
    } else {
        i
    }
}

/// The first index at or after `i` that holds whitespace (or the length).
pub open spec fn skip_token(s: Seq<char>, i: int) -> int
    decreases s.len() - i,
{
    if i < 0 || i >= s.len() {
        s.len() as int
    } else if is_space(s[i]) {
        i
    } else {
        skip_token(s, i + 1)
    }
}

/// The first whitespace-separated token of `s`, if it has one.
pub open spec fn first_token_of(s: Seq<char>) -> Option<Seq<char>> {
    let start = skip_space(s, 0);
    if start >= s.len() {
        None
    } else {
        Some(s.subrange(start, skip_token(s, start)))
    }
}

fn char_is_space(c: char) -> (r: bool)
    ensures
        r == is_space(c),
{
    c == ' ' || c == '\t' || c == '\n' || c == '\r' || c == '\x0b' || c == '\x0c'
}

/// The first whitespace-separated token of a checksum resource body: the
/// expected digest. `None` when the body is empty or all whitespace.
pub fn first_token(body: &str) -> (r: Option<String>)
    ensures
        r matches Some(t) ==> first_token_of(body@) == Some(t@),
        r is None ==> first_token_of(body@) is None,
{
    let n = body.unicode_len();
    let mut start: usize = 0;
    while start < n && char_is_space(body.get_char(start))
        invariant
            n == body@.len(),
            start <= n,
            skip_space(body@, start as int) == skip_space(body@, 0),
        decreases n - start,
    {
        start = start + 1;
    }
    if start == n {
        return None;
    }
    let mut end: usize = start;
    while end < n && !char_is_space(body.get_char(end))
        invariant
            n == body@.len(),
            start <= end <= n,
            skip_token(body@, end as int) == skip_token(body@, start as int),
        decreases n - end,
    {
        end = end + 1;
    }
    let token = body.substring_char(start, end);
    Some(token.to_string())
}

} // verus!
