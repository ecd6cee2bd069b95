use vstd::prelude::*;

verus! {

/// The position of the first `c` in `t` at or after `k` (`t.len()` if none).
pub open spec fn index_of_from(t: Seq<char>, k: int, c: char) -> int
    decreases t.len() - k,
{
    if k >= t.len() {
        t.len() as int
    } else if t[k] == c {
        k
    } else {
        index_of_from(t, k + 1, c)
    }
}

/// The position of the first `://` in `t` at or after `k` (`t.len()` if none).
pub open spec fn separator_from(t: Seq<char>, k: int) -> int
    decreases t.len() - k,
{
    if k + 3 > t.len() {
        t.len() as int
    } else if t[k] == ':' && t[k + 1] == '/' && t[k + 2] == '/' {
        k
    } else {
        separator_from(t, k + 1)
    }
}

/// Where the authority that starts at `k` ends: the first `/`, `?` or `#` at
/// or after `k` (`t.len()` if none).
pub open spec fn authority_end_from(t: Seq<char>, k: int) -> int
    decreases t.len() - k,
{
    if k >= t.len() {
        t.len() as int
    } else if t[k] == '/' || t[k] == '?' || t[k] == '#' {
        k
    } else {
        authority_end_from(t, k + 1)
    }
}

/// The number of bytes of a character in UTF-8.
pub open spec fn utf8_width(ch: char) -> int {
    if (ch as u32) < 0x80 {
        1
    } else if (ch as u32) < 0x800 {
        2
    } else if (ch as u32) < 0x10000 {
        3
    } else {
        4
    }
}

/// The byte offset, in UTF-8, of the character at position `k`.
pub open spec fn byte_offset(t: Seq<char>, k: int) -> int
    decreases k,
{
    if k <= 0 {
        0
    } else {
        byte_offset(t, k - 1) + utf8_width(t[k - 1])
    }
}

/// Whether the bytes that the parser takes for the authority hold `ch`: they
/// run from three bytes past the first `:` (at `colon`) up to `end`; when that
/// `:` opens the first `://` (at `sep`), these are the characters from
/// `sep + 3` on.
pub open spec fn authority_has(t: Seq<char>, colon: int, sep: int, end: int, ch: char) -> bool {
    if colon == sep {
        exists|j: int| sep + 3 <= j < end && t[j] == ch
    } else {
        exists|j: int|
            colon <= j < end && t[j] == ch && byte_offset(t, j) >= byte_offset(t, colon) + 3
    }
}

/// Whether `hyper::Uri`'s parser (its `FromStr` implementation, hyper 0.11)
/// accepts the text: not the empty text; `*` and any text that starts with
/// `/`; a text with `://` when the authority after it is not empty and holds
/// both of `[` and `]` or neither; any other text when it holds neither `/`
/// nor `?`.
pub open spec fn uri_accepts(t: Seq<char>) -> bool {
    let sep = separator_from(t, 0);
    if t.len() == 0 {
        false
    } else if t.len() == 1 && t[0] == '*' {
        true
    } else if t[0] == '/' {
        true
    } else if sep < t.len() {
        let colon = index_of_from(t, 0, ':');
        let end = authority_end_from(t, sep + 3);
        &&& !(colon == sep && end == sep + 3)
        &&& authority_has(t, colon, sep, end, '[') == authority_has(t, colon, sep, end, ']')
    } else {
        index_of_from(t, 0, '/') == t.len() && index_of_from(t, 0, '?') == t.len()
    }
}

/// Calls `<hyper::Uri as FromStr>::from_str` and reports whether it succeeded.
/// Trusted: the contract claims that the parser accepts exactly the texts
/// that `uri_accepts` describes, the rule of `Uri::new` in hyper 0.11.
#[verifier::external_body]
pub(crate) fn uri_parses(text: &str) -> (r: bool)
    ensures
        r == uri_accepts(text@),
{
    text.parse::<hyper::Uri>().is_ok()
}

/// A URL that the URI parser refused.
#[derive(Debug)]
pub struct InvalidUrl {
    pub url: String,
}

/// The view of an optional string.
pub open spec fn opt_view(s: Option<&str>) -> Option<Seq<char>> {
    match s {
        Some(t) => Some(t@),
        None => None,
    }
}

/// The view of an optional owned string.
pub open spec fn opt_string_view(s: Option<String>) -> Option<Seq<char>> {
    match s {
        Some(t) => Some(t@),
        None => None,
    }
}

/// Checks `url` with the URI parser: `Ok` with the text when it parses,
/// `Err` with the text otherwise.
pub fn checked_url(url: String) -> (r: Result<String, InvalidUrl>)
    ensures
        r matches Ok(u) ==> u@ == url@ && uri_accepts(url@),
        r matches Err(e) ==> e.url@ == url@ && !uri_accepts(url@),
{
    if uri_parses(url.as_str()) {
        Ok(url)
    } else {
        Err(InvalidUrl { url })
    }
}

} // verus!
