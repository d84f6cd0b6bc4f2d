//! The rules that raw text is held to, and the outside functions that the
//! rules rest on: regular-expression matching, HTML escaping and Unicode's
//! notion of a numeric character.

use vstd::prelude::*;

verus! {

/// The pattern of a well formatted username.
pub const USERNAME_REGEX: &'static str = "^[a-zA-Z0-9_-]{4,10}$";

/// The pattern of a well formatted password.
pub const PASSWORD_REGEX: &'static str = "^[\\w]{8,64}$";

/// The pattern of a well formatted email address.
pub const EMAIL_REGEX: &'static str = "^[A-Za-z0-9._%+-]+@[A-Za-z0-9-]+\\.[A-Za-z]{2,}$";

/// The pattern of a well formatted search query.
pub const SEARCH_QUERY_REGEX: &'static str = r"^([a-zA-Z0-9_-æøåÆØÅ]|\s){2,15}$";

/// Whether `text` holds a match of the regular expression `pattern`:
/// `None` where `pattern` is no regular expression at all.
pub uninterp spec fn pattern_match(pattern: Seq<char>, text: Seq<char>) -> Option<bool>;

/// Compiles `pattern` with `regex::Regex::new` and searches `text` with
/// `regex::Regex::is_match`. Both depend on their arguments alone, so the
/// outcome is a fixed function of the two texts; nothing more is claimed.
/// The pattern is compiled anew at every call.
#[verifier::external_body]
pub(crate) fn pattern_matches(pattern: &str, text: &str) -> (found: Option<bool>)
    ensures
        found == pattern_match(pattern@, text@),
{
    match regex::Regex::new(pattern) {
        Ok(re) => Some(re.is_match(text)),
        Err(_) => None,
    }
}

/// What a single character becomes when text is escaped for HTML.
pub open spec fn entity(c: char) -> Seq<char> {
    if c == '"' {
        seq!['&', 'q', 'u', 'o', 't', ';']
    } else if c == '&' {
        seq!['&', 'a', 'm', 'p', ';']
    } else if c == '\'' {
        seq!['&', '#', 'x', '2', '7', ';']
    } else if c == '<' {
        seq!['&', 'l', 't', ';']
    } else if c == '>' {
        seq!['&', 'g', 't', ';']
    } else {
        seq![c]
    }
}

/// Text with each of `"`, `&`, `'`, `<` and `>` replaced by its entity and
/// every other character kept.
pub open spec fn escaped(text: Seq<char>) -> Seq<char>
    decreases text.len(),
{
    if text.len() == 0 {
        Seq::empty()
    } else {
        entity(text[0]) + escaped(text.drop_first())
    }
}

/// Calls `htmlescape::encode_minimal`, which walks the characters of its
/// argument and writes the entity of each of `"`, `&`, `'`, `<`, `>` and
/// every other character unchanged.
#[verifier::external_body]
pub(crate) fn escape_minimal(text: &str) -> (out: String)
    ensures
        out@ == escaped(text@),
{
    htmlescape::encode_minimal(text)
}

/// The number of bytes that `text` takes in UTF-8.
pub open spec fn byte_len(text: Seq<char>) -> nat {
    vstd::utf8::encode_utf8(text).len()
}

/// Whether `c` is one of the letters `a` to `z`.
pub open spec fn is_lower(c: char) -> bool {
    'a' <= c && c <= 'z'
}

/// Whether `c` is one of the letters `A` to `Z`.
pub open spec fn is_upper(c: char) -> bool {
    'A' <= c && c <= 'Z'
}

/// Whether Unicode counts `c` as numeric.
pub uninterp spec fn is_numeric(c: char) -> bool;

/// Calls `char::is_numeric`, which answers from the character's Unicode
/// general category alone.
#[verifier::external_body]
pub(crate) fn numeric(c: char) -> (yes: bool)
    ensures
        yes == is_numeric(c),
{
    c.is_numeric()
}

/// Whether some character of `text` is a lowercase ASCII letter.
pub open spec fn has_lower(text: Seq<char>) -> bool {
    exists|i: int| 0 <= i < text.len() && is_lower(#[trigger] text[i])
}

/// Whether some character of `text` is an uppercase ASCII letter.
pub open spec fn has_upper(text: Seq<char>) -> bool {
    exists|i: int| 0 <= i < text.len() && is_upper(#[trigger] text[i])
}

/// Whether some character of `text` is numeric.
pub open spec fn has_numeric(text: Seq<char>) -> bool {
    exists|i: int| 0 <= i < text.len() && is_numeric(#[trigger] text[i])
}

/// Looks for a lowercase ASCII letter in `text`.
pub fn any_lower(text: &str) -> (found: bool)
    ensures
        found == has_lower(text@),
{
    let mut found = false;
    for c in it: text.chars()
        invariant
            it.seq() == text@,
            found == (exists|i: int| 0 <= i < it.index() && is_lower(#[trigger] text@[i])),
    {
        if 'a' <= c && c <= 'z' {
            found = true;
        }
    }
    found
}

/// Looks for an uppercase ASCII letter in `text`.
pub fn any_upper(text: &str) -> (found: bool)
    ensures
        found == has_upper(text@),
{
    let mut found = false;
    for c in it: text.chars()
        invariant
            it.seq() == text@,
            found == (exists|i: int| 0 <= i < it.index() && is_upper(#[trigger] text@[i])),
    {
        if 'A' <= c && c <= 'Z' {
            found = true;
        }
    }
    found
}

/// Looks for a numeric character in `text`.
pub fn any_numeric(text: &str) -> (found: bool)
    ensures
        found == has_numeric(text@),
{
    let mut found = false;
    for c in it: text.chars()
        invariant
            it.seq() == text@,
            found == (exists|i: int| 0 <= i < it.index() && is_numeric(#[trigger] text@[i])),
    {
        if numeric(c) {
            found = true;
        }
    }
    found
}

/// The length of `text` in bytes.
pub fn length(text: &str) -> (n: usize)
    ensures
        n == byte_len(text@),
{
    text.as_bytes().len()
}

/// Whether `c` is one of the five characters that escaping replaces.
pub open spec fn is_special(c: char) -> bool {
    c == '"' || c == '&' || c == '\'' || c == '<' || c == '>'
}

/// Whether `text` holds none of the characters that escaping replaces.
pub open spec fn is_plain(text: Seq<char>) -> bool {
    forall|i: int| 0 <= i < text.len() ==> !is_special(#[trigger] text[i])
}

/// Escaping leaves a text without special characters as it is.
pub proof fn lemma_escaped_plain(text: Seq<char>)
    requires
        is_plain(text),
    ensures
        escaped(text) == text,
    decreases text.len(),
{
    if text.len() > 0 {
        let rest = text.drop_first();
        assert(!is_special(text[0]));
        assert forall|i: int| 0 <= i < rest.len() implies !is_special(#[trigger] rest[i]) by {
            assert(rest[i] == text[i + 1]);
        }
        lemma_escaped_plain(rest);
        assert(seq![text[0]] + rest =~= text);
    } else {
        assert(escaped(text) =~= text);
    }
}

/// Only a text without special characters has an escaped form without
/// them: every special character leaves a `&` behind.
pub proof fn lemma_plain_escaped(text: Seq<char>)
    requires
        is_plain(escaped(text)),
    ensures
        is_plain(text),
        escaped(text) == text,
    decreases text.len(),
{
    if text.len() > 0 {
        let rest = text.drop_first();
        let out = escaped(text);
        assert(out == entity(text[0]) + escaped(rest));
        assert(out[0] == entity(text[0])[0]);
        if is_special(text[0]) {
            assert(out[0] == '&');
            assert(is_special(out[0]));
        }
        assert(entity(text[0]) == seq![text[0]]);
        assert forall|i: int| 0 <= i < escaped(rest).len() implies !is_special(
            #[trigger] escaped(rest)[i],
        ) by {
            assert(escaped(rest)[i] == out[i + 1]);
        }
        lemma_plain_escaped(rest);
        assert forall|i: int| 0 <= i < text.len() implies !is_special(#[trigger] text[i]) by {
            if i > 0 {
                assert(text[i] == rest[i - 1]);
            }
        }
        lemma_escaped_plain(text);
    } else {
        assert(escaped(text) =~= text);
    }
}

/// An escaped text holds no quote and no angle bracket, whatever the text
/// was.
pub proof fn lemma_escaped_safe(text: Seq<char>)
    ensures
        forall|i: int|
            0 <= i < escaped(text).len() ==> {
                let c = #[trigger] escaped(text)[i];
                c != '"' && c != '\'' && c != '<' && c != '>'
            },
    decreases text.len(),
{
    if text.len() > 0 {
        let rest = text.drop_first();
        let head = entity(text[0]);
        lemma_escaped_safe(rest);
        assert forall|i: int| 0 <= i < escaped(text).len() implies {
            let c = #[trigger] escaped(text)[i];
            c != '"' && c != '\'' && c != '<' && c != '>'
        } by {
            if i < head.len() {
                assert(escaped(text)[i] == head[i]);
            } else {
                assert(escaped(text)[i] == escaped(rest)[i - head.len()]);
            }
        }
    }
}

/// Escaping never shortens a text.
pub proof fn lemma_escaped_len(text: Seq<char>)
    ensures
        escaped(text).len() >= text.len(),
    decreases text.len(),
{
    if text.len() > 0 {
        lemma_escaped_len(text.drop_first());
    }
}

} // verus!
