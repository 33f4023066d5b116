//! Escaping text for Telegram's HTML and MarkdownV2 message styles, done by
//! teloxide.
use vstd::prelude::*;

verus! {

/// What one character becomes in HTML text: `&`, `<` and `>` as entities.
pub open spec fn html_escape_char(c: char) -> Seq<char> {
    if c == '&' {
        "&amp;"@
    } else if c == '<' {
        "&lt;"@
    } else if c == '>' {
        "&gt;"@
    } else {
        seq![c]
    }
}

/// A text escaped for HTML, character by character.
pub open spec fn html_escaped(s: Seq<char>) -> Seq<char>
    decreases s.len(),
{
    if s.len() == 0 {
        s
    } else {
        html_escaped(s.drop_last()) + html_escape_char(s.last())
    }
}

/// Escaped text opens no tag: it holds no `<` and no `>`.
pub proof fn lemma_html_escaped_has_no_tags(s: Seq<char>)
    ensures
        forall|i: int| 0 <= i < html_escaped(s).len() ==> #[trigger] html_escaped(s)[i] != '<' && html_escaped(s)[i] != '>',
    decreases s.len(),
{
    reveal_strlit("&amp;");
    reveal_strlit("&lt;");
    reveal_strlit("&gt;");
    if s.len() > 0 {
        lemma_html_escaped_has_no_tags(s.drop_last());
        let p = html_escaped(s.drop_last());
        let e = html_escape_char(s.last());
        assert forall|i: int| 0 <= i < (p + e).len() implies #[trigger] (p + e)[i] != '<' && (p + e)[i] != '>' by {
            if i < p.len() {
                assert((p + e)[i] == p[i]);
            } else {
                assert((p + e)[i] == e[i - p.len()]);
            }
        };
    }
}

/// Calls `teloxide::utils::html::escape`. Claimed, as its source shows
/// (`&` replaced first, then `<` and `>`): every `&`, `<` and `>` becomes its
/// entity and every other character stays.
#[verifier::external_body]
pub(crate) fn html_escape(s: &str) -> (r: String)
    ensures
        r@ == html_escaped(s@),
{
    teloxide::utils::html::escape(s)
}

/// The characters that MarkdownV2 gives a meaning.
pub open spec fn markdown_special(c: char) -> bool {
    c == '_' || c == '*' || c == '[' || c == ']' || c == '(' || c == ')' || c == '~' || c == '`'
        || c == '>' || c == '#' || c == '+' || c == '-' || c == '=' || c == '|' || c == '{'
        || c == '}' || c == '.' || c == '!'
}

/// What one character becomes in MarkdownV2 text: special ones behind a backslash.
pub open spec fn markdown_escape_char(c: char) -> Seq<char> {
    if markdown_special(c) {
        seq!['\\', c]
    } else {
        seq![c]
    }
}

/// A text escaped for MarkdownV2, character by character.
pub open spec fn markdown_escaped(s: Seq<char>) -> Seq<char>
    decreases s.len(),
{
    if s.len() == 0 {
        s
    } else {
        markdown_escaped(s.drop_last()) + markdown_escape_char(s.last())
    }
}

/// Calls `teloxide::utils::markdown::escape`. Claimed, as its source shows (one
/// replacement per special character, none of which inserts another special
/// one): every special character gets a backslash before it, every other
/// character stays.
#[verifier::external_body]
pub(crate) fn markdown_escape(s: &str) -> (r: String)
    ensures
        r@ == markdown_escaped(s@),
{
    teloxide::utils::markdown::escape(s)
}

} // verus!
