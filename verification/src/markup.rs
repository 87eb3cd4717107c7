//! Markup in disruption texts: `<br>` tags become line breaks, and text put
//! into Telegram HTML is escaped.

use vstd::prelude::*;

verus! {

/// The length of the tag `<br`, blanks, an optional `/`, `>` at the start of
/// `s`, if `s` starts with one (what the pattern `<br */?>` matches there).
pub open spec fn br_tag_len(s: Seq<char>) -> Option<int> {
    if s.len() >= 3 && s[0] == '<' && s[1] == 'b' && s[2] == 'r' {
        let after = s.skip(3);
        let blanks = blank_run(after);
        let rest = after.skip(blanks);
        if rest.len() >= 1 && rest[0] == '>' {
            Some(3 + blanks + 1)
        } else if rest.len() >= 2 && rest[0] == '/' && rest[1] == '>' {
            Some(3 + blanks + 2)
        } else {
            None
        }
    } else {
        None
    }
}

/// The number of blanks (`' '`) at the start of `s`.
pub open spec fn blank_run(s: Seq<char>) -> int
    decreases s.len(),
{
    if s.len() > 0 && s[0] == ' ' {
        1 + blank_run(s.drop_first())
    } else {
        0
    }
}

/// `s` with every `<br>` tag (`<br`, blanks, optional `/`, `>`) replaced by a
/// line break, scanning from the left without overlaps.
pub open spec fn br_to_newlines(s: Seq<char>) -> Seq<char>
    decreases s.len(),
{
    if s.len() == 0 {
        s
    } else {
        match br_tag_len(s) {
            Some(n) => if 0 < n <= s.len() {
                seq!['\n'] + br_to_newlines(s.skip(n))
            } else {
                s
            },
            None => seq![s[0]] + br_to_newlines(s.drop_first()),
        }
    }
}

/// Calls the regex crate: `Regex::new("<br */?>").replace_all(text, "\n")`.
/// The contract states what that pattern and replacement do, as the regex
/// documentation defines leftmost-first, non-overlapping replacement.
#[verifier::external_body]
fn replace_br_tags(text: &str) -> (r: String)
    ensures
        r@ == br_to_newlines(text@),
{
    regex::Regex::new("<br */?>").unwrap().replace_all(text, "\n").to_string()
}

/// The text with its `<br>` tags turned into line breaks.
pub fn format_text(text: &str) -> (r: String)
    ensures
        r@ == br_to_newlines(text@),
{
    replace_br_tags(text)
}

/// The escape of one character in HTML text.
pub open spec fn html_char(c: char) -> Seq<char> {
    if c == '&' {
        "&amp;"@
    } else if c == '<' {
        "&lt;"@
    } else if c == '>' {
        "&gt;"@
    } else {
        seq![c]
    }
}

/// `s` with `&`, `<` and `>` escaped for HTML text.
pub open spec fn html_escaped(s: Seq<char>) -> Seq<char>
    decreases s.len(),
{
    if s.len() == 0 {
        s
    } else {
        html_escaped(s.drop_last()) + html_char(s.last())
    }
}

/// Calls html_escape's `encode_text`, which writes `&amp;`, `&lt;` and `&gt;`
/// for `&`, `<` and `>` and keeps every other character.
#[verifier::external_body]
pub(crate) fn encode_text(text: &str) -> (r: String)
    ensures
        r@ == html_escaped(text@),
{
    html_escape::encode_text(text).to_string()
}

} // verus!
