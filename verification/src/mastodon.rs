//! Mastodon-side decisions: fitting a status into the instance's limit and
//! the content warning of a status.

use vstd::prelude::*;
use crate::text::{chars_of, concat, from_first_chars};

verus! {

/// `message` cut to fit `limit` characters: unchanged if it fits, else its
/// first `limit - 4` characters and `...`.
pub open spec fn limited(message: Seq<char>, limit: usize) -> Seq<char> {
    if message.len() <= limit {
        message
    } else {
        message.take(limit - 4) + "..."@
    }
}

/// The message cut to at most `limit` characters.
pub fn limit_message(message: String, limit: usize) -> (s: String)
    requires
        message@.len() <= limit || limit >= 4,
    ensures
        s@ == limited(message@, limit),
{
    let chars = chars_of(message.as_str());
    if chars.len() <= limit {
        message
    } else {
        let reduced = from_first_chars(chars.as_slice(), limit - 4);
        concat(reduced.as_str(), "...")
    }
}

/// The content warning of a status: `TW: word` for a trigger word.
pub open spec fn spoiler_text(trigger_word: Option<Seq<char>>) -> Option<Seq<char>> {
    match trigger_word {
        Some(tw) => Some("TW: "@ + tw),
        None => None,
    }
}

/// The content warning of a status for the trigger word, if any.
pub fn spoiler_for(trigger_word: Option<String>) -> (s: Option<String>)
    ensures
        s.deep_view() == spoiler_text(trigger_word.deep_view()),
{
    match trigger_word {
        Some(tw) => Some(concat("TW: ", tw.as_str())),
        None => None,
    }
}

} // verus!
