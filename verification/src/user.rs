//! A Telegram subscriber: trigger warnings, filters, and what is sent to them.

use vstd::prelude::*;
use crate::filter::{filter_matches, Filter};
use crate::model::{Disruption, DisruptionView};
use crate::text::{concat, contains, contains_text, lowercase, to_lowercase};

verus! {

/// A subscribed Telegram chat and its settings.
pub struct User {
    pub chat_id: i64,
    pub trigger_warnings: Vec<String>,
    pub filters: Vec<Filter>,
    pub one_filter_enough: bool,
    pub show_planned_disruptions: bool,
}

/// The trigger warning `tw` applies to `message`: ignoring case, it occurs in it.
pub open spec fn triggers(tw: Seq<char>, message: Seq<char>) -> bool {
    contains_text(lowercase(message), lowercase(tw))
}

/// The first trigger warning of `tws` that applies to `message`.
pub open spec fn first_trigger(tws: Seq<Seq<char>>, message: Seq<char>) -> Option<Seq<char>>
    decreases tws.len(),
{
    if tws.len() == 0 {
        None
    } else if triggers(tws[0], message) {
        Some(tws[0])
    } else {
        first_trigger(tws.drop_first(), message)
    }
}

/// Whether `f` matches `d`, for a filter of the data source strecken.info.
pub open spec fn user_filter_matches(f: Filter, d: DisruptionView, location_match: bool) -> bool {
    match f {
        Filter::StreckenInfo(g) => filter_matches(g, d, location_match),
    }
}

/// The user does not want `d`: they have filters, and none matches (when one
/// is enough) or not all match (otherwise). `location_matches[i]` is the
/// distance check of filter `i`.
pub open spec fn filtered_out(
    filters: Seq<Filter>,
    one_filter_enough: bool,
    d: DisruptionView,
    location_matches: Seq<bool>,
) -> bool {
    filters.len() > 0 && if one_filter_enough {
        !(exists|i: int|
            0 <= i < filters.len() && #[trigger] user_filter_matches(
                filters[i],
                d,
                location_matches[i],
            ))
    } else {
        !(forall|i: int|
            0 <= i < filters.len() ==> #[trigger] user_filter_matches(
                filters[i],
                d,
                location_matches[i],
            ))
    }
}

/// The text sent to a user: with a trigger warning, `TW: word` and the
/// message as a spoiler; else the message itself.
pub open spec fn user_message(trigger: Option<Seq<char>>, message: Seq<char>) -> Seq<char> {
    match trigger {
        Some(tw) => "TW: "@ + tw + "\n<span class=\"tg-spoiler\">"@ + message + "</span>"@,
        None => message,
    }
}

/// The first of the trigger warnings `tws` that occurs in `message`, ignoring
/// case.
pub fn first_trigger_word(tws: &Vec<String>, message: &str) -> (r: Option<String>)
    ensures
        r.deep_view() == first_trigger(tws.deep_view(), message@),
{
    let ghost words = tws.deep_view();
    let lower_message = to_lowercase(message);
    let mut i: usize = 0;
    assert(words.skip(0) == words);
    while i < tws.len()
        invariant
            words == tws.deep_view(),
            lower_message@ == lowercase(message@),
            i <= tws@.len(),
            first_trigger(words, message@) == first_trigger(words.skip(i as int), message@),
        decreases tws@.len() - i,
    {
        assert(words.skip(i as int)[0] == tws@[i as int]@);
        let lower_tw = to_lowercase(tws[i].as_str());
        if contains(lower_message.as_str(), lower_tw.as_str()) {
            let tw = tws[i].clone();
            return Some(tw);
        }
        assert(words.skip(i as int).drop_first() == words.skip(i + 1));
        i = i + 1;
    }
    None
}

impl User {
    /// The first of the user's trigger warnings that occurs in `message`,
    /// ignoring case.
    pub fn is_trigger(&self, message: &str) -> (r: Option<String>)
        ensures
            r.deep_view() == first_trigger(self.trigger_warnings.deep_view(), message@),
    {
        first_trigger_word(&self.trigger_warnings, message)
    }

    /// Whether the user does not want the disruption; `location_matches[i]`
    /// is the distance check of the user's filter `i`.
    pub fn is_filtered(&self, disruption: &Disruption, location_matches: &[bool]) -> (b: bool)
        requires
            location_matches@.len() == self.filters@.len(),
        ensures
            b == filtered_out(self.filters@, self.one_filter_enough, disruption@, location_matches@),
    {
        let n = self.filters.len();
        if n == 0 {
            return false;
        }
        let mut any = false;
        let mut all = true;
        let mut i: usize = 0;
        while i < n
            invariant
                n == self.filters@.len(),
                location_matches@.len() == n,
                i <= n,
                any == (exists|k: int|
                    0 <= k < i && #[trigger] user_filter_matches(
                        self.filters@[k],
                        disruption@,
                        location_matches@[k],
                    )),
                all == (forall|k: int|
                    0 <= k < i ==> #[trigger] user_filter_matches(
                        self.filters@[k],
                        disruption@,
                        location_matches@[k],
                    )),
            decreases n - i,
        {
            let m = self.filters[i].filter(disruption, location_matches[i]);
            assert(m == user_filter_matches(self.filters@[i as int], disruption@, location_matches@[i as int]));
            if m {
                any = true;
            } else {
                all = false;
            }
            i = i + 1;
        }
        if self.one_filter_enough {
            !any
        } else {
            !all
        }
    }

    /// The text to send this user for `message`: as a spoiler behind its
    /// first matching trigger warning, if any.
    pub fn message_for(&self, message: &str) -> (s: String)
        ensures
            s@ == user_message(first_trigger(self.trigger_warnings.deep_view(), message@), message@),
    {
        match self.is_trigger(message) {
            Some(tw) => {
                let mut s = concat("TW: ", tw.as_str());
                s.append("\n<span class=\"tg-spoiler\">");
                s.append(message);
                s.append("</span>");
                assert(s@ == user_message(Some(tw@), message@));
                s
            },
            None => {
                let s = message.to_string();
                assert(s@ == user_message(None, message@));
                s
            },
        }
    }
}

} // verus!
