//! The plain-text message: prefix, location, cause, and the changed effects,
//! period and text.

use vstd::prelude::*;
use crate::datetime::{utc_now, UtcInstant};
use crate::markup::{br_to_newlines, format_text};
use crate::model::{contains_part, Disruption, DisruptionPart, DisruptionView};
use crate::partial_format::{
    cause_text, expired_at, expiry_decidable, get_cause, get_location, get_prefix_at,
    get_product_effects, get_times, location_text, prefix_text, product_effects_text, times_text,
};

verus! {

/// `line` followed by a line break when `shown`, else nothing.
pub open spec fn optional_line(shown: bool, line: Seq<char>) -> Seq<char> {
    if shown {
        line + "\n"@
    } else {
        Seq::<char>::empty()
    }
}

/// Appends `line` and a line break when `shown`.
pub(crate) fn push_optional_line(s: &mut String, shown: bool, line: &str)
    ensures
        final(s)@ == old(s)@ + optional_line(shown, line@),
{
    if shown {
        s.append(line);
        s.append("\n");
    } else {
        assert(old(s)@ + optional_line(shown, line@) == old(s)@);
    }
}

/// The plain-text message, given whether the disruption counts as over.
pub open spec fn text_message(
    d: DisruptionView,
    changes: Seq<DisruptionPart>,
    update: bool,
    expired: bool,
) -> Seq<char> {
    prefix_text(d, update, expired) + " "@ + location_text(d, Some(8usize)) + "\n"@
        + br_to_newlines(cause_text(d)) + "\n"@
        + optional_line(changes.contains(DisruptionPart::Effects), product_effects_text(d))
        + optional_line(changes.contains(DisruptionPart::Times), times_text(d))
        + optional_line(changes.contains(DisruptionPart::Text), br_to_newlines(d.text))
}

/// The plain-text message about the disruption at the instant `now`.
pub fn format_at(
    disruption: &Disruption,
    changes: &[DisruptionPart],
    update: bool,
    now: UtcInstant,
) -> (s: String)
    requires
        disruption@.wf(),
        expiry_decidable(disruption@),
    ensures
        s@ == text_message(disruption@, changes@, update, expired_at(disruption@, now)),
{
    let mut s = get_prefix_at(disruption, update, now).to_string();
    s.append(" ");
    let location = get_location(disruption, Some(8));
    s.append(location.as_str());
    s.append("\n");
    let cause = format_text(get_cause(disruption).as_str());
    s.append(cause.as_str());
    s.append("\n");
    let effects = get_product_effects(disruption);
    push_optional_line(&mut s, contains_part(changes, DisruptionPart::Effects), effects.as_str());
    let times = get_times(disruption);
    push_optional_line(&mut s, contains_part(changes, DisruptionPart::Times), times.as_str());
    let text = format_text(disruption.text.as_str());
    push_optional_line(&mut s, contains_part(changes, DisruptionPart::Text), text.as_str());
    s
}

/// The plain-text message about the disruption now.
pub fn format(disruption: &Disruption, changes: &[DisruptionPart], update: bool) -> (s: String)
    requires
        disruption@.wf(),
        expiry_decidable(disruption@),
    ensures
        exists|now: UtcInstant|
            s@ == text_message(disruption@, changes@, update, expired_at(disruption@, now)),
        disruption@.expired ==> s@ == text_message(disruption@, changes@, update, true),
{
    let now = utc_now();
    format_at(disruption, changes, update, now)
}

} // verus!
