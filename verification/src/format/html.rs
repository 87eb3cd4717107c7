//! The Telegram message, in Telegram's HTML.

use vstd::prelude::*;
use crate::datetime::{utc_now, UtcInstant};
use crate::markup::{br_to_newlines, encode_text, format_text, html_escaped};
use crate::model::{Disruption, DisruptionView};
use crate::partial_format::{
    cause_text, expired_at, expiry_decidable, get_cause, get_location, get_prefix_at,
    get_product_effects, get_times, location_text, prefix_text, product_effects_text, times_text,
};

verus! {

/// The Telegram message, given whether the disruption counts as over.
pub open spec fn html_message(d: DisruptionView, update: bool, expired: bool) -> Seq<char> {
    let head = cause_text(d) + "\n"@ + product_effects_text(d);
    prefix_text(d, update, expired) + " <i><u>Ort: "@ + location_text(d, None) + "</u></i>\n<b>"@
        + html_escaped(br_to_newlines(head)) + "</b>\n\n"@ + times_text(d) + "\n\n"@
        + html_escaped(br_to_newlines(d.text))
}

/// The Telegram message about the disruption at the instant `now`.
pub fn format_at(disruption: &Disruption, update: bool, now: UtcInstant) -> (s: String)
    requires
        disruption@.wf(),
        expiry_decidable(disruption@),
    ensures
        s@ == html_message(disruption@, update, expired_at(disruption@, now)),
{
    let mut head = get_cause(disruption);
    head.append("\n");
    let effects = get_product_effects(disruption);
    head.append(effects.as_str());
    let mut s = get_prefix_at(disruption, update, now).to_string();
    s.append(" <i><u>Ort: ");
    let location = get_location(disruption, None);
    s.append(location.as_str());
    s.append("</u></i>\n<b>");
    let head_html = encode_text(format_text(head.as_str()).as_str());
    s.append(head_html.as_str());
    s.append("</b>\n\n");
    let times = get_times(disruption);
    s.append(times.as_str());
    s.append("\n\n");
    let text_html = encode_text(format_text(disruption.text.as_str()).as_str());
    s.append(text_html.as_str());
    s
}

/// The Telegram message about the disruption now.
pub fn format(disruption: &Disruption, update: bool) -> (s: String)
    requires
        disruption@.wf(),
        expiry_decidable(disruption@),
    ensures
        exists|now: UtcInstant| s@ == html_message(disruption@, update, expired_at(disruption@, now)),
        disruption@.expired ==> s@ == html_message(disruption@, update, true),
{
    let now = utc_now();
    format_at(disruption, update, now)
}

} // verus!
