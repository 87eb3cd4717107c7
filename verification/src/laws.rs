//! Properties of the library that span its functions, proved over the
//! specifications that the functions' contracts use.

use vstd::prelude::*;
use crate::change::{all_parts, changed_parts, disruption_changes, disruption_hash, part_if};
use crate::filter::{filter_matches, Filter, StreckenInfoFilter};
use crate::filter_dialog::{
    callback_action_of, dialog_step_of, filter_created, parse_u16_text, range_question,
    user_filter_type, CallbackActionView, DialogInputView, Expecting, ADD_FILTER,
    CHANGE_FILTER_BEHAVIOUR, CHANGE_FILTER_BEHAVIOUR_ALL, CHANGE_FILTER_BEHAVIOUR_ONE, LOCATION,
    ONLY_CANCELLATIONS, RAILWAY_MANAGEMENT, REMOVE_FILTER, REMOVE_FILTER_PREFIX, SHOW_FILTER,
};
use crate::partial_format::prefix_text;
use crate::format::html::html_message;
use crate::format::mastodon::mastodon_message;
use crate::format::text::{optional_line, text_message};
use crate::markup::br_to_newlines;
use crate::partial_format::{cause_text, location_text, product_effects_text, times_text};
use crate::legacy::planned_after;
use crate::markup::{html_char, html_escaped};
use crate::mastodon::limited;
use crate::model::{DisruptionPart, DisruptionView, TrackRestriction};
use vstd::utf8::{encode_scalar, encode_utf8};
use crate::telegram::{chunk_state, telegram_chunks, utf8_len, TELEGRAM_MAX_MESSAGE_SIZE};
use crate::text::{lowercase, split_on, without_text};
use crate::trigger_warnings::{tw_list, tw_reply, TwReplyView, without_word};
use crate::user::{filtered_out, user_filter_matches};

verus! {

/// A disruption compared with itself has no changed part.
pub proof fn law_unchanged_disruption_has_no_changes(d: DisruptionView, hash: Seq<char>)
    ensures
        disruption_changes(Some(d), hash, d) == Seq::<DisruptionPart>::empty(),
{
    assert(changed_parts(d, d) =~= Seq::<DisruptionPart>::empty());
}

/// Without a stored disruption, the stored fingerprint decides: a matching
/// fingerprint means nothing changed, any other means everything did.
pub proof fn law_fingerprint_decides_changes(d: DisruptionView, hash: Seq<char>)
    ensures
        hash == disruption_hash(d) ==> disruption_changes(None, hash, d).len() == 0,
        hash != disruption_hash(d) ==> disruption_changes(None, hash, d) == all_parts(),
{
}

/// The changed parts come in the fixed order cause, effects, locations,
/// times, text, each at most once: they are a subsequence of all parts.
pub proof fn law_changed_parts_in_order(stored: DisruptionView, new: DisruptionView)
    ensures
        changed_parts(stored, new).len() <= 5,
        forall|i: int, j: int|
            0 <= i < j < changed_parts(stored, new).len() ==> changed_parts(stored, new)[i]
                != changed_parts(stored, new)[j],
        forall|i: int|
            0 <= i < changed_parts(stored, new).len() ==> all_parts().contains(
                #[trigger] changed_parts(stored, new)[i],
            ),
{
    let p = changed_parts(stored, new);
    assert forall|i: int| 0 <= i < p.len() implies all_parts().contains(#[trigger] p[i]) by {
        match p[i] {
            DisruptionPart::Cause => assert(all_parts()[0] == p[i]),
            DisruptionPart::Effects => assert(all_parts()[1] == p[i]),
            DisruptionPart::Locations => assert(all_parts()[2] == p[i]),
            DisruptionPart::Times => assert(all_parts()[3] == p[i]),
            DisruptionPart::Text => assert(all_parts()[4] == p[i]),
        }
    }
}

/// A shortened status never exceeds the limit (for limits of at least 4),
/// and a status that fits is left as it is.
pub proof fn law_limited_fits(message: Seq<char>, limit: usize)
    requires
        limit >= 4,
    ensures
        limited(message, limit).len() <= limit,
        message.len() <= limit ==> limited(message, limit) == message,
{
    reveal_strlit("...");
}

/// A user without filters receives every disruption.
pub proof fn law_no_filters_nothing_filtered(
    one_filter_enough: bool,
    d: DisruptionView,
    location_matches: Seq<bool>,
)
    ensures
        !filtered_out(Seq::<Filter>::empty(), one_filter_enough, d, location_matches),
{
}

/// Text escaped for Telegram HTML holds no `<` and no `>`: it cannot open
/// or close a tag.
pub proof fn law_escaped_text_has_no_tags(s: Seq<char>)
    ensures
        forall|i: int|
            0 <= i < html_escaped(s).len() ==> #[trigger] html_escaped(s)[i] != '<'
                && html_escaped(s)[i] != '>',
    decreases s.len(),
{
    if s.len() > 0 {
        law_escaped_text_has_no_tags(s.drop_last());
        reveal_strlit("&amp;");
        reveal_strlit("&lt;");
        reveal_strlit("&gt;");
        let prev = html_escaped(s.drop_last());
        let tail = html_char(s.last());
        assert forall|i: int| 0 <= i < html_escaped(s).len() implies #[trigger] html_escaped(s)[i]
            != '<' && html_escaped(s)[i] != '>' by {
            if i >= prev.len() {
                assert(html_escaped(s)[i] == tail[i - prev.len()]);
            } else {
                assert(html_escaped(s)[i] == prev[i]);
            }
        }
    }
}

/// After `/tw add word`, the word is the last trigger warning; after
/// `/tw remove word`, no trigger warning equals the word in lower case; after
/// `/tw clear`, there are none.
pub proof fn law_tw_command_effects(tws: Seq<Seq<char>>, text: Seq<char>)
    ensures
        tw_reply(tws, text) matches TwReplyView::Added(w) ==> tw_list(tws, text).last() == w
            && tw_list(tws, text).len() == tws.len() + 1,
        tw_reply(tws, text) matches TwReplyView::Removed(w) ==> forall|i: int|
            0 <= i < tw_list(tws, text).len() ==> lowercase(#[trigger] tw_list(tws, text)[i]) != w,
        tw_reply(tws, text) is Cleared ==> tw_list(tws, text).len() == 0,
{
    if let TwReplyView::Removed(w) = tw_reply(tws, text) {
        lemma_without_word(tws, w);
    }
}

proof fn lemma_without_word(tws: Seq<Seq<char>>, w: Seq<char>)
    ensures
        forall|i: int|
            0 <= i < without_word(tws, w).len() ==> lowercase(#[trigger] without_word(tws, w)[i]) != w,
    decreases tws.len(),
{
    if tws.len() > 0 {
        lemma_without_word(tws.drop_last(), w);
        let prev = without_word(tws.drop_last(), w);
        assert forall|i: int| 0 <= i < without_word(tws, w).len() implies lowercase(
            #[trigger] without_word(tws, w)[i],
        ) != w by {
            if i < prev.len() {
                assert(without_word(tws, w)[i] == prev[i]);
            }
        }
    }
}

/// The pieces of `parts` one after the other.
pub open spec fn concat_all(parts: Seq<Seq<char>>) -> Seq<char>
    decreases parts.len(),
{
    if parts.len() == 0 {
        Seq::<char>::empty()
    } else {
        concat_all(parts.drop_last()) + parts.last()
    }
}

/// Each line followed by a line break, one after the other.
pub open spec fn lines_with_breaks(lines: Seq<Seq<char>>) -> Seq<char>
    decreases lines.len(),
{
    if lines.len() == 0 {
        Seq::<char>::empty()
    } else {
        lines_with_breaks(lines.drop_last()) + lines.last().push('\n')
    }
}

proof fn lemma_chunk_state_concat(lines: Seq<Seq<char>>)
    ensures
        concat_all(chunk_state(lines).0) + chunk_state(lines).1 == lines_with_breaks(lines),
    decreases lines.len(),
{
    if lines.len() > 0 {
        lemma_chunk_state_concat(lines.drop_last());
        let (sent, msg) = chunk_state(lines.drop_last());
        let line = lines.last();
        let (sent2, msg2) = chunk_state(lines);
        if sent2.len() > sent.len() {
            assert(sent2 == sent.push(msg));
            assert(sent2.drop_last() == sent);
        } else {
            assert(msg2 == msg + line.push('\n'));
        }
        assert(concat_all(sent2) + msg2 =~= lines_with_breaks(lines));
    }
}

proof fn lemma_split_lines_with_breaks(s: Seq<char>)
    ensures
        lines_with_breaks(split_on(s, '\n')) == s.push('\n'),
    decreases s.len(),
{
    if s.len() == 0 {
        let parts = split_on(s, '\n');
        assert(parts.drop_last().len() == 0);
        assert(lines_with_breaks(parts.drop_last()) == Seq::<char>::empty());
        assert(lines_with_breaks(parts) =~= s.push('\n'));
    } else {
        let prev = s.drop_last();
        lemma_split_lines_with_breaks(prev);
        let rest = split_on(prev, '\n');
        let parts = split_on(s, '\n');
        crate::text::lemma_split_on_nonempty(prev, '\n');
        if s.last() == '\n' {
            assert(parts == rest.push(Seq::<char>::empty()));
            assert(parts.drop_last() == rest);
            assert(lines_with_breaks(parts) =~= s.push('\n'));
        } else {
            assert(parts.drop_last() == rest.drop_last());
            assert(parts.last() == rest.last().push(s.last()));
            let a = lines_with_breaks(rest.drop_last()) + rest.last();
            assert(a.push('\n') =~= lines_with_breaks(rest));
            assert(a =~= a.push('\n').drop_last());
            assert(prev =~= prev.push('\n').drop_last());
            assert(a == prev);
            assert(s =~= prev.push(s.last()));
            assert(lines_with_breaks(parts) == lines_with_breaks(parts.drop_last()) + parts.last().push('\n'));
            assert(lines_with_breaks(parts) =~= s.push('\n'));
        }
    }
}

/// Splitting a long answer loses nothing: the messages, one after the
/// other, are the text followed by a line break.
pub proof fn law_chunks_keep_the_text(text: Seq<char>)
    ensures
        concat_all(telegram_chunks(text)) == text.push('\n'),
{
    let lines = split_on(text, '\n');
    lemma_chunk_state_concat(lines);
    lemma_split_lines_with_breaks(text);
    let (sent, msg) = chunk_state(lines);
    if msg.len() > 0 {
        assert(sent.push(msg).drop_last() == sent);
    } else {
        assert(msg =~= Seq::<char>::empty());
        assert(concat_all(sent) + msg =~= concat_all(sent));
    }
}


proof fn lemma_utf8_len_concat(a: Seq<char>, b: Seq<char>)
    ensures
        utf8_len(a + b) == utf8_len(a) + utf8_len(b),
    decreases a.len(),
{
    if a.len() == 0 {
        assert(a + b =~= b);
    } else {
        lemma_utf8_len_concat(a.drop_first(), b);
        assert((a + b).drop_first() =~= a.drop_first() + b);
        assert((a + b)[0] == a[0]);
    }
}

proof fn lemma_utf8_len_line(line: Seq<char>)
    ensures
        utf8_len(line.push('\n')) == utf8_len(line) + 1,
{
    let nl = seq!['\n'];
    assert(line.push('\n') =~= line + nl);
    lemma_utf8_len_concat(line, nl);
    assert(nl.drop_first() =~= Seq::<char>::empty());
    assert(encode_utf8(nl) == encode_scalar(10u32) + encode_utf8(Seq::<char>::empty()));
}

proof fn lemma_chunk_state_fits(lines: Seq<Seq<char>>)
    requires
        forall|i: int| 0 <= i < lines.len() ==> utf8_len(#[trigger] lines[i]) + 1 < TELEGRAM_MAX_MESSAGE_SIZE,
    ensures
        utf8_len(chunk_state(lines).1) < TELEGRAM_MAX_MESSAGE_SIZE,
        forall|k: int|
            0 <= k < chunk_state(lines).0.len() ==> 0 < utf8_len(#[trigger] chunk_state(lines).0[k])
                < TELEGRAM_MAX_MESSAGE_SIZE,
    decreases lines.len(),
{
    if lines.len() > 0 {
        let rest = lines.drop_last();
        assert forall|i: int| 0 <= i < rest.len() implies utf8_len(#[trigger] rest[i]) + 1
            < TELEGRAM_MAX_MESSAGE_SIZE by {
            assert(rest[i] == lines[i]);
        }
        lemma_chunk_state_fits(rest);
        let (sent, msg) = chunk_state(rest);
        let line = lines.last();
        assert(utf8_len(line) + 1 < TELEGRAM_MAX_MESSAGE_SIZE);
        lemma_utf8_len_line(line);
        lemma_utf8_len_concat(msg, line.push('\n'));
        if utf8_len(msg) + utf8_len(line) + 1 >= TELEGRAM_MAX_MESSAGE_SIZE {
            assert(utf8_len(msg) > 0);
            assert forall|k: int| 0 <= k < sent.push(msg).len() implies 0 < utf8_len(
                #[trigger] sent.push(msg)[k],
            ) < TELEGRAM_MAX_MESSAGE_SIZE by {
                if k < sent.len() {
                    assert(sent.push(msg)[k] == sent[k]);
                }
            }
        }
    }
}

/// When every line of an answer, with its line break, stays under Telegram's
/// limit, so does every message it is split into, and none is empty.
pub proof fn law_chunks_fit_the_limit(text: Seq<char>)
    requires
        forall|i: int|
            0 <= i < split_on(text, '\n').len() ==> utf8_len(#[trigger] split_on(text, '\n')[i]) + 1
                < TELEGRAM_MAX_MESSAGE_SIZE,
    ensures
        forall|k: int|
            0 <= k < telegram_chunks(text).len() ==> 0 < utf8_len(#[trigger] telegram_chunks(text)[k])
                < TELEGRAM_MAX_MESSAGE_SIZE,
{
    let lines = split_on(text, '\n');
    lemma_chunk_state_fits(lines);
    let (sent, msg) = chunk_state(lines);
    if msg.len() > 0 {
        lemma_utf8_len_nonempty(msg);
        assert forall|k: int| 0 <= k < sent.push(msg).len() implies 0 < utf8_len(
            #[trigger] sent.push(msg)[k],
        ) < TELEGRAM_MAX_MESSAGE_SIZE by {
            if k < sent.len() {
                assert(sent.push(msg)[k] == sent[k]);
            }
        }
    }
}

proof fn lemma_utf8_len_nonempty(s: Seq<char>)
    requires
        s.len() > 0,
    ensures
        utf8_len(s) > 0,
{
    let c = s[0] as u32;
    assert(encode_utf8(s) == encode_scalar(c) + encode_utf8(s.drop_first()));
    assert(encode_scalar(c).len() > 0);
}

/// A disruption that the "only cancellations" filter lets through is
/// announced, when new and not yet over, with the cancellation mark `❌`;
/// one it holds back gets the warning mark `⚠️`.
pub proof fn law_only_cancellations_are_marked(d: DisruptionView, location_match: bool)
    ensures
        filter_matches(StreckenInfoFilter::OnlyCancellations, d, location_match)
            ==> prefix_text(d, false, false) == "❌"@,
        !filter_matches(StreckenInfoFilter::OnlyCancellations, d, location_match)
            ==> prefix_text(d, false, false) == "⚠️"@,
{
}

/// Asking for all filters to match is stricter than asking for one: a user
/// with filters who requires all of them to match receives a disruption only
/// where one match would have been enough too.
pub proof fn law_all_filters_stricter_than_one(
    filters: Seq<Filter>,
    d: DisruptionView,
    location_matches: Seq<bool>,
)
    requires
        filters.len() > 0,
    ensures
        !filtered_out(filters, false, d, location_matches) ==> !filtered_out(
            filters,
            true,
            d,
            location_matches,
        ),
        filtered_out(filters, true, d, location_matches) ==> filtered_out(
            filters,
            false,
            d,
            location_matches,
        ),
{
    if !filtered_out(filters, false, d, location_matches) {
        assert(user_filter_matches(filters[0], d, location_matches[0]));
    }
}

/// Running `/planned` a second time restores the setting, as its answer
/// promises.
pub proof fn law_planned_twice_restores(show_planned_disruptions: bool)
    ensures
        planned_after(planned_after(show_planned_disruptions)) == show_planned_disruptions,
{
}

/// The button that removes the filters of a kind leads back to removing
/// exactly that kind.
pub proof fn law_remove_button_round_trip(f: Filter)
    ensures
        callback_action_of(REMOVE_FILTER_PREFIX@ + user_filter_type(f))
            == CallbackActionView::RemoveFiltersOfType(user_filter_type(f)),
{
    let prefix = REMOVE_FILTER_PREFIX@;
    let name = user_filter_type(f);
    let data = prefix + name;
    reveal_strlit("remove_filter_");
    reveal_strlit("Standort");
    reveal_strlit("Nur Ausfälle");
    reveal_strlit("Bahndirektion");
    reveal_strlit("show_filter");
    reveal_strlit("add_filter");
    reveal_strlit("remove_filter");
    reveal_strlit("change_filter_behaviour");
    reveal_strlit("change_filter_behaviour_all");
    reveal_strlit("change_filter_behaviour_one");
    reveal_strlit("location");
    reveal_strlit("only_cancellations");
    reveal_strlit("railway_management");
    assert(name.len() < prefix.len());
    assert(data[0] == 'r');
    assert(data.len() >= 22);
    assert(data != SHOW_FILTER@ && data != ADD_FILTER@ && data != REMOVE_FILTER@);
    assert(data != CHANGE_FILTER_BEHAVIOUR@) by {
        assert(CHANGE_FILTER_BEHAVIOUR@[0] == 'c');
    }
    assert(data != CHANGE_FILTER_BEHAVIOUR_ALL@) by {
        assert(CHANGE_FILTER_BEHAVIOUR_ALL@[0] == 'c');
    }
    assert(data != CHANGE_FILTER_BEHAVIOUR_ONE@) by {
        assert(CHANGE_FILTER_BEHAVIOUR_ONE@[0] == 'c');
    }
    assert(data != LOCATION@ && data != ONLY_CANCELLATIONS@ && data != RAILWAY_MANAGEMENT@);
    assert(prefix.is_prefix_of(data)) by {
        assert(data.take(prefix.len() as int) =~= prefix);
    }
    assert(data.take(prefix.len() as int) =~= prefix);
    assert(data.skip(prefix.len() as int) =~= name);
    assert(without_text(name, prefix) == name);
}

/// Sharing a location and then a radius creates the filter around that
/// location with that radius, and ends the dialog.
pub proof fn law_location_dialog_creates_filter(
    lon_bits: u64,
    lat_bits: u64,
    radius_text: Seq<char>,
    available: Seq<char>,
)
    requires
        parse_u16_text(radius_text) is Some,
    ensures
        ({
            let first = dialog_step_of(
                Some(Expecting::Location),
                DialogInputView::Location { lon_bits, lat_bits },
                available,
            );
            let second = dialog_step_of(first.0, DialogInputView::Text(radius_text), available);
            &&& first.2 == Some(range_question())
            &&& second.0 is None
            &&& second.1 == Some(
                Filter::StreckenInfo(
                    StreckenInfoFilter::Location {
                        x_bits: lon_bits,
                        y_bits: lat_bits,
                        range: parse_u16_text(radius_text)->0,
                    },
                ),
            )
            &&& second.2 == Some(filter_created())
        }),
{
}

/// Each part is reported exactly when the stored and the new disruption
/// differ in it: the cause when cause or sub-cause differ, the effects when
/// they differ, the locations when stations or regions differ, the times when
/// the start or the end of the period differ, and the text when it differs.
pub proof fn law_changed_part_iff_it_differs(stored: DisruptionView, new: DisruptionView, hash: Seq<char>)
    ensures
        disruption_changes(Some(stored), hash, new).contains(DisruptionPart::Cause)
            <==> (stored.cause != new.cause || stored.subcause != new.subcause),
        disruption_changes(Some(stored), hash, new).contains(DisruptionPart::Effects)
            <==> stored.effects != new.effects,
        disruption_changes(Some(stored), hash, new).contains(DisruptionPart::Locations)
            <==> (stored.stations != new.stations || stored.regions != new.regions),
        disruption_changes(Some(stored), hash, new).contains(DisruptionPart::Times)
            <==> (stored.start != new.start || stored.end != new.end),
        disruption_changes(Some(stored), hash, new).contains(DisruptionPart::Text)
            <==> stored.text != new.text,
{
    let p = changed_parts(stored, new);
    let c = stored.cause != new.cause || stored.subcause != new.subcause;
    let e = stored.effects != new.effects;
    let l = stored.stations != new.stations || stored.regions != new.regions;
    let t = stored.start != new.start || stored.end != new.end;
    let x = stored.text != new.text;
    let parts = seq![
        (c, DisruptionPart::Cause),
        (e, DisruptionPart::Effects),
        (l, DisruptionPart::Locations),
        (t, DisruptionPart::Times),
        (x, DisruptionPart::Text),
    ];
    assert forall|k: int| 0 <= k < 5 implies (p.contains(#[trigger] parts[k].1) <==> parts[k].0) by {
        let q = parts[k].1;
        let a = part_if(c, DisruptionPart::Cause);
        let b = part_if(e, DisruptionPart::Effects);
        let cc = part_if(l, DisruptionPart::Locations);
        let dd = part_if(t, DisruptionPart::Times);
        let ee = part_if(x, DisruptionPart::Text);
        assert(p == a + b + cc + dd + ee);
        if parts[k].0 {
            let idx = (if k >= 1 && c { 1int } else { 0int }) + (if k >= 2 && e { 1int } else { 0int })
                + (if k >= 3 && l { 1int } else { 0int }) + (if k >= 4 && t { 1int } else { 0int });
            assert(p[idx] == q);
        } else {
            assert forall|i: int| 0 <= i < p.len() implies p[i] != q by {
                assert(p[i] == DisruptionPart::Cause ==> c);
                assert(p[i] == DisruptionPart::Effects ==> e);
                assert(p[i] == DisruptionPart::Locations ==> l);
                assert(p[i] == DisruptionPart::Times ==> t);
                assert(p[i] == DisruptionPart::Text ==> x);
            }
        }
    }
    assert(parts[0].1 == DisruptionPart::Cause);
    assert(parts[1].1 == DisruptionPart::Effects);
    assert(parts[2].1 == DisruptionPart::Locations);
    assert(parts[3].1 == DisruptionPart::Times);
    assert(parts[4].1 == DisruptionPart::Text);
}

/// A railway district filter matches a disruption exactly when some station,
/// at any position, has a RIL100 code that starts with the district letter.
pub proof fn law_district_filter_looks_at_every_station(
    d: DisruptionView,
    letter: char,
    location_match: bool,
)
    ensures
        filter_matches(StreckenInfoFilter::RailwayManagement { letter }, d, location_match) <==> exists|
            i: int,
        |
            0 <= i < d.stations.len() && (#[trigger] d.stations[i]).ril100.len() > 0
                && d.stations[i].ril100[0] == letter,
        forall|i: int|
            0 <= i < d.stations.len() && (#[trigger] d.stations[i]).ril100.len() > 0
                && d.stations[i].ril100[0] == letter ==> filter_matches(
                StreckenInfoFilter::RailwayManagement { letter },
                d,
                location_match,
            ),
{
    assert forall|i: int|
        0 <= i < d.stations.len() && (#[trigger] d.stations[i]).ril100.len() > 0
            && d.stations[i].ril100[0] == letter implies filter_matches(
        StreckenInfoFilter::RailwayManagement { letter },
        d,
        location_match,
    ) by {
        assert(crate::filter::ril100_starts_with(d.stations[i], letter));
    }
    if filter_matches(StreckenInfoFilter::RailwayManagement { letter }, d, location_match) {
        let i = choose|i: int|
            0 <= i < d.stations.len() && crate::filter::ril100_starts_with(
                #[trigger] d.stations[i],
                letter,
            );
        assert(d.stations[i].ril100.len() > 0 && d.stations[i].ril100[0] == letter);
    }
}

/// With filters set, a user who requires all of them holds a disruption back
/// exactly when some filter, at any position, does not match it; a user for
/// whom one is enough holds it back exactly when no filter matches.
pub proof fn law_filtered_out_by_any_or_all(
    filters: Seq<Filter>,
    d: DisruptionView,
    location_matches: Seq<bool>,
)
    requires
        filters.len() > 0,
    ensures
        filtered_out(filters, false, d, location_matches) <==> exists|i: int|
            0 <= i < filters.len() && !(match #[trigger] filters[i] {
                Filter::StreckenInfo(g) => filter_matches(g, d, location_matches[i]),
            }),
        filtered_out(filters, true, d, location_matches) <==> forall|i: int|
            0 <= i < filters.len() ==> !(match #[trigger] filters[i] {
                Filter::StreckenInfo(g) => filter_matches(g, d, location_matches[i]),
            }),
{
    if filtered_out(filters, false, d, location_matches) {
        let i = choose|i: int|
            !(0 <= i < filters.len() ==> #[trigger] user_filter_matches(
                filters[i],
                d,
                location_matches[i],
            ));
        assert(!user_filter_matches(filters[i], d, location_matches[i]));
    }
    if exists|i: int|
        0 <= i < filters.len() && !(match #[trigger] filters[i] {
            Filter::StreckenInfo(g) => filter_matches(g, d, location_matches[i]),
        }) {
        let i = choose|i: int|
            0 <= i < filters.len() && !(match #[trigger] filters[i] {
                Filter::StreckenInfo(g) => filter_matches(g, d, location_matches[i]),
            });
        assert(!user_filter_matches(filters[i], d, location_matches[i]));
    }
    if filtered_out(filters, true, d, location_matches) {
        assert forall|i: int| 0 <= i < filters.len() implies !(match #[trigger] filters[i] {
            Filter::StreckenInfo(g) => filter_matches(g, d, location_matches[i]),
        }) by {
            assert(!user_filter_matches(filters[i], d, location_matches[i]));
        }
    } else {
        let i = choose|i: int|
            0 <= i < filters.len() && #[trigger] user_filter_matches(
                filters[i],
                d,
                location_matches[i],
            );
        assert(user_filter_matches(filters[i], d, location_matches[i]));
    }
}

/// `/tw remove` keeps exactly the entries whose lower case differs from the
/// word, in their order: an entry whose lower case is not the word is never
/// removed.
pub proof fn law_tw_remove_keeps_other_entries(tws: Seq<Seq<char>>, text: Seq<char>)
    ensures
        tw_reply(tws, text) matches TwReplyView::Removed(w) ==> tw_list(tws, text) == tws.filter(
            |e: Seq<char>| lowercase(e) != w,
        ),
{
    if let TwReplyView::Removed(w) = tw_reply(tws, text) {
        lemma_without_word_is_filter(tws, w);
    }
}

proof fn lemma_without_word_is_filter(tws: Seq<Seq<char>>, w: Seq<char>)
    ensures
        without_word(tws, w) == tws.filter(|e: Seq<char>| lowercase(e) != w),
    decreases tws.len(),
{
    reveal_with_fuel(Seq::filter, 1);
    if tws.len() > 0 {
        lemma_without_word_is_filter(tws.drop_last(), w);
    }
}

/// A message starts with its prefix chosen by the inputs: `✅ Beendet:` when
/// the disruption is over, else `Update:` for an update, else `❌` for a
/// severe and `⚠️` for a slight restriction. This holds of the Telegram
/// message and of both plain-text messages.
pub proof fn law_messages_start_with_their_prefix(
    d: DisruptionView,
    changes: Seq<DisruptionPart>,
    update: bool,
    expired: bool,
)
    ensures
        ({
            let prefix = if expired {
                "✅ Beendet:"@
            } else if update {
                "Update:"@
            } else if d.track_restriction == TrackRestriction::Severe {
                "❌"@
            } else {
                "⚠️"@
            };
            &&& prefix.is_prefix_of(html_message(d, update, expired))
            &&& prefix.is_prefix_of(text_message(d, changes, update, expired))
            &&& prefix.is_prefix_of(mastodon_message(d, changes, update, expired))
        }),
{
    lemma_html_starts_with_prefix(d, update, expired);
    lemma_text_starts_with_prefix(d, changes, update, expired);
    lemma_mastodon_starts_with_prefix(d, changes, update, expired);
}

proof fn lemma_take_of_longer(x: Seq<char>, y: Seq<char>, n: int)
    requires
        0 <= n <= x.len(),
    ensures
        (x + y).take(n) == x.take(n),
{
    assert((x + y).take(n) =~= x.take(n));
}

#[verifier::spinoff_prover]
proof fn lemma_html_starts_with_prefix(d: DisruptionView, update: bool, expired: bool)
    ensures
        prefix_text(d, update, expired).is_prefix_of(html_message(d, update, expired)),
{
    let p = prefix_text(d, update, expired);
    let n = p.len() as int;
    let head = cause_text(d) + "\n"@ + product_effects_text(d);
    let x1 = p + " <i><u>Ort: "@;
    let x2 = x1 + location_text(d, None);
    let x3 = x2 + "</u></i>\n<b>"@;
    let x4 = x3 + html_escaped(br_to_newlines(head));
    let x5 = x4 + "</b>\n\n"@;
    let x6 = x5 + times_text(d);
    let x7 = x6 + "\n\n"@;
    assert(html_message(d, update, expired) == x7 + html_escaped(br_to_newlines(d.text)));
    lemma_take_of_longer(x7, html_escaped(br_to_newlines(d.text)), n);
    lemma_take_of_longer(x6, "\n\n"@, n);
    lemma_take_of_longer(x5, times_text(d), n);
    lemma_take_of_longer(x4, "</b>\n\n"@, n);
    lemma_take_of_longer(x3, html_escaped(br_to_newlines(head)), n);
    lemma_take_of_longer(x2, "</u></i>\n<b>"@, n);
    lemma_take_of_longer(x1, location_text(d, None), n);
    lemma_take_of_longer(p, " <i><u>Ort: "@, n);
    assert(p.take(n) =~= p);
}

#[verifier::spinoff_prover]
proof fn lemma_text_starts_with_prefix(
    d: DisruptionView,
    changes: Seq<DisruptionPart>,
    update: bool,
    expired: bool,
)
    ensures
        prefix_text(d, update, expired).is_prefix_of(text_message(d, changes, update, expired)),
{
    let p = prefix_text(d, update, expired);
    let n = p.len() as int;
    let x1 = p + " "@;
    let x2 = x1 + location_text(d, Some(8usize));
    let x3 = x2 + "\n"@;
    let x4 = x3 + br_to_newlines(cause_text(d));
    let x5 = x4 + "\n"@;
    let x6 = x5 + optional_line(changes.contains(DisruptionPart::Effects), product_effects_text(d));
    let x7 = x6 + optional_line(changes.contains(DisruptionPart::Times), times_text(d));
    let last = optional_line(changes.contains(DisruptionPart::Text), br_to_newlines(d.text));
    assert(text_message(d, changes, update, expired) == x7 + last);
    lemma_take_of_longer(x7, last, n);
    lemma_take_of_longer(x6, optional_line(changes.contains(DisruptionPart::Times), times_text(d)), n);
    lemma_take_of_longer(x5, optional_line(changes.contains(DisruptionPart::Effects), product_effects_text(d)), n);
    lemma_take_of_longer(x4, "\n"@, n);
    lemma_take_of_longer(x3, br_to_newlines(cause_text(d)), n);
    lemma_take_of_longer(x2, "\n"@, n);
    lemma_take_of_longer(x1, location_text(d, Some(8usize)), n);
    lemma_take_of_longer(p, " "@, n);
    assert(p.take(n) =~= p);
}

#[verifier::spinoff_prover]
proof fn lemma_mastodon_starts_with_prefix(
    d: DisruptionView,
    changes: Seq<DisruptionPart>,
    update: bool,
    expired: bool,
)
    ensures
        prefix_text(d, update, expired).is_prefix_of(mastodon_message(d, changes, update, expired)),
{
    let p = prefix_text(d, update, expired);
    let n = p.len() as int;
    let x1 = p + " "@;
    let l1 = optional_line(changes.contains(DisruptionPart::Locations), location_text(d, Some(8usize)));
    let l2 = optional_line(changes.contains(DisruptionPart::Cause), br_to_newlines(cause_text(d)));
    let l3 = optional_line(changes.contains(DisruptionPart::Effects), product_effects_text(d));
    let l4 = optional_line(changes.contains(DisruptionPart::Times), times_text(d));
    let l5 = optional_line(changes.contains(DisruptionPart::Text), br_to_newlines(d.text));
    let x2 = x1 + l1;
    let x3 = x2 + l2;
    let x4 = x3 + l3;
    let x5 = x4 + l4;
    assert(mastodon_message(d, changes, update, expired) == x5 + l5);
    lemma_take_of_longer(x5, l5, n);
    lemma_take_of_longer(x4, l4, n);
    lemma_take_of_longer(x3, l3, n);
    lemma_take_of_longer(x2, l2, n);
    lemma_take_of_longer(x1, l1, n);
    lemma_take_of_longer(p, " "@, n);
    assert(p.take(n) =~= p);
}

} // verus!
