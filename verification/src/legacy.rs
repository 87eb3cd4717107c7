//! The earlier data model of the bot (HIM disruption reports) and what was
//! computed from it: the report fingerprint, the Telegram message and the
//! filter for planned works.

use vstd::prelude::*;
use crate::change::{md5_hex, md5_hex_of};
use crate::datetime::{
    berlin_local_to_utc, berlin_to_utc, display_naive_datetime, format_naive_datetime, is_after,
    naive_datetime_display, naive_datetime_text, utc_now, UtcInstant,
};
use crate::markup::{br_to_newlines, encode_text, format_text, html_escaped};
use crate::model::{is_naive_timestamp, Product};
use crate::partial_format::product_name;
use crate::text::{dedup, dedup_strings, join, join_strings};
use crate::user::User;

verus! {

/// One stretch of a report: from a station, possibly to another.
pub struct LegacyLocation {
    pub from: String,
    pub to: Option<String>,
}

/// What a report does to one kind of traffic.
pub struct LegacyImpact {
    pub impact: String,
    pub product: Product,
}

/// One period of a report (naive date-times as seconds, see the model).
#[derive(Clone, Copy)]
pub struct LegacyEvent {
    pub start_time: i64,
    pub end_time: i64,
}

/// A disruption report in the earlier data model.
pub struct LegacyDisruption {
    pub planned: bool,
    pub locations: Vec<LegacyLocation>,
    pub regions: Vec<String>,
    pub impact: Option<Vec<LegacyImpact>>,
    pub events: Vec<LegacyEvent>,
    pub head: String,
    pub text: Option<String>,
    /// End date and time of the report, as one naive date-time.
    pub end: i64,
}

/// View of a stretch: from, to.
pub struct LegacyLocationView {
    pub from: Seq<char>,
    pub to: Option<Seq<char>>,
}

/// Mathematical view of a [`LegacyDisruption`].
pub struct LegacyView {
    pub planned: bool,
    pub locations: Seq<LegacyLocationView>,
    pub regions: Seq<Seq<char>>,
    pub impact: Option<Seq<(Seq<char>, Product)>>,
    pub events: Seq<(i64, i64)>,
    pub head: Seq<char>,
    pub text: Option<Seq<char>>,
    pub end: i64,
}

impl View for LegacyDisruption {
    type V = LegacyView;

    open spec fn view(&self) -> LegacyView {
        LegacyView {
            planned: self.planned,
            locations: Seq::new(
                self.locations@.len(),
                |i: int|
                    LegacyLocationView {
                        from: self.locations@[i].from@,
                        to: self.locations@[i].to.deep_view(),
                    },
            ),
            regions: self.regions.deep_view(),
            impact: match self.impact {
                Some(v) => Some(Seq::new(v@.len(), |i: int| (v@[i].impact@, v@[i].product))),
                None => None,
            },
            events: Seq::new(
                self.events@.len(),
                |i: int| (self.events@[i].start_time, self.events@[i].end_time),
            ),
            head: self.head@,
            text: self.text.deep_view(),
            end: self.end,
        }
    }
}

impl LegacyView {
    /// Every date-time of the report is one chrono can hold.
    pub open spec fn wf(self) -> bool {
        &&& is_naive_timestamp(self.end)
        &&& forall|i: int|
            0 <= i < self.events.len() ==> is_naive_timestamp(#[trigger] self.events[i].0)
                && is_naive_timestamp(self.events[i].1)
    }
}

/// `o`'s text, or nothing.
pub open spec fn text_or_empty(o: Option<Seq<char>>) -> Seq<char> {
    match o {
        Some(s) => s,
        None => Seq::<char>::empty(),
    }
}

/// The impacts of a report (none when it has no list).
pub open spec fn impacts_of(d: LegacyView) -> Seq<(Seq<char>, Product)> {
    match d.impact {
        Some(v) => v,
        None => Seq::<(Seq<char>, Product)>::empty(),
    }
}

/// The text whose MD5 fingerprints a report.
pub open spec fn legacy_hash_input(d: LegacyView) -> Seq<char> {
    "p:"@ + (if d.planned {
        "1"@
    } else {
        "0"@
    }) + "l:"@ + join(
        Seq::new(d.locations.len(), |i: int| d.locations[i].from + text_or_empty(d.locations[i].to)),
        ";"@,
    ) + "r:"@ + join(d.regions, ";"@) + "i:"@ + (match d.impact {
        Some(v) => join(Seq::new(v.len(), |i: int| v[i].0), ";"@),
        None => Seq::<char>::empty(),
    }) + "e:"@ + join(
        Seq::new(
            d.events.len(),
            |i: int|
                naive_datetime_display(d.events[i].0) + "-"@ + naive_datetime_display(
                    d.events[i].1,
                ),
        ),
        ";"@,
    ) + "h:"@ + d.head + "t:"@ + text_or_empty(d.text)
}

fn optional_text(o: &Option<String>) -> (s: String)
    ensures
        s@ == text_or_empty(o.deep_view()),
{
    match o {
        Some(t) => t.clone(),
        None => String::new(),
    }
}

/// The fingerprint of a report: MD5 of its hash input, lower-case hex.
pub fn hash_disruption(disruption: &LegacyDisruption) -> (s: String)
    requires
        disruption@.wf(),
    ensures
        s@ == md5_hex(legacy_hash_input(disruption@)),
{
    let ghost d = disruption@;
    let mut input = "p:".to_string();
    input.append(if disruption.planned {
        "1"
    } else {
        "0"
    });
    input.append("l:");
    let mut locs: Vec<String> = Vec::new();
    let ghost target = Seq::new(d.locations.len(), |i: int| d.locations[i].from + text_or_empty(d.locations[i].to));
    let mut i: usize = 0;
    while i < disruption.locations.len()
        invariant
            d == disruption@,
            target == Seq::new(d.locations.len(), |i: int| d.locations[i].from + text_or_empty(d.locations[i].to)),
            i <= disruption.locations@.len(),
            locs.deep_view() == target.take(i as int),
        decreases disruption.locations@.len() - i,
    {
        let mut l = disruption.locations[i].from.clone();
        let to = optional_text(&disruption.locations[i].to);
        l.append(to.as_str());
        let ghost old_locs = locs.deep_view();
        locs.push(l);
        assert(locs.deep_view() == old_locs.push(target[i as int]));
        i = i + 1;
        assert(locs.deep_view() == target.take(i as int));
    }
    assert(target.take(target.len() as int) == target);
    let joined = join_strings(&locs, ";");
    input.append(joined.as_str());
    input.append("r:");
    let regions = join_strings(&disruption.regions, ";");
    input.append(regions.as_str());
    input.append("i:");
    match &disruption.impact {
        Some(v) => {
            let mut names: Vec<String> = Vec::new();
            let ghost t2 = Seq::new(v@.len(), |i: int| v@[i].impact@);
            let mut k: usize = 0;
            while k < v.len()
                invariant
                    t2 == Seq::new(v@.len(), |i: int| v@[i].impact@),
                    k <= v@.len(),
                    names.deep_view() == t2.take(k as int),
                decreases v@.len() - k,
            {
                let ghost old_names = names.deep_view();
                names.push(v[k].impact.clone());
                assert(names.deep_view() == old_names.push(t2[k as int]));
                k = k + 1;
                assert(names.deep_view() == t2.take(k as int));
            }
            assert(t2.take(t2.len() as int) == t2);
            assert(t2 =~= Seq::new(impacts_of(d).len(), |i: int| impacts_of(d)[i].0));
            let joined = join_strings(&names, ";");
            input.append(joined.as_str());
        },
        None => {},
    }
    let ghost after_impacts = input@;
    assert(after_impacts == "p:"@ + (if d.planned {
        "1"@
    } else {
        "0"@
    }) + "l:"@ + join(target, ";"@) + "r:"@ + join(d.regions, ";"@) + "i:"@ + (match d.impact {
        Some(v) => join(Seq::new(v.len(), |i: int| v[i].0), ";"@),
        None => Seq::<char>::empty(),
    }));
    input.append("e:");
    let mut evs: Vec<String> = Vec::new();
    let ghost t3 = Seq::new(
        d.events.len(),
        |i: int| naive_datetime_display(d.events[i].0) + "-"@ + naive_datetime_display(d.events[i].1),
    );
    let mut j: usize = 0;
    while j < disruption.events.len()
        invariant
            d == disruption@,
            d.wf(),
            t3 == Seq::new(
                d.events.len(),
                |i: int|
                    naive_datetime_display(d.events[i].0) + "-"@ + naive_datetime_display(
                        d.events[i].1,
                    ),
            ),
            j <= disruption.events@.len(),
            evs.deep_view() == t3.take(j as int),
        decreases disruption.events@.len() - j,
    {
        let ev = disruption.events[j];
        assert(d.events[j as int] == (ev.start_time, ev.end_time));
        assert(is_naive_timestamp(d.events[j as int].0));
        let mut e = display_naive_datetime(ev.start_time);
        e.append("-");
        let e2 = display_naive_datetime(ev.end_time);
        e.append(e2.as_str());
        let ghost old_evs = evs.deep_view();
        evs.push(e);
        assert(evs.deep_view() == old_evs.push(t3[j as int]));
        j = j + 1;
        assert(evs.deep_view() == t3.take(j as int));
    }
    assert(t3.take(t3.len() as int) == t3);
    let joined = join_strings(&evs, ";");
    input.append(joined.as_str());
    input.append("h:");
    input.append(disruption.head.as_str());
    input.append("t:");
    let text = optional_text(&disruption.text);
    input.append(text.as_str());
    assert(input@ == legacy_hash_input(disruption@));
    md5_hex_of(input.as_str())
}

/// A stretch as shown: `from - to`, or `from` alone.
pub open spec fn location_piece(l: LegacyLocationView) -> Seq<char> {
    l.from + match l.to {
        Some(t) => " - "@ + t,
        None => Seq::<char>::empty(),
    }
}

/// Where a report is: its stretches (`from - to`), else its regions, else
/// `Unbekannt`.
pub open spec fn legacy_location_text(d: LegacyView) -> Seq<char> {
    if d.locations.len() > 0 {
        join(Seq::new(d.locations.len(), |i: int| location_piece(d.locations[i])), ", "@)
    } else if d.regions.len() > 0 {
        join(d.regions, ", "@)
    } else {
        "Unbekannt"@
    }
}

/// The bold head of a report: impacts (repeats merged), the kinds of traffic
/// in brackets, a line break if any of that, the head line, and ` (Geplant)`
/// for planned works.
pub open spec fn legacy_head_text(d: LegacyView) -> Seq<char> {
    let imps = impacts_of(d);
    let impacts = dedup(Seq::new(imps.len(), |i: int| imps[i].0));
    let products = dedup(Seq::new(imps.len(), |i: int| product_name(imps[i].1)));
    let h0 = join(impacts, ", "@);
    let h1 = if products.len() > 0 {
        h0 + " ("@ + join(products, ", "@) + ")"@
    } else {
        h0
    };
    let h2 = if h1.len() > 0 {
        h1 + "\n"@
    } else {
        h1
    };
    h2 + d.head + if d.planned {
        " (Geplant)"@
    } else {
        Seq::<char>::empty()
    }
}

/// One period: `start bis end`, with `vsl. ` before the end while the report
/// is still running.
pub open spec fn legacy_event_text(ev: (i64, i64), ongoing: bool) -> Seq<char> {
    naive_datetime_text(ev.0) + " bis "@ + (if ongoing {
        "vsl. "@
    } else {
        Seq::<char>::empty()
    }) + naive_datetime_text(ev.1)
}

/// The periods, repeats merged, one per line.
pub open spec fn legacy_times_text(d: LegacyView, ongoing: bool) -> Seq<char> {
    join(
        dedup(Seq::new(d.events.len(), |i: int| legacy_event_text(d.events[i], ongoing))),
        "\n"@,
    )
}

/// The Telegram message for a report at the instant `now`, its end lying at
/// the UTC instant `end`.
pub open spec fn legacy_message(d: LegacyView, changed: bool, now: UtcInstant, end: i64) -> Seq<char> {
    let prefix = if changed {
        if is_after(now, end) {
            "Beendet: "@
        } else {
            "Update: "@
        }
    } else {
        Seq::<char>::empty()
    };
    prefix + "<i><u>Ort: "@ + legacy_location_text(d) + "</u></i>\n<b>"@ + html_escaped(
        br_to_newlines(legacy_head_text(d)),
    ) + "</b>\n\n"@ + legacy_times_text(d, now.secs < end) + "\n\n"@ + html_escaped(
        br_to_newlines(text_or_empty(d.text)),
    )
}

fn location_piece_of(l: &LegacyLocation) -> (s: String)
    ensures
        s@ == location_piece(LegacyLocationView { from: l.from@, to: l.to.deep_view() }),
{
    let mut p = l.from.clone();
    match &l.to {
        Some(t) => {
            p.append(" - ");
            p.append(t.as_str());
        },
        None => {},
    }
    p
}

fn legacy_location(d: &LegacyDisruption) -> (s: String)
    ensures
        s@ == legacy_location_text(d@),
{
    let ghost v = d@;
    if d.locations.len() > 0 {
        let ghost target = Seq::new(v.locations.len(), |i: int| location_piece(v.locations[i]));
        let mut parts: Vec<String> = Vec::new();
        let mut i: usize = 0;
        while i < d.locations.len()
            invariant
                v == d@,
                target == Seq::new(v.locations.len(), |i: int| location_piece(v.locations[i])),
                i <= d.locations@.len(),
                parts.deep_view() == target.take(i as int),
            decreases d.locations@.len() - i,
        {
            let p = location_piece_of(&d.locations[i]);
            let ghost old_parts = parts.deep_view();
            parts.push(p);
            assert(parts.deep_view() == old_parts.push(target[i as int]));
            i = i + 1;
            assert(parts.deep_view() == target.take(i as int));
        }
        assert(target.take(target.len() as int) == target);
        join_strings(&parts, ", ")
    } else if d.regions.len() > 0 {
        join_strings(&d.regions, ", ")
    } else {
        "Unbekannt".to_string()
    }
}

fn legacy_head(d: &LegacyDisruption) -> (s: String)
    ensures
        s@ == legacy_head_text(d@),
{
    let ghost v = d@;
    let ghost imps = impacts_of(v);
    let mut impacts: Vec<String> = Vec::new();
    let mut products: Vec<String> = Vec::new();
    match &d.impact {
        Some(list) => {
            let mut i: usize = 0;
            while i < list.len()
                invariant
                    imps == Seq::new(list@.len(), |i: int| (list@[i].impact@, list@[i].product)),
                    i <= list@.len(),
                    impacts.deep_view() == Seq::new(imps.len(), |k: int| imps[k].0).take(i as int),
                    products.deep_view() == Seq::new(
                        imps.len(),
                        |k: int| product_name(imps[k].1),
                    ).take(i as int),
                decreases list@.len() - i,
            {
                let ghost old_i = impacts.deep_view();
                let ghost old_p = products.deep_view();
                impacts.push(list[i].impact.clone());
                let name = crate::partial_format::product_name_of(list[i].product).to_string();
                products.push(name);
                assert(impacts.deep_view() == old_i.push(imps[i as int].0));
                assert(products.deep_view() == old_p.push(product_name(imps[i as int].1)));
                i = i + 1;
                assert(impacts.deep_view() == Seq::new(imps.len(), |k: int| imps[k].0).take(i as int));
                assert(products.deep_view() == Seq::new(
                    imps.len(),
                    |k: int| product_name(imps[k].1),
                ).take(i as int));
            }
        },
        None => {},
    }
    assert(impacts.deep_view() == Seq::new(imps.len(), |k: int| imps[k].0));
    assert(products.deep_view() == Seq::new(imps.len(), |k: int| product_name(imps[k].1)));
    let impacts = dedup_strings(impacts);
    let products = dedup_strings(products);
    let mut head = join_strings(&impacts, ", ");
    if products.len() > 0 {
        head.append(" (");
        let joined = join_strings(&products, ", ");
        head.append(joined.as_str());
        head.append(")");
    }
    if !head.as_str().is_empty() {
        head.append("\n");
    }
    head.append(d.head.as_str());
    if d.planned {
        head.append(" (Geplant)");
    }
    head
}

fn legacy_times(d: &LegacyDisruption, ongoing: bool) -> (s: String)
    requires
        d@.wf(),
    ensures
        s@ == legacy_times_text(d@, ongoing),
{
    let ghost v = d@;
    let ghost target = Seq::new(v.events.len(), |i: int| legacy_event_text(v.events[i], ongoing));
    let mut events: Vec<String> = Vec::new();
    let mut i: usize = 0;
    while i < d.events.len()
        invariant
            v == d@,
            v.wf(),
            target == Seq::new(v.events.len(), |i: int| legacy_event_text(v.events[i], ongoing)),
            i <= d.events@.len(),
            events.deep_view() == target.take(i as int),
        decreases d.events@.len() - i,
    {
        let ev = d.events[i];
        assert(v.events[i as int] == (ev.start_time, ev.end_time));
        assert(is_naive_timestamp(v.events[i as int].0));
        let mut e = format_naive_datetime(ev.start_time);
        e.append(" bis ");
        if ongoing {
            e.append("vsl. ");
        }
        let end = format_naive_datetime(ev.end_time);
        e.append(end.as_str());
        let ghost old_events = events.deep_view();
        events.push(e);
        assert(events.deep_view() == old_events.push(target[i as int]));
        i = i + 1;
        assert(events.deep_view() == target.take(i as int));
    }
    assert(target.take(target.len() as int) == target);
    let events = dedup_strings(events);
    join_strings(&events, "\n")
}

/// The report's end is a Berlin wall-clock time naming a single instant.
pub open spec fn legacy_end_known(d: LegacyView) -> bool {
    berlin_to_utc(d.end) is Some
}

/// The Telegram message for a report at the instant `now`.
pub fn disruption_to_string_at(disruption: &LegacyDisruption, changed: bool, now: UtcInstant) -> (s: String)
    requires
        disruption@.wf(),
        legacy_end_known(disruption@),
    ensures
        s@ == legacy_message(disruption@, changed, now, berlin_to_utc(disruption@.end)->0),
{
    let location = legacy_location(disruption);
    let head = legacy_head(disruption);
    let end = berlin_local_to_utc(disruption.end).unwrap();
    let ongoing = now.secs < end;
    let times = legacy_times(disruption, ongoing);
    let text = optional_text(&disruption.text);
    let mut s = String::new();
    if changed {
        if crate::datetime::after(now, end) {
            s.append("Beendet: ");
        } else {
            s.append("Update: ");
        }
    }
    s.append("<i><u>Ort: ");
    s.append(location.as_str());
    s.append("</u></i>\n<b>");
    let head_html = encode_text(format_text(head.as_str()).as_str());
    s.append(head_html.as_str());
    s.append("</b>\n\n");
    s.append(times.as_str());
    s.append("\n\n");
    let text_html = encode_text(format_text(text.as_str()).as_str());
    s.append(text_html.as_str());
    s
}

/// The Telegram message for a report now.
pub fn disruption_to_string(disruption: &LegacyDisruption, changed: bool) -> (s: String)
    requires
        disruption@.wf(),
        legacy_end_known(disruption@),
    ensures
        exists|now: UtcInstant|
            s@ == legacy_message(disruption@, changed, now, berlin_to_utc(disruption@.end)->0),
{
    let now = utc_now();
    disruption_to_string_at(disruption, changed, now)
}

/// The Telegram message for a report now, or `None` where its end is a
/// Berlin wall-clock time skipped or repeated by a daylight saving change.
pub fn try_disruption_to_string(disruption: &LegacyDisruption, changed: bool) -> (r: Option<String>)
    requires
        disruption@.wf(),
    ensures
        r is Some <==> legacy_end_known(disruption@),
        r matches Some(s) ==> exists|now: UtcInstant|
            s@ == legacy_message(disruption@, changed, now, berlin_to_utc(disruption@.end)->0),
{
    if berlin_local_to_utc(disruption.end).is_none() {
        return None;
    }
    Some(disruption_to_string(disruption, changed))
}

/// A per-user rule on reports.
pub enum UserFilter {
    /// Planned works only for users who asked for them.
    Planned,
}

/// Whether `f` lets a report through to a user.
pub open spec fn user_filter_passes(f: UserFilter, planned: bool, show_planned: bool) -> bool {
    match f {
        UserFilter::Planned => !planned || show_planned,
    }
}

impl UserFilter {
    /// Whether the rule lets the report through to the user.
    pub fn filter(&self, disruption: &LegacyDisruption, user: &User) -> (b: bool)
        ensures
            b == user_filter_passes(*self, disruption.planned, user.show_planned_disruptions),
    {
        match self {
            UserFilter::Planned => !disruption.planned || user.show_planned_disruptions,
        }
    }

    /// Whether every rule lets the report through to the user.
    pub fn filters(filters: &[UserFilter], disruption: &LegacyDisruption, user: &User) -> (b: bool)
        ensures
            b == forall|i: int|
                0 <= i < filters@.len() ==> #[trigger] user_filter_passes(
                    filters@[i],
                    disruption.planned,
                    user.show_planned_disruptions,
                ),
    {
        let mut i: usize = 0;
        while i < filters.len()
            invariant
                i <= filters@.len(),
                forall|k: int|
                    0 <= k < i ==> #[trigger] user_filter_passes(
                        filters@[k],
                        disruption.planned,
                        user.show_planned_disruptions,
                    ),
            decreases filters@.len() - i,
        {
            if !filters[i].filter(disruption, user) {
                return false;
            }
            i = i + 1;
        }
        true
    }
}


/// The setting for planned works after a `/planned` command: switched.
pub open spec fn planned_after(show_planned_disruptions: bool) -> bool {
    !show_planned_disruptions
}

/// The answer to `/planned` once the setting is `enabled`.
pub open spec fn planned_answer(enabled: bool) -> Seq<char> {
    if enabled {
        "You will now receive planned disruption updates - run /planned to disable these updates"@
    } else {
        "You will no longer receive planned disruption updates - run /planned to reactive them"@
    }
}

/// The `/planned` command: the setting for planned works is switched, and the
/// answer tells the new setting.
pub fn toggle_planned(show_planned_disruptions: bool) -> (r: (bool, &'static str))
    ensures
        r.0 == planned_after(show_planned_disruptions),
        r.1@ == planned_answer(r.0),
{
    let enabled = !show_planned_disruptions;
    if enabled {
        (enabled, "You will now receive planned disruption updates - run /planned to disable these updates")
    } else {
        (enabled, "You will no longer receive planned disruption updates - run /planned to reactive them")
    }
}

} // verus!
