//! Pieces of a disruption message: location, cause, effects, period and prefix.

use vstd::prelude::*;
use crate::datetime::{
    after, berlin_local_to_utc, berlin_to_utc, format_naive_datetime, is_after, naive_datetime_text,
    utc_now, UtcInstant,
};
use crate::model::{
    effect_name, Disruption, DisruptionEffect, DisruptionStation, DisruptionView, EffectView, Product,
    StationView, TrackRestriction,
};
use crate::text::{
    chars_of, dedup, dedup_strings, join, join_strings, nonempty_parts, nonempty_words, split_on, trim,
    trim_chars,
};

verus! {

/// A station name with white space trimmed and runs of blanks made single.
pub open spec fn normalized_name(name: Seq<char>) -> Seq<char> {
    join(nonempty_parts(split_on(trim(name), ' ')), " "@)
}

/// `Name (RIL100)` of a station.
pub open spec fn station_label(st: StationView) -> Seq<char> {
    normalized_name(st.name) + " ("@ + st.ril100 + ")"@
}

/// The labels of the stations, in order.
pub open spec fn station_labels(stations: Seq<StationView>) -> Seq<Seq<char>> {
    Seq::new(stations.len(), |i: int| station_label(stations[i]))
}

/// Where a disruption is: its stations (consecutive repeats merged; beyond
/// `max` of them only the first `max - 1` and `...`), else its regions, else
/// `Unbekannt`.
pub open spec fn location_text(d: DisruptionView, max: Option<usize>) -> Seq<char> {
    if d.stations.len() > 0 {
        let locations = dedup(station_labels(d.stations));
        match max {
            Some(m) if locations.len() > m => join(locations.take(m - 1), ", "@) + "..."@,
            _ => join(locations, ", "@),
        }
    } else if d.regions.len() > 0 {
        join(d.regions, ", "@)
    } else {
        "Unbekannt"@
    }
}

/// `get_location` panics on a limit of 0 when there are stations.
pub open spec fn location_limit_ok(d: DisruptionView, max: Option<usize>) -> bool {
    d.stations.len() > 0 && max is Some ==> max->0 >= 1
}

proof fn lemma_dedup_nonempty(parts: Seq<Seq<char>>)
    requires
        parts.len() > 0,
    ensures
        dedup(parts).len() > 0,
{
}

fn station_label_of(st: &DisruptionStation) -> (s: String)
    ensures
        s@ == station_label(st@),
{
    let name = trim_chars(&chars_of(st.name.as_str()));
    let words = nonempty_words(&name, ' ');
    let mut s = join_strings(&words, " ");
    s.append(" (");
    s.append(st.ril100.as_str());
    s.append(")");
    s
}

/// Where the disruption is, as shown in messages.
pub fn get_location(disruption: &Disruption, max_locations: Option<usize>) -> (s: String)
    requires
        location_limit_ok(disruption@, max_locations),
    ensures
        s@ == location_text(disruption@, max_locations),
{
    let n = disruption.stations.len();
    if n > 0 {
        let mut labels: Vec<String> = Vec::new();
        let mut i: usize = 0;
        while i < n
            invariant
                n == disruption.stations@.len(),
                i <= n,
                labels.deep_view() == station_labels(disruption@.stations).take(i as int),
            decreases n - i,
        {
            let ghost old_labels = labels.deep_view();
            let label = station_label_of(&disruption.stations[i]);
            labels.push(label);
            assert(labels.deep_view() == old_labels.push(label@));
            i = i + 1;
            assert(labels.deep_view() == station_labels(disruption@.stations).take(i as int));
        }
        assert(station_labels(disruption@.stations).take(n as int) == station_labels(
            disruption@.stations,
        ));
        let locations = dedup_strings(labels);
        proof {
            lemma_dedup_nonempty(station_labels(disruption@.stations));
        }
        match max_locations {
            Some(m) => {
                if locations.len() > m {
                    let mut kept: Vec<String> = Vec::new();
                    let mut k: usize = 0;
                    while k < m - 1
                        invariant
                            1 <= m < locations@.len(),
                            k <= m - 1,
                            kept.deep_view() == locations.deep_view().take(k as int),
                        decreases m - 1 - k,
                    {
                        let ghost old_kept = kept.deep_view();
                        kept.push(locations[k].clone());
                        assert(kept.deep_view() == old_kept.push(locations.deep_view()[k as int]));
                        k = k + 1;
                        assert(kept.deep_view() == locations.deep_view().take(k as int));
                    }
                    let mut s = join_strings(&kept, ", ");
                    s.append("...");
                    return s;
                }
            },
            None => {},
        }
        join_strings(&locations, ", ")
    } else if disruption.regions.len() > 0 {
        join_strings(&disruption.regions, ", ")
    } else {
        "Unbekannt".to_string()
    }
}

/// The cause, followed by ` - ` and the sub-cause where there is one.
pub open spec fn cause_text(d: DisruptionView) -> Seq<char> {
    match d.subcause {
        Some(sub) => d.cause + " - "@ + sub,
        None => d.cause,
    }
}

/// The cause of the disruption, as shown in messages.
pub fn get_cause(disruption: &Disruption) -> (s: String)
    ensures
        s@ == cause_text(disruption@),
{
    let mut s = disruption.cause.clone();
    match &disruption.subcause {
        Some(sub) => {
            s.append(" - ");
            s.append(sub.as_str());
        },
        None => {},
    }
    s
}

/// The abbreviation of a kind of traffic.
pub open spec fn product_name(p: Product) -> Seq<char> {
    match p {
        Product::LongDistance => "SPFV"@,
        Product::Local => "SPNV"@,
        Product::Freight => "SGV"@,
    }
}

pub(crate) fn product_name_of(p: Product) -> (s: &'static str)
    ensures
        s@ == product_name(p),
{
    match p {
        Product::LongDistance => "SPFV",
        Product::Local => "SPNV",
        Product::Freight => "SGV",
    }
}

/// `Effect (P1, P2)` for one effect.
pub open spec fn effect_text(e: EffectView) -> Seq<char> {
    effect_name(e.effect) + " ("@ + join(Seq::new(e.product.len(), |i: int| product_name(e.product[i])), ", "@)
        + ")"@
}

/// The effects with their kinds of traffic, consecutive repeats merged.
pub open spec fn product_effects_text(d: DisruptionView) -> Seq<char> {
    join(dedup(Seq::new(d.effects.len(), |i: int| effect_text(d.effects[i]))), ", "@)
}

fn effect_text_of(e: &DisruptionEffect) -> (s: String)
    ensures
        s@ == effect_text(e@),
{
    let mut names: Vec<String> = Vec::new();
    let n = e.product.len();
    let ghost target = Seq::new(e@.product.len(), |i: int| product_name(e@.product[i]));
    let mut i: usize = 0;
    while i < n
        invariant
            n == e.product@.len(),
            target == Seq::new(e@.product.len(), |i: int| product_name(e@.product[i])),
            i <= n,
            names.deep_view() == target.take(i as int),
        decreases n - i,
    {
        let ghost old_names = names.deep_view();
        let name = product_name_of(e.product[i]).to_string();
        names.push(name);
        assert(names.deep_view() == old_names.push(name@));
        i = i + 1;
        assert(names.deep_view() == target.take(i as int));
    }
    assert(target.take(n as int) == target);
    let mut s = e.effect.name();
    s.append(" (");
    let joined = join_strings(&names, ", ");
    s.append(joined.as_str());
    s.append(")");
    s
}

/// The effects of the disruption, as shown in messages.
pub fn get_product_effects(disruption: &Disruption) -> (s: String)
    ensures
        s@ == product_effects_text(disruption@),
{
    let mut texts: Vec<String> = Vec::new();
    let n = disruption.effects.len();
    let ghost target = Seq::new(disruption@.effects.len(), |i: int| effect_text(disruption@.effects[i]));
    let mut i: usize = 0;
    while i < n
        invariant
            n == disruption.effects@.len(),
            target == Seq::new(disruption@.effects.len(), |i: int| effect_text(disruption@.effects[i])),
            i <= n,
            texts.deep_view() == target.take(i as int),
        decreases n - i,
    {
        let ghost old_texts = texts.deep_view();
        let t = effect_text_of(&disruption.effects[i]);
        texts.push(t);
        assert(texts.deep_view() == old_texts.push(t@));
        i = i + 1;
        assert(texts.deep_view() == target.take(i as int));
    }
    assert(target.take(n as int) == target);
    let deduped = dedup_strings(texts);
    join_strings(&deduped, ", ")
}

/// `start bis end`, both as `%d.%m.%Y %H:%M`.
pub open spec fn times_text(d: DisruptionView) -> Seq<char> {
    naive_datetime_text(d.start) + " bis "@ + naive_datetime_text(d.end)
}

/// The period of the disruption, as shown in messages.
pub fn get_times(disruption: &Disruption) -> (s: String)
    requires
        disruption@.wf(),
    ensures
        s@ == times_text(disruption@),
{
    let mut s = format_naive_datetime(disruption.period.start);
    s.append(" bis ");
    let end = format_naive_datetime(disruption.period.end);
    s.append(end.as_str());
    s
}

/// Expiry can be decided without a panic: the disruption is marked expired,
/// or its end is a Berlin wall-clock time that names a single instant.
pub open spec fn expiry_decidable(d: DisruptionView) -> bool {
    d.expired || berlin_to_utc(d.end) is Some
}

/// The disruption is over at `now`: marked expired, or its end (Berlin time)
/// lies before `now`.
pub open spec fn expired_at(d: DisruptionView, now: UtcInstant) -> bool {
    d.expired || (berlin_to_utc(d.end) matches Some(end) && is_after(now, end))
}

/// Whether the disruption is over at the instant `now`.
pub fn is_expired_at(disruption: &Disruption, now: UtcInstant) -> (b: bool)
    requires
        disruption@.wf(),
        expiry_decidable(disruption@),
    ensures
        b == expired_at(disruption@, now),
{
    if disruption.expired {
        true
    } else {
        match berlin_local_to_utc(disruption.period.end) {
            Some(end) => after(now, end),
            None => false,
        }
    }
}

/// Whether the disruption is over now. A disruption marked expired always is;
/// otherwise the answer is the one for the clock's current reading.
pub fn is_expired(disruption: &Disruption) -> (b: bool)
    requires
        disruption@.wf(),
        expiry_decidable(disruption@),
    ensures
        exists|now: UtcInstant| b == expired_at(disruption@, now),
        disruption@.expired ==> b,
{
    let now = utc_now();
    is_expired_at(disruption, now)
}

/// The first words of a message: ended, update, or the severity of a new one.
pub open spec fn prefix_text(d: DisruptionView, update: bool, expired: bool) -> Seq<char> {
    if expired {
        "✅ Beendet:"@
    } else if update {
        "Update:"@
    } else {
        match d.track_restriction {
            TrackRestriction::Severe => "❌"@,
            TrackRestriction::Slight => "⚠️"@,
        }
    }
}

/// The first words of a message about the disruption at the instant `now`.
pub fn get_prefix_at(disruption: &Disruption, update: bool, now: UtcInstant) -> (s: &'static str)
    requires
        disruption@.wf(),
        expiry_decidable(disruption@),
    ensures
        s@ == prefix_text(disruption@, update, expired_at(disruption@, now)),
{
    if is_expired_at(disruption, now) {
        "✅ Beendet:"
    } else if update {
        "Update:"
    } else {
        match disruption.track_restriction {
            TrackRestriction::Severe => "❌",
            TrackRestriction::Slight => "⚠️",
        }
    }
}

/// The first words of a message about the disruption now.
pub fn get_prefix(disruption: &Disruption, update: bool) -> (s: &'static str)
    requires
        disruption@.wf(),
        expiry_decidable(disruption@),
    ensures
        exists|now: UtcInstant| s@ == prefix_text(disruption@, update, expired_at(disruption@, now)),
        disruption@.expired ==> s@ == prefix_text(disruption@, update, true),
{
    let now = utc_now();
    get_prefix_at(disruption, update, now)
}

} // verus!
