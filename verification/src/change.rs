//! Change detection: which parts of a disruption differ from what was stored,
//! and the MD5 fingerprint that stands in for a stored disruption.

use vstd::prelude::*;
use crate::equality::{effects_equal, option_strings_equal, stations_equal, strings_equal};
use crate::model::{effect_name, Disruption, DisruptionPart, DisruptionView};
use crate::text::{join, join_strings};

verus! {

/// The MD5 digest of `data` (16 bytes).
pub uninterp spec fn md5_digest(data: Seq<u8>) -> Seq<u8>;

/// Calls the md5 crate's `compute` and returns the 16 bytes of its `Digest`.
/// The digest is named, not spelled out; its length is the one fact stated.
#[verifier::external_body]
fn md5_compute(data: &[u8]) -> (d: Vec<u8>)
    ensures
        d@ == md5_digest(data@),
        d@.len() == 16,
{
    md5::compute(data).0.to_vec()
}

/// The lower-case hexadecimal digit for `n < 16`.
pub open spec fn hex_digit(n: u8) -> char {
    if n < 10 {
        (48 + n) as char
    } else {
        (87 + n) as char
    }
}

/// Each byte as two lower-case hexadecimal digits (`{:02x}`), in order.
pub open spec fn lower_hex(bytes: Seq<u8>) -> Seq<char>
    decreases bytes.len(),
{
    if bytes.len() == 0 {
        Seq::<char>::empty()
    } else {
        lower_hex(bytes.drop_last()) + seq![hex_digit(bytes.last() / 16), hex_digit(bytes.last() % 16)]
    }
}

fn hex_digit_of(n: u8) -> (c: char)
    requires
        n < 16,
    ensures
        c == hex_digit(n),
{
    if n < 10 {
        (48u8 + n) as char
    } else {
        (87u8 + n) as char
    }
}

/// The bytes written as lower-case hexadecimal.
pub fn to_lower_hex(bytes: &[u8]) -> (s: String)
    ensures
        s@ == lower_hex(bytes@),
{
    let mut s = String::new();
    let mut i: usize = 0;
    while i < bytes.len()
        invariant
            i <= bytes@.len(),
            s@ == lower_hex(bytes@.take(i as int)),
        decreases bytes@.len() - i,
    {
        let b = bytes[i];
        crate::text::push_char(&mut s, hex_digit_of(b / 16));
        crate::text::push_char(&mut s, hex_digit_of(b % 16));
        assert(bytes@.take(i + 1).drop_last() == bytes@.take(i as int));
        i = i + 1;
    }
    assert(bytes@.take(bytes@.len() as int) == bytes@);
    s
}

/// The MD5 of the UTF-8 bytes of `text`, in lower-case hexadecimal.
pub open spec fn md5_hex(text: Seq<char>) -> Seq<char> {
    lower_hex(md5_digest(vstd::utf8::encode_utf8(text)))
}

/// The MD5 of the UTF-8 bytes of `text`, in lower-case hexadecimal (32 digits).
pub fn md5_hex_of(text: &str) -> (s: String)
    ensures
        s@ == md5_hex(text@),
        s@.len() == 32,
{
    let digest = md5_compute(text.as_bytes());
    let s = to_lower_hex(digest.as_slice());
    proof {
        lemma_lower_hex_len(digest@);
    }
    s
}

/// The text whose MD5 fingerprints a disruption: stations, regions, cause,
/// sub-cause, effects and text behind fixed markers.
pub open spec fn hash_input(d: DisruptionView) -> Seq<char> {
    "p:"@ + "l:"@ + join(Seq::new(d.stations.len(), |i: int| d.stations[i].ril100), ";"@) + "r:"@
        + join(d.regions, ";"@) + "i:"@ + d.cause + (match d.subcause {
        Some(s) => s,
        None => Seq::<char>::empty(),
    }) + join(Seq::new(d.effects.len(), |i: int| effect_name(d.effects[i].effect)), ","@) + "t:"@
        + d.text
}

/// The fingerprint of a disruption: the MD5 of its UTF-8 hash input, in
/// lower-case hexadecimal.
pub open spec fn disruption_hash(d: DisruptionView) -> Seq<char> {
    md5_hex(hash_input(d))
}

/// The fingerprint of the disruption.
pub fn format_hash(disruption: &Disruption) -> (s: String)
    ensures
        s@ == disruption_hash(disruption@),
        s@.len() == 32,
{
    let mut input = "p:".to_string();
    input.append("l:");
    let mut codes: Vec<String> = Vec::new();
    let n = disruption.stations.len();
    let ghost target = Seq::new(disruption@.stations.len(), |i: int| disruption@.stations[i].ril100);
    let mut i: usize = 0;
    while i < n
        invariant
            n == disruption.stations@.len(),
            target == Seq::new(disruption@.stations.len(), |i: int| disruption@.stations[i].ril100),
            i <= n,
            codes.deep_view() == target.take(i as int),
        decreases n - i,
    {
        let ghost old_codes = codes.deep_view();
        codes.push(disruption.stations[i].ril100.clone());
        assert(codes.deep_view() == old_codes.push(target[i as int]));
        i = i + 1;
        assert(codes.deep_view() == target.take(i as int));
    }
    assert(target.take(n as int) == target);
    let stations = join_strings(&codes, ";");
    input.append(stations.as_str());
    input.append("r:");
    let regions = join_strings(&disruption.regions, ";");
    input.append(regions.as_str());
    input.append("i:");
    input.append(disruption.cause.as_str());
    match &disruption.subcause {
        Some(sub) => input.append(sub.as_str()),
        None => {},
    }
    let mut names: Vec<String> = Vec::new();
    let m = disruption.effects.len();
    let ghost effect_names = Seq::new(
        disruption@.effects.len(),
        |i: int| effect_name(disruption@.effects[i].effect),
    );
    let mut j: usize = 0;
    while j < m
        invariant
            m == disruption.effects@.len(),
            effect_names == Seq::new(
                disruption@.effects.len(),
                |i: int| effect_name(disruption@.effects[i].effect),
            ),
            j <= m,
            names.deep_view() == effect_names.take(j as int),
        decreases m - j,
    {
        let ghost old_names = names.deep_view();
        let name = disruption.effects[j].effect.name();
        names.push(name);
        assert(names.deep_view() == old_names.push(effect_names[j as int]));
        j = j + 1;
        assert(names.deep_view() == effect_names.take(j as int));
    }
    assert(effect_names.take(m as int) == effect_names);
    let effects = join_strings(&names, ",");
    input.append(effects.as_str());
    input.append("t:");
    input.append(disruption.text.as_str());
    assert(input@ == hash_input(disruption@));
    md5_hex_of(input.as_str())
}

proof fn lemma_lower_hex_len(bytes: Seq<u8>)
    ensures
        lower_hex(bytes).len() == 2 * bytes.len(),
    decreases bytes.len(),
{
    if bytes.len() > 0 {
        lemma_lower_hex_len(bytes.drop_last());
    }
}

/// `part` alone when `changed`, else nothing.
pub open spec fn part_if(changed: bool, part: DisruptionPart) -> Seq<DisruptionPart> {
    if changed {
        seq![part]
    } else {
        Seq::<DisruptionPart>::empty()
    }
}

/// The parts in which `new` differs from `stored`, in the order cause, effects,
/// locations, times, text.
pub open spec fn changed_parts(stored: DisruptionView, new: DisruptionView) -> Seq<DisruptionPart> {
    part_if(stored.cause != new.cause || stored.subcause != new.subcause, DisruptionPart::Cause)
        + part_if(stored.effects != new.effects, DisruptionPart::Effects)
        + part_if(stored.stations != new.stations || stored.regions != new.regions, DisruptionPart::Locations)
        + part_if(stored.start != new.start || stored.end != new.end, DisruptionPart::Times)
        + part_if(stored.text != new.text, DisruptionPart::Text)
}

/// Every part, in the order cause, effects, locations, times, text.
pub open spec fn all_parts() -> Seq<DisruptionPart> {
    seq![
        DisruptionPart::Cause,
        DisruptionPart::Effects,
        DisruptionPart::Locations,
        DisruptionPart::Times,
        DisruptionPart::Text,
    ]
}

/// Every part of a disruption.
pub fn all_disruption_parts() -> (parts: Vec<DisruptionPart>)
    ensures
        parts@ == all_parts(),
{
    let mut parts = Vec::new();
    parts.push(DisruptionPart::Cause);
    parts.push(DisruptionPart::Effects);
    parts.push(DisruptionPart::Locations);
    parts.push(DisruptionPart::Times);
    parts.push(DisruptionPart::Text);
    parts
}

/// What changed: against a stored disruption, the parts that differ; with
/// only a stored fingerprint, nothing if it matches and every part if not.
pub open spec fn disruption_changes(
    stored: Option<DisruptionView>,
    hash: Seq<char>,
    new: DisruptionView,
) -> Seq<DisruptionPart> {
    match stored {
        Some(s) => changed_parts(s, new),
        None => if disruption_hash(new) == hash {
            Seq::<DisruptionPart>::empty()
        } else {
            all_parts()
        },
    }
}

fn push_if(parts: &mut Vec<DisruptionPart>, changed: bool, part: DisruptionPart)
    ensures
        final(parts)@ == old(parts)@ + part_if(changed, part),
{
    if changed {
        parts.push(part);
        assert(parts@ == old(parts)@ + part_if(changed, part));
    } else {
        assert(old(parts)@ + part_if(changed, part) == old(parts)@);
    }
}

/// The parts in which `new_disruption` differs from the stored disruption,
/// or, where only the stored fingerprint `hash` is known, all or none.
pub fn get_disruption_changes(
    database_disruption: Option<Disruption>,
    hash: String,
    new_disruption: &Disruption,
) -> (parts: Vec<DisruptionPart>)
    ensures
        parts@ == disruption_changes(
            match database_disruption {
                Some(d) => Some(d@),
                None => None,
            },
            hash@,
            new_disruption@,
        ),
{
    match database_disruption {
        Some(stored) => {
            let mut parts: Vec<DisruptionPart> = Vec::new();
            let cause_changed = stored.cause != new_disruption.cause || !option_strings_equal(
                &stored.subcause,
                &new_disruption.subcause,
            );
            push_if(&mut parts, cause_changed, DisruptionPart::Cause);
            let effects_changed = !effects_equal(&stored.effects, &new_disruption.effects);
            push_if(&mut parts, effects_changed, DisruptionPart::Effects);
            let locations_changed = !stations_equal(&stored.stations, &new_disruption.stations)
                || !strings_equal(&stored.regions, &new_disruption.regions);
            push_if(&mut parts, locations_changed, DisruptionPart::Locations);
            let times_changed = stored.period.start != new_disruption.period.start
                || stored.period.end != new_disruption.period.end;
            push_if(&mut parts, times_changed, DisruptionPart::Times);
            let text_changed = stored.text != new_disruption.text;
            push_if(&mut parts, text_changed, DisruptionPart::Text);
            assert(parts@ =~= changed_parts(stored@, new_disruption@));
            parts
        },
        None => {
            let new_hash = format_hash(new_disruption);
            if new_hash == hash {
                Vec::new()
            } else {
                all_disruption_parts()
            }
        },
    }
}

} // verus!
