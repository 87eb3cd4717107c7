//! The disruption model: what the bot reads of a strecken.info disruption,
//! held as plain values, with a mathematical view of each type.

use vstd::prelude::*;

verus! {

/// Kind of train traffic affected by an effect.
#[derive(Clone, Copy, PartialEq, Eq, Structural, Debug)]
pub enum Product {
    LongDistance,
    Local,
    Freight,
}

impl DeepView for Product {
    type V = Product;

    open spec fn deep_view(&self) -> Product {
        *self
    }
}

/// How strongly the track is restricted.
#[derive(Clone, Copy, PartialEq, Eq, Structural, Debug)]
pub enum TrackRestriction {
    Severe,
    Slight,
}

/// A station (Betriebsstelle) named by a disruption.
#[derive(Clone, Debug)]
pub struct DisruptionStation {
    pub name: String,
    pub ril100: String,
}

/// Mathematical view of a [`DisruptionStation`].
pub struct StationView {
    pub name: Seq<char>,
    pub ril100: Seq<char>,
}

impl View for DisruptionStation {
    type V = StationView;

    open spec fn view(&self) -> StationView {
        StationView { name: self.name@, ril100: self.ril100@ }
    }
}

impl DeepView for DisruptionStation {
    type V = StationView;

    open spec fn deep_view(&self) -> StationView {
        self@
    }
}

/// What a disruption does to the traffic.
#[derive(Clone, Debug)]
pub enum EffectKind {
    Diversion,
    Cancel,
    PartialCancel,
    LongerTravelTime,
    OppositeTrackZs6,
    OppositeTrackZs8,
    HoldingBack,
    TotalClosure,
    DeviationFromTimetable,
    WithoutDeviationFromRoute,
    DiversionUnderSimplifiedConditions,
    Other,
    Unknown(String),
}

/// Mathematical view of an [`EffectKind`].
pub enum EffectKindView {
    Diversion,
    Cancel,
    PartialCancel,
    LongerTravelTime,
    OppositeTrackZs6,
    OppositeTrackZs8,
    HoldingBack,
    TotalClosure,
    DeviationFromTimetable,
    WithoutDeviationFromRoute,
    DiversionUnderSimplifiedConditions,
    Other,
    Unknown(Seq<char>),
}

impl View for EffectKind {
    type V = EffectKindView;

    open spec fn view(&self) -> EffectKindView {
        match self {
            EffectKind::Diversion => EffectKindView::Diversion,
            EffectKind::Cancel => EffectKindView::Cancel,
            EffectKind::PartialCancel => EffectKindView::PartialCancel,
            EffectKind::LongerTravelTime => EffectKindView::LongerTravelTime,
            EffectKind::OppositeTrackZs6 => EffectKindView::OppositeTrackZs6,
            EffectKind::OppositeTrackZs8 => EffectKindView::OppositeTrackZs8,
            EffectKind::HoldingBack => EffectKindView::HoldingBack,
            EffectKind::TotalClosure => EffectKindView::TotalClosure,
            EffectKind::DeviationFromTimetable => EffectKindView::DeviationFromTimetable,
            EffectKind::WithoutDeviationFromRoute => EffectKindView::WithoutDeviationFromRoute,
            EffectKind::DiversionUnderSimplifiedConditions => {
                EffectKindView::DiversionUnderSimplifiedConditions
            },
            EffectKind::Other => EffectKindView::Other,
            EffectKind::Unknown(s) => EffectKindView::Unknown(s@),
        }
    }
}

/// The German name under which an effect is shown.
pub open spec fn effect_name(e: EffectKindView) -> Seq<char> {
    match e {
        EffectKindView::Diversion => "Umleitung"@,
        EffectKindView::Cancel => "Ausfall"@,
        EffectKindView::PartialCancel => "Teilausfall"@,
        EffectKindView::LongerTravelTime => "Fahrzeitverlängerung auf Regellaufweg"@,
        EffectKindView::OppositeTrackZs6 => "Befahren Ggl. mit Zs 6"@,
        EffectKindView::OppositeTrackZs8 => "Fahren auf dem Gegengleis mit Zs 8 oder Befehl"@,
        EffectKindView::HoldingBack => "Zurückhalten von Zügen"@,
        EffectKindView::TotalClosure => "Totalsperrung"@,
        EffectKindView::DeviationFromTimetable => "Abweichung vom Fahrplan für Zugmeldestellen"@,
        EffectKindView::WithoutDeviationFromRoute => "Ohne Abweichung des Laufwegs"@,
        EffectKindView::DiversionUnderSimplifiedConditions => {
            "Umleitung unter erleichterten Bedingungen"@
        },
        EffectKindView::Other => "Sonstiges"@,
        EffectKindView::Unknown(s) => s,
    }
}

impl EffectKind {
    /// The German name under which the effect is shown.
    pub fn name(&self) -> (s: String)
        ensures
            s@ == effect_name(self@),
    {
        match self {
            EffectKind::Diversion => "Umleitung".to_string(),
            EffectKind::Cancel => "Ausfall".to_string(),
            EffectKind::PartialCancel => "Teilausfall".to_string(),
            EffectKind::LongerTravelTime => "Fahrzeitverlängerung auf Regellaufweg".to_string(),
            EffectKind::OppositeTrackZs6 => "Befahren Ggl. mit Zs 6".to_string(),
            EffectKind::OppositeTrackZs8 => "Fahren auf dem Gegengleis mit Zs 8 oder Befehl".to_string(),
            EffectKind::HoldingBack => "Zurückhalten von Zügen".to_string(),
            EffectKind::TotalClosure => "Totalsperrung".to_string(),
            EffectKind::DeviationFromTimetable => {
                "Abweichung vom Fahrplan für Zugmeldestellen".to_string()
            },
            EffectKind::WithoutDeviationFromRoute => "Ohne Abweichung des Laufwegs".to_string(),
            EffectKind::DiversionUnderSimplifiedConditions => {
                "Umleitung unter erleichterten Bedingungen".to_string()
            },
            EffectKind::Other => "Sonstiges".to_string(),
            EffectKind::Unknown(s) => s.clone(),
        }
    }
}

/// One effect of a disruption and the kinds of traffic it hits.
#[derive(Clone, Debug)]
pub struct DisruptionEffect {
    pub effect: EffectKind,
    pub product: Vec<Product>,
}

/// Mathematical view of a [`DisruptionEffect`].
pub struct EffectView {
    pub effect: EffectKindView,
    pub product: Seq<Product>,
}

impl View for DisruptionEffect {
    type V = EffectView;

    open spec fn view(&self) -> EffectView {
        EffectView { effect: self.effect@, product: self.product@ }
    }
}

impl DeepView for DisruptionEffect {
    type V = EffectView;

    open spec fn deep_view(&self) -> EffectView {
        self@
    }
}

/// Start and end of a disruption as naive (zone-less) date-times, each held as
/// the number of seconds since 1970-01-01T00:00:00 of the same wall clock.
#[derive(Clone, Copy, Debug)]
pub struct DisruptionPeriod {
    pub start: i64,
    pub end: i64,
}

/// A disruption as published by strecken.info.
#[derive(Clone, Debug)]
pub struct Disruption {
    pub key: String,
    pub subcause: Option<String>,
    pub cause: String,
    pub expired: bool,
    pub track_restriction: TrackRestriction,
    pub text: String,
    pub regions: Vec<String>,
    pub stations: Vec<DisruptionStation>,
    pub effects: Vec<DisruptionEffect>,
    pub period: DisruptionPeriod,
}

/// Mathematical view of a [`Disruption`].
pub struct DisruptionView {
    pub key: Seq<char>,
    pub subcause: Option<Seq<char>>,
    pub cause: Seq<char>,
    pub expired: bool,
    pub track_restriction: TrackRestriction,
    pub text: Seq<char>,
    pub regions: Seq<Seq<char>>,
    pub stations: Seq<StationView>,
    pub effects: Seq<EffectView>,
    pub start: i64,
    pub end: i64,
}

impl View for Disruption {
    type V = DisruptionView;

    open spec fn view(&self) -> DisruptionView {
        DisruptionView {
            key: self.key@,
            subcause: self.subcause.deep_view(),
            cause: self.cause@,
            expired: self.expired,
            track_restriction: self.track_restriction,
            text: self.text@,
            regions: self.regions.deep_view(),
            stations: self.stations.deep_view(),
            effects: self.effects.deep_view(),
            start: self.period.start,
            end: self.period.end,
        }
    }
}

/// Seconds since 1970-01-01T00:00:00 of the earliest and the latest naive
/// date-time that chrono can hold (years -262143 and 262142).
pub const MIN_NAIVE_TIMESTAMP: i64 = -8334601315200i64;
pub const MAX_NAIVE_TIMESTAMP: i64 = 8210266876799i64;

/// `ts` stands for a naive date-time that chrono can hold.
pub open spec fn is_naive_timestamp(ts: i64) -> bool {
    MIN_NAIVE_TIMESTAMP <= ts <= MAX_NAIVE_TIMESTAMP
}

impl DisruptionView {
    /// Both ends of the period are date-times that chrono can hold.
    pub open spec fn wf(self) -> bool {
        is_naive_timestamp(self.start) && is_naive_timestamp(self.end)
    }
}

/// A part of a disruption that may change between two reports.
#[derive(Clone, Copy, PartialEq, Eq, Structural, Debug)]
pub enum DisruptionPart {
    Cause,
    Effects,
    Locations,
    Times,
    Text,
}

/// Whether `parts` names `part`.
pub fn contains_part(parts: &[DisruptionPart], part: DisruptionPart) -> (b: bool)
    ensures
        b == parts@.contains(part),
{
    let mut i: usize = 0;
    while i < parts.len()
        invariant
            i <= parts@.len(),
            forall|k: int| 0 <= k < i ==> parts@[k] != part,
        decreases parts@.len() - i,
    {
        if parts[i] == part {
            assert(parts@[i as int] == part);
            return true;
        }
        i = i + 1;
    }
    false
}

/// The channels a message is written for.
#[derive(Clone, Copy, PartialEq, Eq, Structural, Debug)]
pub enum ComponentType {
    Telegram,
    Mastodon,
}

} // verus!
