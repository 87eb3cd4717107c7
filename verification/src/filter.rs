//! Filters: which disruptions are passed on at all, and which a Telegram user
//! has chosen to receive.

use vstd::prelude::*;
use crate::model::{Disruption, DisruptionView, StationView, TrackRestriction};

verus! {

/// Seconds in a day.
pub const SECS_PER_DAY: i64 = 86400i64;

/// Whole days between two instants given in seconds, rounded towards zero
/// (chrono's `TimeDelta::num_days` of `end - start`).
pub open spec fn whole_days(start: i64, end: i64) -> int {
    let secs = end - start;
    if secs >= 0 {
        secs / 86400
    } else {
        -((-secs) / 86400)
    }
}

/// A rule that decides whether a disruption is worth reporting.
pub enum DisruptionFilter {
    /// Passes disruptions that last fewer than `days` whole days.
    TooLongDisruption { days: u8 },
}

/// Whether `f` lets `d` pass.
pub open spec fn passes(f: DisruptionFilter, d: DisruptionView) -> bool {
    match f {
        DisruptionFilter::TooLongDisruption { days } => whole_days(d.start, d.end) < days,
    }
}

/// Whether every filter of `fs` lets `d` pass.
pub open spec fn passes_all(fs: Seq<DisruptionFilter>, d: DisruptionView) -> bool {
    forall|i: int| 0 <= i < fs.len() ==> #[trigger] passes(fs[i], d)
}

impl DisruptionFilter {
    /// Whether the filter lets the disruption pass.
    pub fn filter(&self, disruption: &Disruption) -> (b: bool)
        requires
            disruption@.wf(),
        ensures
            b == passes(*self, disruption@),
    {
        match self {
            DisruptionFilter::TooLongDisruption { days } => {
                let secs = disruption.period.end - disruption.period.start;
                let whole = if secs >= 0 {
                    secs / SECS_PER_DAY
                } else {
                    -((-secs) / SECS_PER_DAY)
                };
                whole < *days as i64
            },
        }
    }

    /// Whether all filters let the disruption pass.
    pub fn filters(filters: &[DisruptionFilter], disruption: &Disruption) -> (b: bool)
        requires
            disruption@.wf(),
        ensures
            b == passes_all(filters@, disruption@),
    {
        let mut i: usize = 0;
        while i < filters.len()
            invariant
                disruption@.wf(),
                i <= filters@.len(),
                forall|k: int| 0 <= k < i ==> #[trigger] passes(filters@[k], disruption@),
            decreases filters@.len() - i,
        {
            if !filters[i].filter(disruption) {
                return false;
            }
            i = i + 1;
        }
        true
    }
}

/// What a Telegram user may ask for about strecken.info disruptions.
#[derive(Clone, Copy, Debug)]
pub enum StreckenInfoFilter {
    /// Near a point: `x` (longitude) and `y` (latitude) as the bits of their
    /// `f64` values, `range` in kilometres.
    Location { x_bits: u64, y_bits: u64, range: u16 },
    /// Only disruptions that stop traffic.
    OnlyCancellations,
    /// Stations whose RIL100 code starts with `letter` (the railway district).
    RailwayManagement { letter: char },
}

/// The short id of a kind of filter.
pub open spec fn filter_id(f: StreckenInfoFilter) -> Seq<char> {
    match f {
        StreckenInfoFilter::Location { .. } => "loc"@,
        StreckenInfoFilter::OnlyCancellations => "canc"@,
        StreckenInfoFilter::RailwayManagement { .. } => "mmnt"@,
    }
}

/// The German name of a kind of filter.
pub open spec fn filter_type(f: StreckenInfoFilter) -> Seq<char> {
    match f {
        StreckenInfoFilter::Location { .. } => "Standort"@,
        StreckenInfoFilter::OnlyCancellations => "Nur Ausfälle"@,
        StreckenInfoFilter::RailwayManagement { .. } => "Bahndirektion"@,
    }
}

/// A station's RIL100 code starts with `letter`.
pub open spec fn ril100_starts_with(st: StationView, letter: char) -> bool {
    st.ril100.len() > 0 && st.ril100[0] == letter
}

/// Whether the filter matches `d`; for a location filter, `location_match`
/// is the outcome of the distance check (made on the coordinates).
pub open spec fn filter_matches(f: StreckenInfoFilter, d: DisruptionView, location_match: bool) -> bool {
    match f {
        StreckenInfoFilter::Location { .. } => location_match,
        StreckenInfoFilter::OnlyCancellations => d.track_restriction == TrackRestriction::Severe,
        StreckenInfoFilter::RailwayManagement { letter } => exists|i: int|
            0 <= i < d.stations.len() && ril100_starts_with(#[trigger] d.stations[i], letter),
    }
}

fn first_char_is(s: &String, c: char) -> (b: bool)
    ensures
        b == (s@.len() > 0 && s@[0] == c),
{
    let mut chars = s.as_str().chars();
    match chars.next() {
        Some(first) => {
            proof {
                assert(s@.len() > 0);
            }
            first == c
        },
        None => false,
    }
}

impl StreckenInfoFilter {
    /// The short id of the filter's kind.
    pub fn get_id(&self) -> (s: &'static str)
        ensures
            s@ == filter_id(*self),
    {
        match self {
            StreckenInfoFilter::Location { .. } => "loc",
            StreckenInfoFilter::OnlyCancellations => "canc",
            StreckenInfoFilter::RailwayManagement { .. } => "mmnt",
        }
    }

    /// The German name of the filter's kind.
    pub fn get_type(&self) -> (s: &'static str)
        ensures
            s@ == filter_type(*self),
    {
        match self {
            StreckenInfoFilter::Location { .. } => "Standort",
            StreckenInfoFilter::OnlyCancellations => "Nur Ausfälle",
            StreckenInfoFilter::RailwayManagement { .. } => "Bahndirektion",
        }
    }

    /// Whether the filter matches the disruption; `location_match` is the
    /// outcome of the distance check for a location filter.
    pub fn filter(&self, disruption: &Disruption, location_match: bool) -> (b: bool)
        ensures
            b == filter_matches(*self, disruption@, location_match),
    {
        match self {
            StreckenInfoFilter::Location { .. } => location_match,
            StreckenInfoFilter::OnlyCancellations => {
                disruption.track_restriction == TrackRestriction::Severe
            },
            StreckenInfoFilter::RailwayManagement { letter } => {
                let mut i: usize = 0;
                while i < disruption.stations.len()
                    invariant
                        *self == (StreckenInfoFilter::RailwayManagement { letter: *letter }),
                        i <= disruption.stations@.len(),
                        forall|k: int|
                            0 <= k < i ==> !ril100_starts_with(
                                #[trigger] disruption@.stations[k],
                                *letter,
                            ),
                    decreases disruption.stations@.len() - i,
                {
                    if first_char_is(&disruption.stations[i].ril100, *letter) {
                        assert(ril100_starts_with(disruption@.stations[i as int], *letter));
                        assert(exists|j: int|
                            0 <= j < disruption@.stations.len() && ril100_starts_with(
                                #[trigger] disruption@.stations[j],
                                *letter,
                            ));
                        return true;
                    }
                    i = i + 1;
                }
                false
            },
        }
    }
}

/// A user's filter, tagged with the data source it applies to.
#[derive(Clone, Copy, Debug)]
pub enum Filter {
    StreckenInfo(StreckenInfoFilter),
}

impl Filter {
    /// The id of the filter: `stinf_` and the id of its kind.
    pub fn get_id(&self) -> (s: String)
        ensures
            s@ == (match *self {
                Filter::StreckenInfo(f) => "stinf_"@ + filter_id(f),
            }),
    {
        match self {
            Filter::StreckenInfo(f) => {
                let mut s = "stinf_".to_string();
                s.append(f.get_id());
                s
            },
        }
    }

    /// The German name of the filter's kind.
    pub fn get_type(&self) -> (s: &'static str)
        ensures
            s@ == (match *self {
                Filter::StreckenInfo(f) => filter_type(f),
            }),
    {
        match self {
            Filter::StreckenInfo(f) => f.get_type(),
        }
    }

    /// Whether the filter matches the disruption; `location_match` is the
    /// outcome of the distance check for a location filter.
    pub fn filter(&self, disruption: &Disruption, location_match: bool) -> (b: bool)
        ensures
            b == (match *self {
                Filter::StreckenInfo(f) => filter_matches(f, disruption@, location_match),
            }),
    {
        match self {
            Filter::StreckenInfo(f) => f.filter(disruption, location_match),
        }
    }
}

} // verus!
