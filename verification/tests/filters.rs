use strecken_info_bot::filter::{DisruptionFilter, Filter, StreckenInfoFilter};
use strecken_info_bot::model::{Disruption, DisruptionPeriod, DisruptionStation, TrackRestriction};
use strecken_info_bot::user::User;

fn sample(start: i64, end: i64) -> Disruption {
    Disruption {
        key: "k".to_string(),
        subcause: None,
        cause: "c".to_string(),
        expired: false,
        track_restriction: TrackRestriction::Slight,
        text: String::new(),
        regions: vec![],
        stations: vec![
            DisruptionStation { name: "Frankfurt Hbf".to_string(), ril100: "FF".to_string() },
            DisruptionStation { name: "Mainz Hbf".to_string(), ril100: "FMZ".to_string() },
        ],
        effects: vec![],
        period: DisruptionPeriod { start, end },
    }
}

const DAY: i64 = 86400;

#[test]
fn too_long_counts_whole_days() {
    let f = DisruptionFilter::TooLongDisruption { days: 3 };
    assert!(f.filter(&sample(0, 3 * DAY - 1)));
    assert!(!f.filter(&sample(0, 3 * DAY)));
    assert!(f.filter(&sample(0, 0)));
    // a period ending before it starts counts its days towards zero
    assert!(f.filter(&sample(10 * DAY, 0)));
    let zero = DisruptionFilter::TooLongDisruption { days: 0 };
    assert!(!zero.filter(&sample(0, 5)));
    assert!(zero.filter(&sample(DAY + 5, 0)));
}

#[test]
fn all_filters_must_pass() {
    let fs = [DisruptionFilter::TooLongDisruption { days: 5 }, DisruptionFilter::TooLongDisruption { days: 2 }];
    assert!(DisruptionFilter::filters(&fs, &sample(0, DAY)));
    assert!(!DisruptionFilter::filters(&fs, &sample(0, 3 * DAY)));
    assert!(DisruptionFilter::filters(&[], &sample(0, 30 * DAY)));
}

#[test]
fn filter_ids_and_names() {
    let loc = StreckenInfoFilter::Location { x_bits: 0, y_bits: 0, range: 10 };
    assert_eq!(loc.get_id(), "loc");
    assert_eq!(loc.get_type(), "Standort");
    assert_eq!(StreckenInfoFilter::OnlyCancellations.get_id(), "canc");
    assert_eq!(StreckenInfoFilter::OnlyCancellations.get_type(), "Nur Ausfälle");
    let m = StreckenInfoFilter::RailwayManagement { letter: 'F' };
    assert_eq!(m.get_id(), "mmnt");
    assert_eq!(m.get_type(), "Bahndirektion");
    assert_eq!(Filter::StreckenInfo(m).get_id(), "stinf_mmnt");
    assert_eq!(Filter::StreckenInfo(loc).get_type(), "Standort");
}

#[test]
fn filters_match_disruptions() {
    let d = sample(0, DAY);
    assert!(!StreckenInfoFilter::OnlyCancellations.filter(&d, true));
    let mut severe = sample(0, DAY);
    severe.track_restriction = TrackRestriction::Severe;
    assert!(StreckenInfoFilter::OnlyCancellations.filter(&severe, false));
    assert!(StreckenInfoFilter::RailwayManagement { letter: 'F' }.filter(&d, false));
    assert!(!StreckenInfoFilter::RailwayManagement { letter: 'M' }.filter(&d, true));
    assert!(!StreckenInfoFilter::RailwayManagement { letter: 'f' }.filter(&d, true));
    let loc = StreckenInfoFilter::Location { x_bits: 1, y_bits: 2, range: 3 };
    assert!(loc.filter(&d, true));
    assert!(!loc.filter(&d, false));
    assert!(Filter::StreckenInfo(loc).filter(&d, true));
}

fn user(filters: Vec<Filter>, one_filter_enough: bool) -> User {
    User {
        chat_id: 1,
        trigger_warnings: vec![],
        filters,
        one_filter_enough,
        show_planned_disruptions: false,
    }
}

#[test]
fn users_choose_by_their_filters() {
    let d = sample(0, DAY);
    let canc = Filter::StreckenInfo(StreckenInfoFilter::OnlyCancellations);
    let mgmt = Filter::StreckenInfo(StreckenInfoFilter::RailwayManagement { letter: 'F' });
    assert!(!user(vec![], false).is_filtered(&d, &[]));
    assert!(!user(vec![], true).is_filtered(&d, &[]));
    // all filters must match
    assert!(user(vec![canc, mgmt], false).is_filtered(&d, &[false, false]));
    assert!(!user(vec![mgmt], false).is_filtered(&d, &[false]));
    // one matching filter is enough
    assert!(!user(vec![canc, mgmt], true).is_filtered(&d, &[false, false]));
    assert!(user(vec![canc], true).is_filtered(&d, &[false]));
}

#[test]
fn requiring_all_filters_is_stricter_than_one() {
    let only = Filter::StreckenInfo(StreckenInfoFilter::OnlyCancellations);
    let letter = Filter::StreckenInfo(StreckenInfoFilter::RailwayManagement { letter: 'F' });
    let mut all = User {
        chat_id: 1,
        trigger_warnings: vec![],
        filters: vec![only, letter],
        one_filter_enough: false,
        show_planned_disruptions: false,
    };
    let d = sample(0, DAY);
    // the disruption is slight but in district F: one filter matches
    assert!(all.is_filtered(&d, &[false, false]));
    all.one_filter_enough = true;
    assert!(!all.is_filtered(&d, &[false, false]));
}
