use strecken_info_bot::change::{all_disruption_parts, format_hash, get_disruption_changes, md5_hex_of, to_lower_hex};
use strecken_info_bot::data::{decide_fetched, get_fetched_changes, FetchAction, StoredDisruption};
use strecken_info_bot::model::{
    Disruption, DisruptionEffect, DisruptionPart, DisruptionPeriod, DisruptionStation, EffectKind,
    Product, TrackRestriction,
};

fn station(name: &str, ril100: &str) -> DisruptionStation {
    DisruptionStation { name: name.to_string(), ril100: ril100.to_string() }
}

fn sample() -> Disruption {
    Disruption {
        key: "k1".to_string(),
        subcause: Some("Oberleitungsstörung".to_string()),
        cause: "Technische Störung".to_string(),
        expired: false,
        track_restriction: TrackRestriction::Severe,
        text: "Zwischen A<br>und B".to_string(),
        regions: vec!["Nord".to_string(), "Ost".to_string()],
        stations: vec![station("Hamburg Hbf", "AH"), station("Berlin Hbf", "BL")],
        effects: vec![DisruptionEffect {
            effect: EffectKind::Cancel,
            product: vec![Product::LongDistance, Product::Local],
        }],
        period: DisruptionPeriod { start: 1715956200, end: 1716012000 },
    }
}

#[test]
fn md5_of_empty_text() {
    assert_eq!(md5_hex_of(""), "d41d8cd98f00b204e9800998ecf8427e");
}

#[test]
fn hex_is_lower_case_and_padded() {
    assert_eq!(to_lower_hex(&[0x00, 0x0f, 0xab, 0xff]), "000fabff");
}

#[test]
fn fingerprint_of_sample() {
    // MD5 of "p:l:AH;BLr:Nord;Osti:Technische StörungOberleitungsstörungAusfallt:Zwischen A<br>und B"
    assert_eq!(format_hash(&sample()), "eaa8bf18443579f4fa684b8a0abb6269");
}

#[test]
fn same_disruption_has_no_changes() {
    assert_eq!(get_disruption_changes(Some(sample()), String::new(), &sample()), vec![]);
}

#[test]
fn each_part_is_detected() {
    let mut d = sample();
    d.subcause = None;
    assert_eq!(get_disruption_changes(Some(sample()), String::new(), &d), vec![DisruptionPart::Cause]);

    let mut d = sample();
    d.effects[0].product = vec![Product::LongDistance];
    assert_eq!(get_disruption_changes(Some(sample()), String::new(), &d), vec![DisruptionPart::Effects]);

    let mut d = sample();
    d.effects[0].effect = EffectKind::Unknown("Ausfall".to_string());
    assert_eq!(get_disruption_changes(Some(sample()), String::new(), &d), vec![DisruptionPart::Effects]);

    let mut d = sample();
    d.regions.pop();
    assert_eq!(get_disruption_changes(Some(sample()), String::new(), &d), vec![DisruptionPart::Locations]);

    let mut d = sample();
    d.stations[1].name = "Berlin Ost".to_string();
    assert_eq!(get_disruption_changes(Some(sample()), String::new(), &d), vec![DisruptionPart::Locations]);

    let mut d = sample();
    d.period.end += 60;
    assert_eq!(get_disruption_changes(Some(sample()), String::new(), &d), vec![DisruptionPart::Times]);

    let mut d = sample();
    d.text = "anders".to_string();
    d.cause = "anders".to_string();
    assert_eq!(
        get_disruption_changes(Some(sample()), String::new(), &d),
        vec![DisruptionPart::Cause, DisruptionPart::Text]
    );
}

#[test]
fn key_and_expiry_are_no_changes() {
    let mut d = sample();
    d.key = "other".to_string();
    d.expired = true;
    d.track_restriction = TrackRestriction::Slight;
    assert_eq!(get_disruption_changes(Some(sample()), String::new(), &d), vec![]);
}

#[test]
fn fingerprint_decides_without_stored_disruption() {
    let hash = format_hash(&sample());
    assert_eq!(get_disruption_changes(None, hash, &sample()), vec![]);
    assert_eq!(get_disruption_changes(None, "x".to_string(), &sample()), all_disruption_parts());
    assert_eq!(
        all_disruption_parts(),
        vec![
            DisruptionPart::Cause,
            DisruptionPart::Effects,
            DisruptionPart::Locations,
            DisruptionPart::Times,
            DisruptionPart::Text
        ]
    );
}

#[test]
fn fetched_disruption_that_is_new_changes_everything() {
    let (parts, updated) = get_fetched_changes(None, &sample());
    assert_eq!(parts, all_disruption_parts());
    assert!(!updated);
}

#[test]
fn fetched_disruption_against_stored_one() {
    let mut d = sample();
    d.text = "anders".to_string();
    assert_eq!(get_fetched_changes(Some(Some(sample())), &d), (vec![DisruptionPart::Text], true));
    assert_eq!(get_fetched_changes(Some(Some(sample())), &sample()), (vec![], true));
}

#[test]
fn fetched_disruption_with_empty_row_changes_everything() {
    assert_eq!(get_fetched_changes(Some(None), &sample()), (all_disruption_parts(), true));
}

#[test]
fn stored_rows_decide_the_old_fetch_action() {
    assert!(matches!(
        decide_fetched(None, &sample()),
        FetchAction::Publish { update: false, known_id: None, .. }
    ));
    let same = StoredDisruption { id: 7, hash: format_hash(&sample()), disruption: None };
    assert!(matches!(decide_fetched(Some(same), &sample()), FetchAction::StoreJson { id: 7 }));
    let stored = StoredDisruption { id: 8, hash: String::new(), disruption: Some(sample()) };
    assert!(matches!(decide_fetched(Some(stored), &sample()), FetchAction::Skip));
    let mut d = sample();
    d.cause = "Unfall".to_string();
    let stored = StoredDisruption { id: 9, hash: String::new(), disruption: Some(sample()) };
    match decide_fetched(Some(stored), &d) {
        FetchAction::Publish { changes, update, known_id } => {
            assert_eq!(changes, vec![DisruptionPart::Cause]);
            assert!(update);
            assert_eq!(known_id, Some(9));
        }
        _ => panic!("expected a publication"),
    }
}
