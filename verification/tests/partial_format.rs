use strecken_info_bot::datetime::UtcInstant;
use strecken_info_bot::model::{
    Disruption, DisruptionEffect, DisruptionPeriod, DisruptionStation, EffectKind, Product,
    TrackRestriction,
};
use strecken_info_bot::partial_format::{
    get_cause, get_location, get_prefix, get_prefix_at, get_product_effects, get_times,
    is_expired, is_expired_at,
};

fn station(name: &str, ril100: &str) -> DisruptionStation {
    DisruptionStation { name: name.to_string(), ril100: ril100.to_string() }
}

fn sample() -> Disruption {
    Disruption {
        key: "k1".to_string(),
        subcause: Some("Oberleitungsstörung".to_string()),
        cause: "Technische Störung".to_string(),
        expired: false,
        track_restriction: TrackRestriction::Severe,
        text: "Zwischen A<br>und B".to_string(),
        regions: vec!["Nord".to_string(), "Ost".to_string()],
        stations: vec![station("  Hamburg   Hbf ", "AH"), station("Berlin Hbf", "BL")],
        effects: vec![DisruptionEffect {
            effect: EffectKind::Cancel,
            product: vec![Product::LongDistance, Product::Local],
        }],
        // 2024-05-17 14:30 to 2024-05-18 06:00 (Berlin wall clock)
        period: DisruptionPeriod { start: 1715956200, end: 1716012000 },
    }
}

// 2024-05-18 06:00 in Berlin (summer time) is 04:00 UTC.
const END_UTC: i64 = 1716004800;

#[test]
fn location_normalizes_station_names() {
    assert_eq!(get_location(&sample(), None), "Hamburg Hbf (AH), Berlin Hbf (BL)");
}

#[test]
fn location_merges_repeated_stations() {
    let mut d = sample();
    d.stations = vec![station("Hamburg Hbf", "AH"), station("Hamburg  Hbf", "AH"), station("Berlin Hbf", "BL")];
    assert_eq!(get_location(&d, None), "Hamburg Hbf (AH), Berlin Hbf (BL)");
}

#[test]
fn location_beyond_limit_is_cut() {
    let mut d = sample();
    d.stations = vec![station("A", "A"), station("B", "B"), station("C", "C")];
    assert_eq!(get_location(&d, Some(2)), "A (A)...");
    assert_eq!(get_location(&d, Some(3)), "A (A), B (B), C (C)");
    assert_eq!(get_location(&d, Some(8)), "A (A), B (B), C (C)");
}

#[test]
fn location_falls_back_to_regions_then_unknown() {
    let mut d = sample();
    d.stations = vec![];
    assert_eq!(get_location(&d, Some(8)), "Nord, Ost");
    d.regions = vec![];
    assert_eq!(get_location(&d, None), "Unbekannt");
}

#[test]
fn cause_with_subcause() {
    assert_eq!(get_cause(&sample()), "Technische Störung - Oberleitungsstörung");
}

#[test]
fn cause_without_subcause() {
    let mut d = sample();
    d.subcause = None;
    assert_eq!(get_cause(&d), "Technische Störung");
}

#[test]
fn product_effects() {
    assert_eq!(get_product_effects(&sample()), "Ausfall (SPFV, SPNV)");
}

#[test]
fn product_effects_merge_repeats_and_name_unknown_effects() {
    let mut d = sample();
    d.effects = vec![
        DisruptionEffect { effect: EffectKind::Diversion, product: vec![Product::Freight] },
        DisruptionEffect { effect: EffectKind::Diversion, product: vec![Product::Freight] },
        DisruptionEffect { effect: EffectKind::Unknown("Neu".to_string()), product: vec![] },
    ];
    assert_eq!(get_product_effects(&d), "Umleitung (SGV), Neu ()");
}

#[test]
fn times_are_day_month_year() {
    assert_eq!(get_times(&sample()), "17.05.2024 14:30 bis 18.05.2024 06:00");
}

#[test]
fn expiry_follows_berlin_end() {
    let d = sample();
    assert!(!is_expired_at(&d, UtcInstant { secs: END_UTC, nanos: 0 }));
    assert!(is_expired_at(&d, UtcInstant { secs: END_UTC, nanos: 1 }));
    assert!(!is_expired_at(&d, UtcInstant { secs: END_UTC - 3600, nanos: 0 }));
    assert!(is_expired_at(&d, UtcInstant { secs: END_UTC + 60, nanos: 0 }));
}

#[test]
fn marked_expired_is_expired() {
    let mut d = sample();
    d.expired = true;
    assert!(is_expired_at(&d, UtcInstant { secs: 0, nanos: 0 }));
    assert!(is_expired(&d));
    assert_eq!(get_prefix(&d, false), "✅ Beendet:");
}

#[test]
fn past_disruption_is_expired_now() {
    assert!(is_expired(&sample()));
}

#[test]
fn prefixes() {
    let d = sample();
    let before = UtcInstant { secs: END_UTC - 10, nanos: 0 };
    let after = UtcInstant { secs: END_UTC + 10, nanos: 0 };
    assert_eq!(get_prefix_at(&d, false, before), "❌");
    assert_eq!(get_prefix_at(&d, true, before), "Update:");
    assert_eq!(get_prefix_at(&d, true, after), "✅ Beendet:");
    let mut slight = sample();
    slight.track_restriction = TrackRestriction::Slight;
    assert_eq!(get_prefix_at(&slight, false, before), "⚠️");
}
