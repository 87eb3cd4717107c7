use strecken_info_bot::data::{
    decide_fetched, DataDisruptionInformation, FetchAction, StoredDisruption,
    StreckenInfoDisruption,
};
use strecken_info_bot::datetime::UtcInstant;
use strecken_info_bot::format::{html, mastodon, text};
use strecken_info_bot::filter::StreckenInfoFilter;
use strecken_info_bot::markup::format_text;
use strecken_info_bot::partial_format::get_prefix_at;
use strecken_info_bot::model::{
    ComponentType, Disruption, DisruptionEffect, DisruptionPart, DisruptionPeriod,
    DisruptionStation, EffectKind, Product, TrackRestriction,
};

fn sample() -> Disruption {
    Disruption {
        key: "k1".to_string(),
        subcause: Some("Weiche".to_string()),
        cause: "Reparatur".to_string(),
        expired: false,
        track_restriction: TrackRestriction::Slight,
        text: "A & B<br/>C".to_string(),
        regions: vec![],
        stations: vec![DisruptionStation { name: "Köln Hbf".to_string(), ril100: "KK".to_string() }],
        effects: vec![DisruptionEffect { effect: EffectKind::PartialCancel, product: vec![Product::Local] }],
        period: DisruptionPeriod { start: 1715956200, end: 1716012000 },
    }
}

const BEFORE_END: UtcInstant = UtcInstant { secs: 1716000000, nanos: 0 };
const AFTER_END: UtcInstant = UtcInstant { secs: 1716010000, nanos: 0 };

#[test]
fn br_tags_become_line_breaks() {
    assert_eq!(format_text("a<br>b<br/>c<br />d<br   />e"), "a\nb\nc\nd\ne");
    assert_eq!(format_text("a<br x>b<BR>c<br/ >"), "a<br x>b<BR>c<br/ >");
    assert_eq!(format_text("<<br>>"), "<\n>");
    assert_eq!(format_text(""), "");
}

#[test]
fn text_message_shows_changed_parts() {
    let changes = vec![DisruptionPart::Effects, DisruptionPart::Text];
    assert_eq!(
        text::format_at(&sample(), &changes, false, BEFORE_END),
        "⚠️ Köln Hbf (KK)\nReparatur - Weiche\nTeilausfall (SPNV)\nA & B\nC\n"
    );
    assert_eq!(
        text::format_at(&sample(), &[DisruptionPart::Times], true, AFTER_END),
        "✅ Beendet: Köln Hbf (KK)\nReparatur - Weiche\n17.05.2024 14:30 bis 18.05.2024 06:00\n"
    );
}

#[test]
fn mastodon_message_shows_only_changed_parts() {
    assert_eq!(
        mastodon::format_at(&sample(), &[DisruptionPart::Locations, DisruptionPart::Cause], true, BEFORE_END),
        "Update: Köln Hbf (KK)\nReparatur - Weiche\n"
    );
    assert_eq!(mastodon::format_at(&sample(), &[], false, BEFORE_END), "⚠️ ");
}

#[test]
fn telegram_message_is_escaped_html() {
    assert_eq!(
        html::format_at(&sample(), false, BEFORE_END),
        "⚠️ <i><u>Ort: Köln Hbf (KK)</u></i>\n<b>Reparatur - Weiche\nTeilausfall (SPNV)</b>\n\n17.05.2024 14:30 bis 18.05.2024 06:00\n\nA &amp; B\nC"
    );
}

#[test]
fn past_disruption_formats_as_ended_now() {
    let s = html::format(&sample(), true);
    assert!(s.starts_with("✅ Beendet: "));
    let t = text::format(&sample(), &[], true);
    assert!(t.starts_with("✅ Beendet: "));
    let m = mastodon::format(&sample(), &[], false);
    assert_eq!(m, "✅ Beendet: ");
}

fn info(d: Disruption, changes: Vec<DisruptionPart>) -> StreckenInfoDisruption {
    StreckenInfoDisruption { disruption: d, changes }
}

#[test]
fn data_source_and_trigger_text() {
    let sd = info(sample(), vec![]);
    assert_eq!(sd.get_type(), "strecken_info");
    assert_eq!(sd.format_tws(), "Reparatur Weiche A & B<br/>C");
    let mut d = sample();
    d.subcause = None;
    assert_eq!(info(d, vec![]).format_tws(), "Reparatur  A & B<br/>C");
}

#[test]
fn channel_formats() {
    let sd = info(sample(), vec![DisruptionPart::Cause]);
    assert!(sd.format(ComponentType::Telegram, false).contains("<i><u>Ort: Köln Hbf (KK)</u></i>"));
    assert_eq!(sd.format(ComponentType::Mastodon, false), "✅ Beendet: Köln Hbf (KK)\nReparatur - Weiche\n");
    let info = DataDisruptionInformation { id: 3, disruption: sd, updated: true };
    assert!(info.format(ComponentType::Telegram).starts_with("✅ Beendet: "));
}

#[test]
fn try_format_refuses_skipped_berlin_times() {
    let mut d = sample();
    // 2024-03-31 02:30 does not exist in Berlin (clocks jump from 02:00 to 03:00).
    d.period.end = 1711852200;
    assert!(info(d, vec![]).try_format(ComponentType::Telegram, false).is_none());
    let mut e = sample();
    e.period.end = 1711852200;
    e.expired = true;
    assert!(info(e, vec![]).try_format(ComponentType::Mastodon, false).is_some());
    let mut f = sample();
    f.period.start = i64::MIN;
    assert!(info(f, vec![]).try_format(ComponentType::Mastodon, false).is_none());
    assert!(info(sample(), vec![]).try_format(ComponentType::Telegram, false).is_some());
}

#[test]
fn new_disruption_is_published_with_all_parts() {
    match decide_fetched(None, &sample()) {
        FetchAction::Publish { changes, update, known_id } => {
            assert_eq!(changes.len(), 5);
            assert!(!update);
            assert_eq!(known_id, None);
        },
        _ => panic!("expected a publication"),
    }
}

#[test]
fn stored_disruption_decisions() {
    let same = StoredDisruption { id: 7, hash: String::new(), disruption: Some(sample()) };
    assert!(matches!(decide_fetched(Some(same), &sample()), FetchAction::Skip));

    let mut changed = sample();
    changed.text = "neu".to_string();
    let stored = StoredDisruption { id: 7, hash: String::new(), disruption: Some(sample()) };
    match decide_fetched(Some(stored), &changed) {
        FetchAction::Publish { changes, update, known_id } => {
            assert_eq!(changes, vec![DisruptionPart::Text]);
            assert!(update);
            assert_eq!(known_id, Some(7));
        },
        _ => panic!("expected a publication"),
    }

    let hash = strecken_info_bot::change::format_hash(&sample());
    let only_hash = StoredDisruption { id: 9, hash, disruption: None };
    assert!(matches!(decide_fetched(Some(only_hash), &sample()), FetchAction::StoreJson { id: 9 }));

    let stale = StoredDisruption { id: 9, hash: "0".repeat(32), disruption: None };
    assert!(matches!(decide_fetched(Some(stale), &sample()), FetchAction::Publish { update: true, .. }));
}

#[test]
fn only_cancellations_get_the_cancellation_mark() {
    let only = StreckenInfoFilter::OnlyCancellations;
    let mut severe = sample();
    severe.track_restriction = TrackRestriction::Severe;
    assert!(only.filter(&severe, false));
    assert_eq!(get_prefix_at(&severe, false, BEFORE_END), "❌");
    let slight = sample();
    assert!(!only.filter(&slight, false));
    assert_eq!(get_prefix_at(&slight, false, BEFORE_END), "⚠️");
}
