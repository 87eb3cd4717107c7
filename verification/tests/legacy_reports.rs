use strecken_info_bot::datetime::UtcInstant;
use strecken_info_bot::legacy::{
    disruption_to_string, disruption_to_string_at, hash_disruption, try_disruption_to_string,
    toggle_planned, LegacyDisruption, LegacyEvent, LegacyImpact, LegacyLocation, UserFilter,
};
use strecken_info_bot::model::Product;
use strecken_info_bot::user::User;

fn report() -> LegacyDisruption {
    LegacyDisruption {
        planned: true,
        locations: vec![
            LegacyLocation { from: "Köln Hbf".to_string(), to: Some("Bonn".to_string()) },
            LegacyLocation { from: "Düsseldorf".to_string(), to: None },
        ],
        regions: vec!["West".to_string()],
        impact: Some(vec![
            LegacyImpact { impact: "Ausfall".to_string(), product: Product::Local },
            LegacyImpact { impact: "Ausfall".to_string(), product: Product::Local },
        ]),
        events: vec![LegacyEvent { start_time: 1715956200, end_time: 1716012000 }],
        head: "Bauarbeiten".to_string(),
        text: Some("Text".to_string()),
        end: 1716012000,
    }
}

#[test]
fn report_fingerprint() {
    // MD5 of "p:1l:Köln HbfBonn;Düsseldorfr:Westi:Ausfall;Ausfalle:2024-05-17 14:30:00-2024-05-18 06:00:00h:Bauarbeitent:Text"
    assert_eq!(hash_disruption(&report()), "274d8530d4ed520f3fa25498b09d694f");
}

#[test]
fn report_message_before_end() {
    let now = UtcInstant { secs: 1716000000, nanos: 0 };
    assert_eq!(
        disruption_to_string_at(&report(), true, now),
        "Update: <i><u>Ort: Köln Hbf - Bonn, Düsseldorf</u></i>\n<b>Ausfall (SPNV)\nBauarbeiten (Geplant)</b>\n\n17.05.2024 14:30 bis vsl. 18.05.2024 06:00\n\nText"
    );
}

#[test]
fn report_message_after_end() {
    let now = UtcInstant { secs: 1716010000, nanos: 0 };
    let mut r = report();
    r.planned = false;
    r.impact = None;
    r.locations = vec![];
    r.text = None;
    assert_eq!(
        disruption_to_string_at(&r, true, now),
        "Beendet: <i><u>Ort: West</u></i>\n<b>Bauarbeiten</b>\n\n17.05.2024 14:30 bis 18.05.2024 06:00\n\n"
    );
    assert_eq!(
        disruption_to_string_at(&r, false, now),
        "<i><u>Ort: West</u></i>\n<b>Bauarbeiten</b>\n\n17.05.2024 14:30 bis 18.05.2024 06:00\n\n"
    );
    assert!(disruption_to_string(&r, true).starts_with("Beendet: "));
}

#[test]
fn report_in_berlin_clock_gap_is_refused() {
    let mut r = report();
    r.end = 1711852200;
    assert!(try_disruption_to_string(&r, false).is_none());
    assert!(try_disruption_to_string(&report(), false).is_some());
}

#[test]
fn planned_works_only_for_those_who_want_them() {
    let user = |show: bool| User {
        chat_id: 1,
        trigger_warnings: vec![],
        filters: vec![],
        one_filter_enough: false,
        show_planned_disruptions: show,
    };
    let planned = report();
    let mut unplanned = report();
    unplanned.planned = false;
    assert!(!UserFilter::Planned.filter(&planned, &user(false)));
    assert!(UserFilter::Planned.filter(&planned, &user(true)));
    assert!(UserFilter::Planned.filter(&unplanned, &user(false)));
    assert!(!UserFilter::filters(&[UserFilter::Planned], &planned, &user(false)));
    assert!(UserFilter::filters(&[], &planned, &user(false)));
}

#[test]
fn planned_command_switches_the_setting() {
    let (enabled, answer) = toggle_planned(false);
    assert!(enabled);
    assert_eq!(
        answer,
        "You will now receive planned disruption updates - run /planned to disable these updates"
    );
    let (enabled, answer) = toggle_planned(enabled);
    assert!(!enabled);
    assert_eq!(
        answer,
        "You will no longer receive planned disruption updates - run /planned to reactive them"
    );
}
