use strecken_info_bot::filter::{Filter, StreckenInfoFilter};
use strecken_info_bot::filter_dialog::{
    behaviour_question, callback_action, dialog_step, filters_overview, parse_range,
    railway_hint, railway_letter, remove_button_data, remove_filters_of_type, CallbackAction,
    DialogInput, Expecting, AVAILABLE_RIL100_RAILWAY_MANAGEMENTS, REMOVE_FILTER_PREFIX,
};
use strecken_info_bot::text::remove_text;

#[test]
fn ranges_parse_like_u16() {
    for (text, expected) in [
        ("12", Some(12u16)),
        ("+12", Some(12)),
        ("0", Some(0)),
        ("007", Some(7)),
        ("65535", Some(65535)),
        ("65536", None),
        ("99999999999", None),
        ("", None),
        ("+", None),
        ("-1", None),
        ("1a", None),
        (" 1", None),
        ("++1", None),
    ] {
        assert_eq!(parse_range(text), expected, "{text}");
        assert_eq!(parse_range(text), text.parse::<u16>().ok(), "{text}");
    }
}

const DISTRICTS: [char; 3] = ['F', 'H', 'K'];

#[test]
fn district_letters() {
    assert_eq!(railway_letter("F", &DISTRICTS), Some('F'));
    assert_eq!(railway_letter("h", &DISTRICTS), Some('h'));
    assert_eq!(railway_letter("X", &DISTRICTS), None);
    assert_eq!(railway_letter("FF", &DISTRICTS), None);
    assert_eq!(railway_letter("", &DISTRICTS), None);
    assert_eq!(railway_letter("ä", &['Ä']), None);
}

#[test]
fn district_hint() {
    assert_eq!(
        railway_hint(&DISTRICTS),
        "Bitte schicke mir den ersten Buchstaben einer Bahndirektion. Zur Verfügung stehen: F, H, K"
    );
}

#[test]
fn behaviour_questions() {
    assert!(behaviour_question(true).ends_with("Aktuell ist eingestellt: Einer"));
    assert!(behaviour_question(false).ends_with("Aktuell ist eingestellt: Alle"));
}

#[test]
fn overview() {
    assert_eq!(filters_overview(&vec![]), "Du hast bisher keine Filter konfiguriert.");
    assert_eq!(
        filters_overview(&vec!["Strecken.Info: Nur Ausfälle".to_string(), "X".to_string()]),
        "Du hast folgende Filter konfiguriert:\n- Strecken.Info: Nur Ausfälle\n- X"
    );
}

#[test]
fn removing_filters_by_kind() {
    let canc = Filter::StreckenInfo(StreckenInfoFilter::OnlyCancellations);
    let m1 = Filter::StreckenInfo(StreckenInfoFilter::RailwayManagement { letter: 'F' });
    let m2 = Filter::StreckenInfo(StreckenInfoFilter::RailwayManagement { letter: 'K' });
    let kept = remove_filters_of_type(vec![m1, canc, m2], "Bahndirektion");
    assert_eq!(kept.len(), 1);
    assert_eq!(kept[0].get_type(), "Nur Ausfälle");
    assert_eq!(remove_filters_of_type(vec![m1, canc], "Standort").len(), 2);
}

#[test]
fn removing_text_takes_out_every_occurrence() {
    assert_eq!(remove_text("remove_filter_Standort", "remove_filter_"), "Standort");
    assert_eq!(remove_text("abcabca", "abc"), "a");
    assert_eq!(remove_text("aaaa", "aa"), "");
    assert_eq!(remove_text("aaa", "aa"), "a");
    assert_eq!(remove_text("xyz", ""), "xyz");
    assert_eq!(remove_text("", "abc"), "");
    assert_eq!(remove_text("Bahn", "Bahndirektion"), "Bahn");
}

#[test]
fn button_data_lead_to_their_actions() {
    assert!(matches!(callback_action("show_filter"), CallbackAction::ShowFilters));
    assert!(matches!(callback_action("add_filter"), CallbackAction::ChooseFilterKind));
    assert!(matches!(callback_action("remove_filter"), CallbackAction::ChooseFilterToRemove));
    assert!(matches!(callback_action("change_filter_behaviour"), CallbackAction::ChooseBehaviour));
    assert!(matches!(
        callback_action("change_filter_behaviour_all"),
        CallbackAction::SetBehaviour { one_filter_enough: false }
    ));
    assert!(matches!(
        callback_action("change_filter_behaviour_one"),
        CallbackAction::SetBehaviour { one_filter_enough: true }
    ));
    assert!(matches!(callback_action("location"), CallbackAction::ExpectLocation));
    assert!(matches!(callback_action("only_cancellations"), CallbackAction::AddOnlyCancellations));
    assert!(matches!(callback_action("railway_management"), CallbackAction::ExpectRailwayManagement));
    assert!(matches!(callback_action("something"), CallbackAction::Invalid));
    assert!(matches!(callback_action(""), CallbackAction::Invalid));
}

#[test]
fn remove_buttons_round_trip() {
    let filter = Filter::StreckenInfo(StreckenInfoFilter::OnlyCancellations);
    let data = remove_button_data(&filter);
    assert_eq!(data, format!("{REMOVE_FILTER_PREFIX}Nur Ausfälle"));
    match callback_action(&data) {
        CallbackAction::RemoveFiltersOfType(kind) => assert_eq!(kind, "Nur Ausfälle"),
        _ => panic!("expected a removal"),
    }
    match callback_action("remove_filter_Standremove_filter_ort") {
        CallbackAction::RemoveFiltersOfType(kind) => assert_eq!(kind, "Standort"),
        _ => panic!("expected a removal"),
    }
}

#[test]
fn location_dialog_creates_a_filter() {
    let lon = 8.68f64;
    let lat = 50.11f64;
    let first = dialog_step(
        Some(Expecting::Location),
        DialogInput::Location { lon_bits: lon.to_bits(), lat_bits: lat.to_bits() },
        &AVAILABLE_RIL100_RAILWAY_MANAGEMENTS,
    );
    assert!(first.new_filter.is_none());
    assert_eq!(
        first.reply.as_deref(),
        Some("In welchem Radius (in Kilometern) soll eine Störung um den Standort liegen?")
    );
    let wrong = dialog_step(
        first.expecting,
        DialogInput::Text("zehn".to_string()),
        &AVAILABLE_RIL100_RAILWAY_MANAGEMENTS,
    );
    assert!(matches!(wrong.expecting, Some(Expecting::LocationRange { .. })));
    assert!(wrong.new_filter.is_none());
    assert_eq!(wrong.reply.as_deref(), Some("Der Radius sollte schon eine Zahl sein."));
    let done = dialog_step(
        wrong.expecting,
        DialogInput::Text("25".to_string()),
        &AVAILABLE_RIL100_RAILWAY_MANAGEMENTS,
    );
    assert!(done.expecting.is_none());
    match done.new_filter {
        Some(Filter::StreckenInfo(StreckenInfoFilter::Location { x_bits, y_bits, range })) => {
            assert_eq!(f64::from_bits(x_bits), lon);
            assert_eq!(f64::from_bits(y_bits), lat);
            assert_eq!(range, 25);
        }
        _ => panic!("expected a location filter"),
    }
    assert_eq!(done.reply.as_deref(), Some("Der Filter wurde erfolgreich erstellt."));
}

#[test]
fn railway_dialog_checks_the_letter() {
    let wrong = dialog_step(
        Some(Expecting::RailwayManagement),
        DialogInput::Text("Q".to_string()),
        &AVAILABLE_RIL100_RAILWAY_MANAGEMENTS,
    );
    assert!(matches!(wrong.expecting, Some(Expecting::RailwayManagement)));
    assert_eq!(wrong.reply, Some(railway_hint(&AVAILABLE_RIL100_RAILWAY_MANAGEMENTS)));
    let done = dialog_step(
        Some(Expecting::RailwayManagement),
        DialogInput::Text("f".to_string()),
        &AVAILABLE_RIL100_RAILWAY_MANAGEMENTS,
    );
    assert!(done.expecting.is_none());
    assert!(matches!(
        done.new_filter,
        Some(Filter::StreckenInfo(StreckenInfoFilter::RailwayManagement { letter: 'f' }))
    ));
}

#[test]
fn messages_outside_the_dialog_change_nothing() {
    let step = dialog_step(None, DialogInput::Text("25".to_string()), &AVAILABLE_RIL100_RAILWAY_MANAGEMENTS);
    assert!(step.expecting.is_none() && step.new_filter.is_none() && step.reply.is_none());
    let step = dialog_step(Some(Expecting::Location), DialogInput::Other, &AVAILABLE_RIL100_RAILWAY_MANAGEMENTS);
    assert!(matches!(step.expecting, Some(Expecting::Location)));
    assert!(step.new_filter.is_none() && step.reply.is_none());
}
