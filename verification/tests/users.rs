use strecken_info_bot::trigger_warnings::{apply_tw_command, tw_help, TwReply};
use strecken_info_bot::data::strecken_info_type_name;
use strecken_info_bot::user::{first_trigger_word, User};

fn user(tws: &[&str]) -> User {
    User {
        chat_id: 42,
        trigger_warnings: tws.iter().map(|s| s.to_string()).collect(),
        filters: vec![],
        one_filter_enough: false,
        show_planned_disruptions: true,
    }
}

#[test]
fn trigger_warnings_ignore_case() {
    let u = user(&["Personenunfall", "Polizei"]);
    assert_eq!(u.is_trigger("Wegen eines PERSONENUNFALLS"), Some("Personenunfall".to_string()));
    assert_eq!(u.is_trigger("Polizeieinsatz und Personenunfall"), Some("Personenunfall".to_string()));
    assert_eq!(u.is_trigger("Bauarbeiten"), None);
    assert_eq!(user(&[]).is_trigger("egal"), None);
    assert_eq!(user(&[""]).is_trigger("egal"), Some(String::new()));
}

#[test]
fn triggered_messages_become_spoilers() {
    let u = user(&["Unfall"]);
    assert_eq!(
        u.message_for("<b>Unfall</b>"),
        "TW: Unfall\n<span class=\"tg-spoiler\"><b>Unfall</b></span>"
    );
    assert_eq!(u.message_for("Bauarbeiten"), "Bauarbeiten");
}

fn words(v: &[&str]) -> Vec<String> {
    v.iter().map(|s| s.to_string()).collect()
}

#[test]
fn tw_add_remove_clear() {
    let o = apply_tw_command(words(&["a"]), "/tw add Polizei Einsatz");
    assert!(matches!(&o.reply, TwReply::Added(w) if w == "Polizei Einsatz"));
    assert_eq!(o.trigger_warnings, words(&["a", "Polizei Einsatz"]));
    assert!(o.store);
    assert_eq!(o.reply.text(), Some("I added 'Polizei Einsatz' to your trigger warnings.".to_string()));

    let o = apply_tw_command(words(&["Unfall", "unfall", "Feuer"]), "/tw REMOVE UNFALL");
    assert!(matches!(&o.reply, TwReply::Removed(w) if w == "unfall"));
    assert_eq!(o.trigger_warnings, words(&["Feuer"]));
    assert_eq!(o.reply.text(), Some("I removed 'unfall' from your trigger warnings.".to_string()));

    let o = apply_tw_command(words(&["x", "y"]), "/tw clear");
    assert!(matches!(o.reply, TwReply::Cleared));
    assert!(o.trigger_warnings.is_empty());
    assert_eq!(o.reply.text(), Some("I removed all words from your trigger warnings.".to_string()));
}

#[test]
fn tw_help_cases() {
    let o = apply_tw_command(words(&["x"]), "/tw");
    assert!(matches!(o.reply, TwReply::Help));
    assert!(!o.store);
    assert_eq!(o.trigger_warnings, words(&["x"]));
    for text in ["/tw help", "/tw add", "/tw remove", "/tw foo bar", "/tw "] {
        let o = apply_tw_command(words(&["x"]), text);
        assert!(matches!(o.reply, TwReply::Help), "{text}");
        assert!(o.store);
        assert_eq!(o.trigger_warnings, words(&["x"]));
        assert_eq!(o.reply.text(), None);
    }
    // blanks are separators, so a double blank leaves an empty second word
    let o = apply_tw_command(words(&[]), "/tw  add x");
    assert!(matches!(o.reply, TwReply::Help));
    // everything after the subcommand is the word, blanks included
    let o = apply_tw_command(words(&[]), "/tw add  x");
    assert!(matches!(&o.reply, TwReply::Added(w) if w == " x"));
}

#[test]
fn tw_help_lists_words() {
    let s = tw_help(&words(&["Unfall", "Feuer"]));
    assert!(s.starts_with("Füge ein Wort zu den Trigger Warnings mit /tw add WORT hinzu.\n"));
    assert!(s.contains("Diese Trigger Warnings hast du bereits konfiguriert: Unfall, Feuer.\n"));
    assert!(s.ends_with("werden dir als Spoiler geschickt."));
}

#[test]
fn first_trigger_word_ignores_case_and_keeps_the_order() {
    let tws = vec!["Unfall".to_string(), "person".to_string()];
    assert_eq!(
        first_trigger_word(&tws, "Personenunfall bei Köln"),
        Some("Unfall".to_string())
    );
    assert_eq!(first_trigger_word(&tws, "PERSON im Gleis"), Some("person".to_string()));
    assert_eq!(first_trigger_word(&tws, "Signalstörung"), None);
    assert_eq!(first_trigger_word(&vec![], "Unfall"), None);
}

#[test]
fn data_source_name() {
    assert_eq!(strecken_info_type_name(), "strecken_info");
}
