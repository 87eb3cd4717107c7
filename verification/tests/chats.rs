use strecken_info_bot::cli::is_confirmation;
use strecken_info_bot::decimal::{digits_of, i32_decimal, usize_decimal};
use strecken_info_bot::mastodon::{limit_message, spoiler_for};
use strecken_info_bot::telegram::{
    chat_description, chat_is_gone, format_user_list, is_list_users_request, split_into_messages,
    ChatInfo, TELEGRAM_MAX_MESSAGE_SIZE,
};

#[test]
fn decimals() {
    assert_eq!(digits_of(0), "0");
    assert_eq!(digits_of(1234567890), "1234567890");
    assert_eq!(usize_decimal(42), "42");
    assert_eq!(i32_decimal(-7), "-7");
    assert_eq!(i32_decimal(i32::MIN), "-2147483648");
    assert_eq!(i32_decimal(i32::MAX), "2147483647");
}

#[test]
fn short_statuses_stay() {
    assert_eq!(limit_message("Hallo".to_string(), 5), "Hallo");
    assert_eq!(limit_message(String::new(), 0), "");
}

#[test]
fn long_statuses_are_cut_by_characters() {
    assert_eq!(limit_message("Hallo Welt".to_string(), 8), "Hall...");
    assert_eq!(limit_message("äöüßäöüß".to_string(), 6), "äö...");
    assert_eq!(limit_message("abcde".to_string(), 4), "...");
}

#[test]
fn spoilers() {
    assert_eq!(spoiler_for(Some("Unfall".to_string())), Some("TW: Unfall".to_string()));
    assert_eq!(spoiler_for(None), None);
}

#[test]
fn short_answer_is_one_message() {
    assert_eq!(split_into_messages("a\nb"), vec!["a\nb\n".to_string()]);
    assert_eq!(split_into_messages(""), vec!["\n".to_string()]);
}

#[test]
fn long_answer_is_split_below_the_limit() {
    let line = "x".repeat(2000);
    let text = format!("{line}\n{line}\n{line}");
    let msgs = split_into_messages(&text);
    assert_eq!(msgs.len(), 2);
    assert_eq!(msgs[0], format!("{line}\n{line}\n"));
    assert_eq!(msgs[1], format!("{line}\n"));
    assert_eq!(msgs.concat(), format!("{text}\n"));
    assert!(msgs.iter().all(|m| m.len() < 4096));
}

#[test]
fn limit_counts_bytes() {
    // 'ä' takes two bytes
    let line = "ä".repeat(1500);
    let text = format!("{line}\n{line}");
    let msgs = split_into_messages(&text);
    assert_eq!(msgs.len(), 2);
    assert_eq!(msgs.concat(), format!("{text}\n"));
}

#[test]
fn overlong_first_line_sends_an_empty_message_first() {
    let line = "y".repeat(5000);
    let msgs = split_into_messages(&line);
    assert_eq!(msgs, vec![String::new(), format!("{line}\n")]);
}

#[test]
fn chat_descriptions() {
    let p = |f: Option<&str>, l: Option<&str>, u: Option<&str>| ChatInfo::Private {
        first_name: f.map(|s| s.to_string()),
        last_name: l.map(|s| s.to_string()),
        username: u.map(|s| s.to_string()),
    };
    assert_eq!(chat_description(&p(Some("Ada"), Some("L"), Some("ada"))), "Ada L (ada)");
    assert_eq!(chat_description(&p(None, Some("L"), Some("ada"))), "L (ada)");
    assert_eq!(chat_description(&p(None, None, Some("ada"))), "(ada)");
    assert_eq!(chat_description(&p(Some("Ada"), None, None)), "Ada");
    assert_eq!(chat_description(&ChatInfo::Group { title: "G".to_string() }), "Group G");
    assert_eq!(
        chat_description(&ChatInfo::SuperGroup { title: "S".to_string(), username: Some("s".to_string()) }),
        "SuperGroup Sby s"
    );
    assert_eq!(chat_description(&ChatInfo::Channel { title: "C".to_string(), username: None }), "Channel C");
}

#[test]
fn user_list() {
    let rows = vec![
        (1, ChatInfo::Group { title: "G".to_string() }),
        (-5, ChatInfo::Channel { title: "C".to_string(), username: Some("c".to_string()) }),
    ];
    assert_eq!(format_user_list(&rows), "2 chats are registered:\n\n1: Group G\n-5: Channel Cby c");
    assert_eq!(format_user_list(&vec![]), "0 chats are registered:\n");
}

#[test]
fn gone_chats() {
    assert!(chat_is_gone(&"Forbidden: bot was blocked by the user".to_string()));
    assert!(chat_is_gone(&"Forbidden: user is deactivated".to_string()));
    assert!(chat_is_gone(&"Forbidden: bot was kicked from the supergroup chat".to_string()));
    assert!(!chat_is_gone(&"Bad Request: chat not found".to_string()));
}

#[test]
fn admin_list_request() {
    assert!(is_list_users_request(7, Some(7), &"/list_users".to_string()));
    assert!(!is_list_users_request(7, Some(8), &"/list_users".to_string()));
    assert!(!is_list_users_request(7, None, &"/list_users".to_string()));
    assert!(!is_list_users_request(7, Some(7), &"/list_users ".to_string()));
}

#[test]
fn confirmations() {
    assert!(is_confirmation(&"y\n".to_string()));
    assert!(!is_confirmation(&"y".to_string()));
    assert!(!is_confirmation(&"Y\n".to_string()));
    assert!(!is_confirmation(&"yes\n".to_string()));
}

#[test]
fn chunks_stay_under_the_limit() {
    let line = "ö".repeat(1000);
    let text = vec![line.as_str(); 9].join("\n");
    let messages = split_into_messages(&text);
    assert_eq!(messages.len(), 5);
    for message in &messages {
        assert!(!message.is_empty());
        assert!(message.len() < TELEGRAM_MAX_MESSAGE_SIZE);
    }
    assert_eq!(messages.concat(), format!("{text}\n"));
}
