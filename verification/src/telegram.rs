//! Telegram-side decisions: splitting long admin answers, the list of
//! registered chats, and which send errors mean a chat is gone.

use vstd::prelude::*;
use vstd::utf8::encode_utf8;
use crate::decimal::{decimal, i32_decimal, usize_decimal};
use crate::text::{chars_of, concat, split_chars, split_on};

verus! {

/// The most bytes Telegram accepts in one message.
pub const TELEGRAM_MAX_MESSAGE_SIZE: usize = 4096usize;

/// Bytes of `s` in UTF-8.
pub open spec fn utf8_len(s: Seq<char>) -> int {
    encode_utf8(s).len() as int
}

/// The messages sent so far and the message being filled, after the lines.
pub open spec fn chunk_state(lines: Seq<Seq<char>>) -> (Seq<Seq<char>>, Seq<char>)
    decreases lines.len(),
{
    if lines.len() == 0 {
        (Seq::<Seq<char>>::empty(), Seq::<char>::empty())
    } else {
        let (sent, msg) = chunk_state(lines.drop_last());
        let line = lines.last();
        if utf8_len(msg) + utf8_len(line) + 1 >= TELEGRAM_MAX_MESSAGE_SIZE {
            (sent.push(msg), line.push('\n'))
        } else {
            (sent, msg + line.push('\n'))
        }
    }
}

/// The messages for a long text: lines (each with its line break) gathered
/// into a message as long as it stays under the limit; a message is sent when
/// the next line would reach it; the rest goes last unless empty.
pub open spec fn telegram_chunks(text: Seq<char>) -> Seq<Seq<char>> {
    let (sent, msg) = chunk_state(split_on(text, '\n'));
    if msg.len() > 0 {
        sent.push(msg)
    } else {
        sent
    }
}

/// Splits a long answer into Telegram messages.
pub fn split_into_messages(text: &str) -> (msgs: Vec<String>)
    ensures
        msgs.deep_view() == telegram_chunks(text@),
{
    let lines = split_chars(&chars_of(text), '\n');
    let ghost all = lines.deep_view();
    let mut sent: Vec<String> = Vec::new();
    let mut msg = String::new();
    let mut i: usize = 0;
    while i < lines.len()
        invariant
            all == lines.deep_view(),
            i <= lines@.len(),
            chunk_state(all.take(i as int)) == (sent.deep_view(), msg@),
        decreases lines@.len() - i,
    {
        assert(all.take(i + 1).drop_last() == all.take(i as int));
        assert(all.take(i + 1).last() == lines@[i as int]@);
        let line = &lines[i];
        let ghost old_msg = msg@;
        let ghost old_sent = sent.deep_view();
        let msg_len = msg.as_str().as_bytes().len();
        let line_len = line.as_str().as_bytes().len();
        assert(msg_len == utf8_len(msg@));
        assert(line_len == utf8_len(line@));
        let full = (msg_len as u128) + (line_len as u128) + 1 >= (TELEGRAM_MAX_MESSAGE_SIZE as u128);
        if full {
            sent.push(msg);
            assert(sent.deep_view() == old_sent.push(old_msg));
            msg = String::new();
        }
        msg.append(line.as_str());
        crate::text::push_char(&mut msg, '\n');
        proof {
            if full {
                assert(msg@ == line@.push('\n'));
            } else {
                assert(msg@ == old_msg + line@.push('\n'));
            }
        }
        i = i + 1;
    }
    assert(all.take(i as int) == all);
    if !msg.as_str().is_empty() {
        let ghost old_sent = sent.deep_view();
        sent.push(msg);
        assert(sent.deep_view() == old_sent.push(msg@));
    }
    sent
}

/// A chat as Telegram describes it, as far as the user list shows it.
pub enum ChatInfo {
    Private { first_name: Option<String>, last_name: Option<String>, username: Option<String> },
    Group { title: String },
    SuperGroup { title: String, username: Option<String> },
    Channel { title: String, username: Option<String> },
}

/// Mathematical view of a [`ChatInfo`].
pub enum ChatInfoView {
    Private {
        first_name: Option<Seq<char>>,
        last_name: Option<Seq<char>>,
        username: Option<Seq<char>>,
    },
    Group { title: Seq<char> },
    SuperGroup { title: Seq<char>, username: Option<Seq<char>> },
    Channel { title: Seq<char>, username: Option<Seq<char>> },
}

impl View for ChatInfo {
    type V = ChatInfoView;

    open spec fn view(&self) -> ChatInfoView {
        match self {
            ChatInfo::Private { first_name, last_name, username } => ChatInfoView::Private {
                first_name: first_name.deep_view(),
                last_name: last_name.deep_view(),
                username: username.deep_view(),
            },
            ChatInfo::Group { title } => ChatInfoView::Group { title: title@ },
            ChatInfo::SuperGroup { title, username } => ChatInfoView::SuperGroup {
                title: title@,
                username: username.deep_view(),
            },
            ChatInfo::Channel { title, username } => ChatInfoView::Channel {
                title: title@,
                username: username.deep_view(),
            },
        }
    }
}

/// `o`'s text, or nothing.
pub open spec fn or_empty(o: Option<Seq<char>>) -> Seq<char> {
    match o {
        Some(s) => s,
        None => Seq::<char>::empty(),
    }
}

/// How a chat is described: a person by first name, last name and
/// `(username)`, blank-separated where present; a group, supergroup or
/// channel by kind and title (and `by username`).
pub open spec fn chat_text(c: ChatInfoView) -> Seq<char> {
    match c {
        ChatInfoView::Private { first_name, last_name, username } => {
            let has_first = first_name is Some;
            let after_last = has_first || last_name is Some;
            or_empty(first_name) + (if has_first && last_name is Some {
                " "@
            } else {
                Seq::<char>::empty()
            }) + or_empty(last_name) + match username {
                Some(u) => (if after_last {
                    " "@
                } else {
                    Seq::<char>::empty()
                }) + "("@ + u + ")"@,
                None => Seq::<char>::empty(),
            }
        },
        ChatInfoView::Group { title } => "Group "@ + title,
        ChatInfoView::SuperGroup { title, username } => "SuperGroup "@ + title + match username {
            Some(u) => "by "@ + u,
            None => Seq::<char>::empty(),
        },
        ChatInfoView::Channel { title, username } => "Channel "@ + title + match username {
            Some(u) => "by "@ + u,
            None => Seq::<char>::empty(),
        },
    }
}

fn append_by_username(s: &mut String, username: &Option<String>)
    ensures
        final(s)@ == old(s)@ + match username.deep_view() {
            Some(u) => "by "@ + u,
            None => Seq::<char>::empty(),
        },
{
    match username {
        Some(u) => {
            s.append("by ");
            s.append(u.as_str());
        },
        None => {},
    }
}

/// The description of a chat in the user list.
pub fn chat_description(chat: &ChatInfo) -> (s: String)
    ensures
        s@ == chat_text(chat@),
{
    match chat {
        ChatInfo::Private { first_name, last_name, username } => {
            let mut s = String::new();
            let mut has_firstname = false;
            match first_name {
                Some(f) => {
                    has_firstname = true;
                    s.append(f.as_str());
                },
                None => {},
            }
            let ghost after_first = s@;
            match last_name {
                Some(l) => {
                    if has_firstname {
                        s.append(" ");
                    } else {
                        has_firstname = true;
                    }
                    s.append(l.as_str());
                },
                None => {},
            }
            match username {
                Some(u) => {
                    if has_firstname {
                        s.append(" ");
                    }
                    s.append("(");
                    s.append(u.as_str());
                    s.append(")");
                },
                None => {},
            }
            s
        },
        ChatInfo::Group { title } => concat("Group ", title.as_str()),
        ChatInfo::SuperGroup { title, username } => {
            let mut s = concat("SuperGroup ", title.as_str());
            append_by_username(&mut s, username);
            s
        },
        ChatInfo::Channel { title, username } => {
            let mut s = concat("Channel ", title.as_str());
            append_by_username(&mut s, username);
            s
        },
    }
}

/// The user list: the number of chats, then for each `id: description`.
pub open spec fn user_list_text(rows: Seq<(i32, ChatInfoView)>) -> Seq<char>
    decreases rows.len(),
{
    if rows.len() == 0 {
        Seq::<char>::empty()
    } else {
        user_list_text(rows.drop_last()) + "\n"@ + decimal(rows.last().0 as int) + ": "@ + chat_text(
            rows.last().1,
        )
    }
}

/// The views of the rows.
pub open spec fn rows_view(rows: Seq<(i32, ChatInfo)>) -> Seq<(i32, ChatInfoView)> {
    Seq::new(rows.len(), |i: int| (rows[i].0, rows[i].1@))
}

/// The list of registered chats sent to the admin: a count line, then one
/// line per chat (`id: description`), in the order given.
pub fn format_user_list(rows: &Vec<(i32, ChatInfo)>) -> (s: String)
    ensures
        s@ == decimal(rows@.len() as int) + " chats are registered:\n"@ + user_list_text(
            rows_view(rows@),
        ),
{
    let mut s = usize_decimal(rows.len());
    s.append(" chats are registered:\n");
    let ghost head = s@;
    let ghost all = rows_view(rows@);
    let mut i: usize = 0;
    while i < rows.len()
        invariant
            all == rows_view(rows@),
            i <= rows@.len(),
            s@ == head + user_list_text(all.take(i as int)),
        decreases rows@.len() - i,
    {
        assert(all.take(i + 1).drop_last() == all.take(i as int));
        let (id, chat) = &rows[i];
        s.append("\n");
        let id_text = i32_decimal(*id);
        s.append(id_text.as_str());
        s.append(": ");
        let description = chat_description(chat);
        s.append(description.as_str());
        i = i + 1;
    }
    assert(all.take(rows@.len() as int) == all);
    s
}

/// Telegram's answers that mean the chat can no longer be written to.
pub open spec fn is_gone_response(response: Seq<char>) -> bool {
    ||| response == "Forbidden: bot was blocked by the user"@
    ||| response == "Forbidden: user is deactivated"@
    ||| response == "Forbidden: bot was kicked from the supergroup chat"@
}

/// Whether Telegram's answer to a message means the chat is gone (and the
/// subscription is dropped).
pub fn chat_is_gone(api_response: &String) -> (b: bool)
    ensures
        b == is_gone_response(api_response@),
{
    *api_response == "Forbidden: bot was blocked by the user".to_string() || *api_response
        == "Forbidden: user is deactivated".to_string() || *api_response
        == "Forbidden: bot was kicked from the supergroup chat".to_string()
}

/// The admin asks for the user list: the sender is the admin and the text is
/// exactly `/list_users`.
pub open spec fn is_list_users_request_spec(admin_user_id: i64, sender_id: Option<i64>, text: Seq<char>) -> bool {
    sender_id == Some(admin_user_id) && text == "/list_users"@
}

/// Whether a text message is the admin's request for the user list.
pub fn is_list_users_request(admin_user_id: i64, sender_id: Option<i64>, text: &String) -> (b: bool)
    ensures
        b == is_list_users_request_spec(admin_user_id, sender_id, text@),
{
    match sender_id {
        Some(id) => id == admin_user_id && *text == "/list_users".to_string(),
        None => false,
    }
}

} // verus!
