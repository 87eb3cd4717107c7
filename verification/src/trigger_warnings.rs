//! The `/tw` chat command: how a message edits a user's trigger warnings, and
//! the replies it gets.

use vstd::prelude::*;
use crate::text::{chars_of, concat, equals_text, join, join_strings, lowercase, split_chars, split_on, to_lowercase};

verus! {

/// What the bot answers to a `/tw` command.
pub enum TwReply {
    /// The explanation of the command.
    Help,
    /// The word that was added.
    Added(String),
    /// The word (in lower case) whose entries were removed.
    Removed(String),
    /// All entries were removed.
    Cleared,
}

/// Mathematical view of a [`TwReply`].
pub enum TwReplyView {
    Help,
    Added(Seq<char>),
    Removed(Seq<char>),
    Cleared,
}

impl View for TwReply {
    type V = TwReplyView;

    open spec fn view(&self) -> TwReplyView {
        match self {
            TwReply::Help => TwReplyView::Help,
            TwReply::Added(w) => TwReplyView::Added(w@),
            TwReply::Removed(w) => TwReplyView::Removed(w@),
            TwReply::Cleared => TwReplyView::Cleared,
        }
    }
}

/// The outcome of a `/tw` command: the reply, the new trigger warnings, and
/// whether they are written back.
pub struct TwOutcome {
    pub reply: TwReply,
    pub trigger_warnings: Vec<String>,
    pub store: bool,
}

/// `tws` without the entries that are `word` when written in lower case.
pub open spec fn without_word(tws: Seq<Seq<char>>, word: Seq<char>) -> Seq<Seq<char>>
    decreases tws.len(),
{
    if tws.len() == 0 {
        tws
    } else if lowercase(tws.last()) == word {
        without_word(tws.drop_last(), word)
    } else {
        without_word(tws.drop_last(), word).push(tws.last())
    }
}

/// The reply to the message `text` (words split at single blanks), given the
/// trigger warnings `tws`.
pub open spec fn tw_reply(tws: Seq<Seq<char>>, text: Seq<char>) -> TwReplyView {
    let args = split_on(text, ' ');
    if args.len() == 1 {
        TwReplyView::Help
    } else {
        let sub = lowercase(args[1]);
        if sub == "add"@ && args.len() >= 3 {
            TwReplyView::Added(join(args.skip(2), " "@))
        } else if sub == "remove"@ && args.len() >= 3 {
            TwReplyView::Removed(lowercase(join(args.skip(2), " "@)))
        } else if sub == "clear"@ {
            TwReplyView::Cleared
        } else {
            TwReplyView::Help
        }
    }
}

/// The trigger warnings after the message `text`.
pub open spec fn tw_list(tws: Seq<Seq<char>>, text: Seq<char>) -> Seq<Seq<char>> {
    match tw_reply(tws, text) {
        TwReplyView::Added(w) => tws.push(w),
        TwReplyView::Removed(w) => without_word(tws, w),
        TwReplyView::Cleared => Seq::<Seq<char>>::empty(),
        TwReplyView::Help => tws,
    }
}

/// The list is written back unless the message is the bare command.
pub open spec fn tw_store(text: Seq<char>) -> bool {
    split_on(text, ' ').len() != 1
}

/// Drops the entries whose lower case is `word`.
fn remove_word(tws: Vec<String>, word: &String) -> (r: Vec<String>)
    ensures
        r.deep_view() == without_word(tws.deep_view(), word@),
{
    let mut r: Vec<String> = Vec::new();
    let n = tws.len();
    let mut i: usize = 0;
    while i < n
        invariant
            n == tws@.len(),
            i <= n,
            r.deep_view() == without_word(tws.deep_view().take(i as int), word@),
        decreases n - i,
    {
        assert(tws.deep_view().take(i + 1).drop_last() == tws.deep_view().take(i as int));
        let lower = to_lowercase(tws[i].as_str());
        if lower != *word {
            let ghost old_r = r.deep_view();
            r.push(tws[i].clone());
            assert(r.deep_view() == old_r.push(tws[i as int]@));
        }
        i = i + 1;
    }
    assert(tws.deep_view().take(n as int) == tws.deep_view());
    r
}

/// The words from the third one on, joined by blanks.
fn tail_words(args: &Vec<String>) -> (s: String)
    requires
        args@.len() >= 3,
    ensures
        s@ == join(args.deep_view().skip(2), " "@),
{
    let mut rest: Vec<String> = Vec::new();
    let mut i: usize = 2;
    while i < args.len()
        invariant
            2 <= i <= args@.len(),
            rest.deep_view() == args.deep_view().subrange(2, i as int),
        decreases args@.len() - i,
    {
        let ghost old_rest = rest.deep_view();
        rest.push(args[i].clone());
        assert(rest.deep_view() == old_rest.push(args.deep_view()[i as int]));
        i = i + 1;
        assert(rest.deep_view() == args.deep_view().subrange(2, i as int));
    }
    assert(args.deep_view().subrange(2, args@.len() as int) == args.deep_view().skip(2));
    join_strings(&rest, " ")
}

/// Applies the `/tw` command in `text` to the trigger warnings `tws`.
pub fn apply_tw_command(tws: Vec<String>, text: &str) -> (o: TwOutcome)
    ensures
        o.reply@ == tw_reply(tws.deep_view(), text@),
        o.trigger_warnings.deep_view() == tw_list(tws.deep_view(), text@),
        o.store == tw_store(text@),
{
    let args = split_chars(&chars_of(text), ' ');
    if args.len() == 1 {
        return TwOutcome { reply: TwReply::Help, trigger_warnings: tws, store: false };
    }
    let sub = to_lowercase(args[1].as_str());
    if equals_text(&sub, "add") && args.len() >= 3 {
        let word = tail_words(&args);
        let mut tws = tws;
        let ghost old_tws = tws.deep_view();
        tws.push(word.clone());
        assert(tws.deep_view() == old_tws.push(word@));
        TwOutcome { reply: TwReply::Added(word), trigger_warnings: tws, store: true }
    } else if equals_text(&sub, "remove") && args.len() >= 3 {
        let word = to_lowercase(tail_words(&args).as_str());
        let kept = remove_word(tws, &word);
        TwOutcome { reply: TwReply::Removed(word), trigger_warnings: kept, store: true }
    } else if equals_text(&sub, "clear") {
        let empty: Vec<String> = Vec::new();
        assert(empty.deep_view() == Seq::<Seq<char>>::empty());
        TwOutcome { reply: TwReply::Cleared, trigger_warnings: empty, store: true }
    } else {
        TwOutcome { reply: TwReply::Help, trigger_warnings: tws, store: true }
    }
}

/// The explanation of `/tw`, listing the configured trigger warnings.
pub open spec fn tw_help_text(tws: Seq<Seq<char>>) -> Seq<char> {
    "Füge ein Wort zu den Trigger Warnings mit /tw add WORT hinzu.\nDu kannst eine Trigger Warning mit /tw remove WORT wieder entfernen.\nMit /tw clear kannst du alle Trigger Warnings wieder entfernen.\nDiese Trigger Warnings hast du bereits konfiguriert: "@
        + join(tws, ", "@)
        + ".\nAlle Störungen, die ein Wort aus den konfigurierten Trigger Warnings enthalten, werden dir als Spoiler geschickt."@
}

/// The explanation of `/tw` for a user with the trigger warnings `tws`.
pub fn tw_help(tws: &Vec<String>) -> (s: String)
    ensures
        s@ == tw_help_text(tws.deep_view()),
{
    let mut s = "Füge ein Wort zu den Trigger Warnings mit /tw add WORT hinzu.\nDu kannst eine Trigger Warning mit /tw remove WORT wieder entfernen.\nMit /tw clear kannst du alle Trigger Warnings wieder entfernen.\nDiese Trigger Warnings hast du bereits konfiguriert: ".to_string();
    let list = join_strings(tws, ", ");
    s.append(list.as_str());
    s.append(".\nAlle Störungen, die ein Wort aus den konfigurierten Trigger Warnings enthalten, werden dir als Spoiler geschickt.");
    s
}

/// The answer to an edit of the trigger warnings; `None` for the help text,
/// which lists the stored trigger warnings.
pub open spec fn tw_reply_text(r: TwReplyView) -> Option<Seq<char>> {
    match r {
        TwReplyView::Help => None,
        TwReplyView::Added(w) => Some("I added '"@ + w + "' to your trigger warnings."@),
        TwReplyView::Removed(w) => Some("I removed '"@ + w + "' from your trigger warnings."@),
        TwReplyView::Cleared => Some("I removed all words from your trigger warnings."@),
    }
}

impl TwReply {
    /// The answer to an edit of the trigger warnings; `None` for help.
    pub fn text(&self) -> (s: Option<String>)
        ensures
            s.deep_view() == tw_reply_text(self@),
    {
        match self {
            TwReply::Help => None,
            TwReply::Added(w) => {
                let mut s = concat("I added '", w.as_str());
                s.append("' to your trigger warnings.");
                Some(s)
            },
            TwReply::Removed(w) => {
                let mut s = concat("I removed '", w.as_str());
                s.append("' from your trigger warnings.");
                Some(s)
            },
            TwReply::Cleared => Some("I removed all words from your trigger warnings.".to_string()),
        }
    }
}

} // verus!
