//! A disruption as handed to the channels, and the decision taken for each
//! freshly fetched disruption.

use vstd::prelude::*;
use crate::change::{
    all_disruption_parts, all_parts, changed_parts, disruption_changes, get_disruption_changes,
};
use crate::datetime::{berlin_local_to_utc, UtcInstant};
use crate::format::html::{self, html_message};
use crate::format::text::{self, text_message};
use crate::model::{
    ComponentType, Disruption, DisruptionPart, DisruptionView, MAX_NAIVE_TIMESTAMP,
    MIN_NAIVE_TIMESTAMP,
};
use crate::partial_format::{expired_at, expiry_decidable};

verus! {

/// The name of the strecken.info data source.
pub open spec fn strecken_info_type() -> Seq<char> {
    "strecken_info"@
}

/// A strecken.info disruption and the parts of it that changed.
pub struct StreckenInfoDisruption {
    pub disruption: Disruption,
    pub changes: Vec<DisruptionPart>,
}

/// The message for a channel, given whether the disruption counts as over:
/// HTML for Telegram, plain text for Mastodon.
pub open spec fn channel_message(
    d: DisruptionView,
    changes: Seq<DisruptionPart>,
    component: ComponentType,
    updated: bool,
    expired: bool,
) -> Seq<char> {
    match component {
        ComponentType::Telegram => html_message(d, updated, expired),
        ComponentType::Mastodon => text_message(d, changes, updated, expired),
    }
}

/// The text searched for trigger words: cause, sub-cause and text.
pub open spec fn tws_text(d: DisruptionView) -> Seq<char> {
    d.cause + " "@ + match d.subcause {
        Some(s) => s,
        None => Seq::<char>::empty(),
    } + " "@ + d.text
}

/// The name of the strecken.info data source, as the database stores it.
pub fn strecken_info_type_name() -> (s: &'static str)
    ensures
        s@ == strecken_info_type(),
{
    "strecken_info"
}

impl StreckenInfoDisruption {
    /// The name of the data source.
    pub fn get_type(&self) -> (s: &'static str)
        ensures
            s@ == strecken_info_type(),
    {
        strecken_info_type_name()
    }

    /// The message for a channel now.
    pub fn format(&self, component_type: ComponentType, updated: bool) -> (s: String)
        requires
            self.disruption@.wf(),
            expiry_decidable(self.disruption@),
        ensures
            exists|now: UtcInstant|
                s@ == channel_message(
                    self.disruption@,
                    self.changes@,
                    component_type,
                    updated,
                    expired_at(self.disruption@, now),
                ),
    {
        match component_type {
            ComponentType::Telegram => html::format(&self.disruption, updated),
            ComponentType::Mastodon => text::format(
                &self.disruption,
                self.changes.as_slice(),
                updated,
            ),
        }
    }

    /// The message for a channel now, or `None` where the disruption's period
    /// lies outside what chrono can hold or its end is a Berlin wall-clock
    /// time skipped or repeated by a daylight saving change.
    pub fn try_format(&self, component_type: ComponentType, updated: bool) -> (r: Option<String>)
        ensures
            r is Some <==> self.disruption@.wf() && expiry_decidable(self.disruption@),
            r matches Some(s) ==> exists|now: UtcInstant|
                s@ == channel_message(
                    self.disruption@,
                    self.changes@,
                    component_type,
                    updated,
                    expired_at(self.disruption@, now),
                ),
    {
        let start = self.disruption.period.start;
        let end = self.disruption.period.end;
        if start < MIN_NAIVE_TIMESTAMP || start > MAX_NAIVE_TIMESTAMP || end < MIN_NAIVE_TIMESTAMP
            || end > MAX_NAIVE_TIMESTAMP {
            return None;
        }
        if !self.disruption.expired && berlin_local_to_utc(end).is_none() {
            return None;
        }
        Some(self.format(component_type, updated))
    }

    /// The text searched for trigger words.
    pub fn format_tws(&self) -> (s: String)
        ensures
            s@ == tws_text(self.disruption@),
    {
        let mut s = self.disruption.cause.clone();
        s.append(" ");
        match &self.disruption.subcause {
            Some(sub) => s.append(sub.as_str()),
            None => {},
        }
        s.append(" ");
        s.append(self.disruption.text.as_str());
        s
    }
}

/// A disruption on its way to the channels: its row id and whether it is an
/// update of one reported before.
pub struct DataDisruptionInformation {
    pub id: i32,
    pub disruption: StreckenInfoDisruption,
    pub updated: bool,
}

impl DataDisruptionInformation {
    /// The message for a channel now.
    pub fn format(&self, component_type: ComponentType) -> (s: String)
        requires
            self.disruption.disruption@.wf(),
            expiry_decidable(self.disruption.disruption@),
        ensures
            exists|now: UtcInstant|
                s@ == channel_message(
                    self.disruption.disruption@,
                    self.disruption.changes@,
                    component_type,
                    self.updated,
                    expired_at(self.disruption.disruption@, now),
                ),
    {
        self.disruption.format(component_type, self.updated)
    }
}

/// What the database holds of a disruption: its row id, its fingerprint and,
/// where it was stored, the disruption itself.
pub struct StoredDisruption {
    pub id: i32,
    pub hash: String,
    pub disruption: Option<Disruption>,
}

/// What to do with a fetched disruption.
pub enum FetchAction {
    /// Store it and send it to the channels with these changed parts;
    /// `update` when it was known before, `known_id` its row if so.
    Publish { changes: Vec<DisruptionPart>, update: bool, known_id: Option<i32> },
    /// Nothing changed, but the row `id` lacks the stored disruption.
    StoreJson { id: i32 },
    /// Nothing to do.
    Skip,
}

/// The decision for a fetched disruption: publish if anything changed (all
/// parts when it is new); else store the disruption where the row lacks it.
pub open spec fn fetch_decision(
    stored: Option<(i32, Seq<char>, Option<DisruptionView>)>,
    new: DisruptionView,
    action: FetchAction,
) -> bool {
    match stored {
        None => action matches FetchAction::Publish { changes, update, known_id } && changes@
            == all_parts() && !update && known_id is None,
        Some((id, hash, old)) => {
            let changes = disruption_changes(old, hash, new);
            if changes.len() > 0 {
                action matches FetchAction::Publish { changes: c, update, known_id } && c@
                    == changes && update && known_id == Some(id)
            } else if old is None {
                action == (FetchAction::StoreJson { id })
            } else {
                action is Skip
            }
        },
    }
}

/// The view of what the database holds.
pub open spec fn stored_view(s: Option<StoredDisruption>) -> Option<(i32, Seq<char>, Option<DisruptionView>)> {
    match s {
        Some(row) => Some(
            (
                row.id,
                row.hash@,
                match row.disruption {
                    Some(d) => Some(d@),
                    None => None,
                },
            ),
        ),
        None => None,
    }
}

/// Decides what to do with a fetched disruption, given what the database
/// holds of it.
pub fn decide_fetched(stored: Option<StoredDisruption>, new: &Disruption) -> (action: FetchAction)
    ensures
        fetch_decision(stored_view(stored), new@, action),
{
    let ghost view = stored_view(stored);
    match stored {
        None => FetchAction::Publish { changes: all_disruption_parts(), update: false, known_id: None },
        Some(row) => {
            let contains_json = row.disruption.is_some();
            let changes = get_disruption_changes(row.disruption, row.hash, new);
            if changes.len() > 0 {
                FetchAction::Publish { changes, update: true, known_id: Some(row.id) }
            } else if !contains_json {
                FetchAction::StoreJson { id: row.id }
            } else {
                FetchAction::Skip
            }
        },
    }
}


/// The parts to publish for a fetched disruption and whether it is an update:
/// a disruption the database does not know is new, with every part changed;
/// one it knows is an update, with the parts that differ from the stored
/// disruption, or every part where the row holds none.
pub open spec fn fetched_changes(
    stored: Option<Option<DisruptionView>>,
    new: DisruptionView,
) -> (Seq<DisruptionPart>, bool) {
    match stored {
        None => (all_parts(), false),
        Some(Some(old)) => (changed_parts(old, new), true),
        Some(None) => (all_parts(), true),
    }
}

/// Decides, for a fetched disruption, which parts changed and whether it is
/// an update, given the row the database holds for its key (`None` when
/// there is none) and the disruption stored in that row, if any.
pub fn get_fetched_changes(
    stored: Option<Option<Disruption>>,
    new: &Disruption,
) -> (r: (Vec<DisruptionPart>, bool))
    ensures
        (r.0@, r.1) == fetched_changes(
            match stored {
                None => None,
                Some(Some(d)) => Some(Some(d@)),
                Some(None) => Some(None),
            },
            new@,
        ),
{
    match stored {
        None => (all_disruption_parts(), false),
        Some(Some(old)) => {
            let ghost old_view = old@;
            let changes = get_disruption_changes(Some(old), String::new(), new);
            assert(changes@ == changed_parts(old_view, new@));
            (changes, true)
        },
        Some(None) => (all_disruption_parts(), true),
    }
}

} // verus!
