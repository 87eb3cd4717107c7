//! Verified core of the strecken-info disruption bot: the disruption model,
//! message formatting, change detection, filters and chat command decisions.

pub mod text;
pub mod model;
pub mod datetime;
pub mod partial_format;
pub mod markup;
pub mod format;
pub mod equality;
pub mod change;
pub mod filter;
pub mod user;
pub mod trigger_warnings;
pub mod decimal;
pub mod telegram;
pub mod mastodon;
pub mod data;
pub mod legacy;
pub mod laws;
pub mod filter_dialog;
pub mod cli;
