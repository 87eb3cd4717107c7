//! Whole messages about a disruption, one module per kind of message.

pub mod html;
pub mod mastodon;
pub mod text;
