//! The typed records that the Helix endpoints return.
//!
//! All of them are read-only: decoded from a response, printed, discarded.

use vstd::prelude::*;

verus! {

/// One Twitch account.
#[derive(Debug, Clone)]
pub struct User {
    pub id: String,
    pub login: String,
    pub display_name: String,
    /// The wire field is named `type`.
    pub user_type: String,
    pub broadcaster_type: String,
    pub description: String,
    pub view_count: u64,
    pub offline_image_url: String,
    pub profile_image_url: String,
}

/// A currently-live broadcast; an empty result list means offline.
#[derive(Debug, Clone)]
pub struct Stream {
    pub id: String,
    pub user_id: String,
    pub user_name: String,
    pub game_id: String,
    /// The wire field is named `type`.
    pub user_type: String,
    pub title: String,
    pub viewer_count: u64,
    pub started_at: String,
    pub language: String,
    pub thumbnail_url: String,
}

/// One entry of the trending-games list.
#[derive(Debug, Clone)]
pub struct TopGame {
    pub id: String,
    pub name: String,
    pub box_art_url: String,
}

/// A moderation audit entry.
#[derive(Debug, Clone)]
pub struct BanEvent {
    pub id: String,
    pub event_type: String,
    pub event_timestamp: String,
    pub version: String,
    /// The wire field is named `event_data`.
    pub data: BanEventData,
}

/// The nested payload of a [`BanEvent`].
#[derive(Debug, Clone)]
pub struct BanEventData {
    pub broadcaster_id: String,
    pub broadcaster_name: String,
    pub user_id: String,
    pub user_name: String,
    pub expires_at: String,
}

} // verus!
