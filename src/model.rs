//! The records that the service hands out and takes in. All of them are plain
//! values: nothing here is changed after it is built.

use vstd::prelude::*;

verus! {

/// An API key and its secret, used once to sign in.
#[derive(Clone, Debug, PartialEq, Eq)]
pub struct Credentials {
    pub key: String,
    pub secret: String,
}

/// A setting that the credentials are read from.
#[derive(Clone, Copy, Debug, PartialEq, Eq, Structural)]
pub enum Setting {
    ApiKey,
    ApiSecret,
}

/// The signed-in user.
#[derive(Clone, Debug, PartialEq, Eq)]
pub struct Account {
    pub user_id: String,
    pub name: String,
    pub email: String,
    pub default_workspace_id: String,
}

/// A current participant of a workspace.
#[derive(Clone, Debug, PartialEq, Eq)]
pub struct Member {
    pub id: String,
    pub name: String,
    pub email: String,
    pub role: String,
}

/// A former participant of a workspace.
#[derive(Clone, Debug, PartialEq, Eq)]
pub struct RetiredMember {
    pub id: String,
    pub name: String,
}

/// A team container for members and activities.
#[derive(Clone, Debug, PartialEq, Eq)]
pub struct Workspace {
    pub id: String,
    pub name: String,
    pub is_default: bool,
    pub members: Vec<Member>,
    pub retired_members: Vec<RetiredMember>,
}

/// A named, coloured task that time can be tracked on.
#[derive(Clone, Debug, PartialEq, Eq)]
pub struct Activity {
    pub id: String,
    pub name: String,
    pub color: String,
    pub integration: String,
    pub workspace_id: String,
    pub device_side: Option<i64>,
}

/// The three buckets of activities that the service keeps apart.
#[derive(Clone, Debug, PartialEq, Eq)]
pub struct ActivityLists {
    pub active: Vec<Activity>,
    pub inactive: Vec<Activity>,
    pub archived: Vec<Activity>,
}

/// A tag or a mention that a note refers to.
#[derive(Clone, Debug, PartialEq, Eq)]
pub struct TagOrMention {
    pub id: i64,
    pub key: String,
    pub label: String,
    pub scope: String,
    pub workspace_id: String,
}

/// Free text with the tags and mentions it holds.
#[derive(Clone, Debug, PartialEq, Eq)]
pub struct Note {
    pub text: Option<String>,
    pub tags: Vec<TagOrMention>,
    pub mentions: Vec<TagOrMention>,
}

/// A timer that runs on one activity until it is stopped.
#[derive(Clone, Debug, PartialEq, Eq)]
pub struct TrackingSession {
    pub id: i64,
    pub activity_id: String,
    pub started_at: String,
    pub note: Note,
}

/// The start and stop timestamps of a closed interval.
#[derive(Clone, Debug, PartialEq, Eq)]
pub struct Duration {
    pub started_at: String,
    pub stopped_at: String,
}

/// The record that stopping a tracking session leaves behind.
#[derive(Clone, Debug, PartialEq, Eq)]
pub struct TimeEntry {
    pub id: String,
    pub activity_id: String,
    pub duration: Duration,
    pub note: Note,
}

} // verus!
