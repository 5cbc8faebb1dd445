//! Row types of the four tables kept by the store: sessions, messages,
//! whitelist entries and admin entries, plus the role/content pair that a
//! context window hands to the caller.
//!
//! Timestamps are plain clock ticks (an unsigned integer handed in by the
//! caller); identities are integers drawn from per-table auto-increment
//! counters.

use vstd::prelude::*;

verus! {

/// One session row: maps an external conversation (chat) id to an
/// internal session identity, with creation and last-activity times.
#[derive(Clone, Copy)]
pub struct Session {
    pub id: i64,
    pub chat_id: i64,
    pub created_at: u64,
    pub updated_at: u64,
}

/// One message row: a role-tagged turn appended to a session.
pub struct MessageRow {
    pub id: i64,
    pub session_id: i64,
    pub role: String,
    pub content: String,
    pub timestamp: u64,
}

/// A role/content pair, as handed to the caller for context construction.
pub struct ChatMessage {
    pub role: String,
    pub content: String,
}

/// One whitelist row: a user granted access by an admin.
pub struct WhitelistUser {
    pub id: i64,
    pub user_id: u64,
    pub username: Option<String>,
    pub added_by: u64,
    pub added_at: u64,
    pub notes: Option<String>,
}

/// One admin row. `is_super` marks the higher tier, which alone may
/// grant admin rights.
pub struct Admin {
    pub id: i64,
    pub user_id: u64,
    pub username: Option<String>,
    pub is_super: bool,
    pub added_at: u64,
}

impl View for ChatMessage {
    type V = (Seq<char>, Seq<char>);

    open spec fn view(&self) -> (Seq<char>, Seq<char>) {
        (self.role@, self.content@)
    }
}

impl Clone for MessageRow {
    fn clone(&self) -> (r: Self)
        ensures
            r == *self,
    {
        MessageRow {
            id: self.id,
            session_id: self.session_id,
            role: self.role.clone(),
            content: self.content.clone(),
            timestamp: self.timestamp,
        }
    }
}

impl Clone for ChatMessage {
    fn clone(&self) -> (r: Self)
        ensures
            r == *self,
    {
        ChatMessage { role: self.role.clone(), content: self.content.clone() }
    }
}

/// Duplicates an optional string; spelled out so that the copy is known
/// to equal its source.
pub fn clone_opt_string(o: &Option<String>) -> (r: Option<String>)
    ensures
        r == *o,
{
    match o {
        Some(s) => Some(s.clone()),
        None => None,
    }
}

impl Clone for WhitelistUser {
    fn clone(&self) -> (r: Self)
        ensures
            r == *self,
    {
        WhitelistUser {
            id: self.id,
            user_id: self.user_id,
            username: clone_opt_string(&self.username),
            added_by: self.added_by,
            added_at: self.added_at,
            notes: clone_opt_string(&self.notes),
        }
    }
}

impl Clone for Admin {
    fn clone(&self) -> (r: Self)
        ensures
            r == *self,
    {
        Admin {
            id: self.id,
            user_id: self.user_id,
            username: clone_opt_string(&self.username),
            is_super: self.is_super,
            added_at: self.added_at,
        }
    }
}

} // verus!
