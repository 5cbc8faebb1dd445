//! The conversation-state and access-control store.
//!
//! `ChatStore` holds the four tables (sessions, messages, whitelist
//! entries, admin entries) together with the per-table auto-increment
//! counters and a clock watermark. The watermark records the largest
//! timestamp handed to any mutating operation; operations demand a
//! timestamp at or past it, which models timestamps drawn from a
//! monotone wall clock. Every operation requires and preserves the
//! well-formedness predicate [`ChatStore::wf`].

use vstd::prelude::*;

use crate::rows::Admin;
use crate::rows::MessageRow;
use crate::rows::Session;
use crate::rows::WhitelistUser;

verus! {

/// The store: four tables, their identity counters, and the clock
/// watermark.
pub struct ChatStore {
    pub sessions: Vec<Session>,
    pub messages: Vec<MessageRow>,
    pub whitelist: Vec<WhitelistUser>,
    pub admins: Vec<Admin>,
    pub next_session_id: i64,
    pub next_message_id: i64,
    pub next_whitelist_id: i64,
    pub next_admin_id: i64,
    pub clock: u64,
}

/// True when some row of `s` carries the admin user id `u`.
pub open spec fn admins_have_user(s: Seq<Admin>, u: u64) -> bool {
    exists|i: int| 0 <= i < s.len() && s[i].user_id == u
}

/// True when some row of `s` carries the whitelisted user id `u`.
pub open spec fn whitelist_has_user(s: Seq<WhitelistUser>, u: u64) -> bool {
    exists|i: int| 0 <= i < s.len() && s[i].user_id == u
}

impl ChatStore {
    /// There is a session for the given external conversation id.
    pub open spec fn has_session_for_chat(self, chat_id: i64) -> bool {
        exists|i: int| 0 <= i < self.sessions@.len() && self.sessions@[i].chat_id == chat_id
    }

    /// The index of the session row for `chat_id`; meaningful only when
    /// one exists (and then unique, by well-formedness).
    pub open spec fn chat_index(self, chat_id: i64) -> int {
        choose|i: int| 0 <= i < self.sessions@.len() && self.sessions@[i].chat_id == chat_id
    }

    /// The session id that a lookup by conversation id resolves to.
    pub open spec fn spec_session_for(self, chat_id: i64) -> Option<i64> {
        if self.has_session_for_chat(chat_id) {
            Some(self.sessions@[self.chat_index(chat_id)].id)
        } else {
            None
        }
    }

    /// There is a session row with internal id `sid`.
    pub open spec fn has_session_id(self, sid: i64) -> bool {
        exists|i: int| 0 <= i < self.sessions@.len() && self.sessions@[i].id == sid
    }

    /// The session with internal id `sid` belongs to conversation `chat_id`.
    pub open spec fn chat_owns(self, chat_id: i64, sid: i64) -> bool {
        exists|i: int|
            0 <= i < self.sessions@.len() && self.sessions@[i].id == sid && self.sessions@[i].chat_id
                == chat_id
    }

    /// The message rows of session `sid`, in stored (append) order.
    pub open spec fn rows_of(self, sid: i64) -> Seq<MessageRow> {
        self.messages@.filter(|m: MessageRow| m.session_id == sid)
    }

    /// The turns of session `sid` as (role, content) pairs, in append order.
    pub open spec fn msgs_of(self, sid: i64) -> Seq<(Seq<char>, Seq<char>)> {
        self.rows_of(sid).map_values(|m: MessageRow| (m.role@, m.content@))
    }

    /// The rows of the recent-context window: the last `limit` rows of
    /// the session, oldest first.
    pub open spec fn spec_recent_rows(self, sid: i64, limit: nat) -> Seq<MessageRow> {
        let all = self.rows_of(sid);
        if all.len() <= limit {
            all
        } else {
            all.subrange(all.len() - limit, all.len() as int)
        }
    }

    /// The recent-context window as (role, content) pairs: a suffix of
    /// the append history of length at most `limit`, oldest first.
    pub open spec fn spec_recent(self, sid: i64, limit: nat) -> Seq<(Seq<char>, Seq<char>)> {
        self.spec_recent_rows(sid, limit).map_values(|m: MessageRow| (m.role@, m.content@))
    }

    /// User `u` has a whitelist row.
    pub open spec fn spec_is_whitelisted(self, u: u64) -> bool {
        whitelist_has_user(self.whitelist@, u)
    }

    /// User `u` has an admin row (of either tier).
    pub open spec fn spec_is_admin(self, u: u64) -> bool {
        admins_have_user(self.admins@, u)
    }

    /// User `u` has an admin row with the super flag set.
    pub open spec fn spec_is_super_admin(self, u: u64) -> bool {
        exists|i: int| 0 <= i < self.admins@.len() && self.admins@[i].user_id == u && self.admins@[i].is_super
    }

    /// Well-formedness of the session table: identities unique and below
    /// the counter, one session per conversation id, timestamps at or
    /// below the watermark.
    pub open spec fn sessions_wf(self) -> bool {
        &&& forall|i: int, j: int|
            0 <= i < j < self.sessions@.len() ==> #[trigger] self.sessions@[i].id != #[trigger] self.sessions@[j].id
        &&& forall|i: int, j: int|
            0 <= i < j < self.sessions@.len() ==> #[trigger] self.sessions@[i].chat_id != #[trigger] self.sessions@[j].chat_id
        &&& forall|i: int|
            0 <= i < self.sessions@.len() ==> 1 <= (#[trigger] self.sessions@[i]).id < self.next_session_id
        &&& forall|i: int|
            0 <= i < self.sessions@.len() ==> (#[trigger] self.sessions@[i]).created_at <= self.clock
                && self.sessions@[i].updated_at <= self.clock
    }

    /// Well-formedness of the message table: identities unique and below
    /// the counter, every row references a live session, roles are the
    /// two recognized values, timestamps non-decreasing in append order
    /// and at or below the watermark.
    pub open spec fn messages_wf(self) -> bool {
        &&& forall|i: int, j: int|
            0 <= i < j < self.messages@.len() ==> #[trigger] self.messages@[i].id != #[trigger] self.messages@[j].id
        &&& forall|i: int|
            0 <= i < self.messages@.len() ==> 1 <= (#[trigger] self.messages@[i]).id < self.next_message_id
        &&& forall|i: int|
            0 <= i < self.messages@.len() ==> self.has_session_id((#[trigger] self.messages@[i]).session_id)
        &&& forall|i: int|
            0 <= i < self.messages@.len() ==> (#[trigger] self.messages@[i]).role@ == "user"@
                || self.messages@[i].role@ == "assistant"@
        &&& forall|i: int, j: int|
            0 <= i <= j < self.messages@.len() ==> (#[trigger] self.messages@[i]).timestamp <= (
            #[trigger] self.messages@[j]).timestamp
        &&& forall|i: int|
            0 <= i < self.messages@.len() ==> (#[trigger] self.messages@[i]).timestamp <= self.clock
    }

    /// Well-formedness of the whitelist table: identities unique and
    /// below the counter, one row per user id, grant times non-decreasing
    /// in insertion order and at or below the watermark.
    pub open spec fn whitelist_wf(self) -> bool {
        &&& forall|i: int, j: int|
            0 <= i < j < self.whitelist@.len() ==> #[trigger] self.whitelist@[i].id != #[trigger] self.whitelist@[j].id
        &&& forall|i: int, j: int|
            0 <= i < j < self.whitelist@.len() ==> #[trigger] self.whitelist@[i].user_id != #[trigger] self.whitelist@[j].user_id
        &&& forall|i: int|
            0 <= i < self.whitelist@.len() ==> 1 <= (#[trigger] self.whitelist@[i]).id < self.next_whitelist_id
        &&& forall|i: int, j: int|
            0 <= i <= j < self.whitelist@.len() ==> (#[trigger] self.whitelist@[i]).added_at <= (
            #[trigger] self.whitelist@[j]).added_at
        &&& forall|i: int|
            0 <= i < self.whitelist@.len() ==> (#[trigger] self.whitelist@[i]).added_at <= self.clock
    }

    /// Well-formedness of the admin table: identities unique and below
    /// the counter, one row per user id, grant times non-decreasing in
    /// insertion order and at or below the watermark.
    pub open spec fn admins_wf(self) -> bool {
        &&& forall|i: int, j: int|
            0 <= i < j < self.admins@.len() ==> #[trigger] self.admins@[i].id != #[trigger] self.admins@[j].id
        &&& forall|i: int, j: int|
            0 <= i < j < self.admins@.len() ==> #[trigger] self.admins@[i].user_id != #[trigger] self.admins@[j].user_id
        &&& forall|i: int|
            0 <= i < self.admins@.len() ==> 1 <= (#[trigger] self.admins@[i]).id < self.next_admin_id
        &&& forall|i: int, j: int|
            0 <= i <= j < self.admins@.len() ==> (#[trigger] self.admins@[i]).added_at <= (
            #[trigger] self.admins@[j]).added_at
        &&& forall|i: int|
            0 <= i < self.admins@.len() ==> (#[trigger] self.admins@[i]).added_at <= self.clock
    }

    /// Well-formedness of the whole store.
    pub open spec fn wf(self) -> bool {
        &&& self.sessions_wf()
        &&& self.messages_wf()
        &&& self.whitelist_wf()
        &&& self.admins_wf()
        &&& self.next_session_id >= 1
        &&& self.next_message_id >= 1
        &&& self.next_whitelist_id >= 1
        &&& self.next_admin_id >= 1
    }

    /// An empty store: the state right after idempotent schema creation
    /// on a fresh backend.
    pub fn new() -> (s: ChatStore)
        ensures
            s.wf(),
            s.sessions@ =~= Seq::<Session>::empty(),
            s.messages@ =~= Seq::<MessageRow>::empty(),
            s.whitelist@ =~= Seq::<WhitelistUser>::empty(),
            s.admins@ =~= Seq::<Admin>::empty(),
            s.clock == 0,
            s.next_session_id == 1,
            s.next_message_id == 1,
            s.next_whitelist_id == 1,
            s.next_admin_id == 1,
    {
        ChatStore {
            sessions: Vec::new(),
            messages: Vec::new(),
            whitelist: Vec::new(),
            admins: Vec::new(),
            next_session_id: 1,
            next_message_id: 1,
            next_whitelist_id: 1,
            next_admin_id: 1,
            clock: 0,
        }
    }
}

} // verus!
