//! Access policy and the guarded operations built from it.
//!
//! A user may use the system when they are an admin or a whitelisted
//! user; absence of both means denial. Whitelist management demands the
//! admin tier and granting admin rights demands the super tier; a denied
//! attempt leaves the store untouched. The policy itself is composed
//! here, on top of the registry's membership checks.

use vstd::prelude::*;

use crate::messages::Message;
use crate::registry::add_admin_post;
use crate::registry::add_user_post;
use crate::registry::opt_str_view;
use crate::registry::remove_user_post;
use crate::rows::Admin;
use crate::rows::ChatMessage;
use crate::rows::Session;
use crate::rows::WhitelistUser;
use crate::sessions::clear_post;
use crate::sessions::focr_post;
use crate::sessions::focr_result;
use crate::store::ChatStore;

verus! {

/// Why a guarded operation was refused.
#[derive(Clone, Copy, Debug, PartialEq, Eq, Structural)]
pub enum PolicyError {
    /// The user is neither an admin nor whitelisted.
    AccessDenied,
    /// The operation demands the admin tier.
    AdminRequired,
    /// The operation demands the super-admin tier.
    SuperAdminRequired,
}

/// The composed access policy: admins always pass, everyone else needs
/// a whitelist entry.
pub open spec fn spec_access_granted(is_admin: bool, is_whitelisted: bool) -> bool {
    is_admin || is_whitelisted
}

/// Decides whether a user with the given registry memberships may use
/// the system at all.
pub fn access_granted(is_admin: bool, is_whitelisted: bool) -> (r: bool)
    ensures
        r == spec_access_granted(is_admin, is_whitelisted),
{
    is_admin || is_whitelisted
}

/// Checks the composed policy against the store; every inbound
/// conversational event passes this check before any other work.
pub fn check_access(store: &ChatStore, user_id: u64) -> (r: bool)
    ensures
        r == spec_access_granted(store.spec_is_admin(user_id), store.spec_is_whitelisted(user_id)),
{
    let admin = Admin::is_admin(store, user_id);
    let listed = WhitelistUser::is_user_whitelisted(store, user_id);
    access_granted(admin, listed)
}

/// Whitelists `target` on behalf of `actor`: allowed exactly for admins,
/// and a no-op returning the denial otherwise.
pub fn admin_add_user(
    store: &mut ChatStore,
    actor: u64,
    target: u64,
    username: Option<&str>,
    notes: Option<&str>,
    now: u64,
) -> (r: Result<(), PolicyError>)
    requires
        old(store).wf(),
        now >= old(store).clock,
        old(store).next_whitelist_id < i64::MAX,
    ensures
        final(store).wf(),
        old(store).spec_is_admin(actor) ==> r == Ok::<(), PolicyError>(()) && add_user_post(
            *old(store),
            *final(store),
            target,
            opt_str_view(username),
            actor,
            opt_str_view(notes),
            now,
        ),
        !old(store).spec_is_admin(actor) ==> r == Err::<(), PolicyError>(
            PolicyError::AdminRequired,
        ) && *final(store) == *old(store),
{
    if Admin::is_admin(store, actor) {
        WhitelistUser::add_user(store, target, username, actor, notes, now);
        Ok(())
    } else {
        Err(PolicyError::AdminRequired)
    }
}

/// Removes `target` from the whitelist on behalf of `actor`: allowed
/// exactly for admins. The successful outcome reports whether a row was
/// actually removed.
pub fn admin_remove_user(store: &mut ChatStore, actor: u64, target: u64) -> (r: Result<
    bool,
    PolicyError,
>)
    requires
        old(store).wf(),
    ensures
        final(store).wf(),
        old(store).spec_is_admin(actor) ==> r == Ok::<bool, PolicyError>(
            old(store).spec_is_whitelisted(target),
        ) && remove_user_post(*old(store), *final(store), target, old(store).spec_is_whitelisted(target)),
        !old(store).spec_is_admin(actor) ==> r == Err::<bool, PolicyError>(
            PolicyError::AdminRequired,
        ) && *final(store) == *old(store),
{
    if Admin::is_admin(store, actor) {
        let removed = WhitelistUser::remove_user(store, target);
        Ok(removed)
    } else {
        Err(PolicyError::AdminRequired)
    }
}

/// Lists the whitelist (most recently granted first) on behalf of
/// `actor`: allowed exactly for admins.
pub fn admin_list_users(store: &ChatStore, actor: u64) -> (r: Result<Vec<WhitelistUser>, PolicyError>)
    ensures
        store.spec_is_admin(actor) ==> r is Ok && r->Ok_0@ == store.whitelist@.reverse(),
        !store.spec_is_admin(actor) ==> r == Err::<Vec<WhitelistUser>, PolicyError>(
            PolicyError::AdminRequired,
        ),
{
    if Admin::is_admin(store, actor) {
        Ok(WhitelistUser::get_all_users(store))
    } else {
        Err(PolicyError::AdminRequired)
    }
}

/// Grants regular admin rights to `target` on behalf of `actor`:
/// allowed exactly for super-admins, and a no-op returning the denial
/// otherwise.
pub fn super_add_admin(
    store: &mut ChatStore,
    actor: u64,
    target: u64,
    username: Option<&str>,
    now: u64,
) -> (r: Result<(), PolicyError>)
    requires
        old(store).wf(),
        now >= old(store).clock,
        old(store).next_admin_id < i64::MAX,
    ensures
        final(store).wf(),
        old(store).spec_is_super_admin(actor) ==> r == Ok::<(), PolicyError>(()) && add_admin_post(
            *old(store),
            *final(store),
            target,
            opt_str_view(username),
            false,
            now,
        ),
        !old(store).spec_is_super_admin(actor) ==> r == Err::<(), PolicyError>(
            PolicyError::SuperAdminRequired,
        ) && *final(store) == *old(store),
{
    if Admin::is_super_admin(store, actor) {
        Admin::add_admin(store, target, username, false, now);
        Ok(())
    } else {
        Err(PolicyError::SuperAdminRequired)
    }
}

/// Lists the admin table (super tier first, then by grant time) on
/// behalf of `actor`: allowed exactly for admins.
pub fn admin_list_admins(store: &ChatStore, actor: u64) -> (r: Result<Vec<Admin>, PolicyError>)
    ensures
        store.spec_is_admin(actor) ==> r is Ok && r->Ok_0@ == store.admins@.filter(
            |a: Admin| a.is_super,
        ) + store.admins@.filter(|a: Admin| !a.is_super),
        !store.spec_is_admin(actor) ==> r == Err::<Vec<Admin>, PolicyError>(
            PolicyError::AdminRequired,
        ),
{
    if Admin::is_admin(store, actor) {
        Ok(Admin::get_all_admins(store))
    } else {
        Err(PolicyError::AdminRequired)
    }
}

/// Clears a conversation's history on behalf of `actor`: allowed for
/// anyone who passes the composed access policy, and a no-op returning
/// the denial otherwise.
pub fn user_clear_history(store: &mut ChatStore, actor: u64, chat_id: i64) -> (r: Result<
    (),
    PolicyError,
>)
    requires
        old(store).wf(),
    ensures
        final(store).wf(),
        spec_access_granted(
            old(store).spec_is_admin(actor),
            old(store).spec_is_whitelisted(actor),
        ) ==> r == Ok::<(), PolicyError>(()) && clear_post(*old(store), *final(store), chat_id),
        !spec_access_granted(
            old(store).spec_is_admin(actor),
            old(store).spec_is_whitelisted(actor),
        ) ==> r == Err::<(), PolicyError>(PolicyError::AccessDenied) && *final(store) == *old(store),
{
    if check_access(store, actor) {
        Session::clear_history_by_chat_id(store, chat_id);
        Ok(())
    } else {
        Err(PolicyError::AccessDenied)
    }
}

/// How one inbound user turn changes the store: the conversation is
/// resolved to a session exactly as find-or-create does, and one "user"
/// row is appended to that session. Nothing else moves.
pub open spec fn process_post(
    pre: ChatStore,
    post: ChatStore,
    chat_id: i64,
    text: Seq<char>,
    now: u64,
    sid: i64,
) -> bool {
    &&& sid == focr_result(pre, chat_id)
    &&& post.clock == now
    &&& post.whitelist@ == pre.whitelist@
    &&& post.admins@ == pre.admins@
    &&& post.next_whitelist_id == pre.next_whitelist_id
    &&& post.next_admin_id == pre.next_admin_id
    &&& match pre.spec_session_for(chat_id) {
        Some(_) => {
            let k = pre.chat_index(chat_id);
            &&& post.sessions@ == pre.sessions@.update(
                k,
                Session { updated_at: now, ..pre.sessions@[k] },
            )
            &&& post.next_session_id == pre.next_session_id
        },
        None => {
            &&& post.sessions@ == pre.sessions@.push(
                Session { id: sid, chat_id, created_at: now, updated_at: now },
            )
            &&& post.next_session_id == pre.next_session_id + 1
        },
    }
    &&& post.messages@.len() == pre.messages@.len() + 1
    &&& post.messages@.drop_last() == pre.messages@
    &&& post.messages@.last().id == pre.next_message_id
    &&& post.messages@.last().session_id == sid
    &&& post.messages@.last().role@ == "user"@
    &&& post.messages@.last().content@ == text
    &&& post.messages@.last().timestamp == now
    &&& post.next_message_id == pre.next_message_id + 1
}

/// Handles one inbound text turn: resolves the conversation to a
/// session, records the turn as a "user" message, and returns the
/// session id together with the recent-context window (up to `limit`
/// turns, oldest first) to hand to the reply-producing caller. The
/// caller records the reply itself via [`Message::create`].
pub fn process_incoming(
    store: &mut ChatStore,
    chat_id: i64,
    text: &str,
    limit: usize,
    now: u64,
) -> (r: (i64, Vec<ChatMessage>))
    requires
        old(store).wf(),
        now >= old(store).clock,
        old(store).next_session_id < i64::MAX,
        old(store).next_message_id < i64::MAX,
    ensures
        final(store).wf(),
        process_post(*old(store), *final(store), chat_id, text@, now, r.0),
        r.1@.map_values(|m: ChatMessage| m@) == final(store).spec_recent(r.0, limit as nat),
        r.1@.len() <= limit,
{
    let sid = Session::find_or_create_by_chat_id(store, chat_id, now);
    proof {
        let ghost mid = *store;
        assert(focr_post(*old(store), mid, chat_id, now, sid));
        match old(store).spec_session_for(chat_id) {
            Some(_) => {
                let k = old(store).chat_index(chat_id);
                assert(mid.sessions@[k].id == sid);
                assert(mid.has_session_id(sid));
            },
            None => {
                assert(mid.sessions@.last().id == sid);
                assert(mid.has_session_id(sid));
            },
        }
    }
    Message::create(store, sid, "user", text, now);
    let window = Message::get_recent_messages(store, sid, limit);
    (sid, window)
}

} // verus!
