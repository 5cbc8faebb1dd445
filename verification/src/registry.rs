//! Authorization registry: the whitelist and admin tables, their
//! membership checks, idempotent mutations, and listings.

use vstd::prelude::*;

use crate::rows::Admin;
use crate::rows::WhitelistUser;
use crate::seq_facts::lemma_filter_membership;
use crate::seq_facts::lemma_filter_preserves_distinct;
use crate::seq_facts::lemma_filter_preserves_sorted;
use crate::seq_facts::lemma_filter_push;
use crate::store::ChatStore;

verus! {

/// The view of an optional borrowed string.
pub open spec fn opt_str_view(o: Option<&str>) -> Option<Seq<char>> {
    match o {
        Some(s) => Some(s@),
        None => None,
    }
}

/// The view of an optional owned string.
pub open spec fn opt_string_view(o: Option<String>) -> Option<Seq<char>> {
    match o {
        Some(s) => Some(s@),
        None => None,
    }
}

/// Takes ownership of an optional borrowed string.
pub fn opt_to_owned(o: Option<&str>) -> (r: Option<String>)
    ensures
        opt_string_view(r) == opt_str_view(o),
{
    match o {
        Some(s) => Some(s.to_owned()),
        None => None,
    }
}

/// How an idempotent whitelist insert changes the store: a user already
/// present leaves the table untouched; otherwise one row is appended
/// with the next identity and the given grant data. Nothing else moves.
pub open spec fn add_user_post(
    pre: ChatStore,
    post: ChatStore,
    user_id: u64,
    username: Option<Seq<char>>,
    added_by: u64,
    notes: Option<Seq<char>>,
    now: u64,
) -> bool {
    &&& post.clock == now
    &&& post.sessions@ == pre.sessions@
    &&& post.messages@ == pre.messages@
    &&& post.admins@ == pre.admins@
    &&& post.next_session_id == pre.next_session_id
    &&& post.next_message_id == pre.next_message_id
    &&& post.next_admin_id == pre.next_admin_id
    &&& if pre.spec_is_whitelisted(user_id) {
        &&& post.whitelist@ == pre.whitelist@
        &&& post.next_whitelist_id == pre.next_whitelist_id
    } else {
        &&& post.whitelist@.len() == pre.whitelist@.len() + 1
        &&& post.whitelist@.drop_last() == pre.whitelist@
        &&& post.whitelist@.last().id == pre.next_whitelist_id
        &&& post.whitelist@.last().user_id == user_id
        &&& opt_string_view(post.whitelist@.last().username) == username
        &&& post.whitelist@.last().added_by == added_by
        &&& post.whitelist@.last().added_at == now
        &&& opt_string_view(post.whitelist@.last().notes) == notes
        &&& post.next_whitelist_id == pre.next_whitelist_id + 1
    }
}

/// How a whitelist removal changes the store: the user's row (if any)
/// is gone and the outcome reports whether one was. Nothing else moves.
pub open spec fn remove_user_post(pre: ChatStore, post: ChatStore, user_id: u64, removed: bool) -> bool {
    &&& removed == pre.spec_is_whitelisted(user_id)
    &&& post.whitelist@ == pre.whitelist@.filter(|w: WhitelistUser| w.user_id != user_id)
    &&& post.sessions@ == pre.sessions@
    &&& post.messages@ == pre.messages@
    &&& post.admins@ == pre.admins@
    &&& post.next_session_id == pre.next_session_id
    &&& post.next_message_id == pre.next_message_id
    &&& post.next_whitelist_id == pre.next_whitelist_id
    &&& post.next_admin_id == pre.next_admin_id
    &&& post.clock == pre.clock
}

/// How an idempotent admin insert changes the store; the same shape as
/// the whitelist insert. An already-present user keeps their row, and
/// with it their tier.
pub open spec fn add_admin_post(
    pre: ChatStore,
    post: ChatStore,
    user_id: u64,
    username: Option<Seq<char>>,
    is_super: bool,
    now: u64,
) -> bool {
    &&& post.clock == now
    &&& post.sessions@ == pre.sessions@
    &&& post.messages@ == pre.messages@
    &&& post.whitelist@ == pre.whitelist@
    &&& post.next_session_id == pre.next_session_id
    &&& post.next_message_id == pre.next_message_id
    &&& post.next_whitelist_id == pre.next_whitelist_id
    &&& if pre.spec_is_admin(user_id) {
        &&& post.admins@ == pre.admins@
        &&& post.next_admin_id == pre.next_admin_id
    } else {
        &&& post.admins@.len() == pre.admins@.len() + 1
        &&& post.admins@.drop_last() == pre.admins@
        &&& post.admins@.last().id == pre.next_admin_id
        &&& post.admins@.last().user_id == user_id
        &&& opt_string_view(post.admins@.last().username) == username
        &&& post.admins@.last().is_super == is_super
        &&& post.admins@.last().added_at == now
        &&& post.next_admin_id == pre.next_admin_id + 1
    }
}

impl WhitelistUser {
    /// True iff the user has a whitelist row.
    #[verifier::loop_isolation(false)]
    pub fn is_user_whitelisted(store: &ChatStore, user_id: u64) -> (r: bool)
        ensures
            r == store.spec_is_whitelisted(user_id),
    {
        let n = store.whitelist.len();
        let mut i: usize = 0;
        while i < n
            invariant
                i <= n,
                forall|j: int| 0 <= j < i ==> (#[trigger] store.whitelist@[j]).user_id != user_id,
            decreases n - i,
        {
            if store.whitelist[i].user_id == user_id {
                return true;
            }
            i += 1;
        }
        false
    }

    /// Idempotently grants a user access: inserting an already-present
    /// user is a silent no-op, not an error.
    pub fn add_user(
        store: &mut ChatStore,
        user_id: u64,
        username: Option<&str>,
        added_by: u64,
        notes: Option<&str>,
        now: u64,
    )
        requires
            old(store).wf(),
            now >= old(store).clock,
            old(store).next_whitelist_id < i64::MAX,
        ensures
            final(store).wf(),
            add_user_post(
                *old(store),
                *final(store),
                user_id,
                opt_str_view(username),
                added_by,
                opt_str_view(notes),
                now,
            ),
    {
        if Self::is_user_whitelisted(store, user_id) {
            store.clock = now;
        } else {
            let id = store.next_whitelist_id;
            store.whitelist.push(
                WhitelistUser {
                    id,
                    user_id,
                    username: opt_to_owned(username),
                    added_by,
                    added_at: now,
                    notes: opt_to_owned(notes),
                },
            );
            store.next_whitelist_id = id + 1;
            store.clock = now;
            proof {
                assert(store.whitelist@.drop_last() =~= old(store).whitelist@);
            }
        }
    }

    /// Removes a user's whitelist row; the outcome reports whether one
    /// was actually there, so callers can tell "removed now" from
    /// "already absent".
    #[verifier::loop_isolation(false)]
    pub fn remove_user(store: &mut ChatStore, user_id: u64) -> (removed: bool)
        requires
            old(store).wf(),
        ensures
            final(store).wf(),
            remove_user_post(*old(store), *final(store), user_id, removed),
    {
        let ghost pre = *old(store);
        let ghost wpred = |w: WhitelistUser| w.user_id != user_id;
        let mut kept: Vec<WhitelistUser> = Vec::new();
        let mut found = false;
        let n = store.whitelist.len();
        let mut i: usize = 0;
        while i < n
            invariant
                *store == pre,
                i <= n,
                kept@ == store.whitelist@.subrange(0, i as int).filter(wpred),
                found == exists|j: int|
                    0 <= j < i && (#[trigger] store.whitelist@[j]).user_id == user_id,
            decreases n - i,
        {
            proof {
                assert(store.whitelist@.subrange(0, i + 1) =~= store.whitelist@.subrange(
                    0,
                    i as int,
                ).push(store.whitelist@[i as int]));
                lemma_filter_push(store.whitelist@.subrange(0, i as int), store.whitelist@[i as int], wpred);
            }
            if store.whitelist[i].user_id == user_id {
                found = true;
                proof {
                    assert(store.whitelist@[i as int].user_id == user_id);
                }
            } else {
                let row = store.whitelist[i].clone();
                kept.push(row);
            }
            i += 1;
        }
        proof {
            assert(store.whitelist@.subrange(0, n as int) =~= store.whitelist@);
        }
        store.whitelist = kept;
        proof {
            lemma_filter_membership(pre.whitelist@, wpred);
            lemma_filter_preserves_distinct(pre.whitelist@, wpred, |w: WhitelistUser| w.id);
            lemma_filter_preserves_distinct(pre.whitelist@, wpred, |w: WhitelistUser| w.user_id);
            lemma_filter_preserves_sorted(pre.whitelist@, wpred, |w: WhitelistUser| w.added_at as int);
        }
        found
    }

    /// Lists all whitelist rows, most recently granted first.
    #[verifier::loop_isolation(false)]
    pub fn get_all_users(store: &ChatStore) -> (r: Vec<WhitelistUser>)
        ensures
            r@ == store.whitelist@.reverse(),
    {
        let n = store.whitelist.len();
        let mut r: Vec<WhitelistUser> = Vec::new();
        let mut i: usize = 0;
        while i < n
            invariant
                i <= n,
                r@.len() == i,
                forall|k: int| 0 <= k < i ==> #[trigger] r@[k] == store.whitelist@[n - 1 - k],
            decreases n - i,
        {
            let row = store.whitelist[n - 1 - i].clone();
            r.push(row);
            i += 1;
        }
        proof {
            assert(r@ =~= store.whitelist@.reverse());
        }
        r
    }
}

impl Admin {
    /// True iff the user has an admin row of either tier.
    #[verifier::loop_isolation(false)]
    pub fn is_admin(store: &ChatStore, user_id: u64) -> (r: bool)
        ensures
            r == store.spec_is_admin(user_id),
    {
        let n = store.admins.len();
        let mut i: usize = 0;
        while i < n
            invariant
                i <= n,
                forall|j: int| 0 <= j < i ==> (#[trigger] store.admins@[j]).user_id != user_id,
            decreases n - i,
        {
            if store.admins[i].user_id == user_id {
                return true;
            }
            i += 1;
        }
        false
    }

    /// True iff the user has an admin row with the super flag set.
    #[verifier::loop_isolation(false)]
    pub fn is_super_admin(store: &ChatStore, user_id: u64) -> (r: bool)
        ensures
            r == store.spec_is_super_admin(user_id),
    {
        let n = store.admins.len();
        let mut i: usize = 0;
        while i < n
            invariant
                i <= n,
                forall|j: int|
                    0 <= j < i ==> !((#[trigger] store.admins@[j]).user_id == user_id
                        && store.admins@[j].is_super),
            decreases n - i,
        {
            if store.admins[i].user_id == user_id && store.admins[i].is_super {
                return true;
            }
            i += 1;
        }
        false
    }

    /// Idempotently grants admin rights: inserting an already-present
    /// user is a silent no-op, and in particular never changes their tier.
    pub fn add_admin(
        store: &mut ChatStore,
        user_id: u64,
        username: Option<&str>,
        is_super: bool,
        now: u64,
    )
        requires
            old(store).wf(),
            now >= old(store).clock,
            old(store).next_admin_id < i64::MAX,
        ensures
            final(store).wf(),
            add_admin_post(
                *old(store),
                *final(store),
                user_id,
                opt_str_view(username),
                is_super,
                now,
            ),
    {
        if Self::is_admin(store, user_id) {
            store.clock = now;
        } else {
            let id = store.next_admin_id;
            store.admins.push(
                Admin { id, user_id, username: opt_to_owned(username), is_super, added_at: now },
            );
            store.next_admin_id = id + 1;
            store.clock = now;
            proof {
                assert(store.admins@.drop_last() =~= old(store).admins@);
            }
        }
    }

    /// Lists all admin rows: super-admins first, then by grant time
    /// ascending within each tier.
    #[verifier::loop_isolation(false)]
    pub fn get_all_admins(store: &ChatStore) -> (r: Vec<Admin>)
        ensures
            r@ == store.admins@.filter(|a: Admin| a.is_super) + store.admins@.filter(
                |a: Admin| !a.is_super,
            ),
    {
        let ghost sup = |a: Admin| a.is_super;
        let ghost nsup = |a: Admin| !a.is_super;
        let n = store.admins.len();
        let mut r: Vec<Admin> = Vec::new();
        let mut i: usize = 0;
        while i < n
            invariant
                i <= n,
                r@ == store.admins@.subrange(0, i as int).filter(sup),
            decreases n - i,
        {
            proof {
                assert(store.admins@.subrange(0, i + 1) =~= store.admins@.subrange(0, i as int).push(
                    store.admins@[i as int],
                ));
                lemma_filter_push(store.admins@.subrange(0, i as int), store.admins@[i as int], sup);
            }
            if store.admins[i].is_super {
                let row = store.admins[i].clone();
                r.push(row);
            }
            i += 1;
        }
        proof {
            assert(store.admins@.subrange(0, n as int) =~= store.admins@);
        }
        let mut j: usize = 0;
        while j < n
            invariant
                j <= n,
                r@ == store.admins@.filter(sup) + store.admins@.subrange(0, j as int).filter(nsup),
            decreases n - j,
        {
            proof {
                assert(store.admins@.subrange(0, j + 1) =~= store.admins@.subrange(0, j as int).push(
                    store.admins@[j as int],
                ));
                lemma_filter_push(store.admins@.subrange(0, j as int), store.admins@[j as int], nsup);
            }
            if !store.admins[j].is_super {
                let row = store.admins[j].clone();
                r.push(row);
                proof {
                    assert(r@ =~= store.admins@.filter(sup) + store.admins@.subrange(
                        0,
                        j + 1,
                    ).filter(nsup));
                }
            } else {
                proof {
                    assert(r@ =~= store.admins@.filter(sup) + store.admins@.subrange(
                        0,
                        j + 1,
                    ).filter(nsup));
                }
            }
            j += 1;
        }
        proof {
            assert(store.admins@.subrange(0, n as int) =~= store.admins@);
        }
        r
    }
}

} // verus!
