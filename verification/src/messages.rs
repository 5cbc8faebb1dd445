//! Message log: appending role-tagged turns and retrieving the
//! recent-context window.

use vstd::prelude::*;

use crate::rows::ChatMessage;
use crate::rows::MessageRow;
use crate::seq_facts::lemma_filter_push;
use crate::store::ChatStore;

verus! {

/// How appending one turn changes the store: one row is appended to the
/// message table, carrying the next identity, the given session, role,
/// content and time. Nothing else moves.
pub open spec fn create_post(
    pre: ChatStore,
    post: ChatStore,
    session_id: i64,
    role: Seq<char>,
    content: Seq<char>,
    now: u64,
) -> bool {
    &&& post.messages@.len() == pre.messages@.len() + 1
    &&& post.messages@.drop_last() == pre.messages@
    &&& post.messages@.last().id == pre.next_message_id
    &&& post.messages@.last().session_id == session_id
    &&& post.messages@.last().role@ == role
    &&& post.messages@.last().content@ == content
    &&& post.messages@.last().timestamp == now
    &&& post.next_message_id == pre.next_message_id + 1
    &&& post.clock == now
    &&& post.sessions@ == pre.sessions@
    &&& post.whitelist@ == pre.whitelist@
    &&& post.admins@ == pre.admins@
    &&& post.next_session_id == pre.next_session_id
    &&& post.next_whitelist_id == pre.next_whitelist_id
    &&& post.next_admin_id == pre.next_admin_id
}

/// The message table; rows only ever enter through [`Message::create`]
/// and leave through a history clear.
pub struct Message;

impl Message {
    /// Appends one turn to a session. The role must be one of the two
    /// recognized values, and the session must exist; both are the
    /// caller's responsibility.
    pub fn create(store: &mut ChatStore, session_id: i64, role: &str, content: &str, now: u64)
        requires
            old(store).wf(),
            old(store).has_session_id(session_id),
            now >= old(store).clock,
            old(store).next_message_id < i64::MAX,
            role@ == "user"@ || role@ == "assistant"@,
        ensures
            final(store).wf(),
            create_post(*old(store), *final(store), session_id, role@, content@, now),
    {
        let id = store.next_message_id;
        store.messages.push(
            MessageRow {
                id,
                session_id,
                role: role.to_owned(),
                content: content.to_owned(),
                timestamp: now,
            },
        );
        store.next_message_id = id + 1;
        store.clock = now;
        proof {
            assert(store.messages@.drop_last() =~= old(store).messages@);
            assert forall|m: int|
                0 <= m < store.messages@.len() implies store.has_session_id(
                (#[trigger] store.messages@[m]).session_id,
            ) by {
                if m < store.messages@.len() - 1 {
                    assert(old(store).has_session_id(old(store).messages@[m].session_id));
                    let s = choose|s: int|
                        0 <= s < old(store).sessions@.len() && old(store).sessions@[s].id == old(
                            store,
                        ).messages@[m].session_id;
                    assert(store.sessions@[s].id == store.messages@[m].session_id);
                } else {
                    let s = choose|s: int|
                        0 <= s < old(store).sessions@.len() && old(store).sessions@[s].id
                            == session_id;
                    assert(store.sessions@[s].id == session_id);
                }
            }
        }
    }

    /// Returns the recent-context window of a session: up to `limit`
    /// turns, the most recent ones, oldest first. A `limit` of zero
    /// yields an empty window.
    #[verifier::loop_isolation(false)]
    pub fn get_recent_messages(store: &ChatStore, session_id: i64, limit: usize) -> (r: Vec<
        ChatMessage,
    >)
        requires
            store.wf(),
        ensures
            r@.map_values(|m: ChatMessage| m@) == store.spec_recent(session_id, limit as nat),
            r@.len() <= limit,
    {
        let ghost fpred = |m: MessageRow| m.session_id == session_id;
        let ghost proj = |m: MessageRow| (m.role@, m.content@);
        let ghost cview = |m: ChatMessage| m@;

        // gather the whole append history of the session, in order
        let mut all: Vec<ChatMessage> = Vec::new();
        let total = store.messages.len();
        let mut i: usize = 0;
        while i < total
            invariant
                i <= total,
                all@.map_values(cview) == store.messages@.subrange(0, i as int).filter(
                    fpred,
                ).map_values(proj),
            decreases total - i,
        {
            proof {
                assert(store.messages@.subrange(0, i + 1) =~= store.messages@.subrange(
                    0,
                    i as int,
                ).push(store.messages@[i as int]));
                lemma_filter_push(store.messages@.subrange(0, i as int), store.messages@[i as int], fpred);
            }
            if store.messages[i].session_id == session_id {
                let m = &store.messages[i];
                let ghost prev = all@;
                all.push(ChatMessage { role: m.role.clone(), content: m.content.clone() });
                proof {
                    let row = store.messages@[i as int];
                    let f0 = store.messages@.subrange(0, i as int).filter(fpred);
                    let f1 = store.messages@.subrange(0, i + 1).filter(fpred);
                    assert(f1 == f0.push(row));
                    assert(cview(all@.last()) == proj(row));
                    assert forall|k: int|
                        0 <= k < all@.len() implies all@.map_values(cview)[k] == f1.map_values(
                        proj,
                    )[k] by {
                        if k < prev.len() {
                            assert(all@[k] == prev[k]);
                            assert(f1[k] == f0[k]);
                            assert(prev.map_values(cview)[k] == f0.map_values(proj)[k]);
                        } else {
                            assert(all@[k] == all@.last());
                            assert(f1[k] == row);
                        }
                    }
                    assert(all@.map_values(cview) =~= f1.map_values(proj));
                }
            } else {
                proof {
                    assert(all@.map_values(cview) =~= store.messages@.subrange(0, i + 1).filter(
                        fpred,
                    ).map_values(proj));
                }
            }
            i += 1;
        }
        proof {
            assert(store.messages@.subrange(0, total as int) =~= store.messages@);
            assert(all@.len() == store.rows_of(session_id).len());
        }

        // hand back only the most recent `limit` of them
        let count = all.len();
        let start = if count > limit {
            count - limit
        } else {
            0
        };
        let mut r: Vec<ChatMessage> = Vec::new();
        let mut j = start;
        while j < count
            invariant
                start <= j <= count,
                r@ == all@.subrange(start as int, j as int),
            decreases count - j,
        {
            let row = all[j].clone();
            r.push(row);
            proof {
                assert(r@ =~= all@.subrange(start as int, j + 1));
            }
            j += 1;
        }
        proof {
            assert(r@ =~= all@.subrange(start as int, count as int));
            let recent = store.spec_recent(session_id, limit as nat);
            let rows = store.rows_of(session_id);
            assert(r@.map_values(cview).len() == recent.len());
            assert forall|x: int| 0 <= x < r@.len() implies r@.map_values(cview)[x] == recent[x] by {
                assert(r@[x] == all@[start + x]);
                assert(r@.map_values(cview)[x] == cview(all@[start + x]));
                assert(cview(all@[start + x]) == all@.map_values(cview)[start + x]);
                assert(recent[x] == proj(store.spec_recent_rows(session_id, limit as nat)[x]));
                assert(store.spec_recent_rows(session_id, limit as nat)[x] == rows[start + x]);
            }
            assert(r@.map_values(cview) =~= recent);
        }
        r
    }
}

} // verus!
