//! Session store: resolving an external conversation id to a session,
//! and clearing a conversation's history.

use vstd::prelude::*;
use vstd::pervasive::VecAdditionalExecFns;

use crate::rows::MessageRow;
use crate::rows::Session;
use crate::seq_facts::lemma_filter_membership;
use crate::seq_facts::lemma_filter_preserves_distinct;
use crate::seq_facts::lemma_filter_preserves_sorted;
use crate::seq_facts::lemma_filter_push;
use crate::store::ChatStore;

verus! {

/// The session id that a find-or-create on `pre` resolves to: the
/// existing session's id, or the next identity when none exists.
pub open spec fn focr_result(pre: ChatStore, chat_id: i64) -> i64 {
    match pre.spec_session_for(chat_id) {
        Some(id) => id,
        None => pre.next_session_id,
    }
}

/// How find-or-create changes the store: an existing session has its
/// last-activity time refreshed; otherwise a new row is appended with
/// the next identity. Nothing else moves.
pub open spec fn focr_post(pre: ChatStore, post: ChatStore, chat_id: i64, now: u64, sid: i64) -> bool {
    &&& sid == focr_result(pre, chat_id)
    &&& post.clock == now
    &&& post.messages@ == pre.messages@
    &&& post.whitelist@ == pre.whitelist@
    &&& post.admins@ == pre.admins@
    &&& post.next_message_id == pre.next_message_id
    &&& post.next_whitelist_id == pre.next_whitelist_id
    &&& post.next_admin_id == pre.next_admin_id
    &&& match pre.spec_session_for(chat_id) {
        Some(_) => {
            let k = pre.chat_index(chat_id);
            &&& post.sessions@ == pre.sessions@.update(
                k,
                Session { updated_at: now, ..pre.sessions@[k] },
            )
            &&& post.next_session_id == pre.next_session_id
        },
        None => {
            &&& post.sessions@ == pre.sessions@.push(
                Session { id: sid, chat_id, created_at: now, updated_at: now },
            )
            &&& post.next_session_id == pre.next_session_id + 1
        },
    }
}

/// How clearing a conversation changes the store: its session rows and
/// all messages owned by them are gone; everything else stays. Clearing
/// a conversation with no session is a no-op.
pub open spec fn clear_post(pre: ChatStore, post: ChatStore, chat_id: i64) -> bool {
    &&& post.sessions@ == pre.sessions@.filter(|s: Session| s.chat_id != chat_id)
    &&& post.messages@ == pre.messages@.filter(
        |m: MessageRow| !pre.chat_owns(chat_id, m.session_id),
    )
    &&& post.whitelist@ == pre.whitelist@
    &&& post.admins@ == pre.admins@
    &&& post.next_session_id == pre.next_session_id
    &&& post.next_message_id == pre.next_message_id
    &&& post.next_whitelist_id == pre.next_whitelist_id
    &&& post.next_admin_id == pre.next_admin_id
    &&& post.clock == pre.clock
}

impl Session {
    /// Resolves an external conversation id to a session id. An existing
    /// session has `updated_at` refreshed to `now`; otherwise a fresh row
    /// is created with `now` as both of its times.
    #[verifier::loop_isolation(false)]
    pub fn find_or_create_by_chat_id(store: &mut ChatStore, chat_id: i64, now: u64) -> (sid: i64)
        requires
            old(store).wf(),
            now >= old(store).clock,
            old(store).next_session_id < i64::MAX,
        ensures
            final(store).wf(),
            focr_post(*old(store), *final(store), chat_id, now, sid),
    {
        let n = store.sessions.len();
        let mut i: usize = 0;
        while i < n
            invariant
                *store == *old(store),
                i <= n,
                forall|j: int| 0 <= j < i ==> (#[trigger] store.sessions@[j]).chat_id != chat_id,
            decreases n - i,
        {
            if store.sessions[i].chat_id == chat_id {
                let id = store.sessions[i].id;
                let created = store.sessions[i].created_at;
                proof {
                    assert(store.sessions@[i as int].chat_id == chat_id);
                    assert(store.has_session_for_chat(chat_id));
                    let k = store.chat_index(chat_id);
                    assert(0 <= k < store.sessions@.len() && store.sessions@[k].chat_id == chat_id);
                    // one session per conversation id, so the found index
                    // is the resolved one
                    assert(store.sessions@[k].chat_id == store.sessions@[i as int].chat_id);
                    assert(k == i as int);
                }
                store.sessions.set(
                    i,
                    Session { id, chat_id, created_at: created, updated_at: now },
                );
                store.clock = now;
                proof {
                    let k = old(store).chat_index(chat_id);
                    assert(store.sessions@ =~= old(store).sessions@.update(
                        k,
                        Session { updated_at: now, ..old(store).sessions@[k] },
                    ));
                    assert forall|m: int|
                        0 <= m < store.messages@.len() implies store.has_session_id(
                        (#[trigger] store.messages@[m]).session_id,
                    ) by {
                        assert(old(store).has_session_id(old(store).messages@[m].session_id));
                        let s = choose|s: int|
                            0 <= s < old(store).sessions@.len() && old(store).sessions@[s].id == old(
                                store,
                            ).messages@[m].session_id;
                        assert(store.sessions@[s].id == old(store).messages@[m].session_id);
                    }
                }
                return id;
            }
            i += 1;
        }
        let sid = store.next_session_id;
        store.sessions.push(Session { id: sid, chat_id, created_at: now, updated_at: now });
        store.next_session_id = sid + 1;
        store.clock = now;
        proof {
            assert(!old(store).has_session_for_chat(chat_id));
            assert forall|m: int|
                0 <= m < store.messages@.len() implies store.has_session_id(
                (#[trigger] store.messages@[m]).session_id,
            ) by {
                assert(old(store).has_session_id(old(store).messages@[m].session_id));
                let s = choose|s: int|
                    0 <= s < old(store).sessions@.len() && old(store).sessions@[s].id == old(
                        store,
                    ).messages@[m].session_id;
                assert(store.sessions@[s].id == old(store).messages@[m].session_id);
            }
        }
        sid
    }

    /// Deletes all messages of every session of the conversation, then
    /// the session rows themselves; a conversation with no session is
    /// left untouched.
    #[verifier::loop_isolation(false)]
    pub fn clear_history_by_chat_id(store: &mut ChatStore, chat_id: i64)
        requires
            old(store).wf(),
        ensures
            final(store).wf(),
            clear_post(*old(store), *final(store), chat_id),
    {
        let ghost pre = *old(store);
        let ghost mpred = |m: MessageRow| !pre.chat_owns(chat_id, m.session_id);
        let ghost spred = |s: Session| s.chat_id != chat_id;
        let ghost dpred = |s: Session| s.chat_id == chat_id;
        let ghost to_id = |s: Session| s.id;

        // collect the session ids owned by the conversation
        let mut doomed: Vec<i64> = Vec::new();
        let n = store.sessions.len();
        let mut i: usize = 0;
        while i < n
            invariant
                *store == pre,
                i <= n,
                doomed@ == store.sessions@.subrange(0, i as int).filter(dpred).map_values(to_id),
            decreases n - i,
        {
            proof {
                assert(store.sessions@.subrange(0, i + 1) =~= store.sessions@.subrange(
                    0,
                    i as int,
                ).push(store.sessions@[i as int]));
                lemma_filter_push(store.sessions@.subrange(0, i as int), store.sessions@[i as int], dpred);
            }
            if store.sessions[i].chat_id == chat_id {
                doomed.push(store.sessions[i].id);
                proof {
                    assert(doomed@ =~= store.sessions@.subrange(0, i + 1).filter(dpred).map_values(
                        to_id,
                    ));
                }
            } else {
                proof {
                    assert(doomed@ =~= store.sessions@.subrange(0, i + 1).filter(dpred).map_values(
                        to_id,
                    ));
                }
            }
            i += 1;
        }
        proof {
            assert(store.sessions@.subrange(0, n as int) =~= store.sessions@);
            lemma_filter_membership(pre.sessions@, dpred);
            assert forall|sid: i64| #[trigger] doomed@.contains(sid) <==> pre.chat_owns(
                chat_id,
                sid,
            ) by {
                let f = pre.sessions@.filter(dpred);
                if doomed@.contains(sid) {
                    let d = choose|d: int| 0 <= d < doomed@.len() && doomed@[d] == sid;
                    assert(doomed@[d] == f[d].id);
                    assert(pre.sessions@.contains(f[d]));
                    pre.sessions@.lemma_filter_pred(dpred, d);
                    let j = choose|j: int| 0 <= j < pre.sessions@.len() && pre.sessions@[j] == f[d];
                    assert(pre.sessions@[j].chat_id == chat_id && pre.sessions@[j].id == sid);
                }
                if pre.chat_owns(chat_id, sid) {
                    let j = choose|j: int|
                        0 <= j < pre.sessions@.len() && pre.sessions@[j].id == sid
                            && pre.sessions@[j].chat_id == chat_id;
                    pre.sessions@.lemma_filter_contains(dpred, j);
                    assert(f.contains(pre.sessions@[j]));
                    let d = choose|d: int| 0 <= d < f.len() && f[d] == pre.sessions@[j];
                    assert(doomed@[d] == sid);
                }
            }
        }

        // keep only the messages of surviving sessions
        let mut kept: Vec<MessageRow> = Vec::new();
        let m_total = store.messages.len();
        let mut k: usize = 0;
        while k < m_total
            invariant
                *store == pre,
                k <= m_total,
                kept@ == store.messages@.subrange(0, k as int).filter(mpred),
                forall|sid: i64| #[trigger] doomed@.contains(sid) <==> pre.chat_owns(chat_id, sid),
            decreases m_total - k,
        {
            let keep = !contains_id(&doomed, store.messages[k].session_id);
            proof {
                assert(keep == mpred(store.messages@[k as int]));
                assert(store.messages@.subrange(0, k + 1) =~= store.messages@.subrange(
                    0,
                    k as int,
                ).push(store.messages@[k as int]));
                lemma_filter_push(store.messages@.subrange(0, k as int), store.messages@[k as int], mpred);
            }
            if keep {
                let row = store.messages[k].clone();
                kept.push(row);
                proof {
                    assert(kept@ =~= store.messages@.subrange(0, k + 1).filter(mpred));
                }
            }
            k += 1;
        }
        proof {
            assert(store.messages@.subrange(0, m_total as int) =~= store.messages@);
        }

        // drop the conversation's session rows
        let mut left: Vec<Session> = Vec::new();
        let s_total = store.sessions.len();
        let mut t: usize = 0;
        while t < s_total
            invariant
                *store == pre,
                t <= s_total,
                left@ == store.sessions@.subrange(0, t as int).filter(spred),
            decreases s_total - t,
        {
            proof {
                assert(store.sessions@.subrange(0, t + 1) =~= store.sessions@.subrange(
                    0,
                    t as int,
                ).push(store.sessions@[t as int]));
                lemma_filter_push(store.sessions@.subrange(0, t as int), store.sessions@[t as int], spred);
            }
            if store.sessions[t].chat_id != chat_id {
                let row = store.sessions[t];
                left.push(row);
            }
            t += 1;
        }
        proof {
            assert(store.sessions@.subrange(0, s_total as int) =~= store.sessions@);
        }

        store.messages = kept;
        store.sessions = left;

        proof {
            lemma_filter_membership(pre.messages@, mpred);
            lemma_filter_membership(pre.sessions@, spred);
            lemma_filter_preserves_distinct(pre.messages@, mpred, |m: MessageRow| m.id);
            lemma_filter_preserves_distinct(pre.sessions@, spred, |s: Session| s.id);
            lemma_filter_preserves_distinct(pre.sessions@, spred, |s: Session| s.chat_id);
            lemma_filter_preserves_sorted(pre.messages@, mpred, |m: MessageRow| m.timestamp as int);
            // surviving messages still reference live sessions
            assert forall|m: int|
                0 <= m < store.messages@.len() implies store.has_session_id(
                (#[trigger] store.messages@[m]).session_id,
            ) by {
                let row = store.messages@[m];
                assert(pre.messages@.contains(row));
                let j = choose|j: int| 0 <= j < pre.messages@.len() && pre.messages@[j] == row;
                assert(pre.has_session_id(row.session_id));
                let s = choose|s: int|
                    0 <= s < pre.sessions@.len() && pre.sessions@[s].id == row.session_id;
                pre.messages@.lemma_filter_pred(mpred, m);
                assert(!pre.chat_owns(chat_id, row.session_id));
                assert(pre.sessions@[s].chat_id != chat_id);
                assert(spred(pre.sessions@[s]));
                pre.sessions@.lemma_filter_contains(spred, s);
                assert(store.sessions@.contains(pre.sessions@[s]));
                let q = choose|q: int|
                    0 <= q < store.sessions@.len() && store.sessions@[q] == pre.sessions@[s];
                assert(store.sessions@[q].id == row.session_id);
            }
        }
    }
}

/// Linear membership test on a vector of session ids.
fn contains_id(v: &Vec<i64>, x: i64) -> (r: bool)
    ensures
        r == v@.contains(x),
{
    let n = v.len();
    let mut i: usize = 0;
    while i < n
        invariant
            n == v@.len(),
            i <= n,
            forall|j: int| 0 <= j < i ==> v@[j] != x,
        decreases n - i,
    {
        if v[i] == x {
            return true;
        }
        i += 1;
    }
    false
}

} // verus!
