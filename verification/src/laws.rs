//! The laws of the store: properties that relate several operations,
//! stated over the same transition relations the operations' contracts
//! use, and proved once and for all.

use vstd::prelude::*;

use crate::messages::create_post;
use crate::policy::spec_access_granted;
use crate::registry::add_user_post;
use crate::registry::remove_user_post;
use crate::rows::MessageRow;
use crate::rows::Session;
use crate::rows::WhitelistUser;
use crate::seq_facts::lemma_filter_all;
use crate::seq_facts::lemma_filter_membership;
use crate::seq_facts::lemma_filter_none;
use crate::seq_facts::lemma_filter_preserves_sorted;
use crate::seq_facts::lemma_filter_push;
use crate::sessions::clear_post;
use crate::sessions::focr_post;
use crate::store::ChatStore;

verus! {

/// Resolving the same conversation twice in a row yields the same
/// session id, and the second resolution leaves the session's
/// last-activity time no older than the first did.
pub proof fn lemma_find_or_create_stable(
    s0: ChatStore,
    s1: ChatStore,
    s2: ChatStore,
    chat_id: i64,
    t1: u64,
    t2: u64,
    sid1: i64,
    sid2: i64,
)
    requires
        s0.wf(),
        focr_post(s0, s1, chat_id, t1, sid1),
        t2 >= s1.clock,
        focr_post(s1, s2, chat_id, t2, sid2),
    ensures
        sid2 == sid1,
        s1.has_session_for_chat(chat_id),
        s2.has_session_for_chat(chat_id),
        s2.sessions@[s2.chat_index(chat_id)].updated_at >= s1.sessions@[s1.chat_index(
            chat_id,
        )].updated_at,
{
    match s0.spec_session_for(chat_id) {
        Some(_) => {
            let k = s0.chat_index(chat_id);
            assert(0 <= k < s0.sessions@.len() && s0.sessions@[k].chat_id == chat_id);
            assert(s1.sessions@[k].chat_id == chat_id && s1.sessions@[k].id == sid1);
            assert(s1.has_session_for_chat(chat_id));
            let k1 = s1.chat_index(chat_id);
            assert(0 <= k1 < s1.sessions@.len() && s1.sessions@[k1].chat_id == chat_id);
            // one session per conversation id in the earlier store pins
            // the index down after the update as well
            assert(k1 == k) by {
                if k1 != k {
                    assert(s0.sessions@[k1].chat_id == s1.sessions@[k1].chat_id);
                }
            }
            assert(s1.spec_session_for(chat_id) == Some(sid1));
            assert(s1.sessions@[k].updated_at == t1);
            let k2 = s2.chat_index(chat_id);
            assert(s2.sessions@[k].chat_id == chat_id && s2.has_session_for_chat(chat_id));
            assert(k2 == k) by {
                if k2 != k {
                    assert(s1.sessions@[k2].chat_id == s2.sessions@[k2].chat_id);
                }
            }
            assert(s2.sessions@[k].updated_at == t2);
        },
        None => {
            let n = s0.sessions@.len() as int;
            assert(s1.sessions@[n].chat_id == chat_id && s1.sessions@[n].id == sid1);
            assert(s1.has_session_for_chat(chat_id));
            let k1 = s1.chat_index(chat_id);
            assert(0 <= k1 < s1.sessions@.len() && s1.sessions@[k1].chat_id == chat_id);
            assert(k1 == n) by {
                if k1 < n {
                    assert(s0.sessions@[k1].chat_id == chat_id);
                    assert(s0.has_session_for_chat(chat_id));
                }
            }
            assert(s1.spec_session_for(chat_id) == Some(sid1));
            assert(s1.sessions@[n].updated_at == t1);
            let k2 = s2.chat_index(chat_id);
            assert(s2.sessions@[n].chat_id == chat_id && s2.has_session_for_chat(chat_id));
            assert(k2 == n) by {
                if k2 != n {
                    assert(s1.sessions@[k2].chat_id == s2.sessions@[k2].chat_id);
                    assert(s1.sessions@[k2].chat_id == chat_id);
                    if k2 < n {
                        assert(s0.sessions@[k2].chat_id == chat_id);
                        assert(s0.has_session_for_chat(chat_id));
                    }
                }
            }
            assert(s2.sessions@[n].updated_at == t2);
        },
    }
}

/// The recent-context window holds at most `limit` turns, is exactly
/// the suffix of the session's append history of length
/// `min(limit, history)`, and its timestamps never decrease.
pub proof fn lemma_recent_window(s: ChatStore, sid: i64, limit: nat)
    requires
        s.wf(),
    ensures
        s.spec_recent(sid, limit).len() <= limit,
        s.spec_recent_rows(sid, limit).len() == if s.rows_of(sid).len() <= limit {
            s.rows_of(sid).len()
        } else {
            limit
        },
        forall|i: int|
            0 <= i < s.spec_recent_rows(sid, limit).len() ==> #[trigger] s.spec_recent_rows(
                sid,
                limit,
            )[i] == s.rows_of(sid)[s.rows_of(sid).len() - s.spec_recent_rows(sid, limit).len() + i],
        forall|i: int, j: int|
            0 <= i <= j < s.spec_recent_rows(sid, limit).len() ==> (#[trigger] s.spec_recent_rows(
                sid,
                limit,
            )[i]).timestamp <= (#[trigger] s.spec_recent_rows(sid, limit)[j]).timestamp,
{
    let fpred = |m: MessageRow| m.session_id == sid;
    lemma_filter_preserves_sorted(s.messages@, fpred, |m: MessageRow| m.timestamp as int);
}

/// Appending a turn extends the session's history by exactly that turn,
/// at the end, and touches no other session's history.
pub proof fn lemma_append_monotonic(
    pre: ChatStore,
    post: ChatStore,
    sid: i64,
    role: Seq<char>,
    content: Seq<char>,
    now: u64,
)
    requires
        pre.wf(),
        create_post(pre, post, sid, role, content, now),
    ensures
        post.rows_of(sid) == pre.rows_of(sid).push(post.messages@.last()),
        post.msgs_of(sid) == pre.msgs_of(sid).push((role, content)),
        forall|other: i64| other != sid ==> #[trigger] post.rows_of(other) == pre.rows_of(other),
{
    let fpred = |m: MessageRow| m.session_id == sid;
    let proj = |m: MessageRow| (m.role@, m.content@);
    let last = post.messages@.last();
    assert(post.messages@ =~= pre.messages@.push(last));
    lemma_filter_push(pre.messages@, last, fpred);
    assert(post.rows_of(sid) == pre.rows_of(sid).push(last));
    assert forall|x: int|
        0 <= x < post.msgs_of(sid).len() implies post.msgs_of(sid)[x] == pre.msgs_of(sid).push(
        (role, content),
    )[x] by {
        if x < pre.rows_of(sid).len() {
            assert(post.rows_of(sid)[x] == pre.rows_of(sid)[x]);
        } else {
            assert(post.rows_of(sid)[x] == last);
        }
    }
    assert(post.msgs_of(sid) =~= pre.msgs_of(sid).push((role, content)));
    assert forall|other: i64| other != sid implies #[trigger] post.rows_of(other) == pre.rows_of(
        other,
    ) by {
        let opred = |m: MessageRow| m.session_id == other;
        lemma_filter_push(pre.messages@, last, opred);
    }
}

/// Appending is monotonic: a chain of `k` appends to a session extends
/// its history by exactly those `k` turns, in append order. With a wide
/// enough window (see [`lemma_recent_is_whole_history`]), a session that
/// started empty then yields exactly the `k` appended turns.
pub proof fn lemma_append_chain(
    trace: Seq<ChatStore>,
    sid: i64,
    turns: Seq<(Seq<char>, Seq<char>)>,
    times: Seq<u64>,
)
    requires
        trace.len() == turns.len() + 1,
        times.len() == turns.len(),
        forall|k: int| 0 <= k < trace.len() ==> (#[trigger] trace[k]).wf(),
        forall|k: int|
            0 <= k < turns.len() ==> create_post(
                trace[k],
                trace[k + 1],
                sid,
                (#[trigger] turns[k]).0,
                turns[k].1,
                times[k],
            ),
    ensures
        trace.last().msgs_of(sid) == trace.first().msgs_of(sid) + turns,
    decreases turns.len(),
{
    if turns.len() == 0 {
        assert(trace.last() == trace.first());
        assert(trace.first().msgs_of(sid) + turns =~= trace.first().msgs_of(sid));
    } else {
        let n = turns.len() as int;
        lemma_append_chain(trace.drop_last(), sid, turns.drop_last(), times.drop_last());
        lemma_append_monotonic(
            trace[n - 1],
            trace[n],
            sid,
            turns[n - 1].0,
            turns[n - 1].1,
            times[n - 1],
        );
        assert(trace.drop_last().last() == trace[n - 1]);
        assert(trace.drop_last().first() == trace.first());
        assert((trace.first().msgs_of(sid) + turns.drop_last()).push(turns[n - 1])
            =~= trace.first().msgs_of(sid) + turns);
    }
}

/// A window wide enough for the whole history is the whole history, in
/// append order.
pub proof fn lemma_recent_is_whole_history(s: ChatStore, sid: i64, limit: nat)
    requires
        limit >= s.rows_of(sid).len(),
    ensures
        s.spec_recent(sid, limit) == s.msgs_of(sid),
{
}

/// Clearing a conversation and then resolving it again yields a fresh
/// session — one whose id no session ever had before the clear — with
/// no messages at all.
pub proof fn lemma_clear_then_create_fresh(
    s0: ChatStore,
    s1: ChatStore,
    s2: ChatStore,
    chat_id: i64,
    now: u64,
    sid: i64,
)
    requires
        s0.wf(),
        s1.wf(),
        clear_post(s0, s1, chat_id),
        focr_post(s1, s2, chat_id, now, sid),
    ensures
        !s0.has_session_id(sid),
        s2.rows_of(sid).len() == 0,
        s2.msgs_of(sid).len() == 0,
{
    let spred = |s: Session| s.chat_id != chat_id;
    lemma_filter_membership(s0.sessions@, spred);
    // the cleared store has no session for this conversation
    assert(!s1.has_session_for_chat(chat_id)) by {
        if s1.has_session_for_chat(chat_id) {
            let i = choose|i: int|
                0 <= i < s1.sessions@.len() && s1.sessions@[i].chat_id == chat_id;
            s0.sessions@.lemma_filter_pred(spred, i);
        }
    }
    assert(sid == s1.next_session_id);
    assert(!s0.has_session_id(sid)) by {
        if s0.has_session_id(sid) {
            let i = choose|i: int| 0 <= i < s0.sessions@.len() && s0.sessions@[i].id == sid;
            assert(s0.sessions@[i].id < s0.next_session_id);
        }
    }
    // no surviving message can reference the fresh id: every surviving
    // session's id predates it
    let fpred = |m: MessageRow| m.session_id == sid;
    assert forall|m: int|
        0 <= m < s2.messages@.len() implies !fpred(#[trigger] s2.messages@[m]) by {
        assert(s1.has_session_id(s1.messages@[m].session_id));
        let i = choose|i: int|
            0 <= i < s1.sessions@.len() && s1.sessions@[i].id == s1.messages@[m].session_id;
        assert(s1.sessions@[i].id < s1.next_session_id);
    }
    lemma_filter_none(s2.messages@, fpred);
    assert(s2.rows_of(sid) == Seq::<MessageRow>::empty());
}

/// Whitelisting a user twice leaves exactly one row for them, and the
/// second grant is a silent no-op.
pub proof fn lemma_add_whitelist_idempotent(
    s0: ChatStore,
    s1: ChatStore,
    s2: ChatStore,
    u: u64,
    username1: Option<Seq<char>>,
    added_by1: u64,
    notes1: Option<Seq<char>>,
    t1: u64,
    username2: Option<Seq<char>>,
    added_by2: u64,
    notes2: Option<Seq<char>>,
    t2: u64,
)
    requires
        s0.wf(),
        add_user_post(s0, s1, u, username1, added_by1, notes1, t1),
        add_user_post(s1, s2, u, username2, added_by2, notes2, t2),
    ensures
        s2.whitelist@ == s1.whitelist@,
        exists|i: int| 0 <= i < s2.whitelist@.len() && (#[trigger] s2.whitelist@[i]).user_id == u,
        forall|i: int, j: int|
            0 <= i < j < s2.whitelist@.len() ==> !((#[trigger] s2.whitelist@[i]).user_id == u && (
            #[trigger] s2.whitelist@[j]).user_id == u),
{
    if s0.spec_is_whitelisted(u) {
        assert(s1.spec_is_whitelisted(u));
    } else {
        assert(s1.whitelist@.last().user_id == u);
        assert(s1.spec_is_whitelisted(u));
        assert forall|i: int, j: int|
            0 <= i < j < s1.whitelist@.len() implies #[trigger] s1.whitelist@[i].user_id
            != #[trigger] s1.whitelist@[j].user_id by {
            if j < s1.whitelist@.len() - 1 {
                assert(s0.whitelist@[i].user_id != s0.whitelist@[j].user_id);
            } else {
                assert(s1.whitelist@[i] == s0.whitelist@[i]);
                assert(!s0.spec_is_whitelisted(u));
            }
        }
    }
}

/// Removing an absent user reports that nothing was removed, and
/// changes nothing.
pub proof fn lemma_remove_absent_user(s0: ChatStore, s1: ChatStore, u: u64, removed: bool)
    requires
        s0.wf(),
        !s0.spec_is_whitelisted(u),
        remove_user_post(s0, s1, u, removed),
    ensures
        removed == false,
        s1.whitelist@ == s0.whitelist@,
{
    let wpred = |w: WhitelistUser| w.user_id != u;
    assert forall|i: int| 0 <= i < s0.whitelist@.len() implies wpred(#[trigger] s0.whitelist@[i]) by {
        if s0.whitelist@[i].user_id == u {
            assert(s0.spec_is_whitelisted(u));
        }
    }
    lemma_filter_all(s0.whitelist@, wpred);
}

/// The composed access policy: an admin is granted access whether or
/// not they are whitelisted, and a user in neither table is denied.
pub proof fn lemma_access_policy(s: ChatStore, u: u64)
    ensures
        s.spec_is_admin(u) ==> spec_access_granted(s.spec_is_admin(u), s.spec_is_whitelisted(u)),
        !s.spec_is_admin(u) && !s.spec_is_whitelisted(u) ==> !spec_access_granted(
            s.spec_is_admin(u),
            s.spec_is_whitelisted(u),
        ),
{
}

} // verus!
