//! Runtime checks of the store: session resolution, the message log,
//! history clearing, the authorization registry and the guarded policy
//! operations.

use chat_relay::messages::Message;
use chat_relay::policy::access_granted;
use chat_relay::policy::admin_add_user;
use chat_relay::policy::admin_list_admins;
use chat_relay::policy::admin_list_users;
use chat_relay::policy::admin_remove_user;
use chat_relay::policy::check_access;
use chat_relay::policy::process_incoming;
use chat_relay::policy::super_add_admin;
use chat_relay::policy::user_clear_history;
use chat_relay::policy::PolicyError;
use chat_relay::registry::opt_to_owned;
use chat_relay::rows::Admin;
use chat_relay::rows::Session;
use chat_relay::rows::WhitelistUser;
use chat_relay::store::ChatStore;

#[test]
fn find_or_create_twice_returns_same_session() {
    let mut s = ChatStore::new();
    let first = Session::find_or_create_by_chat_id(&mut s, 42, 10);
    let second = Session::find_or_create_by_chat_id(&mut s, 42, 20);
    assert_eq!(first, second);
    assert_eq!(s.sessions.len(), 1);
    assert_eq!(s.sessions[0].created_at, 10);
    assert_eq!(s.sessions[0].updated_at, 20);
    assert!(s.sessions[0].updated_at >= 10);
}

#[test]
fn distinct_conversations_get_distinct_sessions() {
    let mut s = ChatStore::new();
    let a = Session::find_or_create_by_chat_id(&mut s, 1, 1);
    let b = Session::find_or_create_by_chat_id(&mut s, 2, 2);
    assert_ne!(a, b);
    assert_eq!(s.sessions.len(), 2);
}

#[test]
fn recent_is_bounded_ordered_suffix() {
    let mut s = ChatStore::new();
    let sid = Session::find_or_create_by_chat_id(&mut s, 7, 1);
    for k in 0..5u64 {
        let text = format!("m{}", k);
        Message::create(&mut s, sid, "user", &text, 2 + k);
    }
    let window = Message::get_recent_messages(&s, sid, 3);
    assert_eq!(window.len(), 3);
    assert_eq!(window[0].content, "m2");
    assert_eq!(window[1].content, "m3");
    assert_eq!(window[2].content, "m4");
    let all = Message::get_recent_messages(&s, sid, 100);
    assert_eq!(all.len(), 5);
    for k in 0..5usize {
        assert_eq!(all[k].content, format!("m{}", k));
        assert_eq!(all[k].role, "user");
    }
    let none = Message::get_recent_messages(&s, sid, 0);
    assert_eq!(none.len(), 0);
}

#[test]
fn append_is_monotonic() {
    let mut s = ChatStore::new();
    let sid = Session::find_or_create_by_chat_id(&mut s, 7, 1);
    for k in 0..4u64 {
        let text = format!("turn{}", k);
        Message::create(&mut s, sid, "user", &text, 2 + k);
        let history = Message::get_recent_messages(&s, sid, usize::MAX);
        assert_eq!(history.len(), (k + 1) as usize);
        assert_eq!(history[k as usize].content, format!("turn{}", k));
    }
}

#[test]
fn clear_then_find_or_create_yields_fresh_empty_session() {
    let mut s = ChatStore::new();
    let sid = Session::find_or_create_by_chat_id(&mut s, 42, 1);
    Message::create(&mut s, sid, "user", "hello", 2);
    Message::create(&mut s, sid, "assistant", "hi", 3);
    Session::clear_history_by_chat_id(&mut s, 42);
    assert_eq!(s.sessions.len(), 0);
    assert_eq!(s.messages.len(), 0);
    let fresh = Session::find_or_create_by_chat_id(&mut s, 42, 4);
    assert_ne!(fresh, sid);
    assert_eq!(Message::get_recent_messages(&s, fresh, 10).len(), 0);
}

#[test]
fn clear_without_session_is_a_no_op() {
    let mut s = ChatStore::new();
    let sid = Session::find_or_create_by_chat_id(&mut s, 1, 1);
    Message::create(&mut s, sid, "user", "kept", 2);
    Session::clear_history_by_chat_id(&mut s, 999);
    assert_eq!(s.sessions.len(), 1);
    assert_eq!(s.messages.len(), 1);
}

#[test]
fn clear_only_touches_its_conversation() {
    let mut s = ChatStore::new();
    let a = Session::find_or_create_by_chat_id(&mut s, 1, 1);
    let b = Session::find_or_create_by_chat_id(&mut s, 2, 2);
    Message::create(&mut s, a, "user", "gone", 3);
    Message::create(&mut s, b, "user", "kept", 4);
    Session::clear_history_by_chat_id(&mut s, 1);
    assert_eq!(s.sessions.len(), 1);
    assert_eq!(s.sessions[0].chat_id, 2);
    let left = Message::get_recent_messages(&s, b, 10);
    assert_eq!(left.len(), 1);
    assert_eq!(left[0].content, "kept");
}

#[test]
fn whitelist_add_is_idempotent() {
    let mut s = ChatStore::new();
    WhitelistUser::add_user(&mut s, 55, None, 1001, Some("friend"), 1);
    WhitelistUser::add_user(&mut s, 55, Some("other"), 9, Some("note"), 2);
    assert_eq!(s.whitelist.len(), 1);
    assert_eq!(s.whitelist[0].user_id, 55);
    assert_eq!(s.whitelist[0].added_by, 1001);
    assert_eq!(s.whitelist[0].notes, Some("friend".to_string()));
    assert!(WhitelistUser::is_user_whitelisted(&s, 55));
}

#[test]
fn remove_absent_user_returns_false_and_changes_nothing() {
    let mut s = ChatStore::new();
    WhitelistUser::add_user(&mut s, 55, None, 1001, None, 1);
    assert!(!WhitelistUser::remove_user(&mut s, 66));
    assert_eq!(s.whitelist.len(), 1);
    assert!(WhitelistUser::remove_user(&mut s, 55));
    assert_eq!(s.whitelist.len(), 0);
    assert!(!WhitelistUser::is_user_whitelisted(&s, 55));
}

#[test]
fn whitelist_listing_is_most_recent_first() {
    let mut s = ChatStore::new();
    WhitelistUser::add_user(&mut s, 1, None, 9, None, 1);
    WhitelistUser::add_user(&mut s, 2, None, 9, None, 2);
    WhitelistUser::add_user(&mut s, 3, None, 9, None, 3);
    let listed = WhitelistUser::get_all_users(&s);
    let ids: Vec<u64> = listed.iter().map(|w| w.user_id).collect();
    assert_eq!(ids, vec![3, 2, 1]);
}

#[test]
fn admin_listing_is_supers_first_then_by_grant_time() {
    let mut s = ChatStore::new();
    Admin::add_admin(&mut s, 10, None, false, 1);
    Admin::add_admin(&mut s, 11, None, true, 2);
    Admin::add_admin(&mut s, 12, None, false, 3);
    Admin::add_admin(&mut s, 13, None, true, 4);
    let listed = Admin::get_all_admins(&s);
    let ids: Vec<u64> = listed.iter().map(|a| a.user_id).collect();
    assert_eq!(ids, vec![11, 13, 10, 12]);
}

#[test]
fn admin_add_keeps_existing_tier() {
    let mut s = ChatStore::new();
    Admin::add_admin(&mut s, 10, None, true, 1);
    Admin::add_admin(&mut s, 10, None, false, 2);
    assert_eq!(s.admins.len(), 1);
    assert!(s.admins[0].is_super);
    assert!(Admin::is_super_admin(&s, 10));
}

#[test]
fn admin_without_whitelist_is_granted_access() {
    let mut s = ChatStore::new();
    Admin::add_admin(&mut s, 77, None, false, 1);
    assert!(Admin::is_admin(&s, 77));
    assert!(!WhitelistUser::is_user_whitelisted(&s, 77));
    assert!(check_access(&s, 77));
    assert!(!check_access(&s, 78));
    assert!(access_granted(true, false));
    assert!(access_granted(false, true));
    assert!(!access_granted(false, false));
}

#[test]
fn conversation_scenario_hello_hi() {
    let mut s = ChatStore::new();
    let (sid, context) = process_incoming(&mut s, 42, "hello", 10, 1);
    assert_eq!(context.len(), 1);
    assert_eq!(context[0].role, "user");
    assert_eq!(context[0].content, "hello");
    Message::create(&mut s, sid, "assistant", "hi", 2);
    let window = Message::get_recent_messages(&s, sid, 10);
    assert_eq!(window.len(), 2);
    assert_eq!(window[0].role, "user");
    assert_eq!(window[0].content, "hello");
    assert_eq!(window[1].role, "assistant");
    assert_eq!(window[1].content, "hi");
}

#[test]
fn admin_whitelists_user_with_note_without_duplicates() {
    let mut s = ChatStore::new();
    Admin::add_admin(&mut s, 1001, None, true, 1);
    assert_eq!(admin_add_user(&mut s, 1001, 55, None, Some("friend"), 2), Ok(()));
    let listed = admin_list_users(&s, 1001).unwrap();
    assert_eq!(listed.len(), 1);
    assert_eq!(listed[0].user_id, 55);
    assert_eq!(listed[0].notes, Some("friend".to_string()));
    assert_eq!(admin_add_user(&mut s, 1001, 55, None, Some("again"), 3), Ok(()));
    let relisted = admin_list_users(&s, 1001).unwrap();
    assert_eq!(relisted.len(), 1);
    assert_eq!(relisted[0].notes, Some("friend".to_string()));
}

#[test]
fn non_admin_mutation_is_rejected_without_effect() {
    let mut s = ChatStore::new();
    assert_eq!(
        admin_add_user(&mut s, 9, 55, None, None, 1),
        Err(PolicyError::AdminRequired)
    );
    assert_eq!(s.whitelist.len(), 0);
    assert!(!WhitelistUser::is_user_whitelisted(&s, 55));
    assert_eq!(admin_remove_user(&mut s, 9, 55), Err(PolicyError::AdminRequired));
    assert!(matches!(admin_list_users(&s, 9), Err(PolicyError::AdminRequired)));
    assert!(matches!(admin_list_admins(&s, 9), Err(PolicyError::AdminRequired)));
}

#[test]
fn only_super_admins_grant_admin_rights() {
    let mut s = ChatStore::new();
    Admin::add_admin(&mut s, 10, None, false, 1);
    assert_eq!(
        super_add_admin(&mut s, 10, 20, None, 2),
        Err(PolicyError::SuperAdminRequired)
    );
    assert_eq!(s.admins.len(), 1);
    Admin::add_admin(&mut s, 11, None, true, 3);
    assert_eq!(super_add_admin(&mut s, 11, 20, None, 4), Ok(()));
    assert_eq!(s.admins.len(), 3);
    assert!(Admin::is_admin(&s, 20));
    assert!(!Admin::is_super_admin(&s, 20));
}

#[test]
fn clear_command_needs_access() {
    let mut s = ChatStore::new();
    let sid = Session::find_or_create_by_chat_id(&mut s, 5, 1);
    Message::create(&mut s, sid, "user", "secret", 2);
    assert_eq!(user_clear_history(&mut s, 9, 5), Err(PolicyError::AccessDenied));
    assert_eq!(s.messages.len(), 1);
    WhitelistUser::add_user(&mut s, 9, None, 1, None, 3);
    assert_eq!(user_clear_history(&mut s, 9, 5), Ok(()));
    assert_eq!(s.messages.len(), 0);
    assert_eq!(s.sessions.len(), 0);
}

#[test]
fn opt_to_owned_copies_the_borrowed_text() {
    assert_eq!(opt_to_owned(Some("abc")), Some("abc".to_string()));
    assert_eq!(opt_to_owned(None), None);
}
