//! Runtime checks of the bootstrap seeding and of the backend dialect
//! selection and statement texts.

use chat_relay::bootstrap::add_initial_admins;
use chat_relay::bootstrap::parse_admin_ids;
use chat_relay::bootstrap::parse_user_id;
use chat_relay::rows::Admin;
use chat_relay::sql::dialect_for_url;
use chat_relay::sql::insert_returns_id;
use chat_relay::sql::statement_sql;
use chat_relay::sql::Dialect;
use chat_relay::sql::StatementKind;
use chat_relay::store::ChatStore;

#[test]
fn parse_user_id_exact_values() {
    assert_eq!(parse_user_id(b"42"), Some(42));
    assert_eq!(parse_user_id(b"  42\t"), Some(42));
    assert_eq!(parse_user_id(b"+7"), Some(7));
    assert_eq!(parse_user_id(b"0"), Some(0));
    assert_eq!(parse_user_id(b"18446744073709551615"), Some(u64::MAX));
    assert_eq!(parse_user_id(b"18446744073709551616"), None);
    assert_eq!(parse_user_id(b""), None);
    assert_eq!(parse_user_id(b"   "), None);
    assert_eq!(parse_user_id(b"-5"), None);
    assert_eq!(parse_user_id(b"4 4"), None);
    assert_eq!(parse_user_id(b"12a"), None);
    assert_eq!(parse_user_id(b"+"), None);
}

#[test]
fn parse_admin_ids_skips_invalid_entries() {
    let parsed = parse_admin_ids(b"1001, 2002,abc,,+30 ,99999999999999999999999999");
    assert_eq!(parsed, vec![1001, 2002, 30]);
    assert_eq!(parse_admin_ids(b""), Vec::<u64>::new());
    assert_eq!(parse_admin_ids(b","), Vec::<u64>::new());
    assert_eq!(parse_admin_ids(b"7"), vec![7]);
}

#[test]
fn seeding_is_idempotent_and_keeps_tiers() {
    let mut s = ChatStore::new();
    add_initial_admins(&mut s, b"1001,2002", 1);
    assert_eq!(s.admins.len(), 2);
    assert!(s.admins.iter().all(|a| a.is_super));
    assert!(Admin::is_super_admin(&s, 1001));
    assert!(Admin::is_super_admin(&s, 2002));
    add_initial_admins(&mut s, b"1001,2002,3003", 2);
    assert_eq!(s.admins.len(), 3);
    assert!(Admin::is_super_admin(&s, 3003));
}

#[test]
fn seeding_never_promotes_an_existing_admin() {
    let mut s = ChatStore::new();
    Admin::add_admin(&mut s, 10, None, false, 1);
    add_initial_admins(&mut s, b"10", 2);
    assert_eq!(s.admins.len(), 1);
    assert!(!Admin::is_super_admin(&s, 10));
}

#[test]
fn empty_seed_list_seeds_nothing() {
    let mut s = ChatStore::new();
    add_initial_admins(&mut s, b"", 1);
    assert_eq!(s.admins.len(), 0);
}

#[test]
fn connection_string_prefix_selects_the_dialect() {
    assert_eq!(dialect_for_url(b"postgres://db/chat"), Dialect::Postgres);
    assert_eq!(dialect_for_url(b"postgres:"), Dialect::Postgres);
    assert_eq!(dialect_for_url(b"postgre"), Dialect::Sqlite);
    assert_eq!(dialect_for_url(b"sqlite:chat_database.db"), Dialect::Sqlite);
    assert_eq!(dialect_for_url(b""), Dialect::Sqlite);
    assert_eq!(dialect_for_url(b"mysql://db"), Dialect::Sqlite);
}

#[test]
fn statement_texts_follow_the_dialect() {
    assert_eq!(
        statement_sql(Dialect::Sqlite, StatementKind::SessionLookup),
        "SELECT id FROM sessions WHERE chat_id = ?"
    );
    assert_eq!(
        statement_sql(Dialect::Postgres, StatementKind::SessionLookup),
        "SELECT id FROM sessions WHERE chat_id = $1"
    );
    assert_eq!(
        statement_sql(Dialect::Sqlite, StatementKind::SessionInsert),
        "INSERT INTO sessions (chat_id) VALUES (?)"
    );
    assert_eq!(
        statement_sql(Dialect::Postgres, StatementKind::SessionInsert),
        "INSERT INTO sessions (chat_id) VALUES ($1) RETURNING id"
    );
    assert_eq!(
        statement_sql(Dialect::Sqlite, StatementKind::WhitelistUpsert),
        "INSERT OR IGNORE INTO whitelist_users (user_id, username, added_by, notes) VALUES (?, ?, ?, ?)"
    );
    assert_eq!(
        statement_sql(Dialect::Postgres, StatementKind::WhitelistUpsert),
        "INSERT INTO whitelist_users (user_id, username, added_by, notes) VALUES ($1, $2, $3, $4) ON CONFLICT (user_id) DO NOTHING"
    );
    assert_eq!(
        statement_sql(Dialect::Sqlite, StatementKind::SeedAdminUpsert),
        "INSERT OR IGNORE INTO admins (user_id, is_super) VALUES (?, 1)"
    );
    assert_eq!(
        statement_sql(Dialect::Postgres, StatementKind::SeedAdminUpsert),
        "INSERT INTO admins (user_id, is_super) VALUES ($1, TRUE) ON CONFLICT (user_id) DO NOTHING"
    );
    assert!(statement_sql(Dialect::Sqlite, StatementKind::CreateSessions).contains("AUTOINCREMENT"));
    assert!(statement_sql(Dialect::Postgres, StatementKind::CreateSessions).contains("SERIAL"));
}

#[test]
fn identity_retrieval_convention_differs_per_dialect() {
    assert!(!insert_returns_id(Dialect::Sqlite));
    assert!(insert_returns_id(Dialect::Postgres));
}
