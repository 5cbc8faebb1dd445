//! Storage backend dialects.
//!
//! The store is materialized on one of two relational backends whose
//! conventions differ: the embedded file-backed engine uses ordinal `?`
//! placeholders, reads fresh identities from the last-inserted rowid and
//! upserts with `INSERT OR IGNORE`; the networked engine uses numbered
//! `$n` placeholders, returns fresh identities through a `RETURNING`
//! clause and upserts with `ON CONFLICT ... DO NOTHING`. Every logical
//! statement of the store has one text per dialect, kept here so the
//! differences stay in one place; the driver that executes them lives
//! with the rest of the I/O, outside this crate.

use vstd::prelude::*;

verus! {

/// The two supported backend dialects.
#[derive(Clone, Copy, Debug, PartialEq, Eq, Structural)]
pub enum Dialect {
    /// Embedded file-backed engine: `?` placeholders, last-inserted
    /// rowid, `INSERT OR IGNORE`.
    Sqlite,
    /// Networked engine: `$n` placeholders, `RETURNING`,
    /// `ON CONFLICT ... DO NOTHING`.
    Postgres,
}

/// The logical statements the store issues.
#[derive(Clone, Copy, Debug, PartialEq, Eq, Structural)]
pub enum StatementKind {
    /// Idempotent creation of the session table.
    CreateSessions,
    /// Idempotent creation of the message table.
    CreateMessages,
    /// Idempotent creation of the whitelist table.
    CreateWhitelist,
    /// Idempotent creation of the admin table.
    CreateAdmins,
    /// Look a session up by conversation id; binds the conversation id.
    SessionLookup,
    /// Refresh a session's last-activity time; binds the session id.
    SessionTouch,
    /// Insert a fresh session; binds the conversation id.
    SessionInsert,
    /// Append one message row; binds session id, role and content.
    MessageInsert,
    /// Read a context window: the most recent rows, presented oldest
    /// first; binds session id and limit.
    RecentSelect,
    /// Delete one session's messages; binds the session id.
    MessagesDeleteBySession,
    /// Delete a conversation's sessions; binds the conversation id.
    SessionsDeleteByChat,
    /// Count whitelist rows for a user; binds the user id.
    WhitelistCount,
    /// Idempotent whitelist insert; binds user id, username, grantor
    /// and notes.
    WhitelistUpsert,
    /// Delete a user's whitelist row; binds the user id.
    WhitelistDelete,
    /// List the whitelist, most recently granted first; binds nothing.
    WhitelistList,
    /// Count admin rows for a user; binds the user id.
    AdminCount,
    /// Count super-admin rows for a user; binds the user id.
    SuperAdminCount,
    /// Idempotent admin insert; binds user id, username and tier.
    AdminUpsert,
    /// Idempotent super-admin seed insert; binds the user id.
    SeedAdminUpsert,
    /// List admins, super tier first then by grant time; binds nothing.
    AdminList,
}

/// The statement text each dialect gets for each logical statement.
pub open spec fn spec_statement_sql(d: Dialect, k: StatementKind) -> Seq<char> {
    match d {
        Dialect::Sqlite => match k {
            StatementKind::CreateSessions => "CREATE TABLE IF NOT EXISTS sessions (
                id INTEGER PRIMARY KEY AUTOINCREMENT,
                chat_id INTEGER NOT NULL,
                created_at TIMESTAMP DEFAULT CURRENT_TIMESTAMP,
                updated_at TIMESTAMP DEFAULT (datetime('now','localtime'))
            )"@,
            StatementKind::CreateMessages => "CREATE TABLE IF NOT EXISTS messages (
                id INTEGER PRIMARY KEY AUTOINCREMENT,
                session_id INTEGER NOT NULL,
                role TEXT NOT NULL,
                content TEXT NOT NULL,
                timestamp TIMESTAMP DEFAULT (datetime('now','localtime')),
                FOREIGN KEY (session_id) REFERENCES sessions(id)
            )"@,
            StatementKind::CreateWhitelist => "CREATE TABLE IF NOT EXISTS whitelist_users (
                id INTEGER PRIMARY KEY AUTOINCREMENT,
                user_id INTEGER NOT NULL UNIQUE,
                username TEXT,
                added_by INTEGER NOT NULL,
                added_at TIMESTAMP DEFAULT (datetime('now','localtime')),
                notes TEXT
            )"@,
            StatementKind::CreateAdmins => "CREATE TABLE IF NOT EXISTS admins (
                id INTEGER PRIMARY KEY AUTOINCREMENT,
                user_id INTEGER NOT NULL UNIQUE,
                username TEXT,
                is_super INTEGER DEFAULT 0,
                added_at TIMESTAMP DEFAULT (datetime('now','localtime'))
            )"@,
            StatementKind::SessionLookup => "SELECT id FROM sessions WHERE chat_id = ?"@,
            StatementKind::SessionTouch => "UPDATE sessions SET updated_at = datetime('now','localtime') WHERE id = ?"@,
            StatementKind::SessionInsert => "INSERT INTO sessions (chat_id) VALUES (?)"@,
            StatementKind::MessageInsert => "INSERT INTO messages (session_id, role, content) VALUES (?, ?, ?)"@,
            StatementKind::RecentSelect => "SELECT role, content FROM (SELECT role, content, timestamp, id FROM messages WHERE session_id = ? ORDER BY timestamp DESC, id DESC LIMIT ?) AS recent ORDER BY timestamp ASC, id ASC"@,
            StatementKind::MessagesDeleteBySession => "DELETE FROM messages WHERE session_id = ?"@,
            StatementKind::SessionsDeleteByChat => "DELETE FROM sessions WHERE chat_id = ?"@,
            StatementKind::WhitelistCount => "SELECT COUNT(*) as count FROM whitelist_users WHERE user_id = ?"@,
            StatementKind::WhitelistUpsert => "INSERT OR IGNORE INTO whitelist_users (user_id, username, added_by, notes) VALUES (?, ?, ?, ?)"@,
            StatementKind::WhitelistDelete => "DELETE FROM whitelist_users WHERE user_id = ?"@,
            StatementKind::WhitelistList => "SELECT id, user_id, username, added_by, added_at, notes FROM whitelist_users ORDER BY added_at DESC"@,
            StatementKind::AdminCount => "SELECT COUNT(*) as count FROM admins WHERE user_id = ?"@,
            StatementKind::SuperAdminCount => "SELECT COUNT(*) as count FROM admins WHERE user_id = ? AND is_super = 1"@,
            StatementKind::AdminUpsert => "INSERT OR IGNORE INTO admins (user_id, username, is_super) VALUES (?, ?, ?)"@,
            StatementKind::SeedAdminUpsert => "INSERT OR IGNORE INTO admins (user_id, is_super) VALUES (?, 1)"@,
            StatementKind::AdminList => "SELECT id, user_id, username, is_super, added_at FROM admins ORDER BY is_super DESC, added_at ASC"@,
        },
        Dialect::Postgres => match k {
            StatementKind::CreateSessions => "CREATE TABLE IF NOT EXISTS sessions (
                id SERIAL PRIMARY KEY,
                chat_id BIGINT NOT NULL,
                created_at TIMESTAMP DEFAULT CURRENT_TIMESTAMP,
                updated_at TIMESTAMP DEFAULT CURRENT_TIMESTAMP
            )"@,
            StatementKind::CreateMessages => "CREATE TABLE IF NOT EXISTS messages (
                id SERIAL PRIMARY KEY,
                session_id INTEGER NOT NULL,
                role TEXT NOT NULL,
                content TEXT NOT NULL,
                timestamp TIMESTAMP DEFAULT CURRENT_TIMESTAMP,
                FOREIGN KEY (session_id) REFERENCES sessions(id)
            )"@,
            StatementKind::CreateWhitelist => "CREATE TABLE IF NOT EXISTS whitelist_users (
                id SERIAL PRIMARY KEY,
                user_id BIGINT NOT NULL UNIQUE,
                username TEXT,
                added_by BIGINT NOT NULL,
                added_at TIMESTAMP DEFAULT CURRENT_TIMESTAMP,
                notes TEXT
            )"@,
            StatementKind::CreateAdmins => "CREATE TABLE IF NOT EXISTS admins (
                id SERIAL PRIMARY KEY,
                user_id BIGINT NOT NULL UNIQUE,
                username TEXT,
                is_super BOOLEAN DEFAULT FALSE,
                added_at TIMESTAMP DEFAULT CURRENT_TIMESTAMP
            )"@,
            StatementKind::SessionLookup => "SELECT id FROM sessions WHERE chat_id = $1"@,
            StatementKind::SessionTouch => "UPDATE sessions SET updated_at = CURRENT_TIMESTAMP WHERE id = $1"@,
            StatementKind::SessionInsert => "INSERT INTO sessions (chat_id) VALUES ($1) RETURNING id"@,
            StatementKind::MessageInsert => "INSERT INTO messages (session_id, role, content) VALUES ($1, $2, $3)"@,
            StatementKind::RecentSelect => "SELECT role, content FROM (SELECT role, content, timestamp, id FROM messages WHERE session_id = $1 ORDER BY timestamp DESC, id DESC LIMIT $2) AS recent ORDER BY timestamp ASC, id ASC"@,
            StatementKind::MessagesDeleteBySession => "DELETE FROM messages WHERE session_id = $1"@,
            StatementKind::SessionsDeleteByChat => "DELETE FROM sessions WHERE chat_id = $1"@,
            StatementKind::WhitelistCount => "SELECT COUNT(*) as count FROM whitelist_users WHERE user_id = $1"@,
            StatementKind::WhitelistUpsert => "INSERT INTO whitelist_users (user_id, username, added_by, notes) VALUES ($1, $2, $3, $4) ON CONFLICT (user_id) DO NOTHING"@,
            StatementKind::WhitelistDelete => "DELETE FROM whitelist_users WHERE user_id = $1"@,
            StatementKind::WhitelistList => "SELECT id, user_id, username, added_by, added_at, notes FROM whitelist_users ORDER BY added_at DESC"@,
            StatementKind::AdminCount => "SELECT COUNT(*) as count FROM admins WHERE user_id = $1"@,
            StatementKind::SuperAdminCount => "SELECT COUNT(*) as count FROM admins WHERE user_id = $1 AND is_super = TRUE"@,
            StatementKind::AdminUpsert => "INSERT INTO admins (user_id, username, is_super) VALUES ($1, $2, $3) ON CONFLICT (user_id) DO NOTHING"@,
            StatementKind::SeedAdminUpsert => "INSERT INTO admins (user_id, is_super) VALUES ($1, TRUE) ON CONFLICT (user_id) DO NOTHING"@,
            StatementKind::AdminList => "SELECT id, user_id, username, is_super, added_at FROM admins ORDER BY is_super DESC, added_at ASC"@,
        },
    }
}

/// Hands the driver the statement text for its dialect.
pub fn statement_sql(d: Dialect, k: StatementKind) -> (r: &'static str)
    ensures
        r@ == spec_statement_sql(d, k),
{
    match d {
        Dialect::Sqlite => match k {
            StatementKind::CreateSessions => "CREATE TABLE IF NOT EXISTS sessions (
                id INTEGER PRIMARY KEY AUTOINCREMENT,
                chat_id INTEGER NOT NULL,
                created_at TIMESTAMP DEFAULT CURRENT_TIMESTAMP,
                updated_at TIMESTAMP DEFAULT (datetime('now','localtime'))
            )",
            StatementKind::CreateMessages => "CREATE TABLE IF NOT EXISTS messages (
                id INTEGER PRIMARY KEY AUTOINCREMENT,
                session_id INTEGER NOT NULL,
                role TEXT NOT NULL,
                content TEXT NOT NULL,
                timestamp TIMESTAMP DEFAULT (datetime('now','localtime')),
                FOREIGN KEY (session_id) REFERENCES sessions(id)
            )",
            StatementKind::CreateWhitelist => "CREATE TABLE IF NOT EXISTS whitelist_users (
                id INTEGER PRIMARY KEY AUTOINCREMENT,
                user_id INTEGER NOT NULL UNIQUE,
                username TEXT,
                added_by INTEGER NOT NULL,
                added_at TIMESTAMP DEFAULT (datetime('now','localtime')),
                notes TEXT
            )",
            StatementKind::CreateAdmins => "CREATE TABLE IF NOT EXISTS admins (
                id INTEGER PRIMARY KEY AUTOINCREMENT,
                user_id INTEGER NOT NULL UNIQUE,
                username TEXT,
                is_super INTEGER DEFAULT 0,
                added_at TIMESTAMP DEFAULT (datetime('now','localtime'))
            )",
            StatementKind::SessionLookup => "SELECT id FROM sessions WHERE chat_id = ?",
            StatementKind::SessionTouch => "UPDATE sessions SET updated_at = datetime('now','localtime') WHERE id = ?",
            StatementKind::SessionInsert => "INSERT INTO sessions (chat_id) VALUES (?)",
            StatementKind::MessageInsert => "INSERT INTO messages (session_id, role, content) VALUES (?, ?, ?)",
            StatementKind::RecentSelect => "SELECT role, content FROM (SELECT role, content, timestamp, id FROM messages WHERE session_id = ? ORDER BY timestamp DESC, id DESC LIMIT ?) AS recent ORDER BY timestamp ASC, id ASC",
            StatementKind::MessagesDeleteBySession => "DELETE FROM messages WHERE session_id = ?",
            StatementKind::SessionsDeleteByChat => "DELETE FROM sessions WHERE chat_id = ?",
            StatementKind::WhitelistCount => "SELECT COUNT(*) as count FROM whitelist_users WHERE user_id = ?",
            StatementKind::WhitelistUpsert => "INSERT OR IGNORE INTO whitelist_users (user_id, username, added_by, notes) VALUES (?, ?, ?, ?)",
            StatementKind::WhitelistDelete => "DELETE FROM whitelist_users WHERE user_id = ?",
            StatementKind::WhitelistList => "SELECT id, user_id, username, added_by, added_at, notes FROM whitelist_users ORDER BY added_at DESC",
            StatementKind::AdminCount => "SELECT COUNT(*) as count FROM admins WHERE user_id = ?",
            StatementKind::SuperAdminCount => "SELECT COUNT(*) as count FROM admins WHERE user_id = ? AND is_super = 1",
            StatementKind::AdminUpsert => "INSERT OR IGNORE INTO admins (user_id, username, is_super) VALUES (?, ?, ?)",
            StatementKind::SeedAdminUpsert => "INSERT OR IGNORE INTO admins (user_id, is_super) VALUES (?, 1)",
            StatementKind::AdminList => "SELECT id, user_id, username, is_super, added_at FROM admins ORDER BY is_super DESC, added_at ASC",
        },
        Dialect::Postgres => match k {
            StatementKind::CreateSessions => "CREATE TABLE IF NOT EXISTS sessions (
                id SERIAL PRIMARY KEY,
                chat_id BIGINT NOT NULL,
                created_at TIMESTAMP DEFAULT CURRENT_TIMESTAMP,
                updated_at TIMESTAMP DEFAULT CURRENT_TIMESTAMP
            )",
            StatementKind::CreateMessages => "CREATE TABLE IF NOT EXISTS messages (
                id SERIAL PRIMARY KEY,
                session_id INTEGER NOT NULL,
                role TEXT NOT NULL,
                content TEXT NOT NULL,
                timestamp TIMESTAMP DEFAULT CURRENT_TIMESTAMP,
                FOREIGN KEY (session_id) REFERENCES sessions(id)
            )",
            StatementKind::CreateWhitelist => "CREATE TABLE IF NOT EXISTS whitelist_users (
                id SERIAL PRIMARY KEY,
                user_id BIGINT NOT NULL UNIQUE,
                username TEXT,
                added_by BIGINT NOT NULL,
                added_at TIMESTAMP DEFAULT CURRENT_TIMESTAMP,
                notes TEXT
            )",
            StatementKind::CreateAdmins => "CREATE TABLE IF NOT EXISTS admins (
                id SERIAL PRIMARY KEY,
                user_id BIGINT NOT NULL UNIQUE,
                username TEXT,
                is_super BOOLEAN DEFAULT FALSE,
                added_at TIMESTAMP DEFAULT CURRENT_TIMESTAMP
            )",
            StatementKind::SessionLookup => "SELECT id FROM sessions WHERE chat_id = $1",
            StatementKind::SessionTouch => "UPDATE sessions SET updated_at = CURRENT_TIMESTAMP WHERE id = $1",
            StatementKind::SessionInsert => "INSERT INTO sessions (chat_id) VALUES ($1) RETURNING id",
            StatementKind::MessageInsert => "INSERT INTO messages (session_id, role, content) VALUES ($1, $2, $3)",
            StatementKind::RecentSelect => "SELECT role, content FROM (SELECT role, content, timestamp, id FROM messages WHERE session_id = $1 ORDER BY timestamp DESC, id DESC LIMIT $2) AS recent ORDER BY timestamp ASC, id ASC",
            StatementKind::MessagesDeleteBySession => "DELETE FROM messages WHERE session_id = $1",
            StatementKind::SessionsDeleteByChat => "DELETE FROM sessions WHERE chat_id = $1",
            StatementKind::WhitelistCount => "SELECT COUNT(*) as count FROM whitelist_users WHERE user_id = $1",
            StatementKind::WhitelistUpsert => "INSERT INTO whitelist_users (user_id, username, added_by, notes) VALUES ($1, $2, $3, $4) ON CONFLICT (user_id) DO NOTHING",
            StatementKind::WhitelistDelete => "DELETE FROM whitelist_users WHERE user_id = $1",
            StatementKind::WhitelistList => "SELECT id, user_id, username, added_by, added_at, notes FROM whitelist_users ORDER BY added_at DESC",
            StatementKind::AdminCount => "SELECT COUNT(*) as count FROM admins WHERE user_id = $1",
            StatementKind::SuperAdminCount => "SELECT COUNT(*) as count FROM admins WHERE user_id = $1 AND is_super = TRUE",
            StatementKind::AdminUpsert => "INSERT INTO admins (user_id, username, is_super) VALUES ($1, $2, $3) ON CONFLICT (user_id) DO NOTHING",
            StatementKind::SeedAdminUpsert => "INSERT INTO admins (user_id, is_super) VALUES ($1, TRUE) ON CONFLICT (user_id) DO NOTHING",
            StatementKind::AdminList => "SELECT id, user_id, username, is_super, added_at FROM admins ORDER BY is_super DESC, added_at ASC",
        },
    }
}

/// Whether a fresh session's identity comes back from the insert itself
/// (a `RETURNING` row) rather than from the connection's last-inserted
/// rowid.
pub fn insert_returns_id(d: Dialect) -> (r: bool)
    ensures
        r == (d is Postgres),
{
    match d {
        Dialect::Sqlite => false,
        Dialect::Postgres => true,
    }
}

/// The connection-string prefix that selects the networked backend.
pub open spec fn pg_prefix() -> Seq<u8> {
    seq![112u8, 111u8, 115u8, 116u8, 103u8, 114u8, 101u8, 115u8, 58u8]
}

/// The dialect a connection string selects: the networked backend for a
/// `postgres:` prefix, the embedded one for anything else.
pub open spec fn spec_dialect_for_url(url: Seq<u8>) -> Dialect {
    if url.len() >= 9 && url.subrange(0, 9) == pg_prefix() {
        Dialect::Postgres
    } else {
        Dialect::Sqlite
    }
}

/// Selects the backend dialect from the connection string (as bytes).
pub fn dialect_for_url(url: &[u8]) -> (d: Dialect)
    ensures
        d == spec_dialect_for_url(url@),
{
    if url.len() >= 9 && url[0] == 112 && url[1] == 111 && url[2] == 115 && url[3] == 116
        && url[4] == 103 && url[5] == 114 && url[6] == 101 && url[7] == 115 && url[8] == 58 {
        proof {
            assert(url@.subrange(0, 9) =~= pg_prefix());
        }
        Dialect::Postgres
    } else {
        proof {
            if url@.len() >= 9 && url@.subrange(0, 9) == pg_prefix() {
                assert(url@[0] == 112 && url@[1] == 111 && url@[2] == 115 && url@[3] == 116
                    && url@[4] == 103 && url@[5] == 114 && url@[6] == 101 && url@[7] == 115
                    && url@[8] == 58) by {
                    assert(url@.subrange(0, 9)[0] == url@[0]);
                    assert(url@.subrange(0, 9)[1] == url@[1]);
                    assert(url@.subrange(0, 9)[2] == url@[2]);
                    assert(url@.subrange(0, 9)[3] == url@[3]);
                    assert(url@.subrange(0, 9)[4] == url@[4]);
                    assert(url@.subrange(0, 9)[5] == url@[5]);
                    assert(url@.subrange(0, 9)[6] == url@[6]);
                    assert(url@.subrange(0, 9)[7] == url@[7]);
                    assert(url@.subrange(0, 9)[8] == url@[8]);
                }
            }
        }
        Dialect::Sqlite
    }
}

} // verus!
