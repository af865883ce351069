//! The database schema, as an ordered list of forward-only migrations.
//!
//! A migration is applied once, in ascending order of version; once it has
//! been applied its SQL must never change, so the schema grows only by
//! appending a migration with the next version.
use vstd::prelude::*;

verus! {

/// Where the application keeps its database.
pub const DATABASE_URL: &'static str = "sqlite:dashlens.db";

/// One step of the schema's history.
#[derive(Debug, Clone, Copy, PartialEq, Eq)]
pub struct SchemaMigration {
    pub version: i64,
    pub description: &'static str,
    pub sql: &'static str,
}

/// The users table: one row per local account, with its password hash.
pub const CREATE_USERS_TABLE: &'static str = "CREATE TABLE IF NOT EXISTS users (
                                id INTEGER PRIMARY KEY AUTOINCREMENT,
                                username TEXT NOT NULL UNIQUE,
                                password_hash TEXT NOT NULL,
                                created_at DATETIME DEFAULT CURRENT_TIMESTAMP
                            )";

/// The earnings tables: weeks, days and offers.
///
/// Durations (active_time, total_time) are INTEGER minutes, earnings are REAL
/// dollars, and times of day are TEXT "HH:MM" on a 24 hour clock.
pub const CREATE_EARNINGS_TABLES: &'static str = "
                                CREATE TABLE IF NOT EXISTS weeks (
                                    id                   INTEGER PRIMARY KEY AUTOINCREMENT,
                                    date_start           TEXT    NOT NULL,
                                    date_end             TEXT    NOT NULL,
                                    active_time          INTEGER,          -- minutes
                                    total_time           INTEGER,          -- minutes
                                    completed_deliveries INTEGER,
                                    created_at           DATETIME DEFAULT CURRENT_TIMESTAMP
                                );

                                CREATE TABLE IF NOT EXISTS days (
                                    id             INTEGER PRIMARY KEY AUTOINCREMENT,
                                    week_id        INTEGER REFERENCES weeks(id) ON DELETE SET NULL,
                                    date           TEXT    NOT NULL,
                                    total_earnings REAL,
                                    start_time     TEXT,                   -- HH:MM 24h
                                    end_time       TEXT,                   -- HH:MM 24h
                                    active_time    INTEGER,                -- minutes
                                    total_time     INTEGER,                -- minutes
                                    deliveries     INTEGER,
                                    created_at     DATETIME DEFAULT CURRENT_TIMESTAMP
                                );

                                CREATE TABLE IF NOT EXISTS offers (
                                    id             INTEGER PRIMARY KEY AUTOINCREMENT,
                                    day_id         INTEGER NOT NULL REFERENCES days(id) ON DELETE CASCADE,
                                    store          TEXT,
                                    total_earnings REAL,
                                    created_at     DATETIME DEFAULT CURRENT_TIMESTAMP
                                );

                                -- Index for fast date-range queries on days
                                CREATE INDEX IF NOT EXISTS idx_days_date    ON days(date);
                                CREATE INDEX IF NOT EXISTS idx_days_week_id ON days(week_id);
                                CREATE INDEX IF NOT EXISTS idx_offers_day_id ON offers(day_id);
                            ";

/// The migrations in the order they are applied: the users table first, then
/// the earnings tables. Versions count up from 1 without gaps.
pub fn schema_migrations() -> (r: Vec<SchemaMigration>)
    ensures
        r@.len() == 2,
        forall|i: int| 0 <= i < r@.len() ==> #[trigger] r@[i].version == i + 1,
        r@[0].description@ == "create_users_table"@,
        r@[0].sql@ == CREATE_USERS_TABLE@,
        r@[1].description@ == "create_earnings_tables"@,
        r@[1].sql@ == CREATE_EARNINGS_TABLES@,
{
    let mut r: Vec<SchemaMigration> = Vec::new();
    r.push(SchemaMigration { version: 1, description: "create_users_table", sql: CREATE_USERS_TABLE });
    r.push(SchemaMigration { version: 2, description: "create_earnings_tables", sql: CREATE_EARNINGS_TABLES });
    r
}

} // verus!
