//! Credential checking and the current-session store of a desktop earnings tracker.
//!
//! [`credential`] turns passwords into salted Argon2 hashes and checks passwords
//! against them; [`session`] holds at most one authenticated identity;
//! [`phc_text`] reads the parallelism parameter of stored hash text;
//! [`schema`] lists the database migrations.
pub mod credential;
pub mod error;
pub mod phc_text;
pub mod schema;
pub mod session;
