//! The persistent credential store: a single SQLite table of username and
//! password, opened from a database file (or, when the file cannot be opened,
//! a fresh in-memory database), bootstrapped once with an idempotent create
//! and a fixed seed row, and queried per login through a parameterized
//! statement — user input never reaches the SQL text.

use vstd::prelude::*;

verus! {

/// A failure of the persistent store, surfaced distinctly from "no match".
#[derive(PartialEq, Eq, Structural, Clone, Copy, Debug)]
pub enum StoreError {
    /// The database could not be opened or the query could not be run.
    Unavailable,
}

#[verifier::external_type_specification]
#[verifier::external_body]
/// An open connection to a SQLite database, opaque to this library.
pub struct ExConnection(rusqlite::Connection);

#[verifier::external_type_specification]
#[verifier::external_body]
/// rusqlite's error type, opaque to this library and mapped to [`StoreError`].
pub struct ExSqlError(rusqlite::Error);

/// Relies on rusqlite::Connection::open: opens (creating it when absent) the
/// named database file. What it yields depends on the machine's disk, so
/// nothing is assumed of the outcome.
#[verifier::external_body]
fn conn_open(path: &str) -> (r: Result<rusqlite::Connection, rusqlite::Error>) {
    rusqlite::Connection::open(path)
}

/// Relies on rusqlite::Connection::open_in_memory: a fresh, empty in-memory
/// database.
#[verifier::external_body]
fn conn_open_memory() -> (r: Result<rusqlite::Connection, rusqlite::Error>) {
    rusqlite::Connection::open_in_memory()
}

/// Relies on rusqlite::Connection::execute with no parameters: runs one SQL
/// statement; whether it succeeds depends on the database at hand.
#[verifier::external_body]
fn conn_execute(conn: &rusqlite::Connection, sql: &str) -> (r: Result<(), rusqlite::Error>) {
    match conn.execute(sql, ()) {
        Ok(_) => Ok(()),
        Err(e) => Err(e),
    }
}

/// Relies on rusqlite::Connection::prepare and Statement::query with bound
/// parameters: the two values are bound to the statement handed in, never
/// interpolated into its text, and the first column of the first row comes
/// back, if any. Which rows the database matches is its own affair (a
/// pre-existing file may give its columns any collation), so nothing is
/// claimed of the returned value: the caller checks it.
#[verifier::external_body]
fn query_one(conn: &rusqlite::Connection, sql: &str, username: &str, password: &str) -> (r: Result<
    Option<String>,
    rusqlite::Error,
>) {
    let mut stmt = conn.prepare(sql)?;
    let mut rows = stmt.query((username, password))?;
    match rows.next()? {
        Some(row) => Ok(Some(row.get(0)?)),
        None => Ok(None),
    }
}

/// The exact-match screen on what the database handed back: a candidate
/// stored username survives only when it equals the queried one, so a row the
/// database matched under some laxer collation counts as no match. Exactly one
/// result per candidate value.
pub fn screen_candidate(candidate: Option<String>, username: &String) -> (r: Option<String>)
    ensures
        r == (match candidate {
            Some(s) => if s@ == username@ {
                Some(s)
            } else {
                None::<String>
            },
            None => None::<String>,
        }),
{
    match candidate {
        Some(s) => if s == *username {
            Some(s)
        } else {
            None
        },
        None => None,
    }
}

/// A handle on the persistent credential table.
pub struct SqlStore {
    conn: rusqlite::Connection,
}

impl SqlStore {
    /// Opens the named database file, falling back to a fresh in-memory
    /// database when the file cannot be opened. With `bootstrap` set, also
    /// creates the credential table (if it does not exist yet) and runs the
    /// fixed seed insert; a reopen without `bootstrap` leaves the data as it
    /// is. Fails only when the store cannot be made usable at all, and then
    /// with the one store failure, never a panic; what the connection holds is
    /// the disk's affair and is not stated.
    pub fn open(db_name: &String, bootstrap: bool) -> (r: Result<SqlStore, StoreError>)
        ensures
            r matches Err(e) ==> e == StoreError::Unavailable,
    {
        let conn = match conn_open(db_name.as_str()) {
            Ok(c) => c,
            Err(_) => match conn_open_memory() {
                Ok(c) => c,
                Err(_) => {
                    return Err(StoreError::Unavailable);
                },
            },
        };
        if bootstrap {
            let create = "CREATE TABLE IF NOT EXISTS users (username TEXT NOT NULL, password TEXT NOT NULL)";
            match conn_execute(&conn, create) {
                Ok(_) => (),
                Err(_) => {
                    return Err(StoreError::Unavailable);
                },
            }
            let seed = "INSERT INTO users (username, password) VALUES ('alice', 'wonderland')";
            match conn_execute(&conn, seed) {
                Ok(_) => (),
                Err(_) => {
                    return Err(StoreError::Unavailable);
                },
            }
        }
        Ok(SqlStore { conn })
    }

    /// Looks a credential pair up by exact match: the parameterized statement
    /// fetches a candidate row, and [`screen_candidate`] then applies the
    /// exact-match rule to whatever came back. A match therefore returns the
    /// queried username exactly; no match returns nothing; and a store failure
    /// — distinct from both, and carrying no hint of which field was wrong —
    /// is the one error, when the table cannot be read.
    pub fn verify(&self, username: &String, password: &String) -> (r: Result<
        Option<String>,
        StoreError,
    >)
        ensures
            r matches Ok(Some(u)) ==> u@ == username@,
            r matches Err(e) ==> e == StoreError::Unavailable,
    {
        let sql = "SELECT username FROM users WHERE username = ?1 AND password = ?2";
        match query_one(&self.conn, sql, username.as_str(), password.as_str()) {
            Ok(candidate) => Ok(screen_candidate(candidate, username)),
            Err(_) => Err(StoreError::Unavailable),
        }
    }
}

} // verus!
