//! The snapshot store: maps a validated profile onto one profile-snapshot
//! row and one experience row per job, and appends them to an SQLite
//! database behind trusted wrappers. The store is an append-only log of
//! observations, deduplicated by the full natural key of the profile row.

use vstd::prelude::*;
use crate::job::spec_label;
use crate::profile::Profile;

verus! {

#[verifier::external_type_specification]
#[verifier::external_body]
pub struct ExConnection(rusqlite::Connection);

#[verifier::external_type_specification]
#[verifier::external_body]
pub struct ExSqlError(rusqlite::Error);

/// Creates both tables of the store, where they do not exist yet. Each
/// profile-snapshot row carries the capture time, stamped by the database
/// when the row is inserted; the capture time is no part of the natural key,
/// so re-observing unchanged data inserts nothing.
pub const INIT_SQL: &'static str = "CREATE TABLE IF NOT EXISTS profile_snapshots ( \
id INTEGER PRIMARY KEY, \
captured_at TEXT NOT NULL DEFAULT (datetime('now')), \
user_id INTEGER NOT NULL, \
free_company TEXT, \
name TEXT NOT NULL, \
nameday TEXT NOT NULL, \
guardian TEXT NOT NULL, \
city_state TEXT NOT NULL, \
server TEXT NOT NULL, \
race TEXT NOT NULL, \
clan TEXT NOT NULL, \
gender TEXT NOT NULL, \
grand_company TEXT, \
grand_company_rank TEXT, \
hp INTEGER NOT NULL, \
mp INTEGER NOT NULL); \
CREATE TABLE IF NOT EXISTS experience_snapshots ( \
id INTEGER PRIMARY KEY, \
snapshot_id INTEGER NOT NULL REFERENCES profile_snapshots (id), \
class_name TEXT NOT NULL, \
xp_level INTEGER, \
current_xp INTEGER, \
max_xp INTEGER);";

/// Inserts one profile-snapshot row, or nothing where an identical row
/// already exists. Comparison uses IS, so an absent optional field equals an
/// absent one, which plain UNIQUE enforcement would not give.
pub const INSERT_PROFILE_SQL: &'static str = "INSERT INTO profile_snapshots ( \
user_id, free_company, name, nameday, guardian, city_state, server, \
race, clan, gender, grand_company, grand_company_rank, hp, mp) \
SELECT ?1, ?2, ?3, ?4, ?5, ?6, ?7, ?8, ?9, ?10, ?11, ?12, ?13, ?14 \
WHERE NOT EXISTS (SELECT 1 FROM profile_snapshots WHERE \
user_id IS ?1 AND free_company IS ?2 AND name IS ?3 AND nameday IS ?4 AND \
guardian IS ?5 AND city_state IS ?6 AND server IS ?7 AND race IS ?8 AND \
clan IS ?9 AND gender IS ?10 AND grand_company IS ?11 AND \
grand_company_rank IS ?12 AND hp IS ?13 AND mp IS ?14)";

/// Inserts one experience row referencing its profile snapshot.
pub const INSERT_JOB_SQL: &'static str = "INSERT INTO experience_snapshots ( \
snapshot_id, class_name, xp_level, current_xp, max_xp) \
VALUES (?1, ?2, ?3, ?4, ?5)";

/// Relies on `rusqlite::Connection::open`: opens (creating where absent) the
/// SQLite database at the given path.
#[verifier::external_body]
fn open_connection(path: &str) -> Result<rusqlite::Connection, rusqlite::Error> {
    rusqlite::Connection::open(path)
}

/// Relies on `rusqlite::Connection::execute_batch`: runs each statement of
/// the batch in order.
#[verifier::external_body]
fn execute_batch(conn: &rusqlite::Connection, sql: &str) -> Result<(), rusqlite::Error> {
    conn.execute_batch(sql)
}

/// Relies on `rusqlite::Connection::execute`: runs one statement binding the
/// fourteen profile fields in order, and returns how many rows changed.
#[verifier::external_body]
fn execute_profile_insert(
    conn: &rusqlite::Connection,
    sql: &str,
    row: &ProfileRow,
) -> Result<usize, rusqlite::Error> {
    conn.execute(
        sql,
        (
            row.user_id, row.free_company.clone(), row.name.clone(), row.nameday.clone(),
            row.guardian.clone(), row.city_state.clone(), row.server.clone(), row.race.clone(),
            row.clan.clone(), row.gender.clone(), row.grand_company.clone(),
            row.grand_company_rank.clone(), row.hp, row.mp,
        ),
    )
}

/// Relies on `rusqlite::Connection::execute`: runs one statement binding the
/// snapshot id and the four experience fields in order, and returns how many
/// rows changed.
#[verifier::external_body]
fn execute_job_insert(
    conn: &rusqlite::Connection,
    sql: &str,
    snapshot_id: i64,
    row: &JobRow,
) -> Result<usize, rusqlite::Error> {
    conn.execute(
        sql,
        (snapshot_id, row.class_name.clone(), row.level, row.current_xp, row.max_xp),
    )
}

/// Relies on `rusqlite::Connection::last_insert_rowid`: the row id of the
/// most recent successful insert on this connection.
#[verifier::external_body]
fn last_insert_rowid(conn: &rusqlite::Connection) -> i64 {
    conn.last_insert_rowid()
}

/// Relies on the `Display` rendering of `rusqlite::Error`: its message text.
#[verifier::external_body]
fn sql_error_message(e: &rusqlite::Error) -> String {
    e.to_string()
}

/// Why a store operation failed, by stage, with the database's own message.
#[derive(Clone, Debug, PartialEq, Eq)]
pub enum StoreError {
    /// The database could not be opened.
    Open { message: String },
    /// The schema could not be created.
    Init { message: String },
    /// A row could not be inserted.
    Insert { message: String },
}

/// The profile-fields tuple of one snapshot row: every profile attribute
/// except the per-job records.
#[derive(Clone, Debug, PartialEq, Eq)]
pub struct ProfileRow {
    pub user_id: u64,
    pub free_company: Option<String>,
    pub name: String,
    pub nameday: String,
    pub guardian: String,
    pub city_state: String,
    pub server: String,
    pub race: String,
    pub clan: String,
    pub gender: String,
    pub grand_company: Option<String>,
    pub grand_company_rank: Option<String>,
    pub hp: u64,
    pub mp: u64,
}

/// One experience row: the job's canonical label, its level, and the current
/// and maximum experience, each absent where the source held a placeholder.
#[derive(Clone, Debug, PartialEq, Eq)]
pub struct JobRow {
    pub class_name: String,
    pub level: Option<u64>,
    pub current_xp: Option<u64>,
    pub max_xp: Option<u64>,
}

/// The profile-fields tuple of a profile, field for field.
pub fn profile_row(p: &Profile) -> (r: ProfileRow)
    ensures
        r.user_id == p.user_id,
        r.free_company.deep_view() == p.free_company.deep_view(),
        r.name@ == p.name@,
        r.nameday@ == p.nameday@,
        r.guardian@ == p.guardian@,
        r.city_state@ == p.city_state@,
        r.server@ == p.server@,
        r.race@ == p.race@,
        r.clan@ == p.clan@,
        r.gender@ == p.gender@,
        r.grand_company.deep_view() == p.grand_company.deep_view(),
        r.grand_company_rank.deep_view() == p.grand_company_rank.deep_view(),
        r.hp == p.hp,
        r.mp == p.mp,
{
    ProfileRow {
        user_id: p.user_id,
        free_company: clone_opt(&p.free_company),
        name: p.name.clone(),
        nameday: p.nameday.clone(),
        guardian: p.guardian.clone(),
        city_state: p.city_state.clone(),
        server: p.server.clone(),
        race: p.race.clone(),
        clan: p.clan.clone(),
        gender: p.gender.clone(),
        grand_company: clone_opt(&p.grand_company),
        grand_company_rank: clone_opt(&p.grand_company_rank),
        hp: p.hp,
        mp: p.mp,
    }
}

/// A copy of an optional string.
fn clone_opt(o: &Option<String>) -> (r: Option<String>)
    ensures
        r.deep_view() == o.deep_view(),
{
    match o {
        Some(s) => Some(s.clone()),
        None => None,
    }
}

/// One experience row per job of the profile, in the per-job map's canonical
/// order: the canonical label, the level, and the experience pair split into
/// its members.
pub fn job_rows(p: &Profile) -> (r: Vec<JobRow>)
    ensures
        r@.len() == p.jobs@.len(),
        forall|i: int|
            0 <= i < r@.len() ==> {
                let snapshot = p.jobs@[i];
                let row = #[trigger] r@[i];
                &&& row.class_name@ == spec_label(snapshot.job)
                &&& row.level == snapshot.level
                &&& (match snapshot.exp {
                    Some((current, max)) => row.current_xp == Some(current) && row.max_xp == Some(
                        max,
                    ),
                    None => row.current_xp is None && row.max_xp is None,
                })
            },
{
    let snaps = p.jobs.snapshots();
    let n = snaps.len();
    let mut rows: Vec<JobRow> = Vec::new();
    let mut i: usize = 0;
    while i < n
        invariant
            n == p.jobs@.len(),
            snaps@ == p.jobs@,
            i <= n,
            rows@.len() == i,
            forall|k: int|
                0 <= k < i ==> {
                    let snapshot = p.jobs@[k];
                    let row = #[trigger] rows@[k];
                    &&& row.class_name@ == spec_label(snapshot.job)
                    &&& row.level == snapshot.level
                    &&& (match snapshot.exp {
                        Some((current, max)) => row.current_xp == Some(current) && row.max_xp
                            == Some(max),
                        None => row.current_xp is None && row.max_xp is None,
                    })
                },
        decreases n - i,
    {
        let snapshot = snaps[i];
        let (current_xp, max_xp) = match snapshot.exp {
            Some((current, max)) => (Some(current), Some(max)),
            None => (None, None),
        };
        let label = snapshot.job.label();
        rows.push(JobRow {
            class_name: label.to_owned(),
            level: snapshot.level,
            current_xp,
            max_xp,
        });
        i = i + 1;
    }
    rows
}

/// The snapshot store: an SQLite database at a fixed path, holding an
/// append-only log of profile observations.
#[derive(Clone, Debug)]
pub struct TrackerDatabase {
    pub path: String,
}

/// Appends one experience row per job to the most recent snapshot row, but
/// only where the profile insert changed a row: an unchanged capture appends
/// nothing, so recording the same observation twice duplicates no history.
fn append_job_rows(conn: &rusqlite::Connection, changed: usize, rows: &Vec<JobRow>) -> (r: Result<
    (),
    StoreError,
>)
    ensures
        changed == 0 ==> r is Ok,
        r matches Err(e) ==> (e matches StoreError::Insert { .. }),
{
    if changed == 0 {
        return Ok(());
    }
    let snapshot_id = last_insert_rowid(conn);
    let mut i: usize = 0;
    let n = rows.len();
    while i < n
        invariant
            n == rows@.len(),
            i <= n,
            changed != 0,
        decreases n - i,
    {
        match execute_job_insert(conn, INSERT_JOB_SQL, snapshot_id, &rows[i]) {
            Ok(_) => {},
            Err(e) => {
                return Err(StoreError::Insert { message: sql_error_message(&e) });
            },
        }
        i = i + 1;
    }
    Ok(())
}

impl TrackerDatabase {
    /// Creates the store's schema where it does not exist yet. Only opening
    /// the database or creating the schema can fail.
    pub fn init(&self) -> (r: Result<(), StoreError>)
        ensures
            r matches Err(e) ==> (e matches StoreError::Open { .. } || e matches StoreError::Init {
                ..
            }),
    {
        let conn = match open_connection(self.path.as_str()) {
            Ok(c) => c,
            Err(e) => {
                return Err(StoreError::Open { message: sql_error_message(&e) });
            },
        };
        match execute_batch(&conn, INIT_SQL) {
            Ok(()) => Ok(()),
            Err(e) => Err(StoreError::Init { message: sql_error_message(&e) }),
        }
    }

    /// Records one observation of a profile as a single logical unit: one
    /// profile-snapshot row and one experience row per job, referencing it.
    /// Where an identical profile row already exists the whole call is a
    /// no-op, so recording an unchanged capture twice leaves one row; no
    /// experience row is appended before the profile row succeeds. Only
    /// opening the database or inserting a row can fail.
    pub fn snapshot(&self, profile: Profile) -> (r: Result<(), StoreError>)
        ensures
            r matches Err(e) ==> (e matches StoreError::Open { .. }
                || e matches StoreError::Insert { .. }),
    {
        let conn = match open_connection(self.path.as_str()) {
            Ok(c) => c,
            Err(e) => {
                return Err(StoreError::Open { message: sql_error_message(&e) });
            },
        };
        let row = profile_row(&profile);
        let changed = match execute_profile_insert(&conn, INSERT_PROFILE_SQL, &row) {
            Ok(n) => n,
            Err(e) => {
                return Err(StoreError::Insert { message: sql_error_message(&e) });
            },
        };
        let rows = job_rows(&profile);
        append_job_rows(&conn, changed, &rows)
    }
}

} // verus!
