//! Snapshot store tests against a real SQLite database.

use ffxiv_tracker::db::TrackerDatabase;
use ffxiv_tracker::job::{all_jobs, JobSnapshot, PlayerJobSnapshot};
use ffxiv_tracker::profile::Profile;

fn sample_profile(user_id: u64, hp: u64) -> Profile {
    let snapshots: Vec<JobSnapshot> = all_jobs()
        .into_iter()
        .map(|job| JobSnapshot { job, level: Some(70), exp: Some((10, 20)) })
        .collect();
    Profile {
        user_id,
        free_company: Some("Mist Wanderers".to_string()),
        name: "Yov Ziv".to_string(),
        nameday: "32nd Sun of the 1st Astral Moon".to_string(),
        guardian: "Nymeia, the Spinner".to_string(),
        city_state: "Gridania".to_string(),
        server: "Adamantoise [Aether]".to_string(),
        race: "Lalafell".to_string(),
        clan: "Plainsfolk".to_string(),
        gender: "Female".to_string(),
        grand_company: Some("Order of the Twin Adder".to_string()),
        grand_company_rank: Some("Serpent Private Second Class".to_string()),
        hp,
        mp: 10000,
        jobs: PlayerJobSnapshot::from_snapshots(snapshots).unwrap(),
    }
}

fn fresh_store(path: &str) -> TrackerDatabase {
    let conn = rusqlite::Connection::open(path).unwrap();
    conn.execute("DROP TABLE IF EXISTS experience_snapshots", ()).unwrap();
    conn.execute("DROP TABLE IF EXISTS profile_snapshots", ()).unwrap();
    drop(conn);
    let database = TrackerDatabase { path: path.to_string() };
    database.init().unwrap();
    database
}

fn count(path: &str, table: &str) -> i64 {
    let conn = rusqlite::Connection::open(path).unwrap();
    let sql = format!("SELECT COUNT(*) FROM {}", table);
    conn.query_row(&sql, (), |row| row.get(0)).unwrap()
}

#[test]
fn identical_snapshots_are_recorded_once() {
    let path = "/tmp/ffxiv_tracker_test_idempotent.sqlite";
    let database = fresh_store(path);
    let profile = sample_profile(38598907, 3210);
    database.snapshot(profile.clone()).unwrap();
    database.snapshot(profile).unwrap();
    assert_eq!(count(path, "profile_snapshots"), 1);
    assert_eq!(count(path, "experience_snapshots"), 32);
}

#[test]
fn changed_snapshots_accumulate() {
    let path = "/tmp/ffxiv_tracker_test_accumulate.sqlite";
    let database = fresh_store(path);
    database.snapshot(sample_profile(38598907, 3210)).unwrap();
    database.snapshot(sample_profile(38598907, 3300)).unwrap();
    assert_eq!(count(path, "profile_snapshots"), 2);
    assert_eq!(count(path, "experience_snapshots"), 64);
}

#[test]
fn every_job_row_is_written() {
    let path = "/tmp/ffxiv_tracker_test_rows.sqlite";
    let database = fresh_store(path);
    database.snapshot(sample_profile(38598907, 3210)).unwrap();
    let conn = rusqlite::Connection::open(path).unwrap();
    let mut stmt = conn
        .prepare("SELECT class_name, xp_level, current_xp, max_xp FROM experience_snapshots ORDER BY id")
        .unwrap();
    let rows: Vec<(String, Option<u64>, Option<u64>, Option<u64>)> = stmt
        .query_map((), |row| {
            Ok((row.get(0)?, row.get(1)?, row.get(2)?, row.get(3)?))
        })
        .unwrap()
        .map(|r| r.unwrap())
        .collect();
    assert_eq!(rows.len(), 32);
    let jobs = all_jobs();
    for (i, row) in rows.iter().enumerate() {
        assert_eq!(row.0, jobs[i].label());
        assert_eq!(row.1, Some(70));
        assert_eq!(row.2, Some(10));
        assert_eq!(row.3, Some(20));
    }
}

#[test]
fn snapshots_are_timestamped() {
    let path = "/tmp/ffxiv_tracker_test_timestamp.sqlite";
    let database = fresh_store(path);
    database.snapshot(sample_profile(38598907, 3210)).unwrap();
    let conn = rusqlite::Connection::open(path).unwrap();
    let captured_at: String = conn
        .query_row("SELECT captured_at FROM profile_snapshots", (), |row| row.get(0))
        .unwrap();
    assert!(!captured_at.is_empty());
}

#[test]
fn unopenable_database_reports_the_open_stage() {
    let database = TrackerDatabase {
        path: "/nonexistent-directory-for-sure/tracker.sqlite".to_string(),
    };
    let init_err = database.init().unwrap_err();
    assert!(matches!(init_err, ffxiv_tracker::db::StoreError::Open { .. }));
    let snapshot_err = database.snapshot(sample_profile(1, 1)).unwrap_err();
    assert!(matches!(snapshot_err, ffxiv_tracker::db::StoreError::Open { .. }));
}

#[test]
fn capture_run_records_a_parsed_profile() {
    let path = "/tmp/ffxiv_tracker_test_capture.sqlite";
    let database = fresh_store(path);
    let profile_doc = "<html><body>\
        <p class=\"frame__chara__name\">Yov Ziv</p>\
        <p class=\"frame__chara__world\">Adamantoise [Aether]</p>\
        <p class=\"character-block__birth\">32nd Sun of the 1st Astral Moon</p>\
        <p class=\"character-block__title\">Race/Clan/Gender</p>\
        <p class=\"character-block__name\">Lalafell<br>Plainsfolk / Female</p>\
        <p class=\"character-block__title\">Guardian</p>\
        <p class=\"character-block__name\">Nymeia, the Spinner</p>\
        <p class=\"character-block__title\">City-state</p>\
        <p class=\"character-block__name\">Gridania</p>\
        <p class=\"character__param__text__hp--en-us\">HP</p><span>3,210</span>\
        <p class=\"character__param__text__mp--en-us\">MP</p><span>10,000</span>\
        </body></html>";
    let mut jobs_doc = String::from("<html><body><ul class=\"character__job\">");
    for job in all_jobs() {
        jobs_doc.push_str(&format!(
            "<li><div class=\"character__job__level\">80</div>\
             <div class=\"character__job__name\">{}</div>\
             <div class=\"character__job__exp\">5 / 10</div></li>",
            job.label()
        ));
    }
    jobs_doc.push_str("</ul></body></html>");
    ffxiv_tracker::snapshot(77, profile_doc, &jobs_doc, &database).unwrap();
    ffxiv_tracker::snapshot(77, profile_doc, &jobs_doc, &database).unwrap();
    assert_eq!(count(path, "profile_snapshots"), 1);
    assert_eq!(count(path, "experience_snapshots"), 32);
}
