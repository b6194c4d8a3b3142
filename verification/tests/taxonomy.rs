//! Taxonomy tests: canonical labels, aliases, and snapshot completeness.

use ffxiv_tracker::job::{all_jobs, Job, JobSnapshot, PlayerJobSnapshot, JOB_COUNT};

#[test]
fn taxonomy_has_thirty_two_jobs() {
    assert_eq!(JOB_COUNT, 32);
    assert_eq!(all_jobs().len(), 32);
}

#[test]
fn every_canonical_label_parses_to_its_job() {
    for job in all_jobs() {
        assert_eq!(Job::from_label(job.label()), Some(job));
    }
}

#[test]
fn canonical_labels_are_unique() {
    let jobs = all_jobs();
    for a in &jobs {
        for b in &jobs {
            if a != b {
                assert_ne!(a.label(), b.label());
            }
        }
    }
}

#[test]
fn every_alias_parses_to_its_job() {
    let aliases = [
        ("Gladiator", Job::Paladin),
        ("Marauder", Job::Warrior),
        ("Conjurer", Job::WhiteMage),
        ("Pugilist", Job::Monk),
        ("Lancer", Job::Dragoon),
        ("Rogue", Job::Ninja),
        ("Archer", Job::Bard),
        ("Thaumaturge", Job::BlackMage),
        ("Arcanist", Job::Summoner),
    ];
    for (alias, job) in aliases {
        assert_eq!(Job::from_label(alias), Some(job));
    }
}

#[test]
fn lookup_is_case_sensitive_and_exact() {
    assert_eq!(Job::from_label("paladin"), None);
    assert_eq!(Job::from_label("PALADIN"), None);
    assert_eq!(Job::from_label(" Paladin"), None);
    assert_eq!(Job::from_label("Paladin "), None);
    assert_eq!(Job::from_label(""), None);
    assert_eq!(Job::from_label("Beastmaster"), None);
}

fn full_snapshot_set() -> Vec<JobSnapshot> {
    all_jobs()
        .into_iter()
        .map(|job| JobSnapshot { job, level: Some(50), exp: Some((1, 2)) })
        .collect()
}

#[test]
fn complete_set_constructs() {
    let player = PlayerJobSnapshot::from_snapshots(full_snapshot_set()).unwrap();
    let snaps = player.snapshots();
    assert_eq!(snaps.len(), 32);
    let jobs = all_jobs();
    for (i, snapshot) in snaps.iter().enumerate() {
        assert_eq!(snapshot.job, jobs[i]);
    }
}

#[test]
fn missing_jobs_are_all_named_in_order() {
    let partial: Vec<JobSnapshot> = full_snapshot_set()
        .into_iter()
        .filter(|s| s.job != Job::Paladin && s.job != Job::Fisher)
        .collect();
    let missing = PlayerJobSnapshot::from_snapshots(partial).unwrap_err();
    assert_eq!(missing, vec![Job::Paladin, Job::Fisher]);
}

#[test]
fn empty_input_misses_every_job() {
    let missing = PlayerJobSnapshot::from_snapshots(Vec::new()).unwrap_err();
    assert_eq!(missing, all_jobs());
}

#[test]
fn duplicates_resolve_to_the_last_entry() {
    let mut snapshots = full_snapshot_set();
    snapshots.push(JobSnapshot { job: Job::Viper, level: Some(100), exp: None });
    let player = PlayerJobSnapshot::from_snapshots(snapshots).unwrap();
    let viper = player
        .snapshots()
        .iter()
        .copied()
        .find(|s| s.job == Job::Viper)
        .unwrap();
    assert_eq!(viper.level, Some(100));
    assert_eq!(viper.exp, None);
}

#[test]
fn duplicates_do_not_pad_a_missing_job() {
    let mut snapshots: Vec<JobSnapshot> = full_snapshot_set()
        .into_iter()
        .filter(|s| s.job != Job::Sage)
        .collect();
    snapshots.push(JobSnapshot { job: Job::Monk, level: Some(1), exp: None });
    let missing = PlayerJobSnapshot::from_snapshots(snapshots).unwrap_err();
    assert_eq!(missing, vec![Job::Sage]);
}
