//! End-to-end parse tests over hand-built fixture documents.

use ffxiv_tracker::error::ParseError;
use ffxiv_tracker::job::{all_jobs, Job};
use ffxiv_tracker::profile::Profile;

fn profile_doc() -> String {
    let mut doc = String::new();
    doc.push_str("<html><body>\n");
    doc.push_str("<div class=\"character__freecompany__name\"><h4>Mist Wanderers</h4></div>\n");
    doc.push_str("<p class=\"frame__chara__name\">Yov Ziv</p>\n");
    doc.push_str("<p class=\"frame__chara__world\">Adamantoise [Aether]</p>\n");
    doc.push_str("<p class=\"character-block__birth\">32nd Sun of the 1st Astral Moon</p>\n");
    doc.push_str("<p class=\"character-block__title\">Race/Clan/Gender</p>");
    doc.push_str("<p class=\"character-block__name\">Lalafell<br>Plainsfolk / Female</p>\n");
    doc.push_str("<p class=\"character-block__title\">Guardian</p>");
    doc.push_str("<p class=\"character-block__name\">Nymeia, the Spinner</p>\n");
    doc.push_str("<p class=\"character-block__title\">City-state</p>");
    doc.push_str("<p class=\"character-block__name\">Gridania</p>\n");
    doc.push_str("<p class=\"character-block__title\">Grand Company</p>");
    doc.push_str(
        "<p class=\"character-block__name\">Order of the Twin Adder / Serpent Private Second Class</p>\n",
    );
    doc.push_str("<p class=\"character__param__text__hp--en-us\">HP</p><span>3,210</span>\n");
    doc.push_str("<p class=\"character__param__text__mp--en-us\">MP</p><span>10,000</span>\n");
    doc.push_str("</body></html>\n");
    doc
}

fn job_entry(level: &str, name: &str, exp: &str) -> String {
    format!(
        "<li><div class=\"character__job__level\">{}</div>\
         <div class=\"character__job__name\">{}</div>\
         <div class=\"character__job__exp\">{}</div></li>\n",
        level, name, exp
    )
}

/// One entry per job, in taxonomy order: White Mage appears under its legacy
/// label, Paladin is capped, Fisher is not unlocked.
fn jobs_doc() -> String {
    let mut doc = String::new();
    doc.push_str("<html><body><ul class=\"character__job\">\n");
    for job in all_jobs() {
        let entry = match job {
            Job::Paladin => job_entry("100", "Paladin", "-- / --"),
            Job::WhiteMage => job_entry("53", "Conjurer", "1,076,101 / 1,555,000"),
            Job::Fisher => job_entry("-", "Fisher", "-- / --"),
            other => job_entry("90", other.label(), "123,456 / 456,789"),
        };
        doc.push_str(&entry);
    }
    doc.push_str("</ul></body></html>\n");
    doc
}

/// A jobs document missing one given job's entry.
fn jobs_doc_without(skipped: Job) -> String {
    let mut doc = String::new();
    doc.push_str("<html><body><ul class=\"character__job\">\n");
    for job in all_jobs() {
        if job == skipped {
            continue;
        }
        doc.push_str(&job_entry("90", job.label(), "123,456 / 456,789"));
    }
    doc.push_str("</ul></body></html>\n");
    doc
}

#[test]
fn golden_profile_roundtrip() {
    let profile = Profile::parse(38598907, &profile_doc(), &jobs_doc()).unwrap();
    assert_eq!(profile.user_id, 38598907);
    assert_eq!(profile.free_company.as_deref(), Some("Mist Wanderers"));
    assert_eq!(profile.name, "Yov Ziv");
    assert_eq!(profile.nameday, "32nd Sun of the 1st Astral Moon");
    assert_eq!(profile.guardian, "Nymeia, the Spinner");
    assert_eq!(profile.city_state, "Gridania");
    assert_eq!(profile.server, "Adamantoise [Aether]");
    assert_eq!(profile.race, "Lalafell");
    assert_eq!(profile.clan, "Plainsfolk");
    assert_eq!(profile.gender, "Female");
    assert_eq!(profile.grand_company.as_deref(), Some("Order of the Twin Adder"));
    assert_eq!(
        profile.grand_company_rank.as_deref(),
        Some("Serpent Private Second Class")
    );
    assert_eq!(profile.hp, 3210);
    assert_eq!(profile.mp, 10000);

    let snaps = profile.jobs.snapshots();
    assert_eq!(snaps.len(), 32);
    let jobs = all_jobs();
    for (i, snapshot) in snaps.iter().enumerate() {
        assert_eq!(snapshot.job, jobs[i]);
        match snapshot.job {
            Job::Paladin => {
                assert_eq!(snapshot.level, Some(100));
                assert_eq!(snapshot.exp, None);
            }
            Job::WhiteMage => {
                assert_eq!(snapshot.level, Some(53));
                assert_eq!(snapshot.exp, Some((1076101, 1555000)));
            }
            Job::Fisher => {
                assert_eq!(snapshot.level, None);
                assert_eq!(snapshot.exp, None);
            }
            _ => {
                assert_eq!(snapshot.level, Some(90));
                assert_eq!(snapshot.exp, Some((123456, 456789)));
            }
        }
    }
}

#[test]
fn missing_hp_names_hp_selector() {
    let doc = profile_doc().replace(
        "<p class=\"character__param__text__hp--en-us\">HP</p><span>3,210</span>\n",
        "",
    );
    let err = Profile::parse(1, &doc, &jobs_doc()).unwrap_err();
    assert_eq!(
        err,
        ParseError::MissingField {
            selector: "p.character__param__text__hp--en-us + span".to_string()
        }
    );
}

#[test]
fn one_missing_job_is_named() {
    let err = Profile::parse(1, &profile_doc(), &jobs_doc_without(Job::Dancer)).unwrap_err();
    assert_eq!(err, ParseError::IncompleteJobSet { missing: vec![Job::Dancer] });
}

#[test]
fn empty_jobs_page_names_every_job() {
    let doc = "<html><body><ul class=\"character__job\"></ul></body></html>";
    let err = Profile::parse(1, &profile_doc(), doc).unwrap_err();
    assert_eq!(err, ParseError::IncompleteJobSet { missing: all_jobs() });
}

#[test]
fn unknown_block_label_is_fatal() {
    let doc = profile_doc().replace(
        "<p class=\"character-block__title\">Guardian</p>",
        "<p class=\"character-block__title\">Mystery</p>",
    );
    let err = Profile::parse(1, &doc, &jobs_doc()).unwrap_err();
    assert_eq!(err, ParseError::UnknownBlock { label: "Mystery".to_string() });
}

#[test]
fn unknown_job_label_is_fatal() {
    let doc = jobs_doc().replace(
        "<div class=\"character__job__name\">Samurai</div>",
        "<div class=\"character__job__name\">Beastmaster</div>",
    );
    let err = Profile::parse(1, &profile_doc(), &doc).unwrap_err();
    assert_eq!(err, ParseError::UnknownJobLabel { label: "Beastmaster".to_string() });
}

#[test]
fn truncated_experience_is_malformed() {
    let doc = jobs_doc().replace("1,076,101 / 1,555,000", "1,076,101 /");
    let err = Profile::parse(1, &profile_doc(), &doc).unwrap_err();
    assert_eq!(
        err,
        ParseError::MalformedField {
            selector: "div.character__job__exp".to_string(),
            raw: "1,076,101 /".to_string()
        }
    );
}

#[test]
fn non_numeric_hp_is_malformed() {
    let doc = profile_doc().replace("<span>3,210</span>", "<span>over nine thousand</span>");
    let err = Profile::parse(1, &doc, &jobs_doc()).unwrap_err();
    assert_eq!(
        err,
        ParseError::MalformedField {
            selector: "p.character__param__text__hp--en-us + span".to_string(),
            raw: "over nine thousand".to_string()
        }
    );
}

#[test]
fn one_part_race_block_is_malformed() {
    let doc = profile_doc().replace(
        "<p class=\"character-block__name\">Lalafell<br>Plainsfolk / Female</p>",
        "<p class=\"character-block__name\">Lalafell</p>",
    );
    let err = Profile::parse(1, &doc, &jobs_doc()).unwrap_err();
    assert_eq!(
        err,
        ParseError::MalformedField {
            selector: "p.character-block__name".to_string(),
            raw: "Lalafell".to_string()
        }
    );
}

#[test]
fn grand_company_without_rank_is_malformed() {
    let doc = profile_doc().replace(
        "Order of the Twin Adder / Serpent Private Second Class",
        "Order of the Twin Adder",
    );
    let err = Profile::parse(1, &doc, &jobs_doc()).unwrap_err();
    assert_eq!(
        err,
        ParseError::MalformedField {
            selector: "p.character-block__name".to_string(),
            raw: "Order of the Twin Adder".to_string()
        }
    );
}

#[test]
fn optional_fields_may_be_absent() {
    let doc = profile_doc()
        .replace(
            "<div class=\"character__freecompany__name\"><h4>Mist Wanderers</h4></div>\n",
            "",
        )
        .replace(
            "<p class=\"character-block__title\">Grand Company</p>\
             <p class=\"character-block__name\">Order of the Twin Adder / Serpent Private Second Class</p>\n",
            "",
        );
    let profile = Profile::parse(7, &doc, &jobs_doc()).unwrap();
    assert_eq!(profile.free_company, None);
    assert_eq!(profile.grand_company, None);
    assert_eq!(profile.grand_company_rank, None);
}

#[test]
fn duplicate_job_entry_keeps_the_last() {
    let mut doc = jobs_doc();
    doc = doc.replace(
        "</ul>",
        "<li><div class=\"character__job__level\">42</div>\
         <div class=\"character__job__name\">Monk</div>\
         <div class=\"character__job__exp\">7 / 9</div></li></ul>",
    );
    let profile = Profile::parse(1, &profile_doc(), &doc).unwrap();
    let snaps = profile.jobs.snapshots();
    let monk = snaps
        .iter()
        .find(|s| s.job == Job::Monk)
        .unwrap();
    assert_eq!(monk.level, Some(42));
    assert_eq!(monk.exp, Some((7, 9)));
}
