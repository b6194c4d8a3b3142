//! The profile parser: orchestrates the field extractor over the two pages
//! of a capture and assembles one fully validated `Profile` record.

use vstd::prelude::*;
use vstd::string::StringExecFns;
use crate::error::{ParseError, ParseErrorModel};
use crate::extract::{
    concat_strings, concat_texts, extract_optional, extract_required, spec_extract_optional,
    spec_extract_required,
};
use crate::html::{
    select_match_labels, select_sub_text_nodes, select_text_nodes, selector_match_labels,
    selector_matches, selector_sub_matches,
};
use crate::job::{
    last_snapshot_for, lemma_last_snapshot_for, spec_all_jobs, spec_parse_label,
    spec_validate, Job, JobSnapshot, PlayerJobSnapshot,
};
use crate::text::{
    parse_count, parse_exp, parse_level, spec_exp, spec_level, spec_number_field, spec_split2,
    split2_trimmed, str_eq, trim_spaces,
};

verus! {

/// Selector of the free-company name block (optional).
pub const SELECT_FREE_COMPANY: &'static str = "div.character__freecompany__name h4";

/// Selector of the character name.
pub const SELECT_NAME: &'static str = "p.frame__chara__name";

/// Selector of the nameday (birth) text.
pub const SELECT_NAMEDAY: &'static str = "p.character-block__birth";

/// Selector of the repeated, label-disambiguated profile info block.
pub const SELECT_PROFILE_INFO: &'static str = "p.character-block__name";

/// Selector of the server (world) text.
pub const SELECT_SERVER: &'static str = "p.frame__chara__world";

/// Selector of the HP value.
pub const SELECT_HP: &'static str = "p.character__param__text__hp--en-us + span";

/// Selector of the MP value.
pub const SELECT_MP: &'static str = "p.character__param__text__mp--en-us + span";

/// Selector of one job entry on the job-progress page.
pub const SELECT_JOBS: &'static str = "ul.character__job li";

/// Selector of the level element within a job entry.
pub const SELECT_LEVEL: &'static str = "div.character__job__level";

/// Selector of the job-name element within a job entry.
pub const SELECT_JOB_NAME: &'static str = "div.character__job__name";

/// Selector of the experience element within a job entry.
pub const SELECT_EXP: &'static str = "div.character__job__exp";

/// Routing label of the race/clan/gender block.
pub const LABEL_RACE: &'static str = "Race/Clan/Gender";

/// Routing label of the guardian block.
pub const LABEL_GUARDIAN: &'static str = "Guardian";

/// Routing label of the city-state block.
pub const LABEL_CITY_STATE: &'static str = "City-state";

/// Routing label of the grand-company block.
pub const LABEL_GRAND_COMPANY: &'static str = "Grand Company";

/// A player profile captured from one pair of pages. Never partially valid:
/// construction either fully succeeds or fails with a named reason.
#[derive(Clone, Debug)]
pub struct Profile {
    pub user_id: u64,
    pub free_company: Option<String>,
    pub name: String,
    pub nameday: String,
    pub guardian: String,
    pub city_state: String,
    pub server: String,
    pub race: String,
    pub clan: String,
    pub gender: String,
    pub grand_company: Option<String>,
    pub grand_company_rank: Option<String>,
    pub hp: u64,
    pub mp: u64,
    pub jobs: PlayerJobSnapshot,
}

/// The mathematical shape of a `Profile`.
#[verifier::ext_equal]
pub struct ProfileModel {
    pub user_id: u64,
    pub free_company: Option<Seq<char>>,
    pub name: Seq<char>,
    pub nameday: Seq<char>,
    pub guardian: Seq<char>,
    pub city_state: Seq<char>,
    pub server: Seq<char>,
    pub race: Seq<char>,
    pub clan: Seq<char>,
    pub gender: Seq<char>,
    pub grand_company: Option<Seq<char>>,
    pub grand_company_rank: Option<Seq<char>>,
    pub hp: u64,
    pub mp: u64,
    pub jobs: Seq<JobSnapshot>,
}

impl View for Profile {
    type V = ProfileModel;

    open spec fn view(&self) -> ProfileModel {
        ProfileModel {
            user_id: self.user_id,
            free_company: self.free_company.deep_view(),
            name: self.name@,
            nameday: self.nameday@,
            guardian: self.guardian@,
            city_state: self.city_state@,
            server: self.server@,
            race: self.race@,
            clan: self.clan@,
            gender: self.gender@,
            grand_company: self.grand_company.deep_view(),
            grand_company_rank: self.grand_company_rank.deep_view(),
            hp: self.hp,
            mp: self.mp,
            jobs: self.jobs@,
        }
    }
}

impl Profile {
    /// A valid profile: the per-job map covers the taxonomy in order, every
    /// per-job record is internally consistent, and the grand company and
    /// its rank are both present or both absent.
    pub open spec fn wf(&self) -> bool {
        &&& self.jobs.wf()
        &&& forall|i: int| 0 <= i < self.jobs@.len() ==> (#[trigger] self.jobs@[i]).wf()
        &&& (self.grand_company is Some <==> self.grand_company_rank is Some)
    }
}

/// The profile fields gathered from the label-routed info blocks, each
/// absent until its block has been seen.
#[verifier::ext_equal]
pub struct InfoAcc {
    pub race: Option<Seq<char>>,
    pub clan: Option<Seq<char>>,
    pub gender: Option<Seq<char>>,
    pub guardian: Option<Seq<char>>,
    pub city_state: Option<Seq<char>>,
    pub grand_company: Option<Seq<char>>,
    pub grand_company_rank: Option<Seq<char>>,
}

/// No block seen yet.
pub open spec fn empty_info() -> InfoAcc {
    InfoAcc {
        race: None,
        clan: None,
        gender: None,
        guardian: None,
        city_state: None,
        grand_company: None,
        grand_company_rank: None,
    }
}

/// How one info block routes into the accumulator, switched on the text of
/// its immediately preceding sibling label. A later block of the same label
/// overwrites an earlier one.
pub open spec fn route_block(
    label: Option<Seq<Seq<char>>>,
    block: Seq<Seq<char>>,
    acc: InfoAcc,
) -> Result<InfoAcc, ParseErrorModel> {
    match label {
        None => Err(ParseErrorModel::UnknownBlock { label: Seq::empty() }),
        Some(label_nodes) => {
            let name = concat_texts(label_nodes);
            if name == LABEL_RACE@ {
                if block.len() != 2 {
                    Err(ParseErrorModel::MalformedField {
                        selector: SELECT_PROFILE_INFO@,
                        raw: concat_texts(block),
                    })
                } else {
                    match spec_split2(block[1]) {
                        Some((clan, gender)) => Ok(
                            InfoAcc {
                                race: Some(block[0]),
                                clan: Some(trim_spaces(clan)),
                                gender: Some(trim_spaces(gender)),
                                ..acc
                            },
                        ),
                        None => Err(ParseErrorModel::MalformedField {
                            selector: SELECT_PROFILE_INFO@,
                            raw: concat_texts(block),
                        }),
                    }
                }
            } else if name == LABEL_GUARDIAN@ {
                Ok(InfoAcc { guardian: Some(concat_texts(block)), ..acc })
            } else if name == LABEL_CITY_STATE@ {
                Ok(InfoAcc { city_state: Some(concat_texts(block)), ..acc })
            } else if name == LABEL_GRAND_COMPANY@ {
                match spec_split2(concat_texts(block)) {
                    Some((company, rank)) => Ok(
                        InfoAcc {
                            grand_company: Some(trim_spaces(company)),
                            grand_company_rank: Some(trim_spaces(rank)),
                            ..acc
                        },
                    ),
                    None => Err(ParseErrorModel::MalformedField {
                        selector: SELECT_PROFILE_INFO@,
                        raw: concat_texts(block),
                    }),
                }
            } else {
                Err(ParseErrorModel::UnknownBlock { label: name })
            }
        },
    }
}

/// Folding every info block, in document order, through `route_block`.
pub open spec fn route_blocks(
    labels: Seq<Option<Seq<Seq<char>>>>,
    blocks: Seq<Seq<Seq<char>>>,
    acc: InfoAcc,
) -> Result<InfoAcc, ParseErrorModel>
    decreases blocks.len(),
{
    if blocks.len() == 0 {
        Ok(acc)
    } else {
        match route_block(labels[0], blocks[0], acc) {
            Ok(next) => route_blocks(labels.drop_first(), blocks.drop_first(), next),
            Err(e) => Err(e),
        }
    }
}

/// What the info blocks of a profile document yield: the routed fields, of
/// which race, clan, gender, guardian and city-state are required.
pub open spec fn spec_info(doc: Seq<char>) -> Result<InfoAcc, ParseErrorModel> {
    let labels = selector_match_labels(doc, SELECT_PROFILE_INFO@);
    let blocks = selector_matches(doc, SELECT_PROFILE_INFO@);
    match route_blocks(labels, blocks, empty_info()) {
        Err(e) => Err(e),
        Ok(acc) => {
            if acc.race is None {
                Err(ParseErrorModel::MissingField { selector: LABEL_RACE@ })
            } else if acc.clan is None {
                Err(ParseErrorModel::MissingField { selector: LABEL_RACE@ })
            } else if acc.gender is None {
                Err(ParseErrorModel::MissingField { selector: LABEL_RACE@ })
            } else if acc.guardian is None {
                Err(ParseErrorModel::MissingField { selector: LABEL_GUARDIAN@ })
            } else if acc.city_state is None {
                Err(ParseErrorModel::MissingField { selector: LABEL_CITY_STATE@ })
            } else {
                Ok(acc)
            }
        },
    }
}

/// The info-block fields once all required ones are present.
pub struct InfoFields {
    pub race: String,
    pub clan: String,
    pub gender: String,
    pub guardian: String,
    pub city_state: String,
    pub grand_company: Option<String>,
    pub grand_company_rank: Option<String>,
}

/// The routed fields gathered so far.
struct InfoBuilder {
    race: Option<String>,
    clan: Option<String>,
    gender: Option<String>,
    guardian: Option<String>,
    city_state: Option<String>,
    grand_company: Option<String>,
    grand_company_rank: Option<String>,
}

impl View for InfoBuilder {
    type V = InfoAcc;

    closed spec fn view(&self) -> InfoAcc {
        InfoAcc {
            race: self.race.deep_view(),
            clan: self.clan.deep_view(),
            gender: self.gender.deep_view(),
            guardian: self.guardian.deep_view(),
            city_state: self.city_state.deep_view(),
            grand_company: self.grand_company.deep_view(),
            grand_company_rank: self.grand_company_rank.deep_view(),
        }
    }
}

/// Gathers the label-routed profile fields from the repeated info block,
/// reading each block's immediately preceding sibling label and switching on
/// it; an unrecognized label is a hard failure.
fn parse_info_blocks(doc: &str) -> (r: Result<InfoFields, ParseError>)
    ensures
        r matches Ok(f) ==> {
            &&& spec_info(doc@) matches Ok(acc)
            &&& acc.race == Some(f.race@)
            &&& acc.clan == Some(f.clan@)
            &&& acc.gender == Some(f.gender@)
            &&& acc.guardian == Some(f.guardian@)
            &&& acc.city_state == Some(f.city_state@)
            &&& acc.grand_company == f.grand_company.deep_view()
            &&& acc.grand_company_rank == f.grand_company_rank.deep_view()
            &&& (f.grand_company is Some <==> f.grand_company_rank is Some)
        },
        r matches Err(e) ==> spec_info(doc@) matches Err(m) && e@ == m,
{
    let labels = select_match_labels(doc, SELECT_PROFILE_INFO);
    let blocks = select_text_nodes(doc, SELECT_PROFILE_INFO);
    let ghost ldv = labels.deep_view();
    let ghost bdv = blocks.deep_view();
    proof {
        assert(ldv.len() == labels@.len());
        assert(bdv.len() == blocks@.len());
    }
    let n = blocks.len();
    let mut b = InfoBuilder {
        race: None,
        clan: None,
        gender: None,
        guardian: None,
        city_state: None,
        grand_company: None,
        grand_company_rank: None,
    };
    proof {
        assert(ldv.skip(0) =~= ldv);
        assert(bdv.skip(0) =~= bdv);
        assert(b@ =~= empty_info());
    }
    let mut i: usize = 0;
    while i < n
        invariant
            n == blocks@.len(),
            labels@.len() == n,
            ldv == labels.deep_view(),
            bdv == blocks.deep_view(),
            ldv.len() == n,
            bdv.len() == n,
            i <= n,
            ldv == selector_match_labels(doc@, SELECT_PROFILE_INFO@),
            bdv == selector_matches(doc@, SELECT_PROFILE_INFO@),
            route_blocks(ldv, bdv, empty_info()) == route_blocks(
                ldv.skip(i as int),
                bdv.skip(i as int),
                b@,
            ),
            b@.grand_company is Some <==> b@.grand_company_rank is Some,
        decreases n - i,
    {
        proof {
            assert(ldv.skip(i as int)[0] == ldv[i as int]);
            assert(bdv.skip(i as int)[0] == bdv[i as int]);
            assert(ldv.skip(i as int).drop_first() =~= ldv.skip(i + 1 as int));
            assert(bdv.skip(i as int).drop_first() =~= bdv.skip(i + 1 as int));
            assert(ldv[i as int] == labels@[i as int].deep_view());
            assert(bdv[i as int] == blocks@[i as int].deep_view());
        }
        let block = &blocks[i];
        proof {
            assert(block.deep_view().len() == block@.len());
        }
        match &labels[i] {
            None => {
                return Err(ParseError::UnknownBlock { label: String::new() });
            },
            Some(label_nodes) => {
                let name = concat_strings(label_nodes);
                if str_eq(name.as_str(), LABEL_RACE) {
                    if block.len() != 2 {
                        return Err(ParseError::MalformedField {
                            selector: String::from_str(SELECT_PROFILE_INFO),
                            raw: concat_strings(block),
                        });
                    }
                    proof {
                        assert(block.deep_view()[0] == block@[0]@);
                        assert(block.deep_view()[1] == block@[1]@);
                    }
                    let race = block[0].clone();
                    match split2_trimmed(block[1].as_str()) {
                        Some((clan, gender)) => {
                            b.race = Some(race);
                            b.clan = Some(clan);
                            b.gender = Some(gender);
                        },
                        None => {
                            return Err(ParseError::MalformedField {
                                selector: String::from_str(SELECT_PROFILE_INFO),
                                raw: concat_strings(block),
                            });
                        },
                    }
                } else if str_eq(name.as_str(), LABEL_GUARDIAN) {
                    b.guardian = Some(concat_strings(block));
                } else if str_eq(name.as_str(), LABEL_CITY_STATE) {
                    b.city_state = Some(concat_strings(block));
                } else if str_eq(name.as_str(), LABEL_GRAND_COMPANY) {
                    let joined = concat_strings(block);
                    match split2_trimmed(joined.as_str()) {
                        Some((company, rank)) => {
                            b.grand_company = Some(company);
                            b.grand_company_rank = Some(rank);
                        },
                        None => {
                            return Err(ParseError::MalformedField {
                                selector: String::from_str(SELECT_PROFILE_INFO),
                                raw: joined,
                            });
                        },
                    }
                } else {
                    return Err(ParseError::UnknownBlock { label: name });
                }
            },
        }
        i = i + 1;
    }
    proof {
        assert(bdv.skip(n as int).len() == 0);
        assert(route_blocks(ldv, bdv, empty_info()) == Ok::<InfoAcc, ParseErrorModel>(b@));
    }
    let race = match b.race {
        Some(v) => v,
        None => {
            return Err(ParseError::MissingField { selector: String::from_str(LABEL_RACE) });
        },
    };
    let clan = match b.clan {
        Some(v) => v,
        None => {
            return Err(ParseError::MissingField { selector: String::from_str(LABEL_RACE) });
        },
    };
    let gender = match b.gender {
        Some(v) => v,
        None => {
            return Err(ParseError::MissingField { selector: String::from_str(LABEL_RACE) });
        },
    };
    let guardian = match b.guardian {
        Some(v) => v,
        None => {
            return Err(ParseError::MissingField { selector: String::from_str(LABEL_GUARDIAN) });
        },
    };
    let city_state = match b.city_state {
        Some(v) => v,
        None => {
            return Err(ParseError::MissingField { selector: String::from_str(LABEL_CITY_STATE) });
        },
    };
    Ok(InfoFields {
        race,
        clan,
        gender,
        guardian,
        city_state,
        grand_company: b.grand_company,
        grand_company_rank: b.grand_company_rank,
    })
}

/// What one job entry yields: its level, taxonomy job and experience, or the
/// first failure among them.
pub open spec fn spec_job_entry(
    level_nodes: Option<Seq<Seq<char>>>,
    name_nodes: Option<Seq<Seq<char>>>,
    exp_nodes: Option<Seq<Seq<char>>>,
) -> Result<JobSnapshot, ParseErrorModel> {
    match level_nodes {
        None => Err(ParseErrorModel::MissingField { selector: SELECT_LEVEL@ }),
        Some(ln) => {
            let level_raw = concat_texts(ln);
            match spec_level(level_raw) {
                Err(_) => Err(ParseErrorModel::MalformedField {
                    selector: SELECT_LEVEL@,
                    raw: level_raw,
                }),
                Ok(level) => match name_nodes {
                    None => Err(ParseErrorModel::MissingField { selector: SELECT_JOB_NAME@ }),
                    Some(nn) => {
                        let name_raw = concat_texts(nn);
                        match spec_parse_label(name_raw) {
                            None => Err(ParseErrorModel::UnknownJobLabel { label: name_raw }),
                            Some(job) => match exp_nodes {
                                None => Err(ParseErrorModel::MissingField {
                                    selector: SELECT_EXP@,
                                }),
                                Some(en) => {
                                    let exp_raw = concat_texts(en);
                                    match spec_exp(exp_raw) {
                                        Err(_) => Err(ParseErrorModel::MalformedField {
                                            selector: SELECT_EXP@,
                                            raw: exp_raw,
                                        }),
                                        Ok(exp) => Ok(JobSnapshot { job, level, exp }),
                                    }
                                },
                            },
                        }
                    },
                },
            }
        },
    }
}

/// What the job entries from position `i` on yield, appended onto what the
/// earlier entries built; the earliest failure aborts the whole sequence.
pub open spec fn build_snapshots(
    levels: Seq<Option<Seq<Seq<char>>>>,
    names: Seq<Option<Seq<Seq<char>>>>,
    exps: Seq<Option<Seq<Seq<char>>>>,
    i: int,
    n: int,
    acc: Seq<JobSnapshot>,
) -> Result<Seq<JobSnapshot>, ParseErrorModel>
    decreases n - i,
{
    if i >= n {
        Ok(acc)
    } else {
        match spec_job_entry(levels[i], names[i], exps[i]) {
            Err(e) => Err(e),
            Ok(snapshot) => build_snapshots(levels, names, exps, i + 1, n, acc.push(snapshot)),
        }
    }
}

/// What the job-progress document yields: one snapshot per job entry, in
/// document order.
pub open spec fn spec_jobs(doc: Seq<char>) -> Result<Seq<JobSnapshot>, ParseErrorModel> {
    build_snapshots(
        selector_sub_matches(doc, SELECT_JOBS@, SELECT_LEVEL@),
        selector_sub_matches(doc, SELECT_JOBS@, SELECT_JOB_NAME@),
        selector_sub_matches(doc, SELECT_JOBS@, SELECT_EXP@),
        0,
        selector_matches(doc, SELECT_JOBS@).len() as int,
        Seq::empty(),
    )
}

/// Reads every job entry of the job-progress document: level, job name
/// (parsed through the taxonomy) and experience. One malformed entry aborts
/// the parse.
fn parse_job_entries(doc: &str) -> (r: Result<Vec<JobSnapshot>, ParseError>)
    ensures
        r matches Ok(v) ==> {
            &&& spec_jobs(doc@) matches Ok(s) && v@ == s
            &&& forall|k: int| 0 <= k < v@.len() ==> (#[trigger] v@[k]).wf()
        },
        r matches Err(e) ==> spec_jobs(doc@) matches Err(m) && e@ == m,
{
    let levels = select_sub_text_nodes(doc, SELECT_JOBS, SELECT_LEVEL);
    let names = select_sub_text_nodes(doc, SELECT_JOBS, SELECT_JOB_NAME);
    let exps = select_sub_text_nodes(doc, SELECT_JOBS, SELECT_EXP);
    let ghost lvl = levels.deep_view();
    let ghost nms = names.deep_view();
    let ghost exs = exps.deep_view();
    proof {
        assert(lvl.len() == levels@.len());
        assert(nms.len() == names@.len());
        assert(exs.len() == exps@.len());
    }
    let n = levels.len();
    let mut snaps: Vec<JobSnapshot> = Vec::new();
    let mut i: usize = 0;
    while i < n
        invariant
            n == levels@.len(),
            names@.len() == n,
            exps@.len() == n,
            lvl == levels.deep_view(),
            nms == names.deep_view(),
            exs == exps.deep_view(),
            i <= n,
            n == selector_matches(doc@, SELECT_JOBS@).len(),
            lvl == selector_sub_matches(doc@, SELECT_JOBS@, SELECT_LEVEL@),
            nms == selector_sub_matches(doc@, SELECT_JOBS@, SELECT_JOB_NAME@),
            exs == selector_sub_matches(doc@, SELECT_JOBS@, SELECT_EXP@),
            spec_jobs(doc@) == build_snapshots(lvl, nms, exs, i as int, n as int, snaps@),
            forall|k: int| 0 <= k < snaps@.len() ==> (#[trigger] snaps@[k]).wf(),
        decreases n - i,
    {
        proof {
            assert(lvl[i as int] == levels@[i as int].deep_view());
            assert(nms[i as int] == names@[i as int].deep_view());
            assert(exs[i as int] == exps@[i as int].deep_view());
        }
        let level = match &levels[i] {
            None => {
                return Err(ParseError::MissingField { selector: String::from_str(SELECT_LEVEL) });
            },
            Some(ln) => {
                let raw = concat_strings(ln);
                match parse_level(raw.as_str()) {
                    Ok(level) => level,
                    Err(()) => {
                        return Err(ParseError::MalformedField {
                            selector: String::from_str(SELECT_LEVEL),
                            raw,
                        });
                    },
                }
            },
        };
        let job = match &names[i] {
            None => {
                return Err(ParseError::MissingField {
                    selector: String::from_str(SELECT_JOB_NAME),
                });
            },
            Some(nn) => {
                let raw = concat_strings(nn);
                match Job::from_label(raw.as_str()) {
                    Some(job) => job,
                    None => {
                        return Err(ParseError::UnknownJobLabel { label: raw });
                    },
                }
            },
        };
        let exp = match &exps[i] {
            None => {
                return Err(ParseError::MissingField { selector: String::from_str(SELECT_EXP) });
            },
            Some(en) => {
                let raw = concat_strings(en);
                match parse_exp(raw.as_str()) {
                    Ok(exp) => exp,
                    Err(()) => {
                        return Err(ParseError::MalformedField {
                            selector: String::from_str(SELECT_EXP),
                            raw,
                        });
                    },
                }
            },
        };
        snaps.push(JobSnapshot { job, level, exp });
        i = i + 1;
    }
    Ok(snaps)
}

/// What parsing a capture yields: either every field of the profile record,
/// extracted and validated as a whole, or the first structural failure.
pub open spec fn spec_parse_profile(user_id: u64, pdoc: Seq<char>, jdoc: Seq<char>) -> Result<
    ProfileModel,
    ParseErrorModel,
> {
    let free_company = spec_extract_optional(pdoc, SELECT_FREE_COMPANY@);
    match spec_extract_required(pdoc, SELECT_NAME@) {
        Err(e) => Err(e),
        Ok(name) => match spec_extract_required(pdoc, SELECT_NAMEDAY@) {
            Err(e) => Err(e),
            Ok(nameday) => match spec_extract_required(pdoc, SELECT_SERVER@) {
                Err(e) => Err(e),
                Ok(server) => match spec_info(pdoc) {
                    Err(e) => Err(e),
                    Ok(acc) => match spec_extract_required(pdoc, SELECT_HP@) {
                        Err(e) => Err(e),
                        Ok(hp_raw) => match spec_number_field(hp_raw) {
                            None => Err(ParseErrorModel::MalformedField {
                                selector: SELECT_HP@,
                                raw: hp_raw,
                            }),
                            Some(hp) => match spec_extract_required(pdoc, SELECT_MP@) {
                                Err(e) => Err(e),
                                Ok(mp_raw) => match spec_number_field(mp_raw) {
                                    None => Err(ParseErrorModel::MalformedField {
                                        selector: SELECT_MP@,
                                        raw: mp_raw,
                                    }),
                                    Some(mp) => match spec_jobs(jdoc) {
                                        Err(e) => Err(e),
                                        Ok(snaps) => match spec_validate(snaps) {
                                            Err(missing) => Err(
                                                ParseErrorModel::IncompleteJobSet { missing },
                                            ),
                                            Ok(jobs) => Ok(
                                                ProfileModel {
                                                    user_id,
                                                    free_company,
                                                    name,
                                                    nameday,
                                                    guardian: acc.guardian->0,
                                                    city_state: acc.city_state->0,
                                                    server,
                                                    race: acc.race->0,
                                                    clan: acc.clan->0,
                                                    gender: acc.gender->0,
                                                    grand_company: acc.grand_company,
                                                    grand_company_rank: acc.grand_company_rank,
                                                    hp,
                                                    mp,
                                                    jobs,
                                                },
                                            ),
                                        },
                                    },
                                },
                            },
                        },
                    },
                },
            },
        },
    }
}

impl Profile {
    /// Parses one capture: the profile page, the job-progress page, and the
    /// caller-supplied account identifier stamped onto the result. Either
    /// every field extracts and validates, or the first structural failure
    /// aborts the whole build.
    pub fn parse(user_id: u64, profile_html: &str, jobs_html: &str) -> (r: Result<
        Profile,
        ParseError,
    >)
        ensures
            r matches Ok(p) ==> {
                &&& spec_parse_profile(user_id, profile_html@, jobs_html@) matches Ok(m)
                &&& p@ == m
                &&& p.wf()
            },
            r matches Err(e) ==> spec_parse_profile(user_id, profile_html@, jobs_html@)
                matches Err(m) && e@ == m,
    {
        let free_company = extract_optional(profile_html, SELECT_FREE_COMPANY);
        let name = match extract_required(profile_html, SELECT_NAME) {
            Ok(v) => v,
            Err(e) => {
                return Err(e);
            },
        };
        let nameday = match extract_required(profile_html, SELECT_NAMEDAY) {
            Ok(v) => v,
            Err(e) => {
                return Err(e);
            },
        };
        let server = match extract_required(profile_html, SELECT_SERVER) {
            Ok(v) => v,
            Err(e) => {
                return Err(e);
            },
        };
        let info = match parse_info_blocks(profile_html) {
            Ok(f) => f,
            Err(e) => {
                return Err(e);
            },
        };
        let hp_raw = match extract_required(profile_html, SELECT_HP) {
            Ok(v) => v,
            Err(e) => {
                return Err(e);
            },
        };
        let hp = match parse_count(hp_raw.as_str()) {
            Some(v) => v,
            None => {
                return Err(ParseError::MalformedField {
                    selector: String::from_str(SELECT_HP),
                    raw: hp_raw,
                });
            },
        };
        let mp_raw = match extract_required(profile_html, SELECT_MP) {
            Ok(v) => v,
            Err(e) => {
                return Err(e);
            },
        };
        let mp = match parse_count(mp_raw.as_str()) {
            Some(v) => v,
            None => {
                return Err(ParseError::MalformedField {
                    selector: String::from_str(SELECT_MP),
                    raw: mp_raw,
                });
            },
        };
        let snaps = match parse_job_entries(jobs_html) {
            Ok(v) => v,
            Err(e) => {
                return Err(e);
            },
        };
        let ghost snaps_view = snaps@;
        let jobs = match PlayerJobSnapshot::from_snapshots(snaps) {
            Ok(p) => p,
            Err(missing) => {
                return Err(ParseError::IncompleteJobSet { missing });
            },
        };
        let profile = Profile {
            user_id,
            free_company,
            name,
            nameday,
            guardian: info.guardian,
            city_state: info.city_state,
            server,
            race: info.race,
            clan: info.clan,
            gender: info.gender,
            grand_company: info.grand_company,
            grand_company_rank: info.grand_company_rank,
            hp,
            mp,
            jobs,
        };
        proof {
            let m = spec_parse_profile(user_id, profile_html@, jobs_html@);
            assert(m is Ok);
            assert(profile@ =~= m->Ok_0);
            assert forall|i: int| 0 <= i < profile.jobs@.len() implies (
            #[trigger] profile.jobs@[i]).wf() by {
                lemma_last_snapshot_for(snaps_view, spec_all_jobs()[i]);
                let s = last_snapshot_for(snaps_view, spec_all_jobs()[i]);
                let w = choose|k: int| 0 <= k < snaps_view.len() && snaps_view[k] == s;
                assert(snaps_view[w].wf());
            }
        }
        Ok(profile)
    }
}

} // verus!
