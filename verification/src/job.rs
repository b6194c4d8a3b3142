//! The closed job taxonomy: every playable role, its canonical display label,
//! and the legacy labels that normalize to it.

use vstd::prelude::*;
use crate::text::str_eq;

verus! {

/// One playable role. When a label names an initial class (such as
/// "Marauder"), it is parsed as the matching advanced job (such as Warrior).
///
/// Because Arcanist advances into both Scholar and Summoner, the label
/// "Arcanist" resolves to Summoner, and only to Summoner.
#[derive(Clone, Copy, Debug, PartialEq, Eq, Structural)]
pub enum Job {
    // tanks
    Paladin,
    Warrior,
    DarkKnight,
    Gunbreaker,
    // healers
    WhiteMage,
    Scholar,
    Astrologian,
    Sage,
    // melee dps
    Monk,
    Dragoon,
    Ninja,
    Samurai,
    Reaper,
    Viper,
    // physical ranged dps
    Bard,
    Machinist,
    Dancer,
    // casters
    BlackMage,
    Summoner,
    RedMage,
    Pictomancer,
    // disciples of the hand
    Carpenter,
    Armorer,
    Blacksmith,
    Goldsmith,
    Leatherworker,
    Weaver,
    Alchemist,
    Culinarian,
    // disciples of the land
    Miner,
    Botanist,
    Fisher,
}

/// The canonical display label of a job.
pub open spec fn spec_label(j: Job) -> Seq<char> {
    match j {
        Job::Paladin => "Paladin"@,
        Job::Warrior => "Warrior"@,
        Job::DarkKnight => "Dark Knight"@,
        Job::Gunbreaker => "Gunbreaker"@,
        Job::WhiteMage => "White Mage"@,
        Job::Scholar => "Scholar"@,
        Job::Astrologian => "Astrologian"@,
        Job::Sage => "Sage"@,
        Job::Monk => "Monk"@,
        Job::Dragoon => "Dragoon"@,
        Job::Ninja => "Ninja"@,
        Job::Samurai => "Samurai"@,
        Job::Reaper => "Reaper"@,
        Job::Viper => "Viper"@,
        Job::Bard => "Bard"@,
        Job::Machinist => "Machinist"@,
        Job::Dancer => "Dancer"@,
        Job::BlackMage => "Black Mage"@,
        Job::Summoner => "Summoner"@,
        Job::RedMage => "Red Mage"@,
        Job::Pictomancer => "Pictomancer"@,
        Job::Carpenter => "Carpenter"@,
        Job::Armorer => "Armorer"@,
        Job::Blacksmith => "Blacksmith"@,
        Job::Goldsmith => "Goldsmith"@,
        Job::Leatherworker => "Leatherworker"@,
        Job::Weaver => "Weaver"@,
        Job::Alchemist => "Alchemist"@,
        Job::Culinarian => "Culinarian"@,
        Job::Miner => "Miner"@,
        Job::Botanist => "Botanist"@,
        Job::Fisher => "Fisher"@,
    }
}

/// The legacy labels that normalize to a job, beside its canonical label.
/// Each starting class resolves to exactly one advanced job.
pub open spec fn spec_aliases(j: Job) -> Seq<Seq<char>> {
    match j {
        Job::Paladin => seq!["Gladiator"@],
        Job::Warrior => seq!["Marauder"@],
        Job::WhiteMage => seq!["Conjurer"@],
        Job::Monk => seq!["Pugilist"@],
        Job::Dragoon => seq!["Lancer"@],
        Job::Ninja => seq!["Rogue"@],
        Job::Bard => seq!["Archer"@],
        Job::BlackMage => seq!["Thaumaturge"@],
        Job::Summoner => seq!["Arcanist"@],
        _ => Seq::empty(),
    }
}

/// The job, if any, named by a raw label: an exact match against a canonical
/// label or a declared legacy alias.
pub open spec fn spec_parse_label(s: Seq<char>) -> Option<Job> {
    if s == "Paladin"@ || s == "Gladiator"@ {
        Some(Job::Paladin)
    } else if s == "Warrior"@ || s == "Marauder"@ {
        Some(Job::Warrior)
    } else if s == "Dark Knight"@ {
        Some(Job::DarkKnight)
    } else if s == "Gunbreaker"@ {
        Some(Job::Gunbreaker)
    } else if s == "White Mage"@ || s == "Conjurer"@ {
        Some(Job::WhiteMage)
    } else if s == "Scholar"@ {
        Some(Job::Scholar)
    } else if s == "Astrologian"@ {
        Some(Job::Astrologian)
    } else if s == "Sage"@ {
        Some(Job::Sage)
    } else if s == "Monk"@ || s == "Pugilist"@ {
        Some(Job::Monk)
    } else if s == "Dragoon"@ || s == "Lancer"@ {
        Some(Job::Dragoon)
    } else if s == "Ninja"@ || s == "Rogue"@ {
        Some(Job::Ninja)
    } else if s == "Samurai"@ {
        Some(Job::Samurai)
    } else if s == "Reaper"@ {
        Some(Job::Reaper)
    } else if s == "Viper"@ {
        Some(Job::Viper)
    } else if s == "Bard"@ || s == "Archer"@ {
        Some(Job::Bard)
    } else if s == "Machinist"@ {
        Some(Job::Machinist)
    } else if s == "Dancer"@ {
        Some(Job::Dancer)
    } else if s == "Black Mage"@ || s == "Thaumaturge"@ {
        Some(Job::BlackMage)
    } else if s == "Summoner"@ || s == "Arcanist"@ {
        Some(Job::Summoner)
    } else if s == "Red Mage"@ {
        Some(Job::RedMage)
    } else if s == "Pictomancer"@ {
        Some(Job::Pictomancer)
    } else if s == "Carpenter"@ {
        Some(Job::Carpenter)
    } else if s == "Armorer"@ {
        Some(Job::Armorer)
    } else if s == "Blacksmith"@ {
        Some(Job::Blacksmith)
    } else if s == "Goldsmith"@ {
        Some(Job::Goldsmith)
    } else if s == "Leatherworker"@ {
        Some(Job::Leatherworker)
    } else if s == "Weaver"@ {
        Some(Job::Weaver)
    } else if s == "Alchemist"@ {
        Some(Job::Alchemist)
    } else if s == "Culinarian"@ {
        Some(Job::Culinarian)
    } else if s == "Miner"@ {
        Some(Job::Miner)
    } else if s == "Botanist"@ {
        Some(Job::Botanist)
    } else if s == "Fisher"@ {
        Some(Job::Fisher)
    } else {
        None
    }
}

impl Job {
    /// The canonical display label.
    pub fn label(self) -> (r: &'static str)
        ensures
            r@ == spec_label(self),
    {
        match self {
            Job::Paladin => "Paladin",
            Job::Warrior => "Warrior",
            Job::DarkKnight => "Dark Knight",
            Job::Gunbreaker => "Gunbreaker",
            Job::WhiteMage => "White Mage",
            Job::Scholar => "Scholar",
            Job::Astrologian => "Astrologian",
            Job::Sage => "Sage",
            Job::Monk => "Monk",
            Job::Dragoon => "Dragoon",
            Job::Ninja => "Ninja",
            Job::Samurai => "Samurai",
            Job::Reaper => "Reaper",
            Job::Viper => "Viper",
            Job::Bard => "Bard",
            Job::Machinist => "Machinist",
            Job::Dancer => "Dancer",
            Job::BlackMage => "Black Mage",
            Job::Summoner => "Summoner",
            Job::RedMage => "Red Mage",
            Job::Pictomancer => "Pictomancer",
            Job::Carpenter => "Carpenter",
            Job::Armorer => "Armorer",
            Job::Blacksmith => "Blacksmith",
            Job::Goldsmith => "Goldsmith",
            Job::Leatherworker => "Leatherworker",
            Job::Weaver => "Weaver",
            Job::Alchemist => "Alchemist",
            Job::Culinarian => "Culinarian",
            Job::Miner => "Miner",
            Job::Botanist => "Botanist",
            Job::Fisher => "Fisher",
        }
    }

    /// Parses a raw label: an exact match against a canonical label or a
    /// declared legacy alias; anything else is no job at all.
    pub fn from_label(s: &str) -> (r: Option<Job>)
        ensures
            r == spec_parse_label(s@),
    {
        if str_eq(s, "Paladin") || str_eq(s, "Gladiator") {
            Some(Job::Paladin)
        } else if str_eq(s, "Warrior") || str_eq(s, "Marauder") {
            Some(Job::Warrior)
        } else if str_eq(s, "Dark Knight") {
            Some(Job::DarkKnight)
        } else if str_eq(s, "Gunbreaker") {
            Some(Job::Gunbreaker)
        } else if str_eq(s, "White Mage") || str_eq(s, "Conjurer") {
            Some(Job::WhiteMage)
        } else if str_eq(s, "Scholar") {
            Some(Job::Scholar)
        } else if str_eq(s, "Astrologian") {
            Some(Job::Astrologian)
        } else if str_eq(s, "Sage") {
            Some(Job::Sage)
        } else if str_eq(s, "Monk") || str_eq(s, "Pugilist") {
            Some(Job::Monk)
        } else if str_eq(s, "Dragoon") || str_eq(s, "Lancer") {
            Some(Job::Dragoon)
        } else if str_eq(s, "Ninja") || str_eq(s, "Rogue") {
            Some(Job::Ninja)
        } else if str_eq(s, "Samurai") {
            Some(Job::Samurai)
        } else if str_eq(s, "Reaper") {
            Some(Job::Reaper)
        } else if str_eq(s, "Viper") {
            Some(Job::Viper)
        } else if str_eq(s, "Bard") || str_eq(s, "Archer") {
            Some(Job::Bard)
        } else if str_eq(s, "Machinist") {
            Some(Job::Machinist)
        } else if str_eq(s, "Dancer") {
            Some(Job::Dancer)
        } else if str_eq(s, "Black Mage") || str_eq(s, "Thaumaturge") {
            Some(Job::BlackMage)
        } else if str_eq(s, "Summoner") || str_eq(s, "Arcanist") {
            Some(Job::Summoner)
        } else if str_eq(s, "Red Mage") {
            Some(Job::RedMage)
        } else if str_eq(s, "Pictomancer") {
            Some(Job::Pictomancer)
        } else if str_eq(s, "Carpenter") {
            Some(Job::Carpenter)
        } else if str_eq(s, "Armorer") {
            Some(Job::Armorer)
        } else if str_eq(s, "Blacksmith") {
            Some(Job::Blacksmith)
        } else if str_eq(s, "Goldsmith") {
            Some(Job::Goldsmith)
        } else if str_eq(s, "Leatherworker") {
            Some(Job::Leatherworker)
        } else if str_eq(s, "Weaver") {
            Some(Job::Weaver)
        } else if str_eq(s, "Alchemist") {
            Some(Job::Alchemist)
        } else if str_eq(s, "Culinarian") {
            Some(Job::Culinarian)
        } else if str_eq(s, "Miner") {
            Some(Job::Miner)
        } else if str_eq(s, "Botanist") {
            Some(Job::Botanist)
        } else if str_eq(s, "Fisher") {
            Some(Job::Fisher)
        } else {
            None
        }
    }
}

/// All jobs, in canonical taxonomy order. This order keys the per-job
/// snapshot map and drives deterministic output.
pub open spec fn spec_all_jobs() -> Seq<Job> {
    seq![
        Job::Paladin,
        Job::Warrior,
        Job::DarkKnight,
        Job::Gunbreaker,
        Job::WhiteMage,
        Job::Scholar,
        Job::Astrologian,
        Job::Sage,
        Job::Monk,
        Job::Dragoon,
        Job::Ninja,
        Job::Samurai,
        Job::Reaper,
        Job::Viper,
        Job::Bard,
        Job::Machinist,
        Job::Dancer,
        Job::BlackMage,
        Job::Summoner,
        Job::RedMage,
        Job::Pictomancer,
        Job::Carpenter,
        Job::Armorer,
        Job::Blacksmith,
        Job::Goldsmith,
        Job::Leatherworker,
        Job::Weaver,
        Job::Alchemist,
        Job::Culinarian,
        Job::Miner,
        Job::Botanist,
        Job::Fisher,
    ]
}

/// How many jobs the taxonomy has.
pub const JOB_COUNT: usize = 32;

/// All jobs, in canonical taxonomy order.
pub fn all_jobs() -> (v: Vec<Job>)
    ensures
        v@ == spec_all_jobs(),
{
    let v = vec![
        Job::Paladin,
        Job::Warrior,
        Job::DarkKnight,
        Job::Gunbreaker,
        Job::WhiteMage,
        Job::Scholar,
        Job::Astrologian,
        Job::Sage,
        Job::Monk,
        Job::Dragoon,
        Job::Ninja,
        Job::Samurai,
        Job::Reaper,
        Job::Viper,
        Job::Bard,
        Job::Machinist,
        Job::Dancer,
        Job::BlackMage,
        Job::Summoner,
        Job::RedMage,
        Job::Pictomancer,
        Job::Carpenter,
        Job::Armorer,
        Job::Blacksmith,
        Job::Goldsmith,
        Job::Leatherworker,
        Job::Weaver,
        Job::Alchemist,
        Job::Culinarian,
        Job::Miner,
        Job::Botanist,
        Job::Fisher,
    ];
    proof {
        assert(v@ =~= spec_all_jobs());
    }
    v
}

/// The position of a job in the canonical taxonomy order.
pub open spec fn spec_job_index(j: Job) -> int {
    spec_all_jobs().index_of(j)
}

/// The position of a job in the canonical taxonomy order.
pub fn job_index(j: Job) -> (i: usize)
    ensures
        i == spec_job_index(j),
        0 <= spec_job_index(j) < 32,
        spec_all_jobs()[i as int] == j,
{
    let i: usize = match j {
        Job::Paladin => 0,
        Job::Warrior => 1,
        Job::DarkKnight => 2,
        Job::Gunbreaker => 3,
        Job::WhiteMage => 4,
        Job::Scholar => 5,
        Job::Astrologian => 6,
        Job::Sage => 7,
        Job::Monk => 8,
        Job::Dragoon => 9,
        Job::Ninja => 10,
        Job::Samurai => 11,
        Job::Reaper => 12,
        Job::Viper => 13,
        Job::Bard => 14,
        Job::Machinist => 15,
        Job::Dancer => 16,
        Job::BlackMage => 17,
        Job::Summoner => 18,
        Job::RedMage => 19,
        Job::Pictomancer => 20,
        Job::Carpenter => 21,
        Job::Armorer => 22,
        Job::Blacksmith => 23,
        Job::Goldsmith => 24,
        Job::Leatherworker => 25,
        Job::Weaver => 26,
        Job::Alchemist => 27,
        Job::Culinarian => 28,
        Job::Miner => 29,
        Job::Botanist => 30,
        Job::Fisher => 31,
    };
    proof {
        lemma_job_positions(j);
    }
    i
}

/// Every job sits at exactly one position of the canonical order, and that
/// position holds it.
pub proof fn lemma_job_positions(j: Job)
    ensures
        0 <= spec_job_index(j) < 32,
        spec_all_jobs()[spec_job_index(j)] == j,
        forall|i: int|
            0 <= i < 32 && spec_all_jobs()[i] == j ==> i == spec_job_index(j),
{
    spec_all_jobs().index_of_first_ensures(j);
    assert(spec_all_jobs().contains(j)) by {
        let witness: int = match j {
            Job::Paladin => 0,
            Job::Warrior => 1,
            Job::DarkKnight => 2,
            Job::Gunbreaker => 3,
            Job::WhiteMage => 4,
            Job::Scholar => 5,
            Job::Astrologian => 6,
            Job::Sage => 7,
            Job::Monk => 8,
            Job::Dragoon => 9,
            Job::Ninja => 10,
            Job::Samurai => 11,
            Job::Reaper => 12,
            Job::Viper => 13,
            Job::Bard => 14,
            Job::Machinist => 15,
            Job::Dancer => 16,
            Job::BlackMage => 17,
            Job::Summoner => 18,
            Job::RedMage => 19,
            Job::Pictomancer => 20,
            Job::Carpenter => 21,
            Job::Armorer => 22,
            Job::Blacksmith => 23,
            Job::Goldsmith => 24,
            Job::Leatherworker => 25,
            Job::Weaver => 26,
            Job::Alchemist => 27,
            Job::Culinarian => 28,
            Job::Miner => 29,
            Job::Botanist => 30,
            Job::Fisher => 31,
        };
        assert(spec_all_jobs()[witness] == j);
    }
}

/// The lengths of every canonical label and alias, and one differing
/// position for each same-length pair: together these make the labels
/// pairwise distinct.
proof fn lemma_label_facts()
    ensures
        "Paladin"@.len() == 7,
        "Gladiator"@.len() == 9,
        "Warrior"@.len() == 7,
        "Marauder"@.len() == 8,
        "Dark Knight"@.len() == 11,
        "Gunbreaker"@.len() == 10,
        "White Mage"@.len() == 10,
        "Conjurer"@.len() == 8,
        "Scholar"@.len() == 7,
        "Astrologian"@.len() == 11,
        "Sage"@.len() == 4,
        "Monk"@.len() == 4,
        "Pugilist"@.len() == 8,
        "Dragoon"@.len() == 7,
        "Lancer"@.len() == 6,
        "Ninja"@.len() == 5,
        "Rogue"@.len() == 5,
        "Samurai"@.len() == 7,
        "Reaper"@.len() == 6,
        "Viper"@.len() == 5,
        "Bard"@.len() == 4,
        "Archer"@.len() == 6,
        "Machinist"@.len() == 9,
        "Dancer"@.len() == 6,
        "Black Mage"@.len() == 10,
        "Thaumaturge"@.len() == 11,
        "Summoner"@.len() == 8,
        "Arcanist"@.len() == 8,
        "Red Mage"@.len() == 8,
        "Pictomancer"@.len() == 11,
        "Carpenter"@.len() == 9,
        "Armorer"@.len() == 7,
        "Blacksmith"@.len() == 10,
        "Goldsmith"@.len() == 9,
        "Leatherworker"@.len() == 13,
        "Weaver"@.len() == 6,
        "Alchemist"@.len() == 9,
        "Culinarian"@.len() == 10,
        "Miner"@.len() == 5,
        "Botanist"@.len() == 8,
        "Fisher"@.len() == 6,
        "Alchemist"@[0] != "Carpenter"@[0],
        "Alchemist"@[0] != "Gladiator"@[0],
        "Alchemist"@[0] != "Goldsmith"@[0],
        "Alchemist"@[0] != "Machinist"@[0],
        "Arcanist"@[0] != "Botanist"@[0],
        "Arcanist"@[0] != "Conjurer"@[0],
        "Arcanist"@[0] != "Marauder"@[0],
        "Arcanist"@[0] != "Pugilist"@[0],
        "Arcanist"@[0] != "Red Mage"@[0],
        "Archer"@[0] != "Dancer"@[0],
        "Archer"@[0] != "Fisher"@[0],
        "Archer"@[0] != "Lancer"@[0],
        "Archer"@[0] != "Reaper"@[0],
        "Archer"@[0] != "Weaver"@[0],
        "Armorer"@[0] != "Dragoon"@[0],
        "Armorer"@[0] != "Paladin"@[0],
        "Armorer"@[0] != "Samurai"@[0],
        "Armorer"@[0] != "Scholar"@[0],
        "Armorer"@[0] != "Warrior"@[0],
        "Astrologian"@[0] != "Dark Knight"@[0],
        "Astrologian"@[0] != "Pictomancer"@[0],
        "Astrologian"@[0] != "Thaumaturge"@[0],
        "Bard"@[0] != "Monk"@[0],
        "Bard"@[0] != "Sage"@[0],
        "Black Mage"@[5] != "Blacksmith"@[5],
        "Black Mage"@[0] != "Culinarian"@[0],
        "Black Mage"@[0] != "Gunbreaker"@[0],
        "Black Mage"@[0] != "White Mage"@[0],
        "Blacksmith"@[0] != "Culinarian"@[0],
        "Blacksmith"@[0] != "Gunbreaker"@[0],
        "Blacksmith"@[0] != "White Mage"@[0],
        "Botanist"@[0] != "Conjurer"@[0],
        "Botanist"@[0] != "Marauder"@[0],
        "Botanist"@[0] != "Pugilist"@[0],
        "Botanist"@[0] != "Red Mage"@[0],
        "Botanist"@[0] != "Summoner"@[0],
        "Carpenter"@[0] != "Gladiator"@[0],
        "Carpenter"@[0] != "Goldsmith"@[0],
        "Carpenter"@[0] != "Machinist"@[0],
        "Conjurer"@[0] != "Marauder"@[0],
        "Conjurer"@[0] != "Pugilist"@[0],
        "Conjurer"@[0] != "Red Mage"@[0],
        "Conjurer"@[0] != "Summoner"@[0],
        "Culinarian"@[0] != "Gunbreaker"@[0],
        "Culinarian"@[0] != "White Mage"@[0],
        "Dancer"@[0] != "Fisher"@[0],
        "Dancer"@[0] != "Lancer"@[0],
        "Dancer"@[0] != "Reaper"@[0],
        "Dancer"@[0] != "Weaver"@[0],
        "Dark Knight"@[0] != "Pictomancer"@[0],
        "Dark Knight"@[0] != "Thaumaturge"@[0],
        "Dragoon"@[0] != "Paladin"@[0],
        "Dragoon"@[0] != "Samurai"@[0],
        "Dragoon"@[0] != "Scholar"@[0],
        "Dragoon"@[0] != "Warrior"@[0],
        "Fisher"@[0] != "Lancer"@[0],
        "Fisher"@[0] != "Reaper"@[0],
        "Fisher"@[0] != "Weaver"@[0],
        "Gladiator"@[1] != "Goldsmith"@[1],
        "Gladiator"@[0] != "Machinist"@[0],
        "Goldsmith"@[0] != "Machinist"@[0],
        "Gunbreaker"@[0] != "White Mage"@[0],
        "Lancer"@[0] != "Reaper"@[0],
        "Lancer"@[0] != "Weaver"@[0],
        "Marauder"@[0] != "Pugilist"@[0],
        "Marauder"@[0] != "Red Mage"@[0],
        "Marauder"@[0] != "Summoner"@[0],
        "Miner"@[0] != "Ninja"@[0],
        "Miner"@[0] != "Rogue"@[0],
        "Miner"@[0] != "Viper"@[0],
        "Monk"@[0] != "Sage"@[0],
        "Ninja"@[0] != "Viper"@[0],
        "Paladin"@[0] != "Samurai"@[0],
        "Paladin"@[0] != "Scholar"@[0],
        "Paladin"@[0] != "Warrior"@[0],
        "Pictomancer"@[0] != "Thaumaturge"@[0],
        "Pugilist"@[0] != "Red Mage"@[0],
        "Pugilist"@[0] != "Summoner"@[0],
        "Reaper"@[0] != "Weaver"@[0],
        "Red Mage"@[0] != "Summoner"@[0],
        "Rogue"@[0] != "Viper"@[0],
        "Samurai"@[1] != "Scholar"@[1],
        "Samurai"@[0] != "Warrior"@[0],
        "Scholar"@[0] != "Warrior"@[0],
{
    reveal_strlit("Paladin");
    reveal_strlit("Gladiator");
    reveal_strlit("Warrior");
    reveal_strlit("Marauder");
    reveal_strlit("Dark Knight");
    reveal_strlit("Gunbreaker");
    reveal_strlit("White Mage");
    reveal_strlit("Conjurer");
    reveal_strlit("Scholar");
    reveal_strlit("Astrologian");
    reveal_strlit("Sage");
    reveal_strlit("Monk");
    reveal_strlit("Pugilist");
    reveal_strlit("Dragoon");
    reveal_strlit("Lancer");
    reveal_strlit("Ninja");
    reveal_strlit("Rogue");
    reveal_strlit("Samurai");
    reveal_strlit("Reaper");
    reveal_strlit("Viper");
    reveal_strlit("Bard");
    reveal_strlit("Archer");
    reveal_strlit("Machinist");
    reveal_strlit("Dancer");
    reveal_strlit("Black Mage");
    reveal_strlit("Thaumaturge");
    reveal_strlit("Summoner");
    reveal_strlit("Arcanist");
    reveal_strlit("Red Mage");
    reveal_strlit("Pictomancer");
    reveal_strlit("Carpenter");
    reveal_strlit("Armorer");
    reveal_strlit("Blacksmith");
    reveal_strlit("Goldsmith");
    reveal_strlit("Leatherworker");
    reveal_strlit("Weaver");
    reveal_strlit("Alchemist");
    reveal_strlit("Culinarian");
    reveal_strlit("Miner");
    reveal_strlit("Botanist");
    reveal_strlit("Fisher");
}

/// Every canonical label parses back to its own job.
pub proof fn lemma_parse_canonical_label(j: Job)
    ensures
        spec_parse_label(spec_label(j)) == Some(j),
{
    lemma_label_facts();
    match j {
        Job::Paladin => assert(spec_parse_label(spec_label(j)) == Some(Job::Paladin)),
        Job::Warrior => assert(spec_parse_label(spec_label(j)) == Some(Job::Warrior)),
        Job::DarkKnight => assert(spec_parse_label(spec_label(j)) == Some(Job::DarkKnight)),
        Job::Gunbreaker => assert(spec_parse_label(spec_label(j)) == Some(Job::Gunbreaker)),
        Job::WhiteMage => assert(spec_parse_label(spec_label(j)) == Some(Job::WhiteMage)),
        Job::Scholar => assert(spec_parse_label(spec_label(j)) == Some(Job::Scholar)),
        Job::Astrologian => assert(spec_parse_label(spec_label(j)) == Some(Job::Astrologian)),
        Job::Sage => assert(spec_parse_label(spec_label(j)) == Some(Job::Sage)),
        Job::Monk => assert(spec_parse_label(spec_label(j)) == Some(Job::Monk)),
        Job::Dragoon => assert(spec_parse_label(spec_label(j)) == Some(Job::Dragoon)),
        Job::Ninja => assert(spec_parse_label(spec_label(j)) == Some(Job::Ninja)),
        Job::Samurai => assert(spec_parse_label(spec_label(j)) == Some(Job::Samurai)),
        Job::Reaper => assert(spec_parse_label(spec_label(j)) == Some(Job::Reaper)),
        Job::Viper => assert(spec_parse_label(spec_label(j)) == Some(Job::Viper)),
        Job::Bard => assert(spec_parse_label(spec_label(j)) == Some(Job::Bard)),
        Job::Machinist => assert(spec_parse_label(spec_label(j)) == Some(Job::Machinist)),
        Job::Dancer => assert(spec_parse_label(spec_label(j)) == Some(Job::Dancer)),
        Job::BlackMage => assert(spec_parse_label(spec_label(j)) == Some(Job::BlackMage)),
        Job::Summoner => assert(spec_parse_label(spec_label(j)) == Some(Job::Summoner)),
        Job::RedMage => assert(spec_parse_label(spec_label(j)) == Some(Job::RedMage)),
        Job::Pictomancer => assert(spec_parse_label(spec_label(j)) == Some(Job::Pictomancer)),
        Job::Carpenter => assert(spec_parse_label(spec_label(j)) == Some(Job::Carpenter)),
        Job::Armorer => assert(spec_parse_label(spec_label(j)) == Some(Job::Armorer)),
        Job::Blacksmith => assert(spec_parse_label(spec_label(j)) == Some(Job::Blacksmith)),
        Job::Goldsmith => assert(spec_parse_label(spec_label(j)) == Some(Job::Goldsmith)),
        Job::Leatherworker => assert(spec_parse_label(spec_label(j)) == Some(Job::Leatherworker)),
        Job::Weaver => assert(spec_parse_label(spec_label(j)) == Some(Job::Weaver)),
        Job::Alchemist => assert(spec_parse_label(spec_label(j)) == Some(Job::Alchemist)),
        Job::Culinarian => assert(spec_parse_label(spec_label(j)) == Some(Job::Culinarian)),
        Job::Miner => assert(spec_parse_label(spec_label(j)) == Some(Job::Miner)),
        Job::Botanist => assert(spec_parse_label(spec_label(j)) == Some(Job::Botanist)),
        Job::Fisher => assert(spec_parse_label(spec_label(j)) == Some(Job::Fisher)),
    }
}

/// Every declared alias parses to the job that declares it.
pub proof fn lemma_parse_alias(j: Job, a: Seq<char>)
    requires
        spec_aliases(j).contains(a),
    ensures
        spec_parse_label(a) == Some(j),
{
    lemma_label_facts();
    match j {
        Job::Paladin => {
            assert(a == "Gladiator"@);
            assert(spec_parse_label(a) == Some(Job::Paladin));
        },
        Job::Warrior => {
            assert(a == "Marauder"@);
            assert(spec_parse_label(a) == Some(Job::Warrior));
        },
        Job::DarkKnight => assert(spec_aliases(j).len() == 0),
        Job::Gunbreaker => assert(spec_aliases(j).len() == 0),
        Job::WhiteMage => {
            assert(a == "Conjurer"@);
            assert(spec_parse_label(a) == Some(Job::WhiteMage));
        },
        Job::Scholar => assert(spec_aliases(j).len() == 0),
        Job::Astrologian => assert(spec_aliases(j).len() == 0),
        Job::Sage => assert(spec_aliases(j).len() == 0),
        Job::Monk => {
            assert(a == "Pugilist"@);
            assert(spec_parse_label(a) == Some(Job::Monk));
        },
        Job::Dragoon => {
            assert(a == "Lancer"@);
            assert(spec_parse_label(a) == Some(Job::Dragoon));
        },
        Job::Ninja => {
            assert(a == "Rogue"@);
            assert(spec_parse_label(a) == Some(Job::Ninja));
        },
        Job::Samurai => assert(spec_aliases(j).len() == 0),
        Job::Reaper => assert(spec_aliases(j).len() == 0),
        Job::Viper => assert(spec_aliases(j).len() == 0),
        Job::Bard => {
            assert(a == "Archer"@);
            assert(spec_parse_label(a) == Some(Job::Bard));
        },
        Job::Machinist => assert(spec_aliases(j).len() == 0),
        Job::Dancer => assert(spec_aliases(j).len() == 0),
        Job::BlackMage => {
            assert(a == "Thaumaturge"@);
            assert(spec_parse_label(a) == Some(Job::BlackMage));
        },
        Job::Summoner => {
            assert(a == "Arcanist"@);
            assert(spec_parse_label(a) == Some(Job::Summoner));
        },
        Job::RedMage => assert(spec_aliases(j).len() == 0),
        Job::Pictomancer => assert(spec_aliases(j).len() == 0),
        Job::Carpenter => assert(spec_aliases(j).len() == 0),
        Job::Armorer => assert(spec_aliases(j).len() == 0),
        Job::Blacksmith => assert(spec_aliases(j).len() == 0),
        Job::Goldsmith => assert(spec_aliases(j).len() == 0),
        Job::Leatherworker => assert(spec_aliases(j).len() == 0),
        Job::Weaver => assert(spec_aliases(j).len() == 0),
        Job::Alchemist => assert(spec_aliases(j).len() == 0),
        Job::Culinarian => assert(spec_aliases(j).len() == 0),
        Job::Miner => assert(spec_aliases(j).len() == 0),
        Job::Botanist => assert(spec_aliases(j).len() == 0),
        Job::Fisher => assert(spec_aliases(j).len() == 0),
    }
}

/// No alias string is declared for two different jobs.
pub proof fn lemma_alias_unique(j1: Job, j2: Job, a: Seq<char>)
    requires
        spec_aliases(j1).contains(a),
        spec_aliases(j2).contains(a),
    ensures
        j1 == j2,
{
    lemma_parse_alias(j1, a);
    lemma_parse_alias(j2, a);
}

/// A snapshot of one job's progression. `level` and `exp` are both `None`
/// where the job has not been unlocked or leveled yet; `exp` is a
/// (current, max) pair with current at most max.
#[derive(Clone, Copy, Debug, PartialEq, Eq)]
pub struct JobSnapshot {
    pub job: Job,
    pub level: Option<u64>,
    pub exp: Option<(u64, u64)>,
}

impl JobSnapshot {
    /// The experience pair, where present, never exceeds its maximum.
    pub open spec fn wf(self) -> bool {
        self.exp matches Some((current, max)) ==> current <= max
    }
}

/// Whether some snapshot in the sequence records the given job.
pub open spec fn covered(snaps: Seq<JobSnapshot>, j: Job) -> bool {
    exists|i: int| 0 <= i < snaps.len() && snaps[i].job == j
}

/// The snapshot that the last entry for a job leaves in place when the
/// sequence is folded into a per-job map.
pub open spec fn last_snapshot_for(snaps: Seq<JobSnapshot>, j: Job) -> JobSnapshot
    recommends
        covered(snaps, j),
    decreases snaps.len(),
{
    if snaps.len() == 0 {
        arbitrary()
    } else if snaps.last().job == j {
        snaps.last()
    } else {
        last_snapshot_for(snaps.drop_last(), j)
    }
}

/// The jobs of the taxonomy that no snapshot in the sequence records, in
/// canonical taxonomy order.
pub open spec fn missing_jobs(snaps: Seq<JobSnapshot>) -> Seq<Job> {
    spec_all_jobs().filter(|j: Job| !covered(snaps, j))
}

/// What folding a snapshot sequence into the complete per-job map yields:
/// one entry per job in taxonomy order, the last entry for a job winning
/// over earlier duplicates; or the full list of missing jobs.
pub open spec fn spec_validate(snaps: Seq<JobSnapshot>) -> Result<Seq<JobSnapshot>, Seq<Job>> {
    if missing_jobs(snaps).len() == 0 {
        Ok(Seq::new(spec_all_jobs().len(), |i: int| last_snapshot_for(snaps, spec_all_jobs()[i])))
    } else {
        Err(missing_jobs(snaps))
    }
}

/// A snapshot sequence misses no job exactly when it covers every job.
pub proof fn lemma_missing_empty_iff_covered(snaps: Seq<JobSnapshot>)
    ensures
        missing_jobs(snaps).len() == 0 <==> (forall|j: Job| covered(snaps, j)),
{
    let pred = |j: Job| !covered(snaps, j);
    if missing_jobs(snaps).len() == 0 {
        assert forall|j: Job| covered(snaps, j) by {
            if !covered(snaps, j) {
                lemma_job_positions(j);
                spec_all_jobs().lemma_filter_contains(pred, spec_job_index(j));
            }
        }
    } else {
        spec_all_jobs().lemma_filter_pred(pred, 0);
    }
}

/// The surviving entry for a covered job is one of the sequence's own
/// entries, and it records that job.
pub proof fn lemma_last_snapshot_for(snaps: Seq<JobSnapshot>, j: Job)
    requires
        covered(snaps, j),
    ensures
        last_snapshot_for(snaps, j).job == j,
        snaps.contains(last_snapshot_for(snaps, j)),
    decreases snaps.len(),
{
    if snaps.last().job == j {
    } else {
        let w = choose|i: int| 0 <= i < snaps.len() && snaps[i].job == j;
        assert(snaps.drop_last()[w] == snaps[w]);
        lemma_last_snapshot_for(snaps.drop_last(), j);
        assert(snaps.drop_last().contains(last_snapshot_for(snaps.drop_last(), j)));
        let v = choose|i: int|
            0 <= i < snaps.drop_last().len() && snaps.drop_last()[i] == last_snapshot_for(
                snaps.drop_last(),
                j,
            );
        assert(snaps[v] == last_snapshot_for(snaps, j));
    }
}

/// One slot of the per-job fold: it holds the surviving entry for its job,
/// or nothing where the prefix has not covered that job yet.
pub open spec fn slot_ok(slot: Option<JobSnapshot>, prefix: Seq<JobSnapshot>, j: Job) -> bool {
    if covered(prefix, j) {
        slot == Some(last_snapshot_for(prefix, j))
    } else {
        slot is None
    }
}

/// The complete per-job snapshot map: exactly one entry for every job of the
/// taxonomy, held in canonical taxonomy order.
#[derive(Clone, Debug)]
pub struct PlayerJobSnapshot {
    snaps: Vec<JobSnapshot>,
}

impl View for PlayerJobSnapshot {
    type V = Seq<JobSnapshot>;

    closed spec fn view(&self) -> Seq<JobSnapshot> {
        self.snaps@
    }
}

impl PlayerJobSnapshot {
    /// One entry per job of the taxonomy, in canonical taxonomy order.
    pub open spec fn wf(&self) -> bool {
        &&& self@.len() == spec_all_jobs().len()
        &&& forall|i: int| 0 <= i < self@.len() ==> (#[trigger] self@[i]).job == spec_all_jobs()[i]
    }

    /// The entries, in canonical taxonomy order.
    pub fn snapshots(&self) -> (r: &Vec<JobSnapshot>)
        ensures
            r@ == self@,
    {
        &self.snaps
    }

    /// Folds an arbitrary snapshot sequence into the complete per-job map.
    ///
    /// Construction succeeds exactly when the sequence covers every job of
    /// the taxonomy; duplicates resolve to the last entry. Otherwise it
    /// fails, naming every missing job in taxonomy order.
    pub fn from_snapshots(snapshots: Vec<JobSnapshot>) -> (r: Result<PlayerJobSnapshot, Vec<Job>>)
        ensures
            r is Ok <==> (forall|j: Job| covered(snapshots@, j)),
            r matches Ok(p) ==> {
                &&& spec_validate(snapshots@) matches Ok(s) && p@ == s
                &&& p.wf()
            },
            r matches Err(missing) ==> {
                &&& spec_validate(snapshots@) matches Err(m) && missing@ == m
                &&& missing@.len() > 0
            },
    {
        broadcast use vstd::seq_lib::group_filter_ensures;

        let n = snapshots.len();
        let mut slots: Vec<Option<JobSnapshot>> = Vec::new();
        let mut k: usize = 0;
        while k < 32
            invariant
                slots@.len() == k,
                k <= 32,
                forall|t: int| 0 <= t < k ==> slots@[t] is None,
            decreases 32 - k,
        {
            slots.push(None);
            k = k + 1;
        }

        let mut i: usize = 0;
        while i < n
            invariant
                n == snapshots@.len(),
                i <= n,
                slots@.len() == 32,
                forall|t: int|
                    0 <= t < 32 ==> slot_ok(
                        #[trigger] slots@[t],
                        snapshots@.take(i as int),
                        spec_all_jobs()[t],
                    ),
            decreases n - i,
        {
            let s = snapshots[i];
            let idx = job_index(s.job);
            slots.set(idx, Some(s));
            proof {
                lemma_job_positions(s.job);
                let prefix = snapshots@.take(i as int);
                let next = snapshots@.take(i + 1 as int);
                assert(next.drop_last() =~= prefix);
                assert(next.last() == snapshots@[i as int]);
                assert forall|t: int| 0 <= t < 32 implies slot_ok(
                    #[trigger] slots@[t],
                    next,
                    spec_all_jobs()[t],
                ) by {
                    let j = spec_all_jobs()[t];
                    if t == idx as int {
                        assert(next[next.len() - 1].job == j);
                        assert(covered(next, j));
                    } else {
                        assert(j != s.job);
                        if covered(next, j) {
                            let w = choose|c: int| 0 <= c < next.len() && next[c].job == j;
                            assert(prefix[w] == next[w]);
                            assert(covered(prefix, j));
                        }
                        if covered(prefix, j) {
                            let w = choose|c: int| 0 <= c < prefix.len() && prefix[c].job == j;
                            assert(next[w] == prefix[w]);
                            assert(covered(next, j));
                        }
                    }
                }
            }
            i = i + 1;
        }
        proof {
            assert(snapshots@.take(n as int) =~= snapshots@);
        }

        let jobs = all_jobs();
        let mut missing: Vec<Job> = Vec::new();
        let mut t: usize = 0;
        while t < 32
            invariant
                slots@.len() == 32,
                jobs@ == spec_all_jobs(),
                t <= 32,
                forall|u: int|
                    0 <= u < 32 ==> slot_ok(
                        #[trigger] slots@[u],
                        snapshots@,
                        spec_all_jobs()[u],
                    ),
                missing@ == spec_all_jobs().take(t as int).filter(
                    |j: Job| !covered(snapshots@, j),
                ),
            decreases 32 - t,
        {
            proof {
                let pred = |j: Job| !covered(snapshots@, j);
                let jt = spec_all_jobs()[t as int];
                let before = spec_all_jobs().take(t as int);
                let after = spec_all_jobs().take(t + 1 as int);
                assert(after =~= before + seq![jt]);
                Seq::filter_distributes_over_add(before, seq![jt], pred);
                reveal_with_fuel(Seq::filter, 3);
                assert(seq![jt].drop_last() =~= Seq::<Job>::empty());
                if pred(jt) {
                    assert(seq![jt].filter(pred) =~= seq![jt]);
                } else {
                    assert(seq![jt].filter(pred) =~= Seq::<Job>::empty());
                }
            }
            if slots[t].is_none() {
                missing.push(jobs[t]);
            }
            t = t + 1;
        }
        proof {
            assert(spec_all_jobs().take(32) =~= spec_all_jobs());
            lemma_missing_empty_iff_covered(snapshots@);
        }

        if missing.len() > 0 {
            return Err(missing);
        }

        let mut out: Vec<JobSnapshot> = Vec::new();
        let mut t: usize = 0;
        while t < 32
            invariant
                slots@.len() == 32,
                t <= 32,
                missing_jobs(snapshots@).len() == 0,
                forall|u: int|
                    0 <= u < 32 ==> slot_ok(
                        #[trigger] slots@[u],
                        snapshots@,
                        spec_all_jobs()[u],
                    ),
                out@.len() == t,
                forall|u: int|
                    0 <= u < t ==> out@[u] == last_snapshot_for(
                        snapshots@,
                        spec_all_jobs()[u],
                    ),
            decreases 32 - t,
        {
            proof {
                lemma_missing_empty_iff_covered(snapshots@);
                assert(covered(snapshots@, spec_all_jobs()[t as int]));
            }
            match slots[t] {
                Some(s) => out.push(s),
                None => vstd::pervasive::unreached(),
            }
            t = t + 1;
        }
        proof {
            assert(out@ =~= Seq::new(
                spec_all_jobs().len(),
                |i: int| last_snapshot_for(snapshots@, spec_all_jobs()[i]),
            ));
            lemma_missing_empty_iff_covered(snapshots@);
            assert forall|u: int| 0 <= u < out@.len() implies (#[trigger] out@[u]).job
                == spec_all_jobs()[u] by {
                lemma_last_snapshot_for(snapshots@, spec_all_jobs()[u]);
            }
        }
        Ok(PlayerJobSnapshot { snaps: out })
    }
}

} // verus!
