use vstd::prelude::*;
use crate::character::CharacterAppearance;
use crate::combat::Stats;

verus! {

/// The enemy races, in the order the offline director preloads them and
/// the server numbers them (`race_idx`).
#[derive(Clone, Copy, Debug, PartialEq, Eq, Structural)]
pub enum EnemyRace {
    HumanBandit,
    OrcWarrior,
    SkeletonGrunt,
    DemonLord,
    NightElfHunter,
    Cyclops,
}

/// Number of enemy races.
pub const RACE_COUNT: usize = 6;

pub open spec fn spec_race_index(r: EnemyRace) -> int {
    match r {
        EnemyRace::HumanBandit => 0,
        EnemyRace::OrcWarrior => 1,
        EnemyRace::SkeletonGrunt => 2,
        EnemyRace::DemonLord => 3,
        EnemyRace::NightElfHunter => 4,
        EnemyRace::Cyclops => 5,
    }
}

/// The skin layer of a race.
pub open spec fn spec_race_skin(r: EnemyRace) -> Seq<char> {
    match r {
        EnemyRace::HumanBandit => "Human1"@,
        EnemyRace::OrcWarrior => "Orc1"@,
        EnemyRace::SkeletonGrunt => "Skeleton1"@,
        EnemyRace::DemonLord => "Demon1"@,
        EnemyRace::NightElfHunter => "NightElf1"@,
        EnemyRace::Cyclops => "Cyclops1"@,
    }
}

/// Strength, agility and intelligence of a race.
pub open spec fn spec_race_attributes(r: EnemyRace) -> (i32, i32, i32) {
    match r {
        EnemyRace::HumanBandit => (5, 5, 2),
        EnemyRace::OrcWarrior => (12, 3, 1),
        EnemyRace::SkeletonGrunt => (4, 8, 1),
        EnemyRace::DemonLord => (20, 10, 5),
        EnemyRace::NightElfHunter => (6, 12, 5),
        EnemyRace::Cyclops => (15, 2, 1),
    }
}

fn bare(skin: &str) -> (a: CharacterAppearance)
    ensures
        a.skin@ == skin@,
        a.shoes is None,
        a.clothes is None,
        a.gloves is None,
        a.hairstyle is None,
        a.facial_hair is None,
        a.eye_color is None,
        a.eyelashes is None,
        a.headgear is None,
        a.addon is None,
{
    CharacterAppearance {
        skin: skin.to_owned(),
        shoes: None,
        clothes: None,
        gloves: None,
        hairstyle: None,
        facial_hair: None,
        eye_color: None,
        eyelashes: None,
        headgear: None,
        addon: None,
    }
}

impl EnemyRace {
    /// The race with a given number, if there is one.
    pub fn from_index(idx: usize) -> (r: Option<EnemyRace>)
        ensures
            idx < RACE_COUNT <==> r is Some,
            r matches Some(race) ==> spec_race_index(race) == idx,
    {
        match idx {
            0 => Some(EnemyRace::HumanBandit),
            1 => Some(EnemyRace::OrcWarrior),
            2 => Some(EnemyRace::SkeletonGrunt),
            3 => Some(EnemyRace::DemonLord),
            4 => Some(EnemyRace::NightElfHunter),
            5 => Some(EnemyRace::Cyclops),
            _ => None,
        }
    }

    /// The race's number.
    pub fn index(&self) -> (i: usize)
        ensures
            i == spec_race_index(*self),
    {
        match self {
            EnemyRace::HumanBandit => 0,
            EnemyRace::OrcWarrior => 1,
            EnemyRace::SkeletonGrunt => 2,
            EnemyRace::DemonLord => 3,
            EnemyRace::NightElfHunter => 4,
            EnemyRace::Cyclops => 5,
        }
    }

    /// The race's look: its skin, and for the bandit also shoes, shirt and hair.
    pub fn appearance(&self) -> (a: CharacterAppearance)
        ensures
            a.skin@ == spec_race_skin(*self),
            *self == EnemyRace::HumanBandit ==> (a.shoes matches Some(s) && s@ == "Shoes"@) && (
            a.clothes matches Some(c) && c@ == "Shirt"@) && (a.hairstyle matches Some(h) && h@
                == "Hair1"@),
            *self != EnemyRace::HumanBandit ==> a.shoes is None && a.clothes is None && a.hairstyle is None,
            a.gloves is None,
            a.facial_hair is None,
            a.eye_color is None,
            a.eyelashes is None,
            a.headgear is None,
            a.addon is None,
    {
        match self {
            EnemyRace::HumanBandit => {
                let mut a = bare("Human1");
                a.shoes = Some("Shoes".to_owned());
                a.clothes = Some("Shirt".to_owned());
                a.hairstyle = Some("Hair1".to_owned());
                a
            },
            EnemyRace::OrcWarrior => bare("Orc1"),
            EnemyRace::SkeletonGrunt => bare("Skeleton1"),
            EnemyRace::DemonLord => bare("Demon1"),
            EnemyRace::NightElfHunter => bare("NightElf1"),
            EnemyRace::Cyclops => bare("Cyclops1"),
        }
    }

    /// The race's starting attributes.
    pub fn base_stats(&self) -> (s: Stats)
        ensures
            (s.strength, s.agility, s.intelligence) == spec_race_attributes(*self),
            s.max_hp == s.strength * 10 && s.current_hp == s.max_hp,
            s.max_mp == s.intelligence * 10 && s.current_mp == s.max_mp,
    {
        match self {
            EnemyRace::HumanBandit => Stats::new(5, 5, 2),
            EnemyRace::OrcWarrior => Stats::new(12, 3, 1),
            EnemyRace::SkeletonGrunt => Stats::new(4, 8, 1),
            EnemyRace::DemonLord => Stats::new(20, 10, 5),
            EnemyRace::NightElfHunter => Stats::new(6, 12, 5),
            EnemyRace::Cyclops => Stats::new(15, 2, 1),
        }
    }
}

/// Numbering the races and reading the number back gives the same race.
pub proof fn lemma_race_index_roundtrip(r: EnemyRace, idx: int)
    requires
        idx == spec_race_index(r),
    ensures
        0 <= idx < RACE_COUNT,
        forall|other: EnemyRace| spec_race_index(other) == idx ==> other == r,
{
}

} // verus!
