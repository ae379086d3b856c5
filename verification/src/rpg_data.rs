//! Character definition data: ability scores, skills, training levels, and
//! the per-character records built from them.
//!
//! These records describe a character as loaded from its definition; the
//! base values they carry are handed to the stat engine once, at subject
//! construction, and are not otherwise read by it.

use std::collections::HashMap;

use vstd::prelude::*;

verus! {

/// How many actions a character may take in one turn.
pub const ACTIONS_PER_TURN: u32 = 3;

/// The six ability scores of a character definition.
#[derive(Clone, Copy, Debug, PartialEq, Eq, Hash, Structural)]
pub enum Stats {
    Strength,
    Dexterity,
    Constitution,
    Intelligence,
    Wisdom,
    Charisma,
}

/// The trained skills of a character definition.
#[derive(Clone, Copy, Debug, PartialEq, Eq, Hash, Structural)]
pub enum Skills {
    Acrobatics,
    Arcana,
    Athletics,
    Crafting,
    Deception,
    Diplomacy,
    Intimidation,
    Lore,
    Medicine,
    Nature,
    Occultism,
    Performance,
    Religion,
    Society,
    Stealth,
    Survival,
    Thievery,
}

/// How well a character is trained in a skill.
#[derive(Clone, Copy, Debug, PartialEq, Eq, Hash, Structural)]
pub enum TrainingLevel {
    Untrained,
    Trained,
    Expert,
    Master,
    Legendary,
}

/// The ability score a skill check is based on.
pub open spec fn associated_stat_spec(skill: Skills) -> Stats {
    match skill {
        Skills::Acrobatics => Stats::Dexterity,
        Skills::Arcana => Stats::Intelligence,
        Skills::Athletics => Stats::Strength,
        Skills::Crafting => Stats::Intelligence,
        Skills::Deception => Stats::Charisma,
        Skills::Diplomacy => Stats::Charisma,
        Skills::Intimidation => Stats::Charisma,
        Skills::Lore => Stats::Intelligence,
        Skills::Medicine => Stats::Wisdom,
        Skills::Nature => Stats::Wisdom,
        Skills::Occultism => Stats::Intelligence,
        Skills::Performance => Stats::Charisma,
        Skills::Religion => Stats::Wisdom,
        Skills::Society => Stats::Intelligence,
        Skills::Stealth => Stats::Dexterity,
        Skills::Survival => Stats::Wisdom,
        Skills::Thievery => Stats::Dexterity,
    }
}

/// The flat bonus a training level grants: two points per level above
/// untrained.
pub open spec fn training_modifier_spec(level: TrainingLevel) -> i16 {
    match level {
        TrainingLevel::Untrained => 0,
        TrainingLevel::Trained => 2,
        TrainingLevel::Expert => 4,
        TrainingLevel::Master => 6,
        TrainingLevel::Legendary => 8,
    }
}

impl Skills {
    /// The ability score this skill's checks are based on.
    pub fn associated_stat(&self) -> (stat: Stats)
        ensures
            stat == associated_stat_spec(*self),
    {
        match *self {
            Skills::Acrobatics => Stats::Dexterity,
            Skills::Arcana => Stats::Intelligence,
            Skills::Athletics => Stats::Strength,
            Skills::Crafting => Stats::Intelligence,
            Skills::Deception => Stats::Charisma,
            Skills::Diplomacy => Stats::Charisma,
            Skills::Intimidation => Stats::Charisma,
            Skills::Lore => Stats::Intelligence,
            Skills::Medicine => Stats::Wisdom,
            Skills::Nature => Stats::Wisdom,
            Skills::Occultism => Stats::Intelligence,
            Skills::Performance => Stats::Charisma,
            Skills::Religion => Stats::Wisdom,
            Skills::Society => Stats::Intelligence,
            Skills::Stealth => Stats::Dexterity,
            Skills::Survival => Stats::Wisdom,
            Skills::Thievery => Stats::Dexterity,
        }
    }
}

impl TrainingLevel {
    /// The flat bonus this training level grants.
    pub fn get_modifier(&self) -> (modifier: i16)
        ensures
            modifier == training_modifier_spec(*self),
    {
        match *self {
            TrainingLevel::Untrained => 0,
            TrainingLevel::Trained => 2,
            TrainingLevel::Expert => 4,
            TrainingLevel::Master => 6,
            TrainingLevel::Legendary => 8,
        }
    }
}

/// A character's armour class.
#[derive(Clone, Copy, Debug, PartialEq, Eq, Hash, Structural)]
pub struct ArmourClass(pub u32);

/// A character definition's hit points: current may be negative (dying).
#[derive(Clone, Copy, Debug, PartialEq, Eq, Hash, Structural)]
pub struct Health {
    pub current: i32,
    pub max: u32,
}

/// The stat block every character definition carries.
#[derive(Clone, Debug)]
pub struct CoreData {
    pub name: String,
    pub base_modifiers: HashMap<Stats, i16>,
    pub skill_levels: HashMap<Skills, TrainingLevel>,
    pub hp: Health,
    pub ac: ArmourClass,
    pub conditions: Vec<String>,
    pub speed: u32,
}

/// Data a character needs to take part in combat.
#[derive(Clone, Copy, Debug, PartialEq, Eq, Hash, Structural)]
pub struct NpcCombatData {
    pub temp: u32,
}

/// Data a character needs outside combat.
#[derive(Clone, Copy, Debug, PartialEq, Eq, Hash, Structural)]
pub struct NpcNoncombatData {
    pub temp: u32,
}

/// Data only the player character carries.
#[derive(Clone, Debug)]
pub struct PlayerData {
    pub name: String,
}

/// Which role a character plays, with the data that role needs.
#[derive(Clone, Debug)]
pub enum CharacterType {
    Player(PlayerData),
    NpcCombat(NpcCombatData),
    NpcNoncombat(NpcNoncombatData),
    NpcVersatile(NpcCombatData, NpcNoncombatData),
}

/// One complete character definition.
#[derive(Clone, Debug)]
pub struct CharacterData {
    pub core: CoreData,
    pub char_type: CharacterType,
}

} // verus!
