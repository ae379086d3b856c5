//! Tests of the supporting data model: computed blocks, health, the pause
//! gate, and character definition data.

use std::collections::HashMap;

use stat_engine::game_states::MouseState;
use stat_engine::game_states::PauseState;
use stat_engine::game_states::mouse_state_for;
use stat_engine::game_states::toggle_paused;
use stat_engine::health::Health;
use stat_engine::health::HealthAffect;
use stat_engine::rpg_data::ACTIONS_PER_TURN;
use stat_engine::rpg_data::ArmourClass;
use stat_engine::rpg_data::CharacterData;
use stat_engine::rpg_data::CharacterType;
use stat_engine::rpg_data::CoreData;
use stat_engine::rpg_data::NpcCombatData;
use stat_engine::rpg_data::NpcNoncombatData;
use stat_engine::rpg_data::Skills;
use stat_engine::rpg_data::Stats;
use stat_engine::rpg_data::TrainingLevel;
use stat_engine::stats::BaseStats;
use stat_engine::stats::ComputedStats;

#[test]
fn computed_stats_new_is_all_zero() {
    let computed = ComputedStats::new();
    assert_eq!(computed, ComputedStats::default());
    assert_eq!(computed.strength, 0);
    assert_eq!(computed.charisma, 0);
}

#[test]
fn computed_stats_from_base_copies_base_values() {
    let base = BaseStats::new(1, 2, 3, 4, 5, 6);
    let computed = ComputedStats::from_base(&base);
    assert_eq!(computed.strength, 1);
    assert_eq!(computed.dexterity, 2);
    assert_eq!(computed.constitution, 3);
    assert_eq!(computed.intelligence, 4);
    assert_eq!(computed.wisdom, 5);
    assert_eq!(computed.charisma, 6);
}

#[test]
fn health_affect_applies_delta() {
    let mut hp = Health { current: 10, max: 20 };
    hp.apply_affect(&HealthAffect { delta: 5 });
    assert_eq!(hp.current, 15);
    hp.apply_affect(&HealthAffect { delta: -3 });
    assert_eq!(hp.current, 12);
}

#[test]
fn health_affect_caps_at_max() {
    let mut hp = Health { current: 10, max: 20 };
    hp.apply_affect(&HealthAffect { delta: 100 });
    assert_eq!(hp.current, 20);
}

#[test]
fn health_affect_saturates_to_zero_on_underflow() {
    let mut hp = Health { current: 10, max: 20 };
    hp.apply_affect(&HealthAffect { delta: -15 });
    assert_eq!(hp.current, 0);
}

#[test]
fn health_affect_saturates_to_zero_on_overflow() {
    let mut hp = Health { current: u32::MAX, max: u32::MAX };
    hp.apply_affect(&HealthAffect { delta: 1 });
    assert_eq!(hp.current, 0);
}

#[test]
fn health_depletion_is_exactly_zero() {
    let hp = Health { current: 1, max: 5 };
    assert!(!hp.is_depleted());
    let hp = Health { current: 0, max: 5 };
    assert!(hp.is_depleted());
    let fresh = Health::default();
    assert_eq!(fresh.current, 0);
    assert_eq!(fresh.max, 0);
}

#[test]
fn pause_toggle_flips_the_gate() {
    assert_eq!(PauseState::default(), PauseState::Running);
    assert_eq!(toggle_paused(PauseState::Running), PauseState::Paused);
    assert_eq!(toggle_paused(PauseState::Paused), PauseState::Running);
}

#[test]
fn mouse_mode_follows_the_gate() {
    assert_eq!(MouseState::default(), MouseState::Captured);
    assert_eq!(mouse_state_for(PauseState::Running), MouseState::Captured);
    assert_eq!(mouse_state_for(PauseState::Paused), MouseState::Free);
}

#[test]
fn skills_map_to_their_ability_scores() {
    assert_eq!(Skills::Acrobatics.associated_stat(), Stats::Dexterity);
    assert_eq!(Skills::Arcana.associated_stat(), Stats::Intelligence);
    assert_eq!(Skills::Athletics.associated_stat(), Stats::Strength);
    assert_eq!(Skills::Diplomacy.associated_stat(), Stats::Charisma);
    assert_eq!(Skills::Medicine.associated_stat(), Stats::Wisdom);
    assert_eq!(Skills::Thievery.associated_stat(), Stats::Dexterity);
}

#[test]
fn training_levels_grant_two_points_per_step() {
    assert_eq!(TrainingLevel::Untrained.get_modifier(), 0);
    assert_eq!(TrainingLevel::Trained.get_modifier(), 2);
    assert_eq!(TrainingLevel::Expert.get_modifier(), 4);
    assert_eq!(TrainingLevel::Master.get_modifier(), 6);
    assert_eq!(TrainingLevel::Legendary.get_modifier(), 8);
}

#[test]
fn character_data_holds_a_definition() {
    let mut skill_levels = HashMap::new();
    skill_levels.insert(Skills::Arcana, TrainingLevel::Trained);
    let mut base_modifiers = HashMap::new();
    base_modifiers.insert(Stats::Charisma, -2);
    base_modifiers.insert(Stats::Dexterity, 3);
    let data = CharacterData {
        core: CoreData {
            name: "Test Character".to_owned(),
            base_modifiers,
            skill_levels,
            hp: stat_engine::rpg_data::Health { current: 15, max: 20 },
            ac: ArmourClass(15),
            conditions: vec!["flatfoot".to_owned()],
            speed: 25,
        },
        char_type: CharacterType::NpcVersatile(
            NpcCombatData { temp: 5 },
            NpcNoncombatData { temp: 10 },
        ),
    };
    assert_eq!(data.core.name, "Test Character");
    assert_eq!(data.core.base_modifiers.get(&Stats::Dexterity), Some(&3));
    assert_eq!(
        data.core.skill_levels.get(&Skills::Arcana),
        Some(&TrainingLevel::Trained)
    );
    assert_eq!(data.core.hp.current, 15);
    assert_eq!(data.core.ac.0, 15);
    assert_eq!(data.core.speed, 25);
    assert!(matches!(data.char_type, CharacterType::NpcVersatile(c, n)
        if c.temp == 5 && n.temp == 10));
    assert_eq!(ACTIONS_PER_TURN, 3);
}
