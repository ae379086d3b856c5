//! Tests of the engine's tick cycle: ingestion buffering, the lifecycle
//! sweeper, the aggregator, and the pairing of base and computed blocks.

use stat_engine::engine::StatsEngine;
use stat_engine::game_states::PauseState;
use stat_engine::stats::BaseStats;
use stat_engine::stats::ModificationType;
use stat_engine::stats::RpgStatTarget;
use stat_engine::subject::SubjectRegistry;

fn flat_base(value: i32) -> BaseStats {
    BaseStats::new(value, value, value, value, value, value)
}

#[test]
fn base_block_always_pairs_computed_block() {
    // Before any tick runs, a freshly attached base block already has a
    // computed block, defaulted to zero.
    let mut registry = SubjectRegistry::new();
    let subject = registry.spawn();
    let mut engine = StatsEngine::new();
    engine.insert_base_stats(subject, BaseStats::new(3, 4, 5, 6, 7, 8));
    let computed = engine.get_computed(subject).expect("computed block must exist");
    assert_eq!(computed.strength, 0);
    assert_eq!(computed.dexterity, 0);
    assert_eq!(computed.constitution, 0);
    assert_eq!(computed.intelligence, 0);
    assert_eq!(computed.wisdom, 0);
    assert_eq!(computed.charisma, 0);
}

#[test]
fn lifecycle_removal_over_two_ticks() {
    let mut registry = SubjectRegistry::new();
    let target = registry.spawn();
    let source = registry.spawn();
    let mut engine = StatsEngine::new();
    engine.insert_base_stats(target, flat_base(10));
    engine.append_modifier(
        target,
        RpgStatTarget::Strength,
        source,
        ModificationType::Multiplicative(2),
    );

    // First tick: the source is alive, the modifier contributes.
    engine.tick(PauseState::Running, &registry);
    let computed = engine.get_computed(target).unwrap();
    assert_eq!(computed.strength, 20);

    // The source dies; the next tick sweeps the modifier out before the
    // aggregator runs, so its contribution is gone.
    registry.despawn(source);
    engine.tick(PauseState::Running, &registry);
    let computed = engine.get_computed(target).unwrap();
    assert_eq!(computed.strength, 0);
    let base = engine.get_base_stats(target).unwrap();
    assert!(base.strength.modifiers.is_empty());
}

#[test]
fn dead_owner_never_contributes_within_one_tick() {
    // A request whose granting subject is already dead when the tick runs
    // is flushed into the container and swept out in the same tick, before
    // the aggregator can see it.
    let mut registry = SubjectRegistry::new();
    let target = registry.spawn();
    let source = registry.spawn();
    let mut engine = StatsEngine::new();
    engine.insert_base_stats(target, flat_base(10));
    engine.append_modifier(
        target,
        RpgStatTarget::Strength,
        source,
        ModificationType::Multiplicative(3),
    );
    registry.despawn(source);
    engine.tick(PauseState::Running, &registry);
    let computed = engine.get_computed(target).unwrap();
    assert_eq!(computed.strength, 0);
    let base = engine.get_base_stats(target).unwrap();
    assert!(base.strength.modifiers.is_empty());
}

#[test]
fn sweeper_is_idempotent() {
    let mut registry = SubjectRegistry::new();
    let target = registry.spawn();
    let source = registry.spawn();
    let keeper = registry.spawn();
    let mut engine = StatsEngine::new();
    engine.insert_base_stats(target, flat_base(10));
    engine.append_modifier(
        target,
        RpgStatTarget::Strength,
        source,
        ModificationType::Additive(5),
    );
    engine.append_modifier(
        target,
        RpgStatTarget::Strength,
        keeper,
        ModificationType::Multiplicative(2),
    );
    engine.flush_pending();
    registry.despawn(source);

    engine.update_modifiers(&registry);
    let after_first = engine.get_base_stats(target).unwrap().clone_block();

    // A second sweep with no intervening destruction changes nothing.
    engine.update_modifiers(&registry);
    let after_second = engine.get_base_stats(target).unwrap();
    assert_eq!(after_first.strength.base_value, after_second.strength.base_value);
    assert_eq!(after_first.strength.modifiers, after_second.strength.modifiers);
    assert_eq!(after_first.dexterity.modifiers, after_second.dexterity.modifiers);
    assert_eq!(after_first.constitution.modifiers, after_second.constitution.modifiers);
    assert_eq!(after_first.intelligence.modifiers, after_second.intelligence.modifiers);
    assert_eq!(after_first.wisdom.modifiers, after_second.wisdom.modifiers);
    assert_eq!(after_first.charisma.modifiers, after_second.charisma.modifiers);
    assert_eq!(after_second.strength.modifiers.len(), 1);
}

#[test]
fn requests_stay_buffered_until_the_tick() {
    let mut registry = SubjectRegistry::new();
    let target = registry.spawn();
    let mut engine = StatsEngine::new();
    engine.insert_base_stats(target, flat_base(10));
    engine.append_modifier(
        target,
        RpgStatTarget::Wisdom,
        target,
        ModificationType::Additive(4),
    );
    // Before the barrier the container is untouched.
    let base = engine.get_base_stats(target).unwrap();
    assert!(base.wisdom.modifiers.is_empty());

    engine.tick(PauseState::Running, &registry);
    let base = engine.get_base_stats(target).unwrap();
    assert_eq!(base.wisdom.modifiers.len(), 1);
}

#[test]
fn request_without_base_block_is_silently_dropped() {
    let mut registry = SubjectRegistry::new();
    let missing = registry.spawn();
    let source = registry.spawn();
    let mut engine = StatsEngine::new();
    engine.append_modifier(
        missing,
        RpgStatTarget::Strength,
        source,
        ModificationType::Additive(5),
    );
    engine.tick(PauseState::Running, &registry);
    assert!(!engine.has_base_stats(missing));
    assert!(engine.get_computed(missing).is_none());
}

#[test]
fn paused_tick_freezes_everything() {
    let mut registry = SubjectRegistry::new();
    let target = registry.spawn();
    let source = registry.spawn();
    let mut engine = StatsEngine::new();
    engine.insert_base_stats(target, flat_base(10));
    engine.append_modifier(
        target,
        RpgStatTarget::Strength,
        source,
        ModificationType::Multiplicative(2),
    );
    engine.tick(PauseState::Running, &registry);
    assert_eq!(engine.get_computed(target).unwrap().strength, 20);

    // While gated off, nothing moves: the dead source is not swept, no
    // queued request is applied, and computed values stay stale.
    registry.despawn(source);
    engine.append_modifier(
        target,
        RpgStatTarget::Strength,
        target,
        ModificationType::Additive(1),
    );
    engine.tick(PauseState::Paused, &registry);
    assert_eq!(engine.get_computed(target).unwrap().strength, 20);
    assert_eq!(engine.get_base_stats(target).unwrap().strength.modifiers.len(), 1);

    // Resuming applies the buffered request and sweeps the dead modifier.
    engine.tick(PauseState::Running, &registry);
    assert_eq!(engine.get_computed(target).unwrap().strength, 0);
    assert_eq!(engine.get_base_stats(target).unwrap().strength.modifiers.len(), 1);
}

#[test]
fn modifiers_apply_per_attribute() {
    let mut registry = SubjectRegistry::new();
    let target = registry.spawn();
    let mut engine = StatsEngine::new();
    engine.insert_base_stats(target, BaseStats::new(1, 2, 3, 4, 5, 6));
    engine.append_modifier(
        target,
        RpgStatTarget::Dexterity,
        target,
        ModificationType::Multiplicative(2),
    );
    engine.append_modifier(
        target,
        RpgStatTarget::Charisma,
        target,
        ModificationType::Multiplicative(3),
    );
    engine.tick(PauseState::Running, &registry);
    let computed = engine.get_computed(target).unwrap();
    assert_eq!(computed.strength, 0);
    assert_eq!(computed.dexterity, 4);
    assert_eq!(computed.constitution, 0);
    assert_eq!(computed.intelligence, 0);
    assert_eq!(computed.wisdom, 0);
    assert_eq!(computed.charisma, 18);
}

#[test]
fn ticks_affect_every_subject() {
    let mut registry = SubjectRegistry::new();
    let first = registry.spawn();
    let second = registry.spawn();
    let mut engine = StatsEngine::new();
    engine.insert_base_stats(first, flat_base(2));
    engine.insert_base_stats(second, flat_base(7));
    engine.append_modifier(
        first,
        RpgStatTarget::Strength,
        first,
        ModificationType::Multiplicative(1),
    );
    engine.append_modifier(
        second,
        RpgStatTarget::Strength,
        second,
        ModificationType::Multiplicative(2),
    );
    engine.tick(PauseState::Running, &registry);
    assert_eq!(engine.get_computed(first).unwrap().strength, 2);
    assert_eq!(engine.get_computed(second).unwrap().strength, 14);
}

#[test]
fn reattaching_base_stats_keeps_computed_block() {
    let mut registry = SubjectRegistry::new();
    let target = registry.spawn();
    let mut engine = StatsEngine::new();
    engine.insert_base_stats(target, flat_base(10));
    engine.append_modifier(
        target,
        RpgStatTarget::Strength,
        target,
        ModificationType::Multiplicative(2),
    );
    engine.tick(PauseState::Running, &registry);
    assert_eq!(engine.get_computed(target).unwrap().strength, 20);

    // A new base block replaces the old one, but the computed block keeps
    // the value of the last completed pass until the next tick.
    engine.insert_base_stats(target, flat_base(50));
    assert_eq!(engine.get_computed(target).unwrap().strength, 20);
    assert!(engine.get_base_stats(target).unwrap().strength.modifiers.is_empty());

    engine.tick(PauseState::Running, &registry);
    assert_eq!(engine.get_computed(target).unwrap().strength, 0);
}

#[test]
fn removing_a_subject_detaches_its_blocks() {
    let mut registry = SubjectRegistry::new();
    let gone = registry.spawn();
    let stays = registry.spawn();
    let mut engine = StatsEngine::new();
    engine.insert_base_stats(gone, flat_base(1));
    engine.insert_base_stats(stays, flat_base(2));
    engine.remove_subject(gone);
    assert!(!engine.has_base_stats(gone));
    assert!(engine.get_computed(gone).is_none());
    assert!(engine.has_base_stats(stays));
}

#[test]
fn registry_tracks_liveness() {
    let mut registry = SubjectRegistry::new();
    let first = registry.spawn();
    let second = registry.spawn();
    assert_ne!(first, second);
    assert!(registry.contains(first));
    assert!(registry.contains(second));
    registry.despawn(first);
    assert!(!registry.contains(first));
    assert!(registry.contains(second));
    // A later spawn never resurrects a despawned handle.
    let third = registry.spawn();
    assert_ne!(first, third);
    assert!(!registry.contains(first));
}
