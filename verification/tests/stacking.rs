//! Scenario tests for the stacking algorithm of the aggregator.

use stat_engine::aggregate::compute_stat;
use stat_engine::stats::ModificationType;
use stat_engine::stats::RpgStatContainer;
use stat_engine::stats::RpgStatModifier;
use stat_engine::subject::SubjectRef;
use stat_engine::subject::SubjectRegistry;

fn some_subject() -> SubjectRef {
    let mut registry = SubjectRegistry::new();
    registry.spawn()
}

fn container(base_value: i32, kinds: Vec<ModificationType>) -> RpgStatContainer {
    let owner = some_subject();
    let mut c = RpgStatContainer::new(base_value);
    for kind in kinds {
        c.push_modifier(RpgStatModifier { owner, modifier: kind });
    }
    c
}

#[test]
fn additive_only_computes_to_zero() {
    // With no multiplicative modifier the factor stays zero, so the result
    // is zero no matter the base and additive values.
    let c = container(
        10,
        vec![ModificationType::Additive(5), ModificationType::Additive(-2)],
    );
    assert_eq!(compute_stat(&c), 0);
}

#[test]
fn no_modifiers_computes_to_zero() {
    let c = container(10, vec![]);
    assert_eq!(compute_stat(&c), 0);
}

#[test]
fn single_multiplicative() {
    let c = container(10, vec![ModificationType::Multiplicative(2)]);
    assert_eq!(compute_stat(&c), 20);
}

#[test]
fn additive_with_multiplicative() {
    let c = container(
        10,
        vec![
            ModificationType::Additive(5),
            ModificationType::Additive(-2),
            ModificationType::Multiplicative(2),
        ],
    );
    assert_eq!(compute_stat(&c), 26);
}

#[test]
fn stacking_multiplicative_diminishment() {
    // First doubling counts in full, each later one contributes 2 - 1 = 1:
    // the factor is 2 + 1 + 1 = 4.
    let c = container(
        10,
        vec![
            ModificationType::Multiplicative(2),
            ModificationType::Multiplicative(2),
            ModificationType::Multiplicative(2),
        ],
    );
    assert_eq!(compute_stat(&c), 40);
}

#[test]
fn negative_multiplicative_stacking() {
    // First -2 in full, second contributes -2 - (-1) = -1: factor -3.
    let c = container(
        10,
        vec![
            ModificationType::Multiplicative(-2),
            ModificationType::Multiplicative(-2),
        ],
    );
    assert_eq!(compute_stat(&c), -30);
}

#[test]
fn mixed_sign_multiplicative_stacking() {
    // 2 in full, then -3 - (-1) = -2: the factor collapses to zero.
    let c = container(
        10,
        vec![
            ModificationType::Multiplicative(2),
            ModificationType::Multiplicative(-3),
        ],
    );
    assert_eq!(compute_stat(&c), 0);
}

#[test]
fn zero_multiplicative_after_first_contributes_nothing() {
    // A later zero multiplier contributes 0 - 0 = 0.
    let c = container(
        10,
        vec![
            ModificationType::Multiplicative(2),
            ModificationType::Multiplicative(0),
        ],
    );
    assert_eq!(compute_stat(&c), 20);
}

#[test]
fn clamp_raises_to_minimum() {
    // Raw value is 0 * 5 = 0, clamped into [2, 8].
    let c = container(
        0,
        vec![
            ModificationType::Multiplicative(5),
            ModificationType::Minimum(2),
            ModificationType::Maximum(8),
        ],
    );
    assert_eq!(compute_stat(&c), 2);
}

#[test]
fn clamp_lowers_to_maximum() {
    let c = container(
        10,
        vec![
            ModificationType::Multiplicative(3),
            ModificationType::Maximum(25),
        ],
    );
    assert_eq!(compute_stat(&c), 25);
}

#[test]
fn clamp_bounds_tighten_across_modifiers() {
    // Several Minimum modifiers keep the largest bound, several Maximum
    // modifiers the smallest.
    let c = container(
        1,
        vec![
            ModificationType::Multiplicative(1),
            ModificationType::Minimum(2),
            ModificationType::Minimum(4),
            ModificationType::Maximum(9),
            ModificationType::Maximum(7),
        ],
    );
    assert_eq!(compute_stat(&c), 4);
}

#[test]
fn empty_clamp_range_yields_maximum() {
    // When the folded minimum exceeds the folded maximum the documented
    // tie-break applies: the lower bound first, then the upper bound, so
    // the result is the folded maximum.
    let c = container(
        10,
        vec![
            ModificationType::Multiplicative(1),
            ModificationType::Minimum(5),
            ModificationType::Maximum(3),
        ],
    );
    assert_eq!(compute_stat(&c), 3);

    let low = container(
        0,
        vec![
            ModificationType::Multiplicative(1),
            ModificationType::Minimum(5),
            ModificationType::Maximum(3),
        ],
    );
    assert_eq!(compute_stat(&low), 3);
}

#[test]
fn additive_folding_saturates() {
    // Two maximal additive modifiers saturate instead of wrapping.
    let c = container(
        0,
        vec![
            ModificationType::Additive(i32::MAX),
            ModificationType::Additive(i32::MAX),
            ModificationType::Multiplicative(1),
        ],
    );
    assert_eq!(compute_stat(&c), i32::MAX);
}

#[test]
fn multiplication_saturates_positive() {
    let c = container(i32::MAX, vec![ModificationType::Multiplicative(i32::MAX)]);
    assert_eq!(compute_stat(&c), i32::MAX);
}

#[test]
fn multiplication_saturates_negative() {
    let c = container(i32::MIN, vec![ModificationType::Multiplicative(2)]);
    assert_eq!(compute_stat(&c), i32::MIN);
}

#[test]
fn base_plus_additive_saturates() {
    let c = container(
        i32::MIN,
        vec![
            ModificationType::Additive(i32::MIN),
            ModificationType::Multiplicative(1),
        ],
    );
    assert_eq!(compute_stat(&c), i32::MIN);
}
