//! The aggregator: folds a container's modifiers under the stacking rules
//! and produces the final attribute value.
//!
//! The algorithm is a game balance rule and is preserved exactly:
//!
//! 1. Start from `additive = 0`, `multiplicative = 0`, `minimum = i32::MIN`,
//!    `maximum = i32::MAX`.
//! 2. Fold the modifiers in stored order. An additive modifier adds its
//!    value. The first multiplicative modifier sets the full factor; each
//!    later one contributes only its value minus its own sign (the stacking
//!    diminishment rule: three doubling buffs give `2 + 1 + 1 = 4`).
//!    Minimum and maximum modifiers tighten the clamp bounds.
//! 3. The result is `(base + additive) * multiplicative`, clamped.
//!
//! With no multiplicative modifier present the factor stays `0`, so the
//! final value is the clamp applied to `0`. That is deliberate and must not
//! be "fixed" by starting the factor at the identity.
//!
//! Overflow policy: every addition and the one multiplication saturate at
//! the `i32` range. Saturation, rather than wrapping, keeps extreme inputs
//! ordered sensibly and can never panic.
//!
//! Clamp policy: the lower bound is applied first, then the upper bound, so
//! when the folded minimum exceeds the folded maximum the result is the
//! folded maximum. This tie-break is deterministic and covered by tests.

use vstd::prelude::*;

use crate::stats::BaseStats;
use crate::stats::BaseStatsView;
use crate::stats::ComputedStats;
use crate::stats::ModificationType;
use crate::stats::RpgStatContainer;
use crate::stats::RpgStatModifier;
use crate::stats::StatContainerView;

verus! {

/// The accumulator of the stacking fold.
#[verifier::ext_equal]
pub struct StackingState {
    pub additive: int,
    pub multiplicative: int,
    pub minimum: int,
    pub maximum: int,
}

/// The sign of `v`: `-1`, `0`, or `1`.
pub open spec fn sign(v: int) -> int {
    if v > 0 {
        1
    } else if v < 0 {
        -1
    } else {
        0
    }
}

/// `v` saturated into the `i32` range.
pub open spec fn sat32(v: int) -> int {
    if v > i32::MAX as int {
        i32::MAX as int
    } else if v < i32::MIN as int {
        i32::MIN as int
    } else {
        v
    }
}

/// The accumulator before any modifier is folded.
pub open spec fn initial_stacking_state() -> StackingState {
    StackingState {
        additive: 0,
        multiplicative: 0,
        minimum: i32::MIN as int,
        maximum: i32::MAX as int,
    }
}

/// One step of the stacking fold.
pub open spec fn apply_modification(state: StackingState, m: ModificationType) -> StackingState {
    match m {
        ModificationType::Additive(v) => StackingState {
            additive: sat32(state.additive + v),
            multiplicative: state.multiplicative,
            minimum: state.minimum,
            maximum: state.maximum,
        },
        ModificationType::Multiplicative(v) => StackingState {
            additive: state.additive,
            multiplicative: if state.multiplicative == 0 {
                v as int
            } else {
                sat32(state.multiplicative + (v - sign(v as int)))
            },
            minimum: state.minimum,
            maximum: state.maximum,
        },
        ModificationType::Minimum(v) => StackingState {
            additive: state.additive,
            multiplicative: state.multiplicative,
            minimum: if state.minimum >= v { state.minimum } else { v as int },
            maximum: state.maximum,
        },
        ModificationType::Maximum(v) => StackingState {
            additive: state.additive,
            multiplicative: state.multiplicative,
            minimum: state.minimum,
            maximum: if state.maximum <= v { state.maximum } else { v as int },
        },
    }
}

/// The stacking fold over a whole modifier list, in stored order.
pub open spec fn fold_modifiers(mods: Seq<RpgStatModifier>) -> StackingState
    decreases mods.len(),
{
    if mods.len() == 0 {
        initial_stacking_state()
    } else {
        apply_modification(fold_modifiers(mods.drop_last()), mods.last().modifier)
    }
}

/// `v` clamped into `[lo, hi]`, the lower bound applied first: when
/// `lo > hi` the result is `hi`.
pub open spec fn clamped(v: int, lo: int, hi: int) -> int {
    let raised = if v < lo {
        lo
    } else {
        v
    };
    if raised > hi {
        hi
    } else {
        raised
    }
}

/// The final value of a container under the stacking algorithm.
pub open spec fn compute_stat_spec(c: StatContainerView) -> int {
    let state = fold_modifiers(c.modifiers);
    clamped(
        sat32(sat32(c.base_value + state.additive) * state.multiplicative),
        state.minimum,
        state.maximum,
    )
}

/// All four accumulator fields stay within the `i32` range.
pub open spec fn stacking_state_in_range(state: StackingState) -> bool {
    &&& i32::MIN as int <= state.additive <= i32::MAX as int
    &&& i32::MIN as int <= state.multiplicative <= i32::MAX as int
    &&& i32::MIN as int <= state.minimum <= i32::MAX as int
    &&& i32::MIN as int <= state.maximum <= i32::MAX as int
}

pub proof fn lemma_fold_modifiers_in_range(mods: Seq<RpgStatModifier>)
    ensures
        stacking_state_in_range(fold_modifiers(mods)),
    decreases mods.len(),
{
    if mods.len() > 0 {
        lemma_fold_modifiers_in_range(mods.drop_last());
    }
}

/// The computed value itself always fits in an `i32`.
pub proof fn lemma_compute_stat_spec_in_range(c: StatContainerView)
    ensures
        i32::MIN as int <= compute_stat_spec(c) <= i32::MAX as int,
{
    lemma_fold_modifiers_in_range(c.modifiers);
}

/// Whether any modifier in the list is multiplicative.
pub open spec fn has_multiplicative(mods: Seq<RpgStatModifier>) -> bool {
    exists|i: int|
        0 <= i < mods.len() && (#[trigger] mods[i].modifier) matches
            ModificationType::Multiplicative(_)
}

/// Without a multiplicative modifier the folded factor stays zero, so the
/// raw product is zero and the final value is just the clamp applied to
/// zero — whatever the base and additive modifiers say.
pub proof fn lemma_zero_without_multiplicative(c: StatContainerView)
    requires
        !has_multiplicative(c.modifiers),
    ensures
        fold_modifiers(c.modifiers).multiplicative == 0,
        compute_stat_spec(c) == clamped(
            0,
            fold_modifiers(c.modifiers).minimum,
            fold_modifiers(c.modifiers).maximum,
        ),
{
    lemma_fold_multiplicative_zero(c.modifiers);
}

proof fn lemma_fold_multiplicative_zero(mods: Seq<RpgStatModifier>)
    requires
        !has_multiplicative(mods),
    ensures
        fold_modifiers(mods).multiplicative == 0,
    decreases mods.len(),
{
    if mods.len() > 0 {
        assert(!has_multiplicative(mods.drop_last())) by {
            assert forall|i: int| 0 <= i < mods.drop_last().len() implies !((#[trigger] mods.drop_last()[i].modifier) matches ModificationType::Multiplicative(_)) by {
                assert(mods.drop_last()[i] == mods[i]);
                assert(!((mods[i].modifier) matches ModificationType::Multiplicative(_)));
            }
        }
        lemma_fold_multiplicative_zero(mods.drop_last());
        assert(!((mods[mods.len() - 1].modifier) matches ModificationType::Multiplicative(_)));
    }
}

/// `a + b` saturated at the `i32` range.
fn saturating_add_i32(a: i32, b: i32) -> (r: i32)
    ensures
        r as int == sat32(a as int + b as int),
{
    let wide: i64 = a as i64 + b as i64;
    if wide > i32::MAX as i64 {
        i32::MAX
    } else if wide < i32::MIN as i64 {
        i32::MIN
    } else {
        wide as i32
    }
}

/// `a * b` saturated at the `i32` range.
fn saturating_mul_i32(a: i32, b: i32) -> (r: i32)
    ensures
        r as int == sat32(a as int * b as int),
{
    proof {
        assert((a as int) * (b as int) <= 0x4000_0000_0000_0000int && (a as int) * (b as int)
            >= -0x4000_0000_0000_0000int) by (nonlinear_arith)
            requires
                i32::MIN as int <= a as int <= i32::MAX as int,
                i32::MIN as int <= b as int <= i32::MAX as int,
        ;
    }
    let wide: i64 = (a as i64) * (b as i64);
    if wide > i32::MAX as i64 {
        i32::MAX
    } else if wide < i32::MIN as i64 {
        i32::MIN
    } else {
        wide as i32
    }
}

/// The sign of `v` as an executable value.
fn signum_i32(v: i32) -> (r: i32)
    ensures
        r as int == sign(v as int),
{
    if v > 0 {
        1
    } else if v < 0 {
        -1
    } else {
        0
    }
}

/// Computes the final value of one container under the stacking algorithm.
///
/// This is the whole aggregator for one attribute: the caller writes the
/// result into the matching computed block slot.
pub fn compute_stat(container: &RpgStatContainer) -> (result: i32)
    ensures
        result as int == compute_stat_spec(container@),
{
    let mut additive: i32 = 0;
    let mut multiplicative: i32 = 0;
    let mut minimum: i32 = i32::MIN;
    let mut maximum: i32 = i32::MAX;
    let mut i: usize = 0;
    while i < container.modifiers.len()
        invariant
            i <= container.modifiers.len(),
            additive as int == fold_modifiers(container.modifiers@.take(i as int)).additive,
            multiplicative as int == fold_modifiers(
                container.modifiers@.take(i as int),
            ).multiplicative,
            minimum as int == fold_modifiers(container.modifiers@.take(i as int)).minimum,
            maximum as int == fold_modifiers(container.modifiers@.take(i as int)).maximum,
        decreases container.modifiers.len() - i,
    {
        let m = container.modifiers[i];
        proof {
            assert(container.modifiers@.take(i + 1).drop_last() =~= container.modifiers@.take(
                i as int,
            ));
            assert(container.modifiers@.take(i + 1).last() == m);
        }
        match m.modifier {
            ModificationType::Additive(v) => {
                additive = saturating_add_i32(additive, v);
            },
            ModificationType::Multiplicative(v) => {
                // The stacking diminishment rule: the first multiplicative
                // modifier counts in full, each later one only contributes
                // its value minus its own sign.
                if multiplicative == 0 {
                    multiplicative = v;
                } else {
                    let s = signum_i32(v);
                    multiplicative = saturating_add_i32(multiplicative, v - s);
                }
            },
            ModificationType::Minimum(v) => {
                if v > minimum {
                    minimum = v;
                }
            },
            ModificationType::Maximum(v) => {
                if v < maximum {
                    maximum = v;
                }
            },
        }
        i = i + 1;
    }
    proof {
        assert(container.modifiers@.take(container.modifiers@.len() as int)
            =~= container.modifiers@);
    }
    let raw = saturating_mul_i32(saturating_add_i32(container.base_value, additive), multiplicative);
    let raised = if raw < minimum {
        minimum
    } else {
        raw
    };
    if raised > maximum {
        maximum
    } else {
        raised
    }
}

/// The computed block an aggregator pass derives from a base block.
pub open spec fn aggregated_stats(stats: BaseStatsView) -> ComputedStats {
    ComputedStats {
        strength: compute_stat_spec(stats.strength) as i32,
        dexterity: compute_stat_spec(stats.dexterity) as i32,
        constitution: compute_stat_spec(stats.constitution) as i32,
        intelligence: compute_stat_spec(stats.intelligence) as i32,
        wisdom: compute_stat_spec(stats.wisdom) as i32,
        charisma: compute_stat_spec(stats.charisma) as i32,
    }
}

/// Recomputes every attribute of one subject from its base block.
pub fn compute_block(base: &BaseStats) -> (computed: ComputedStats)
    ensures
        computed == aggregated_stats(base@),
{
    proof {
        lemma_compute_stat_spec_in_range(base@.strength);
        lemma_compute_stat_spec_in_range(base@.dexterity);
        lemma_compute_stat_spec_in_range(base@.constitution);
        lemma_compute_stat_spec_in_range(base@.intelligence);
        lemma_compute_stat_spec_in_range(base@.wisdom);
        lemma_compute_stat_spec_in_range(base@.charisma);
    }
    ComputedStats {
        strength: compute_stat(&base.strength),
        dexterity: compute_stat(&base.dexterity),
        constitution: compute_stat(&base.constitution),
        intelligence: compute_stat(&base.intelligence),
        wisdom: compute_stat(&base.wisdom),
        charisma: compute_stat(&base.charisma),
    }
}

} // verus!


