//! The stat data model: modifiers, per-attribute containers, and the
//! per-subject base and computed blocks.
//!
//! A [`RpgStatContainer`] holds one attribute's base value and the ordered
//! list of modifiers currently applied to it. Order of insertion is
//! semantically significant: the first multiplicative modifier counts at
//! full value and each later one only contributes its excess over its own
//! sign (see [`crate::aggregate`]).

use vstd::prelude::*;

use crate::subject::SubjectRef;

verus! {

/// The six ability scores a modifier can target.
#[derive(Clone, Copy, Debug, PartialEq, Eq, Structural)]
pub enum RpgStatTarget {
    Strength,
    Dexterity,
    Constitution,
    Intelligence,
    Wisdom,
    Charisma,
}

/// One stacking rule and its magnitude.
#[derive(Clone, Copy, Debug, PartialEq, Eq, Structural)]
pub enum ModificationType {
    /// Added to the base value before the multiplier is applied.
    Additive(i32),
    /// Scales the sum of base value and additive modifiers, with stacking
    /// diminishment past the first multiplicative modifier.
    Multiplicative(i32),
    /// Raises the lower clamp bound of the final value.
    Minimum(i32),
    /// Lowers the upper clamp bound of the final value.
    Maximum(i32),
}

/// One modifier: a stacking rule tagged with the subject that granted it.
///
/// The owner determines whether the modifier should remain present: once the
/// owner is destroyed, the next sweep removes the modifier.
#[derive(Clone, Copy, Debug, PartialEq, Eq, Structural)]
pub struct RpgStatModifier {
    pub owner: SubjectRef,
    pub modifier: ModificationType,
}

/// A queued request to append one modifier to a subject's container.
///
/// Requests are buffered by the engine and only become visible to the sweep
/// and compute passes at the start of the next tick.
#[derive(Clone, Copy, Debug, PartialEq, Eq, Structural)]
pub struct EventAppendStatModifier {
    /// The subject whose stats are modified.
    pub subject: SubjectRef,
    /// The subject that granted the modifier and ties its lifetime.
    pub owner_ref: SubjectRef,
    /// The attribute the modifier applies to.
    pub target: RpgStatTarget,
    /// The stacking rule and magnitude.
    pub modifier: ModificationType,
}

/// One attribute's base value and its ordered, active modifiers.
#[derive(Clone, Debug)]
pub struct RpgStatContainer {
    pub base_value: i32,
    pub modifiers: Vec<RpgStatModifier>,
}

/// The mathematical value of a [`RpgStatContainer`].
#[verifier::ext_equal]
pub struct StatContainerView {
    pub base_value: int,
    pub modifiers: Seq<RpgStatModifier>,
}

impl View for RpgStatContainer {
    type V = StatContainerView;

    open spec fn view(&self) -> StatContainerView {
        StatContainerView { base_value: self.base_value as int, modifiers: self.modifiers@ }
    }
}

/// The modifiers of `mods` whose owner is in `live`, order preserved.
pub open spec fn live_modifiers(mods: Seq<RpgStatModifier>, live: Set<SubjectRef>) -> Seq<
    RpgStatModifier,
>
    decreases mods.len(),
{
    if mods.len() == 0 {
        Seq::empty()
    } else {
        let rest = live_modifiers(mods.drop_last(), live);
        if live.contains(mods.last().owner) {
            rest.push(mods.last())
        } else {
            rest
        }
    }
}

/// Every modifier that survives a sweep has a live owner.
pub proof fn lemma_live_modifiers_live(mods: Seq<RpgStatModifier>, live: Set<SubjectRef>)
    ensures
        forall|i: int|
            0 <= i < live_modifiers(mods, live).len() ==> live.contains(
                #[trigger] live_modifiers(mods, live)[i].owner,
            ),
    decreases mods.len(),
{
    if mods.len() > 0 {
        lemma_live_modifiers_live(mods.drop_last(), live);
    }
}

/// Sweeping a list whose owners are all live leaves it unchanged.
pub proof fn lemma_live_modifiers_all_live(mods: Seq<RpgStatModifier>, live: Set<SubjectRef>)
    requires
        forall|i: int| 0 <= i < mods.len() ==> live.contains(#[trigger] mods[i].owner),
    ensures
        live_modifiers(mods, live) == mods,
    decreases mods.len(),
{
    if mods.len() == 0 {
        assert(live_modifiers(mods, live) =~= mods);
    } else {
        assert(live.contains(mods[mods.len() - 1].owner));
        lemma_live_modifiers_all_live(mods.drop_last(), live);
        assert(live_modifiers(mods, live) =~= mods);
    }
}

/// The sweep is idempotent: with no intervening subject destruction, a
/// second sweep of the same list removes nothing further.
pub proof fn lemma_live_modifiers_idempotent(mods: Seq<RpgStatModifier>, live: Set<SubjectRef>)
    ensures
        live_modifiers(live_modifiers(mods, live), live) == live_modifiers(mods, live),
{
    lemma_live_modifiers_live(mods, live);
    lemma_live_modifiers_all_live(live_modifiers(mods, live), live);
}

/// A container after one sweep against the given live set.
pub open spec fn swept_container(c: StatContainerView, live: Set<SubjectRef>) -> StatContainerView {
    StatContainerView { base_value: c.base_value, modifiers: live_modifiers(c.modifiers, live) }
}

impl RpgStatContainer {
    /// Creates a container with the given base value and no modifiers.
    pub fn new(base_value: i32) -> (container: Self)
        ensures
            container@.base_value == base_value as int,
            container@.modifiers == Seq::<RpgStatModifier>::empty(),
    {
        RpgStatContainer { base_value, modifiers: Vec::new() }
    }

    /// Appends one modifier, preserving submission order.
    pub fn push_modifier(&mut self, modifier: RpgStatModifier)
        ensures
            final(self)@.base_value == old(self)@.base_value,
            final(self)@.modifiers == old(self)@.modifiers.push(modifier),
    {
        self.modifiers.push(modifier);
    }

    /// An identical copy of the container.
    pub fn clone_container(&self) -> (copy: Self)
        ensures
            copy@ == self@,
    {
        let mut modifiers: Vec<RpgStatModifier> = Vec::new();
        let mut i: usize = 0;
        while i < self.modifiers.len()
            invariant
                i <= self.modifiers@.len(),
                modifiers@ == self.modifiers@.take(i as int),
            decreases self.modifiers@.len() - i,
        {
            modifiers.push(self.modifiers[i]);
            proof {
                assert(self.modifiers@.take(i + 1).drop_last() =~= self.modifiers@.take(i as int));
            }
            i = i + 1;
        }
        proof {
            assert(self.modifiers@.take(self.modifiers@.len() as int) =~= self.modifiers@);
        }
        let copy = RpgStatContainer { base_value: self.base_value, modifiers };
        proof {
            assert(copy@ =~= self@);
        }
        copy
    }

    /// Removes every modifier whose granting subject no longer resolves to a
    /// live subject, preserving the order of the survivors.
    pub fn clear_dead_modifiers(&mut self, registry: &crate::subject::SubjectRegistry)
        ensures
            final(self)@ == swept_container(old(self)@, registry.live_set()),
    {
        let mut kept: Vec<RpgStatModifier> = Vec::new();
        let mut i: usize = 0;
        while i < self.modifiers.len()
            invariant
                i <= self.modifiers.len(),
                self.base_value == old(self).base_value,
                self.modifiers == old(self).modifiers,
                kept@ == live_modifiers(self.modifiers@.take(i as int), registry.live_set()),
            decreases self.modifiers.len() - i,
        {
            let m = self.modifiers[i];
            proof {
                assert(self.modifiers@.take(i + 1).drop_last() =~= self.modifiers@.take(i as int));
                assert(self.modifiers@.take(i + 1).last() == m);
            }
            if registry.contains(m.owner) {
                kept.push(m);
            }
            i = i + 1;
        }
        proof {
            assert(self.modifiers@.take(self.modifiers@.len() as int) =~= self.modifiers@);
        }
        self.modifiers = kept;
        proof {
            assert(self@ =~= swept_container(old(self)@, registry.live_set()));
        }
    }
}

/// A container view with the given base value and no modifiers.
pub open spec fn empty_container(base_value: int) -> StatContainerView {
    StatContainerView { base_value, modifiers: Seq::empty() }
}

/// The per-subject base block: one stat container per attribute.
///
/// Mutated only by modifier ingestion (append) and the lifecycle sweeper
/// (removal); owned exclusively by its subject.
#[derive(Clone, Debug)]
pub struct BaseStats {
    pub strength: RpgStatContainer,
    pub dexterity: RpgStatContainer,
    pub constitution: RpgStatContainer,
    pub intelligence: RpgStatContainer,
    pub wisdom: RpgStatContainer,
    pub charisma: RpgStatContainer,
}

/// The mathematical value of a [`BaseStats`] block.
#[verifier::ext_equal]
pub struct BaseStatsView {
    pub strength: StatContainerView,
    pub dexterity: StatContainerView,
    pub constitution: StatContainerView,
    pub intelligence: StatContainerView,
    pub wisdom: StatContainerView,
    pub charisma: StatContainerView,
}

impl View for BaseStats {
    type V = BaseStatsView;

    open spec fn view(&self) -> BaseStatsView {
        BaseStatsView {
            strength: self.strength@,
            dexterity: self.dexterity@,
            constitution: self.constitution@,
            intelligence: self.intelligence@,
            wisdom: self.wisdom@,
            charisma: self.charisma@,
        }
    }
}

/// The container of one attribute within a base block.
pub open spec fn stat_container(stats: BaseStatsView, target: RpgStatTarget) -> StatContainerView {
    match target {
        RpgStatTarget::Strength => stats.strength,
        RpgStatTarget::Dexterity => stats.dexterity,
        RpgStatTarget::Constitution => stats.constitution,
        RpgStatTarget::Intelligence => stats.intelligence,
        RpgStatTarget::Wisdom => stats.wisdom,
        RpgStatTarget::Charisma => stats.charisma,
    }
}

/// `stats` with one modifier appended to the targeted attribute's list;
/// every other attribute is untouched.
pub open spec fn with_pushed_modifier(
    stats: BaseStatsView,
    target: RpgStatTarget,
    m: RpgStatModifier,
) -> BaseStatsView {
    let pushed = StatContainerView {
        base_value: stat_container(stats, target).base_value,
        modifiers: stat_container(stats, target).modifiers.push(m),
    };
    match target {
        RpgStatTarget::Strength => BaseStatsView { strength: pushed, ..stats },
        RpgStatTarget::Dexterity => BaseStatsView { dexterity: pushed, ..stats },
        RpgStatTarget::Constitution => BaseStatsView { constitution: pushed, ..stats },
        RpgStatTarget::Intelligence => BaseStatsView { intelligence: pushed, ..stats },
        RpgStatTarget::Wisdom => BaseStatsView { wisdom: pushed, ..stats },
        RpgStatTarget::Charisma => BaseStatsView { charisma: pushed, ..stats },
    }
}

/// Every container of the block swept against `live`.
pub open spec fn swept_stats(stats: BaseStatsView, live: Set<SubjectRef>) -> BaseStatsView {
    BaseStatsView {
        strength: swept_container(stats.strength, live),
        dexterity: swept_container(stats.dexterity, live),
        constitution: swept_container(stats.constitution, live),
        intelligence: swept_container(stats.intelligence, live),
        wisdom: swept_container(stats.wisdom, live),
        charisma: swept_container(stats.charisma, live),
    }
}

impl BaseStats {
    /// Creates a block with the given base values and no modifiers.
    pub fn new(
        strength: i32,
        dexterity: i32,
        constitution: i32,
        intelligence: i32,
        wisdom: i32,
        charisma: i32,
    ) -> (stats: Self)
        ensures
            stats@.strength == empty_container(strength as int),
            stats@.dexterity == empty_container(dexterity as int),
            stats@.constitution == empty_container(constitution as int),
            stats@.intelligence == empty_container(intelligence as int),
            stats@.wisdom == empty_container(wisdom as int),
            stats@.charisma == empty_container(charisma as int),
    {
        let stats = BaseStats {
            strength: RpgStatContainer::new(strength),
            dexterity: RpgStatContainer::new(dexterity),
            constitution: RpgStatContainer::new(constitution),
            intelligence: RpgStatContainer::new(intelligence),
            wisdom: RpgStatContainer::new(wisdom),
            charisma: RpgStatContainer::new(charisma),
        };
        proof {
            assert(stats@.strength =~= empty_container(strength as int));
            assert(stats@.dexterity =~= empty_container(dexterity as int));
            assert(stats@.constitution =~= empty_container(constitution as int));
            assert(stats@.intelligence =~= empty_container(intelligence as int));
            assert(stats@.wisdom =~= empty_container(wisdom as int));
            assert(stats@.charisma =~= empty_container(charisma as int));
        }
        stats
    }

    /// Appends one modifier to the targeted attribute's container,
    /// preserving submission order.
    pub fn push_modifier(&mut self, target: RpgStatTarget, modifier: RpgStatModifier)
        ensures
            final(self)@ == with_pushed_modifier(old(self)@, target, modifier),
    {
        match target {
            RpgStatTarget::Strength => self.strength.push_modifier(modifier),
            RpgStatTarget::Dexterity => self.dexterity.push_modifier(modifier),
            RpgStatTarget::Constitution => self.constitution.push_modifier(modifier),
            RpgStatTarget::Intelligence => self.intelligence.push_modifier(modifier),
            RpgStatTarget::Wisdom => self.wisdom.push_modifier(modifier),
            RpgStatTarget::Charisma => self.charisma.push_modifier(modifier),
        }
        proof {
            assert(self@ =~~= with_pushed_modifier(old(self)@, target, modifier));
        }
    }

    /// An identical copy of the block.
    pub fn clone_block(&self) -> (copy: Self)
        ensures
            copy@ == self@,
    {
        let copy = BaseStats {
            strength: self.strength.clone_container(),
            dexterity: self.dexterity.clone_container(),
            constitution: self.constitution.clone_container(),
            intelligence: self.intelligence.clone_container(),
            wisdom: self.wisdom.clone_container(),
            charisma: self.charisma.clone_container(),
        };
        proof {
            assert(copy@ =~~= self@);
        }
        copy
    }

    /// Sweeps every container of the block: removes each modifier whose
    /// granting subject is no longer alive.
    pub fn clear_dead_modifiers(&mut self, registry: &crate::subject::SubjectRegistry)
        ensures
            final(self)@ == swept_stats(old(self)@, registry.live_set()),
    {
        self.strength.clear_dead_modifiers(registry);
        self.dexterity.clear_dead_modifiers(registry);
        self.constitution.clear_dead_modifiers(registry);
        self.intelligence.clear_dead_modifiers(registry);
        self.wisdom.clear_dead_modifiers(registry);
        self.charisma.clear_dead_modifiers(registry);
        proof {
            assert(self@ =~~= swept_stats(old(self)@, registry.live_set()));
        }
    }
}

/// Every modifier of the container has a live owner.
pub open spec fn container_owners_live(c: StatContainerView, live: Set<SubjectRef>) -> bool {
    forall|k: int|
        0 <= k < c.modifiers.len() ==> live.contains((#[trigger] c.modifiers[k]).owner)
}

/// Every modifier of every container of the block has a live owner.
pub open spec fn stats_owners_live(stats: BaseStatsView, live: Set<SubjectRef>) -> bool {
    &&& container_owners_live(stats.strength, live)
    &&& container_owners_live(stats.dexterity, live)
    &&& container_owners_live(stats.constitution, live)
    &&& container_owners_live(stats.intelligence, live)
    &&& container_owners_live(stats.wisdom, live)
    &&& container_owners_live(stats.charisma, live)
}

/// A swept block holds only modifiers whose owner is live.
pub proof fn lemma_swept_stats_owners_live(stats: BaseStatsView, live: Set<SubjectRef>)
    ensures
        stats_owners_live(swept_stats(stats, live), live),
{
    lemma_live_modifiers_live(stats.strength.modifiers, live);
    lemma_live_modifiers_live(stats.dexterity.modifiers, live);
    lemma_live_modifiers_live(stats.constitution.modifiers, live);
    lemma_live_modifiers_live(stats.intelligence.modifiers, live);
    lemma_live_modifiers_live(stats.wisdom.modifiers, live);
    lemma_live_modifiers_live(stats.charisma.modifiers, live);
}

/// Sweeping a block twice against the same live set equals sweeping it
/// once.
pub proof fn lemma_swept_stats_idempotent(stats: BaseStatsView, live: Set<SubjectRef>)
    ensures
        swept_stats(swept_stats(stats, live), live) == swept_stats(stats, live),
{
    lemma_live_modifiers_idempotent(stats.strength.modifiers, live);
    lemma_live_modifiers_idempotent(stats.dexterity.modifiers, live);
    lemma_live_modifiers_idempotent(stats.constitution.modifiers, live);
    lemma_live_modifiers_idempotent(stats.intelligence.modifiers, live);
    lemma_live_modifiers_idempotent(stats.wisdom.modifiers, live);
    lemma_live_modifiers_idempotent(stats.charisma.modifiers, live);
    assert(swept_stats(swept_stats(stats, live), live) =~~= swept_stats(stats, live));
}

/// The per-subject computed block: the final value of each attribute as of
/// the last completed aggregator pass.
#[derive(Clone, Copy, Debug, PartialEq, Eq, Structural)]
pub struct ComputedStats {
    pub strength: i32,
    pub dexterity: i32,
    pub constitution: i32,
    pub intelligence: i32,
    pub wisdom: i32,
    pub charisma: i32,
}

/// A computed block with every value zero, the state at creation time.
pub open spec fn zeroed_computed() -> ComputedStats {
    ComputedStats {
        strength: 0,
        dexterity: 0,
        constitution: 0,
        intelligence: 0,
        wisdom: 0,
        charisma: 0,
    }
}

/// The computed slot of one attribute.
pub open spec fn computed_stat(computed: ComputedStats, target: RpgStatTarget) -> i32 {
    match target {
        RpgStatTarget::Strength => computed.strength,
        RpgStatTarget::Dexterity => computed.dexterity,
        RpgStatTarget::Constitution => computed.constitution,
        RpgStatTarget::Intelligence => computed.intelligence,
        RpgStatTarget::Wisdom => computed.wisdom,
        RpgStatTarget::Charisma => computed.charisma,
    }
}

impl ComputedStats {
    /// Creates a computed block with every value defaulted to zero.
    pub fn new() -> (computed: Self)
        ensures
            computed == zeroed_computed(),
    {
        ComputedStats {
            strength: 0,
            dexterity: 0,
            constitution: 0,
            intelligence: 0,
            wisdom: 0,
            charisma: 0,
        }
    }

    /// A computed block seeded with the raw base values, before any
    /// modifier or aggregator pass is taken into account.
    pub fn from_base(base: &BaseStats) -> (computed: Self)
        ensures
            computed.strength as int == base@.strength.base_value,
            computed.dexterity as int == base@.dexterity.base_value,
            computed.constitution as int == base@.constitution.base_value,
            computed.intelligence as int == base@.intelligence.base_value,
            computed.wisdom as int == base@.wisdom.base_value,
            computed.charisma as int == base@.charisma.base_value,
    {
        ComputedStats {
            strength: base.strength.base_value,
            dexterity: base.dexterity.base_value,
            constitution: base.constitution.base_value,
            intelligence: base.intelligence.base_value,
            wisdom: base.wisdom.base_value,
            charisma: base.charisma.base_value,
        }
    }
}

impl Default for ComputedStats {
    /// The default computed block is all zeroes.
    fn default() -> (computed: Self)
        ensures
            computed == zeroed_computed(),
    {
        ComputedStats::new()
    }
}

} // verus!
