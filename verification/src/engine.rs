//! The tick-driven stat engine.
//!
//! The engine owns, per subject, a paired base block and computed block,
//! plus a queue of modifier requests. Requests issued during a tick are
//! buffered and only become visible at the next tick's synchronization
//! barrier. One tick, gated by the external pause state, runs in a fixed
//! order that must not be rearranged: queue flush, then the lifecycle
//! sweep over every container, then the aggregator over every subject —
//! so a compute pass never sees a modifier whose owner died before the
//! sweep.

use vstd::prelude::*;

use crate::aggregate::aggregated_stats;
use crate::aggregate::compute_block;
use crate::game_states::PauseState;
use crate::stats::BaseStats;
use crate::stats::BaseStatsView;
use crate::stats::ComputedStats;
use crate::stats::EventAppendStatModifier;
use crate::stats::ModificationType;
use crate::stats::RpgStatModifier;
use crate::stats::RpgStatTarget;
use crate::stats::swept_stats;
use crate::stats::with_pushed_modifier;
use crate::stats::zeroed_computed;
use crate::subject::SubjectRef;
use crate::subject::SubjectRegistry;

verus! {

/// One subject's stat state: its base block paired with its computed block.
///
/// The pairing is structural: an entry cannot exist without both blocks,
/// which is what guarantees that every subject with base stats always has
/// computed stats.
#[derive(Clone, Debug)]
pub struct StatsEntry {
    pub subject: SubjectRef,
    pub base: BaseStats,
    pub computed: ComputedStats,
}

/// The mathematical value of a [`StatsEntry`].
#[verifier::ext_equal]
pub struct StatsEntryView {
    pub subject: SubjectRef,
    pub base: BaseStatsView,
    pub computed: ComputedStats,
}

impl View for StatsEntry {
    type V = StatsEntryView;

    open spec fn view(&self) -> StatsEntryView {
        StatsEntryView { subject: self.subject, base: self.base@, computed: self.computed }
    }
}

/// The views of a sequence of entries.
pub open spec fn entry_views(entries: Seq<StatsEntry>) -> Seq<StatsEntryView> {
    entries.map(|i: int, e: StatsEntry| e@)
}

/// No two entries belong to the same subject.
pub open spec fn distinct_subjects(entries: Seq<StatsEntryView>) -> bool {
    forall|i: int, j: int|
        0 <= i < j < entries.len() ==> (#[trigger] entries[i]).subject != (
        #[trigger] entries[j]).subject
}

/// One queued request applied: the requesting subject's targeted container
/// gains the modifier; a request whose subject has no entry is silently
/// dropped.
pub open spec fn applied_event(
    entries: Seq<StatsEntryView>,
    ev: EventAppendStatModifier,
) -> Seq<StatsEntryView> {
    entries.map(
        |i: int, e: StatsEntryView|
            if e.subject == ev.subject {
                StatsEntryView {
                    base: with_pushed_modifier(
                        e.base,
                        ev.target,
                        RpgStatModifier { owner: ev.owner_ref, modifier: ev.modifier },
                    ),
                    ..e
                }
            } else {
                e
            },
    )
}

/// The whole queue applied in submission order.
pub open spec fn flushed(
    entries: Seq<StatsEntryView>,
    queue: Seq<EventAppendStatModifier>,
) -> Seq<StatsEntryView>
    decreases queue.len(),
{
    if queue.len() == 0 {
        entries
    } else {
        applied_event(flushed(entries, queue.drop_last()), queue.last())
    }
}

/// Every entry's base block swept against `live`; computed blocks and
/// subjects untouched.
pub open spec fn swept_entries(entries: Seq<StatsEntryView>, live: Set<SubjectRef>) -> Seq<
    StatsEntryView,
> {
    entries.map(
        |i: int, e: StatsEntryView| StatsEntryView { base: swept_stats(e.base, live), ..e },
    )
}

/// Every entry's computed block recomputed from its base block.
pub open spec fn aggregated_entries(entries: Seq<StatsEntryView>) -> Seq<StatsEntryView> {
    entries.map(
        |i: int, e: StatsEntryView| StatsEntryView { computed: aggregated_stats(e.base), ..e },
    )
}

/// The first entry of the given subject, if any.
pub open spec fn subject_entry(entries: Seq<StatsEntryView>, subject: SubjectRef) -> Option<
    StatsEntryView,
>
    decreases entries.len(),
{
    if entries.len() == 0 {
        None
    } else if entries[0].subject == subject {
        Some(entries[0])
    } else {
        subject_entry(entries.drop_first(), subject)
    }
}

/// Whether the subject has an entry.
pub open spec fn has_entry(entries: Seq<StatsEntryView>, subject: SubjectRef) -> bool {
    subject_entry(entries, subject) is Some
}

/// The entries that do not belong to the given subject, in order.
pub open spec fn retained_entries(entries: Seq<StatsEntryView>, subject: SubjectRef) -> Seq<
    StatsEntryView,
>
    decreases entries.len(),
{
    if entries.len() == 0 {
        Seq::empty()
    } else {
        let rest = retained_entries(entries.drop_last(), subject);
        if entries.last().subject == subject {
            rest
        } else {
            rest.push(entries.last())
        }
    }
}

/// The stat aggregation engine: per-subject blocks plus the ingestion queue.
pub struct StatsEngine {
    entries: Vec<StatsEntry>,
    pending: Vec<EventAppendStatModifier>,
}

impl StatsEngine {
    /// The per-subject entries, by value.
    pub closed spec fn entries_view(&self) -> Seq<StatsEntryView> {
        entry_views(self.entries@)
    }

    /// The queued modifier requests, oldest first.
    pub closed spec fn pending_view(&self) -> Seq<EventAppendStatModifier> {
        self.pending@
    }

    /// Each subject has at most one entry.
    pub open spec fn wf(&self) -> bool {
        distinct_subjects(self.entries_view())
    }

    /// Creates an engine with no subjects and an empty queue.
    pub fn new() -> (engine: Self)
        ensures
            engine.entries_view() == Seq::<StatsEntryView>::empty(),
            engine.pending_view() == Seq::<EventAppendStatModifier>::empty(),
            engine.wf(),
    {
        let engine = StatsEngine { entries: Vec::new(), pending: Vec::new() };
        proof {
            assert(engine.entries_view() =~= Seq::<StatsEntryView>::empty());
        }
        engine
    }

    /// Queues a request to append one modifier to `subject`'s container for
    /// `target`, granted by `owner_ref`.
    ///
    /// This is the only external write surface into the modifier lists. The
    /// request stays buffered — invisible to the sweep and compute passes —
    /// until the next tick's barrier, where it is validated against the
    /// entries and silently dropped if the subject has no base block.
    pub fn append_modifier(
        &mut self,
        subject: SubjectRef,
        target: RpgStatTarget,
        owner_ref: SubjectRef,
        modifier: ModificationType,
    )
        ensures
            final(self).entries_view() == old(self).entries_view(),
            final(self).pending_view() == old(self).pending_view().push(
                EventAppendStatModifier { subject, owner_ref, target, modifier },
            ),
            final(self).wf() == old(self).wf(),
    {
        self.pending.push(EventAppendStatModifier { subject, owner_ref, target, modifier });
    }

    /// Reads the computed block of a subject, if it has one.
    ///
    /// This is the value of the last completed aggregator pass — consumers
    /// read it and never read the base block for gameplay decisions.
    pub fn get_computed(&self, subject: SubjectRef) -> (computed: Option<ComputedStats>)
        ensures
            match subject_entry(self.entries_view(), subject) {
                Some(e) => computed == Some(e.computed),
                None => computed is None,
            },
    {
        proof {
            assert(self.entries_view().skip(0) =~= self.entries_view());
        }
        let mut i: usize = 0;
        while i < self.entries.len()
            invariant
                i <= self.entries@.len(),
                subject_entry(self.entries_view(), subject) == subject_entry(
                    self.entries_view().skip(i as int),
                    subject,
                ),
            decreases self.entries@.len() - i,
        {
            if self.entries[i].subject == subject {
                proof {
                    assert(self.entries_view().skip(i as int)[0] == self.entries_view()[i as int]);
                }
                return Some(self.entries[i].computed);
            }
            proof {
                assert(self.entries_view().skip(i as int).drop_first() =~= self.entries_view().skip(
                    i as int + 1,
                ));
                assert(self.entries_view().skip(i as int)[0] == self.entries_view()[i as int]);
            }
            i = i + 1;
        }
        proof {
            assert(self.entries_view().skip(self.entries@.len() as int)
                =~= Seq::<StatsEntryView>::empty());
        }
        None
    }

    /// Reads the base block of a subject, if it has one.
    pub fn get_base_stats(&self, subject: SubjectRef) -> (base: Option<&BaseStats>)
        ensures
            match subject_entry(self.entries_view(), subject) {
                Some(e) => base matches Some(b) && b@ == e.base,
                None => base is None,
            },
    {
        proof {
            assert(self.entries_view().skip(0) =~= self.entries_view());
        }
        let mut i: usize = 0;
        while i < self.entries.len()
            invariant
                i <= self.entries@.len(),
                subject_entry(self.entries_view(), subject) == subject_entry(
                    self.entries_view().skip(i as int),
                    subject,
                ),
            decreases self.entries@.len() - i,
        {
            if self.entries[i].subject == subject {
                proof {
                    assert(self.entries_view().skip(i as int)[0] == self.entries_view()[i as int]);
                }
                return Some(&self.entries[i].base);
            }
            proof {
                assert(self.entries_view().skip(i as int).drop_first() =~= self.entries_view().skip(
                    i as int + 1,
                ));
                assert(self.entries_view().skip(i as int)[0] == self.entries_view()[i as int]);
            }
            i = i + 1;
        }
        proof {
            assert(self.entries_view().skip(self.entries@.len() as int)
                =~= Seq::<StatsEntryView>::empty());
        }
        None
    }

    /// Whether the subject currently has a base block.
    pub fn has_base_stats(&self, subject: SubjectRef) -> (present: bool)
        ensures
            present == has_entry(self.entries_view(), subject),
    {
        let computed = self.get_computed(subject);
        computed.is_some()
    }

    /// Attaches a base block to a subject.
    ///
    /// Creating a base block unconditionally pairs it with a computed block
    /// defaulted to zero: the pairing is structural, established here at
    /// construction time and not by the aggregator. A subject that already
    /// has an entry keeps its computed block; only its base block is
    /// replaced.
    pub fn insert_base_stats(&mut self, subject: SubjectRef, base: BaseStats)
        ensures
            !has_entry(old(self).entries_view(), subject) ==> final(self).entries_view() == old(
                self,
            ).entries_view().push(
                StatsEntryView { subject, base: base@, computed: zeroed_computed() },
            ),
            has_entry(old(self).entries_view(), subject) ==> final(self).entries_view() == old(
                self,
            ).entries_view().map(
                |i: int, e: StatsEntryView|
                    if e.subject == subject {
                        StatsEntryView { base: base@, ..e }
                    } else {
                        e
                    },
            ),
            final(self).pending_view() == old(self).pending_view(),
            old(self).wf() ==> final(self).wf(),
    {
        let ghost initial_views = self.entries_view();
        let present = self.has_base_stats(subject);
        if !present {
            proof {
                lemma_subject_entry_none(initial_views, subject);
            }
            let entry = StatsEntry { subject, base, computed: ComputedStats::new() };
            proof {
                let pushed = StatsEntryView { subject, base: entry.base@, computed: zeroed_computed() };
                assert(entry_views(self.entries@.push(entry)) =~= initial_views.push(pushed));
            }
            self.entries.push(entry);
            proof {
                if distinct_subjects(initial_views) {
                    assert(distinct_subjects(self.entries_view()));
                }
            }
        } else {
            let ghost target_views = initial_views.map(
                |i: int, e: StatsEntryView|
                    if e.subject == subject {
                        StatsEntryView { base: base@, ..e }
                    } else {
                        e
                    },
            );
            let mut i: usize = 0;
            while i < self.entries.len()
                invariant
                    i <= self.entries@.len(),
                    self.entries@.len() == old(self).entries@.len(),
                    self.pending@ == old(self).pending@,
                    forall|k: int|
                        i <= k < self.entries@.len() ==> self.entries@[k] == old(
                            self,
                        ).entries@[k],
                    forall|k: int| 0 <= k < i ==> self.entries@[k]@ == target_views[k],
                    target_views == initial_views.map(
                        |n: int, e: StatsEntryView|
                            if e.subject == subject {
                                StatsEntryView { base: base@, ..e }
                            } else {
                                e
                            },
                    ),
                    initial_views == entry_views(old(self).entries@),
                decreases self.entries@.len() - i,
            {
                let matches_subject = self.entries[i].subject == subject;
                if matches_subject {
                    let replacement = base.clone_block();
                    let entry = entry_at(&mut self.entries, i);
                    entry.base = replacement;
                }
                proof {
                    assert(self.entries@[i as int]@ =~~= target_views[i as int]);
                }
                i = i + 1;
            }
            proof {
                assert(entry_views(self.entries@) =~= target_views);
                if distinct_subjects(initial_views) {
                    assert forall|a: int, b: int|
                        0 <= a < b < target_views.len() implies (
                    #[trigger] target_views[a]).subject != (#[trigger] target_views[b]).subject by {
                        assert(target_views[a].subject == initial_views[a].subject);
                        assert(target_views[b].subject == initial_views[b].subject);
                    }
                }
            }
        }
    }

    /// Detaches a subject's blocks, for when the subject itself is
    /// destroyed. Entries of other subjects keep their order and contents.
    pub fn remove_subject(&mut self, subject: SubjectRef)
        requires
            old(self).wf(),
        ensures
            final(self).entries_view() == retained_entries(old(self).entries_view(), subject),
            final(self).pending_view() == old(self).pending_view(),
            final(self).wf(),
    {
        let ghost initial_views = self.entries_view();
        let mut i: usize = 0;
        while i < self.entries.len()
            invariant
                i <= self.entries@.len(),
                self.entries@ == old(self).entries@,
                self.pending@ == old(self).pending@,
                initial_views == entry_views(self.entries@),
                distinct_subjects(initial_views),
                forall|k: int| 0 <= k < i ==> (#[trigger] initial_views[k]).subject != subject,
            decreases self.entries@.len() - i,
        {
            if self.entries[i].subject == subject {
                proof {
                    assert(initial_views[i as int] == self.entries@[i as int]@);
                    assert forall|k: int|
                        0 <= k < initial_views.len() && k != i as int implies (
                    #[trigger] initial_views[k]).subject != subject by {
                        if k > i as int {
                            assert(initial_views[i as int].subject != initial_views[k].subject);
                        }
                    }
                    lemma_retained_single(initial_views, subject, i as int);
                }
                let ghost pre = self.entries@;
                self.entries.remove(i);
                proof {
                    pre.remove_ensures(i as int);
                    initial_views.remove_ensures(i as int);
                    assert forall|a: int|
                        0 <= a < self.entries@.len() implies #[trigger] entry_views(
                        self.entries@,
                    )[a] == initial_views.remove(i as int)[a] by {
                        if a < i as int {
                            assert(self.entries@[a] == pre[a]);
                            assert(initial_views.remove(i as int)[a] == initial_views[a]);
                        } else {
                            assert(self.entries@[a] == pre[a + 1]);
                            assert(initial_views.remove(i as int)[a] == initial_views[a + 1]);
                        }
                    }
                    assert(entry_views(self.entries@) =~= initial_views.remove(i as int));
                    assert forall|a: int, b: int|
                        0 <= a < b < self.entries_view().len() implies (
                    #[trigger] self.entries_view()[a]).subject != (
                    #[trigger] self.entries_view()[b]).subject by {
                        let shift_a = if a < i as int {
                            a
                        } else {
                            a + 1
                        };
                        let shift_b = if b < i as int {
                            b
                        } else {
                            b + 1
                        };
                        assert(self.entries_view()[a] == initial_views[shift_a]);
                        assert(self.entries_view()[b] == initial_views[shift_b]);
                        assert(initial_views[shift_a].subject != initial_views[shift_b].subject);
                    }
                }
                return ;
            }
            i = i + 1;
        }
        proof {
            lemma_retained_no_match(initial_views, subject);
        }
    }

    /// Drains the ingestion queue: the synchronization barrier at the start
    /// of a running tick. Each request appends its modifier to the
    /// requesting subject's targeted container, in submission order; a
    /// request whose subject has no base block is silently dropped.
    pub fn flush_pending(&mut self)
        ensures
            final(self).entries_view() == flushed(
                old(self).entries_view(),
                old(self).pending_view(),
            ),
            final(self).pending_view() == Seq::<EventAppendStatModifier>::empty(),
            old(self).wf() ==> final(self).wf(),
    {
        let ghost initial_views = self.entries_view();
        let ghost queue = self.pending@;
        proof {
            assert(queue.take(0) =~= Seq::<EventAppendStatModifier>::empty());
        }
        let mut j: usize = 0;
        while j < self.pending.len()
            invariant
                j <= self.pending@.len(),
                self.pending@ == queue,
                entry_views(self.entries@) == flushed(initial_views, queue.take(j as int)),
            decreases self.pending@.len() - j,
        {
            let ev = self.pending[j];
            proof {
                assert(queue.take(j as int + 1).drop_last() =~= queue.take(j as int));
                assert(queue.take(j as int + 1).last() == ev);
            }
            apply_append(&mut self.entries, ev);
            j = j + 1;
        }
        proof {
            assert(queue.take(self.pending@.len() as int) =~= queue);
        }
        self.pending = Vec::new();
        proof {
            if distinct_subjects(initial_views) {
                lemma_flushed_preserves_structure(initial_views, queue);
                assert(distinct_subjects(self.entries_view()));
            }
        }
    }

    /// The lifecycle sweeper: for every subject, for every attribute's
    /// container, removes every modifier whose granting subject no longer
    /// resolves to a live subject. Runs once per tick, for all subjects,
    /// strictly before the aggregator.
    pub fn update_modifiers(&mut self, registry: &SubjectRegistry)
        ensures
            final(self).entries_view() == swept_entries(
                old(self).entries_view(),
                registry.live_set(),
            ),
            final(self).pending_view() == old(self).pending_view(),
            old(self).wf() ==> final(self).wf(),
    {
        let ghost initial_views = self.entries_view();
        let ghost target_views = swept_entries(initial_views, registry.live_set());
        let mut i: usize = 0;
        while i < self.entries.len()
            invariant
                i <= self.entries@.len(),
                self.entries@.len() == old(self).entries@.len(),
                self.pending@ == old(self).pending@,
                forall|k: int|
                    i <= k < self.entries@.len() ==> self.entries@[k] == old(self).entries@[k],
                forall|k: int| 0 <= k < i ==> self.entries@[k]@ == target_views[k],
                initial_views == entry_views(old(self).entries@),
                target_views == swept_entries(initial_views, registry.live_set()),
            decreases self.entries@.len() - i,
        {
            let entry = entry_at(&mut self.entries, i);
            entry.base.clear_dead_modifiers(registry);
            proof {
                assert(self.entries@[i as int]@ =~~= target_views[i as int]);
            }
            i = i + 1;
        }
        proof {
            assert(entry_views(self.entries@) =~= target_views);
            if distinct_subjects(initial_views) {
                assert forall|a: int, b: int|
                    0 <= a < b < target_views.len() implies (#[trigger] target_views[a]).subject
                    != (#[trigger] target_views[b]).subject by {
                    assert(target_views[a].subject == initial_views[a].subject);
                    assert(target_views[b].subject == initial_views[b].subject);
                }
            }
        }
    }

    /// The aggregator pass: recomputes every subject's computed block from
    /// its base block under the stacking rules. This is the exclusive
    /// writer of computed blocks.
    pub fn update_computed_stats(&mut self)
        ensures
            final(self).entries_view() == aggregated_entries(old(self).entries_view()),
            final(self).pending_view() == old(self).pending_view(),
            old(self).wf() ==> final(self).wf(),
    {
        let ghost initial_views = self.entries_view();
        let ghost target_views = aggregated_entries(initial_views);
        let mut i: usize = 0;
        while i < self.entries.len()
            invariant
                i <= self.entries@.len(),
                self.entries@.len() == old(self).entries@.len(),
                self.pending@ == old(self).pending@,
                forall|k: int|
                    i <= k < self.entries@.len() ==> self.entries@[k] == old(self).entries@[k],
                forall|k: int| 0 <= k < i ==> self.entries@[k]@ == target_views[k],
                initial_views == entry_views(old(self).entries@),
                target_views == aggregated_entries(initial_views),
            decreases self.entries@.len() - i,
        {
            let computed = compute_block(&self.entries[i].base);
            let entry = entry_at(&mut self.entries, i);
            entry.computed = computed;
            proof {
                assert(self.entries@[i as int]@ =~~= target_views[i as int]);
            }
            i = i + 1;
        }
        proof {
            assert(entry_views(self.entries@) =~= target_views);
            if distinct_subjects(initial_views) {
                assert forall|a: int, b: int|
                    0 <= a < b < target_views.len() implies (#[trigger] target_views[a]).subject
                    != (#[trigger] target_views[b]).subject by {
                    assert(target_views[a].subject == initial_views[a].subject);
                    assert(target_views[b].subject == initial_views[b].subject);
                }
            }
        }
    }

    /// One recomputation cycle, driven by the external fixed-cadence clock
    /// and gated by the external pause state.
    ///
    /// While paused nothing runs: queued requests stay buffered and every
    /// computed value stays frozen at the last active tick. While running,
    /// the three passes run in their fixed order — queue flush, lifecycle
    /// sweep, aggregator — so a modifier whose owner died is removed before
    /// any compute pass can observe it.
    pub fn tick(&mut self, pause: PauseState, registry: &SubjectRegistry)
        ensures
            pause == PauseState::Paused ==> final(self).entries_view() == old(self).entries_view()
                && final(self).pending_view() == old(self).pending_view(),
            pause == PauseState::Running ==> final(self).pending_view() == Seq::<
                EventAppendStatModifier,
            >::empty() && final(self).entries_view() == aggregated_entries(
                swept_entries(
                    flushed(old(self).entries_view(), old(self).pending_view()),
                    registry.live_set(),
                ),
            ),
            old(self).wf() ==> final(self).wf(),
    {
        match pause {
            PauseState::Paused => {},
            PauseState::Running => {
                self.flush_pending();
                self.update_modifiers(registry);
                self.update_computed_stats();
            },
        }
    }
}

/// Mutable access to one entry of the backing vector.
fn entry_at(entries: &mut Vec<StatsEntry>, i: usize) -> (entry: &mut StatsEntry)
    requires
        i < old(entries)@.len(),
    ensures
        *entry == old(entries)@[i as int],
        final(entries)@ == old(entries)@.update(i as int, *final(entry)),
{
    &mut entries[i]
}

/// Applies one queued request against the entries: every entry of the
/// requesting subject gains the modifier, any other entry is untouched.
fn apply_append(entries: &mut Vec<StatsEntry>, ev: EventAppendStatModifier)
    ensures
        entry_views(final(entries)@) == applied_event(entry_views(old(entries)@), ev),
{
    let ghost target_views = applied_event(entry_views(old(entries)@), ev);
    let mut i: usize = 0;
    while i < entries.len()
        invariant
            i <= entries@.len(),
            entries@.len() == old(entries)@.len(),
            forall|k: int| i <= k < entries@.len() ==> entries@[k] == old(entries)@[k],
            forall|k: int| 0 <= k < i ==> entries@[k]@ == target_views[k],
            target_views == applied_event(entry_views(old(entries)@), ev),
        decreases entries@.len() - i,
    {
        let matches_subject = entries[i].subject == ev.subject;
        if matches_subject {
            let entry = entry_at(entries, i);
            entry.base.push_modifier(
                ev.target,
                RpgStatModifier { owner: ev.owner_ref, modifier: ev.modifier },
            );
        }
        proof {
            assert(entries@[i as int]@ =~~= target_views[i as int]);
        }
        i = i + 1;
    }
    proof {
        assert(entry_views(entries@) =~= target_views);
    }
}

/// A flush touches only base blocks: the number of entries and every
/// entry's subject and computed block are unchanged by it.
pub proof fn lemma_flushed_preserves_structure(
    entries: Seq<StatsEntryView>,
    queue: Seq<EventAppendStatModifier>,
)
    ensures
        flushed(entries, queue).len() == entries.len(),
        forall|i: int|
            0 <= i < entries.len() ==> (#[trigger] flushed(entries, queue)[i]).subject
                == entries[i].subject && flushed(entries, queue)[i].computed
                == entries[i].computed,
    decreases queue.len(),
{
    if queue.len() > 0 {
        lemma_flushed_preserves_structure(entries, queue.drop_last());
    }
}

/// A subject without an entry appears at no index.
pub proof fn lemma_subject_entry_none(entries: Seq<StatsEntryView>, subject: SubjectRef)
    requires
        subject_entry(entries, subject) is None,
    ensures
        forall|i: int| 0 <= i < entries.len() ==> (#[trigger] entries[i]).subject != subject,
    decreases entries.len(),
{
    if entries.len() > 0 {
        lemma_subject_entry_none(entries.drop_first(), subject);
        assert forall|i: int| 0 <= i < entries.len() implies (#[trigger] entries[i]).subject
            != subject by {
            if i > 0 {
                assert(entries.drop_first()[i - 1] == entries[i]);
            }
        }
    }
}

/// Removing a subject that has no entry changes nothing.
proof fn lemma_retained_no_match(entries: Seq<StatsEntryView>, subject: SubjectRef)
    requires
        forall|i: int| 0 <= i < entries.len() ==> (#[trigger] entries[i]).subject != subject,
    ensures
        retained_entries(entries, subject) == entries,
    decreases entries.len(),
{
    if entries.len() == 0 {
        assert(retained_entries(entries, subject) =~= entries);
    } else {
        assert(entries[entries.len() - 1].subject != subject);
        lemma_retained_no_match(entries.drop_last(), subject);
        assert(retained_entries(entries, subject) =~= entries);
    }
}

/// When exactly one index carries the subject, removal drops exactly that
/// index.
proof fn lemma_retained_single(entries: Seq<StatsEntryView>, subject: SubjectRef, at: int)
    requires
        0 <= at < entries.len(),
        entries[at].subject == subject,
        forall|k: int|
            0 <= k < entries.len() && k != at ==> (#[trigger] entries[k]).subject != subject,
    ensures
        retained_entries(entries, subject) == entries.remove(at),
    decreases entries.len(),
{
    if at == entries.len() - 1 {
        lemma_retained_no_match(entries.drop_last(), subject);
        assert(retained_entries(entries, subject) =~= entries.remove(at));
    } else {
        assert(entries[entries.len() - 1].subject != subject);
        lemma_retained_single(entries.drop_last(), subject, at);
        assert(retained_entries(entries, subject) =~= entries.remove(at));
    }
}

/// The state a running tick publishes never holds a dead modifier: in
/// every entry that comes out of the sweep-then-aggregate pipeline, every
/// stored modifier's owner is in the live set the sweep ran against. So a
/// modifier whose owner died before the tick is gone before the aggregator
/// can observe it.
pub proof fn lemma_tick_leaves_only_live_owners(
    entries: Seq<StatsEntryView>,
    live: Set<SubjectRef>,
)
    ensures
        forall|i: int|
            0 <= i < entries.len() ==> crate::stats::stats_owners_live(
                (#[trigger] aggregated_entries(swept_entries(entries, live))[i]).base,
                live,
            ),
{
    assert forall|i: int|
        0 <= i < entries.len() implies crate::stats::stats_owners_live(
        (#[trigger] aggregated_entries(swept_entries(entries, live))[i]).base,
        live,
    ) by {
        crate::stats::lemma_swept_stats_owners_live(entries[i].base, live);
        assert(aggregated_entries(swept_entries(entries, live))[i].base == swept_entries(
            entries,
            live,
        )[i].base);
        assert(swept_entries(entries, live)[i].base == swept_stats(entries[i].base, live));
    }
}

/// The sweeper is idempotent over whole engine states: with no intervening
/// subject destruction, a second sweep pass leaves every entry exactly as
/// the first pass left it.
pub proof fn lemma_swept_entries_idempotent(entries: Seq<StatsEntryView>, live: Set<SubjectRef>)
    ensures
        swept_entries(swept_entries(entries, live), live) == swept_entries(entries, live),
{
    assert forall|i: int|
        0 <= i < entries.len() implies #[trigger] swept_entries(swept_entries(entries, live), live)[i]
        == swept_entries(entries, live)[i] by {
        crate::stats::lemma_swept_stats_idempotent(entries[i].base, live);
        assert(swept_entries(swept_entries(entries, live), live)[i] =~~= swept_entries(
            entries,
            live,
        )[i]);
    }
    assert(swept_entries(swept_entries(entries, live), live) =~= swept_entries(entries, live));
}

} // verus!
