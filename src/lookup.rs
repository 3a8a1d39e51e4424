//! One poll-filter-register-notify cycle per tick, over the configured
//! regions in turn. The notifications themselves, the fetch and the wait
//! between ticks are the caller's: this type decides, the caller acts.
use vstd::prelude::*;
use crate::processor::{filter_new_quests, is_unseen, new_quests};
use crate::quest::{batch_ids, DiscordQuest};
use crate::store::{string_views, DedupStore, IdSet};

verus! {

/// The region polled where none is configured.
pub const DEFAULT_REGION: &'static str = "en-US";

/// The region polled at cursor `index`.
pub open spec fn region_at(regions: Seq<Seq<char>>, index: nat) -> Seq<char> {
    if regions.len() == 0 {
        DEFAULT_REGION@
    } else {
        regions[(index % regions.len()) as int]
    }
}

/// The cursor after one tick.
pub open spec fn advance(regions_len: nat, index: nat) -> nat {
    if regions_len == 0 {
        0
    } else {
        (index + 1) % regions_len
    }
}

/// The store after a cycle that fetched `fetched` against `known`: the ids of
/// the new quests are added, each once.
pub open spec fn register(known: Set<Seq<char>>, fetched: Seq<DiscordQuest>) -> Set<Seq<char>> {
    known.union(batch_ids(new_quests(fetched, known)).to_set())
}

/// The quests that a cycle hands to notify, in order, unless cancelled: none on
/// an initial run that does not announce the backlog, else every new quest.
pub open spec fn announce_plan(
    known: Set<Seq<char>>,
    fetched: Seq<DiscordQuest>,
    initial: bool,
    announce_backlog: bool,
) -> Seq<DiscordQuest> {
    if initial && !announce_backlog {
        Seq::empty()
    } else {
        new_quests(fetched, known)
    }
}

/// Where the current cycle stands.
#[derive(Clone, Copy, Debug, PartialEq, Eq, Structural)]
pub enum CyclePhase {
    /// Between cycles.
    Idle,
    /// The fetch failed; nothing was registered.
    FetchFailed,
    /// New quests were registered, and announcing them is suppressed.
    Suppressed,
    /// New quests were registered and are being handed to notify.
    Notifying,
    /// Every new quest was handed to notify.
    Done,
    /// The shutdown signal was seen before every new quest was handed out.
    Aborted,
}

/// What the caller does next in the notify phase.
#[derive(Clone, Copy, Debug, PartialEq, Eq, Structural)]
pub enum NotifyStep {
    /// Notify the pending quest at this index.
    Notify(usize),
    /// Every pending quest has been handed out.
    Done,
    /// Shutdown was seen: the rest of the pending quests are never notified.
    Aborted,
}

/// The outcome of a cycle.
#[derive(Clone, Copy, Debug, PartialEq, Eq, Structural)]
pub struct CycleReport {
    pub phase: CyclePhase,
    /// The quests found new in this cycle.
    pub found: usize,
    /// The new quests handed to notify.
    pub processed: usize,
    /// The new quests never handed to notify.
    pub skipped: usize,
    /// The quests handed to notify whose delivery was reported failed.
    pub failed: usize,
}

/// The scheduler's state: the dedup store, the region cursor, the
/// initial-run flag and the cycle in progress.
pub struct QuestWatch {
    store: DedupStore,
    regions: Vec<String>,
    region_index: usize,
    is_initial_run: bool,
    previous_quests: bool,
    pending: Vec<DiscordQuest>,
    found: usize,
    next: usize,
    recorded: usize,
    failed: usize,
    phase: CyclePhase,
}

impl QuestWatch {
    /// The ids seen so far.
    pub closed spec fn seen(&self) -> Set<Seq<char>> {
        self.store@
    }

    /// The configured regions.
    pub closed spec fn regions(&self) -> Seq<Seq<char>> {
        string_views(self.regions@)
    }

    /// The round-robin cursor.
    pub closed spec fn region_index(&self) -> nat {
        self.region_index as nat
    }

    /// Whether the next cycle is the first one.
    pub closed spec fn initial(&self) -> bool {
        self.is_initial_run
    }

    /// Whether an initial run announces what it finds.
    pub closed spec fn announce_backlog(&self) -> bool {
        self.previous_quests
    }

    /// The quests of the current cycle to be handed to notify.
    pub closed spec fn pending(&self) -> Seq<DiscordQuest> {
        self.pending@
    }

    /// How many quests the current cycle found new.
    pub closed spec fn found(&self) -> nat {
        self.found as nat
    }

    /// How many pending quests have been handed to notify.
    pub closed spec fn next(&self) -> nat {
        self.next as nat
    }

    /// How many delivery outcomes of the current cycle have been recorded.
    pub closed spec fn recorded(&self) -> nat {
        self.recorded as nat
    }

    /// How many recorded deliveries of the current cycle failed.
    pub closed spec fn failed(&self) -> nat {
        self.failed as nat
    }

    /// The phase of the current cycle.
    pub closed spec fn phase(&self) -> CyclePhase {
        self.phase
    }

    /// The cursor is in range, and the cycle's bookkeeping matches its phase.
    pub closed spec fn wf(&self) -> bool {
        &&& self.store.wf()
        &&& if self.regions@.len() == 0 {
            self.region_index == 0
        } else {
            self.region_index < self.regions@.len()
        }
        &&& self.next <= self.pending@.len() <= self.found
        &&& self.failed <= self.recorded <= self.next
        &&& self.phase == CyclePhase::Idle ==> self.pending@.len() == 0 && self.found == 0
            && self.recorded == 0
        &&& self.phase == CyclePhase::FetchFailed ==> self.pending@.len() == 0 && self.found == 0
            && self.recorded == 0
        &&& self.phase == CyclePhase::Suppressed ==> self.pending@.len() == 0
        &&& self.phase == CyclePhase::Done ==> self.next == self.pending@.len()
    }

    /// A fresh state: nothing seen, the first region next, an initial run.
    pub fn new(regions: Vec<String>, previous_quests: bool) -> (r: QuestWatch)
        ensures
            r.wf(),
            r.seen() == Set::<Seq<char>>::empty(),
            r.regions() == string_views(regions@),
            r.region_index() == 0,
            r.initial(),
            r.announce_backlog() == previous_quests,
            r.phase() == CyclePhase::Idle,
            r.pending().len() == 0,
    {
        QuestWatch {
            store: DedupStore::new(),
            regions,
            region_index: 0,
            is_initial_run: true,
            previous_quests,
            pending: Vec::new(),
            found: 0,
            next: 0,
            recorded: 0,
            failed: 0,
            phase: CyclePhase::Idle,
        }
    }

    /// The region that the next fetch is for.
    pub fn current_region(&self) -> (r: String)
        requires
            self.wf(),
        ensures
            r@ == region_at(self.regions(), self.region_index()),
    {
        if self.regions.len() == 0 {
            String::from_str(DEFAULT_REGION)
        } else {
            proof {
                assert(self.region_index as nat % self.regions@.len() == self.region_index as nat)
                    by (nonlinear_arith)
                    requires
                        self.region_index < self.regions@.len(),
                ;
            }
            self.regions[self.region_index].clone()
        }
    }

    /// The phase of the current cycle.
    pub fn current_phase(&self) -> (r: CyclePhase)
        ensures
            r == self.phase(),
    {
        self.phase
    }

    /// A copy of the ids seen so far.
    pub fn snapshot(&self) -> (r: IdSet)
        requires
            self.wf(),
        ensures
            r.wf(),
            r@ == self.seen(),
    {
        self.store.snapshot()
    }

    /// Whether `id` has been seen.
    pub fn knows(&self, id: &String) -> (r: bool)
        ensures
            r == self.seen().contains(id@),
    {
        self.store.contains(id)
    }

    /// How many ids have been seen.
    pub fn seen_count(&self) -> (r: usize)
        requires
            self.wf(),
        ensures
            r == self.seen().len(),
            self.seen().finite(),
    {
        self.store.len()
    }

    /// The fetch for the current region failed: nothing is registered, and
    /// the cycle ends.
    pub fn fetch_failed(&mut self)
        requires
            old(self).wf(),
            old(self).phase() == CyclePhase::Idle,
        ensures
            final(self).wf(),
            final(self).phase() == CyclePhase::FetchFailed,
            final(self).seen() == old(self).seen(),
            final(self).pending().len() == 0,
            final(self).found() == 0,
            final(self).failed() == 0,
            final(self).regions() == old(self).regions(),
            final(self).region_index() == old(self).region_index(),
            final(self).initial() == old(self).initial(),
            final(self).announce_backlog() == old(self).announce_backlog(),
    {
        self.phase = CyclePhase::FetchFailed;
    }

    /// The fetch for the current region returned `fetched`. The new quests
    /// (those whose id was not seen before this call) are registered at once,
    /// before any is handed to notify; then they become the pending quests,
    /// unless this is an initial run that does not announce the backlog.
    pub fn begin_cycle(&mut self, fetched: Vec<DiscordQuest>)
        requires
            old(self).wf(),
            old(self).phase() == CyclePhase::Idle,
        ensures
            final(self).wf(),
            final(self).seen() == register(old(self).seen(), fetched@),
            final(self).pending() == announce_plan(
                old(self).seen(),
                fetched@,
                old(self).initial(),
                old(self).announce_backlog(),
            ),
            final(self).found() == new_quests(fetched@, old(self).seen()).len(),
            forall|i: int|
                0 <= i < final(self).pending().len() ==> !old(self).seen().contains(
                    #[trigger] final(self).pending()[i].id@,
                ) && final(self).seen().contains(final(self).pending()[i].id@),
            final(self).next() == 0,
            final(self).recorded() == 0,
            final(self).failed() == 0,
            final(self).phase() == if old(self).initial() && !old(self).announce_backlog() {
                CyclePhase::Suppressed
            } else {
                CyclePhase::Notifying
            },
            final(self).regions() == old(self).regions(),
            final(self).region_index() == old(self).region_index(),
            final(self).initial() == old(self).initial(),
            final(self).announce_backlog() == old(self).announce_backlog(),
    {
        let known = self.store.snapshot();
        let fresh = filter_new_quests(fetched, &known);
        let mut ids: Vec<String> = Vec::new();
        let mut i: usize = 0;
        while i < fresh.len()
            invariant
                0 <= i <= fresh.len(),
                ids.len() == i,
                forall|k: int| 0 <= k < i ==> ids@[k]@ == fresh@[k].id@,
            decreases fresh.len() - i,
        {
            ids.push(fresh[i].id.clone());
            i = i + 1;
        }
        proof {
            assert(string_views(ids@) =~= batch_ids(fresh@));
        }
        self.store.insert_all(ids);
        proof {
            assert forall|i: int| 0 <= i < fresh@.len() implies !known@.contains(
                #[trigger] fresh@[i].id@,
            ) && self.store@.contains(fresh@[i].id@) by {
                let pred = |q: DiscordQuest| is_unseen(known@, q);
                fetched@.lemma_filter_pred(pred, i);
                assert(batch_ids(fresh@)[i] == fresh@[i].id@);
                assert(batch_ids(fresh@).contains(fresh@[i].id@));
            }
        }
        self.found = fresh.len();
        self.next = 0;
        self.recorded = 0;
        self.failed = 0;
        if self.is_initial_run && !self.previous_quests {
            self.pending = Vec::new();
            self.phase = CyclePhase::Suppressed;
        } else {
            self.pending = fresh;
            self.phase = CyclePhase::Notifying;
        }
    }

    /// The pending quest at `index`.
    pub fn pending_quest(&self, index: usize) -> (r: &DiscordQuest)
        requires
            index < self.pending().len(),
        ensures
            *r == self.pending()[index as int],
    {
        &self.pending[index]
    }

    /// Decides the next notify step. The shutdown signal, as last observed, is
    /// checked before each quest is handed out; once it is seen the cycle is
    /// aborted and the rest of the pending quests stay registered and
    /// un-notified.
    pub fn next_notification(&mut self, shutdown_raised: bool) -> (r: NotifyStep)
        requires
            old(self).wf(),
            old(self).phase() == CyclePhase::Notifying,
        ensures
            final(self).wf(),
            old(self).next() < old(self).pending().len() && !shutdown_raised ==> {
                &&& r == NotifyStep::Notify(old(self).next() as usize)
                &&& final(self).next() == old(self).next() + 1
                &&& final(self).phase() == CyclePhase::Notifying
            },
            old(self).next() < old(self).pending().len() && shutdown_raised ==> {
                &&& r == NotifyStep::Aborted
                &&& final(self).next() == old(self).next()
                &&& final(self).phase() == CyclePhase::Aborted
            },
            old(self).next() >= old(self).pending().len() ==> {
                &&& r == NotifyStep::Done
                &&& final(self).next() == old(self).next()
                &&& final(self).phase() == CyclePhase::Done
            },
            final(self).seen() == old(self).seen(),
            final(self).pending() == old(self).pending(),
            final(self).found() == old(self).found(),
            final(self).recorded() == old(self).recorded(),
            final(self).failed() == old(self).failed(),
            final(self).regions() == old(self).regions(),
            final(self).region_index() == old(self).region_index(),
            final(self).initial() == old(self).initial(),
            final(self).announce_backlog() == old(self).announce_backlog(),
    {
        if self.next >= self.pending.len() {
            self.phase = CyclePhase::Done;
            NotifyStep::Done
        } else if shutdown_raised {
            self.phase = CyclePhase::Aborted;
            NotifyStep::Aborted
        } else {
            let index = self.next;
            self.next = self.next + 1;
            NotifyStep::Notify(index)
        }
    }

    /// Records whether the delivery of the latest quest handed to notify went
    /// through. A failed delivery is counted and nothing else: the quest stays
    /// registered, and the rest of the batch goes on.
    pub fn record_delivery(&mut self, delivered: bool)
        requires
            old(self).wf(),
            old(self).phase() == CyclePhase::Notifying,
            old(self).recorded() < old(self).next(),
        ensures
            final(self).wf(),
            final(self).recorded() == old(self).recorded() + 1,
            final(self).failed() == old(self).failed() + if delivered {
                0nat
            } else {
                1nat
            },
            final(self).phase() == old(self).phase(),
            final(self).next() == old(self).next(),
            final(self).seen() == old(self).seen(),
            final(self).pending() == old(self).pending(),
            final(self).found() == old(self).found(),
            final(self).regions() == old(self).regions(),
            final(self).region_index() == old(self).region_index(),
            final(self).initial() == old(self).initial(),
            final(self).announce_backlog() == old(self).announce_backlog(),
    {
        self.recorded = self.recorded + 1;
        if !delivered {
            self.failed = self.failed + 1;
        }
    }

    /// Ends the current cycle: the cursor moves to the next region, and later
    /// cycles are no longer initial runs.
    pub fn finish_cycle(&mut self) -> (r: CycleReport)
        requires
            old(self).wf(),
            old(self).phase() != CyclePhase::Idle,
            old(self).phase() != CyclePhase::Notifying,
        ensures
            final(self).wf(),
            r.phase == old(self).phase(),
            r.found == old(self).found(),
            r.processed == old(self).next(),
            r.skipped == old(self).found() - old(self).next(),
            r.failed == old(self).failed(),
            final(self).phase() == CyclePhase::Idle,
            final(self).seen() == old(self).seen(),
            final(self).pending().len() == 0,
            final(self).regions() == old(self).regions(),
            final(self).region_index() == advance(
                old(self).regions().len(),
                old(self).region_index(),
            ),
            !final(self).initial(),
            final(self).announce_backlog() == old(self).announce_backlog(),
    {
        let report = CycleReport {
            phase: self.phase,
            found: self.found,
            processed: self.next,
            skipped: self.found - self.next,
            failed: self.failed,
        };
        if self.regions.len() > 0 {
            self.region_index = (self.region_index + 1) % self.regions.len();
        }
        self.is_initial_run = false;
        self.pending = Vec::new();
        self.found = 0;
        self.next = 0;
        self.recorded = 0;
        self.failed = 0;
        self.phase = CyclePhase::Idle;
        report
    }
}

/// The ids seen after cycles that fetched `batches` in turn, starting from
/// `known`. A cycle whose fetch failed registers nothing, as an empty batch.
pub open spec fn seen_after(known: Set<Seq<char>>, batches: Seq<Seq<DiscordQuest>>) -> Set<
    Seq<char>,
>
    decreases batches.len(),
{
    if batches.len() == 0 {
        known
    } else {
        register(seen_after(known, batches.drop_last()), batches.last())
    }
}

/// The quests that cycle `k` of such a run finds new.
pub open spec fn new_in_cycle(
    known: Set<Seq<char>>,
    batches: Seq<Seq<DiscordQuest>>,
    k: int,
) -> Seq<DiscordQuest> {
    new_quests(batches[k], seen_after(known, batches.take(k)))
}

proof fn lemma_seen_after_step(known: Set<Seq<char>>, batches: Seq<Seq<DiscordQuest>>, k: int)
    requires
        0 <= k < batches.len(),
    ensures
        seen_after(known, batches.take(k + 1)) == register(
            seen_after(known, batches.take(k)),
            batches[k],
        ),
{
    assert(batches.take(k + 1).drop_last() =~= batches.take(k));
}

/// The store only grows: over any run of cycles, the ids seen after `k`
/// cycles are still seen after `m >= k` cycles, and their number never drops.
pub proof fn lemma_seen_monotonic(
    known: Set<Seq<char>>,
    batches: Seq<Seq<DiscordQuest>>,
    k: int,
    m: int,
)
    requires
        known.finite(),
        0 <= k <= m <= batches.len(),
    ensures
        seen_after(known, batches.take(k)).subset_of(seen_after(known, batches.take(m))),
        seen_after(known, batches.take(k)).len() <= seen_after(known, batches.take(m)).len(),
    decreases m - k,
{
    lemma_seen_after_finite(known, batches.take(m));
    if k < m {
        lemma_seen_monotonic(known, batches, k, m - 1);
        lemma_seen_after_step(known, batches, m - 1);
        vstd::set_lib::lemma_len_subset(
            seen_after(known, batches.take(k)),
            seen_after(known, batches.take(m)),
        );
    } else {
        assert(batches.take(k) == batches.take(m));
    }
}

proof fn lemma_seen_after_finite(known: Set<Seq<char>>, batches: Seq<Seq<DiscordQuest>>)
    requires
        known.finite(),
    ensures
        seen_after(known, batches).finite(),
    decreases batches.len(),
{
    if batches.len() > 0 {
        lemma_seen_after_finite(known, batches.drop_last());
        let before = seen_after(known, batches.drop_last());
        batch_ids(new_quests(batches.last(), before)).lemma_cardinality_of_set();
    }
}

/// An id found new in one cycle is never found new in a later cycle, whatever
/// region that cycle polls: it was registered before any notification of the
/// first, and the store never forgets it.
pub proof fn lemma_notified_at_most_once(
    known: Set<Seq<char>>,
    batches: Seq<Seq<DiscordQuest>>,
    k: int,
    m: int,
    i: int,
    j: int,
)
    requires
        known.finite(),
        0 <= k < m < batches.len(),
        0 <= i < new_in_cycle(known, batches, k).len(),
        0 <= j < new_in_cycle(known, batches, m).len(),
    ensures
        new_in_cycle(known, batches, k)[i].id@ != new_in_cycle(known, batches, m)[j].id@,
{
    broadcast use Seq::lemma_filter_pred;

    let first = new_in_cycle(known, batches, k);
    let later = new_in_cycle(known, batches, m);
    lemma_seen_after_step(known, batches, k);
    lemma_seen_monotonic(known, batches, k + 1, m);
    assert(batch_ids(first)[i] == first[i].id@);
    assert(batch_ids(first).to_set().contains(first[i].id@));
    assert(seen_after(known, batches.take(m)).contains(first[i].id@));
    let pred = |q: DiscordQuest| is_unseen(seen_after(known, batches.take(m)), q);
    assert(pred(batches[m].filter(pred)[j]));
}

/// The cursor after `ticks` ticks from the start.
pub open spec fn cursor_after(regions_len: nat, ticks: nat) -> nat
    decreases ticks,
{
    if ticks == 0 {
        0
    } else {
        advance(regions_len, cursor_after(regions_len, (ticks - 1) as nat))
    }
}

/// Round robin: tick `k` (counting from zero) polls region `k mod n` of the
/// `n` configured regions, so the regions come in their configured order and
/// wrap around; with none configured every tick polls the default region.
pub proof fn lemma_round_robin(regions: Seq<Seq<char>>, ticks: nat)
    ensures
        region_at(regions, cursor_after(regions.len(), ticks)) == if regions.len() == 0 {
            DEFAULT_REGION@
        } else {
            regions[(ticks % regions.len()) as int]
        },
        regions.len() > 0 ==> cursor_after(regions.len(), ticks) == ticks % regions.len(),
    decreases ticks,
{
    let n = regions.len();
    if n > 0 {
        if ticks > 0 {
            lemma_round_robin(regions, (ticks - 1) as nat);
            vstd::arithmetic::div_mod::lemma_add_mod_noop((ticks - 1) as int, 1, n as int);
            if n > 1 {
                vstd::arithmetic::div_mod::lemma_small_mod(1, n);
            }
            vstd::arithmetic::div_mod::lemma_mod_twice(ticks as int, n as int);
        }
        let c = cursor_after(n, ticks);
        if c < n {
            vstd::arithmetic::div_mod::lemma_small_mod(c, n);
        }
    }
}

} // verus!
