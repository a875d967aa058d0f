//! Operations over all instances: listing and pruning.

use vstd::prelude::*;
use crate::cleanup::{asks_search, sweep_effects, Cleanup, CleanupPhase, KillGuests};
use crate::config::{join_path, joined, ConfigView};
use crate::destroy::{FinishDestroy, PrepareDestroy};
use crate::host::{
    clock_failure, unexpected, unexpected_reply, Clock, Directive, HostCall, Reply, Step,
};
use crate::lifecycle::fails;
use crate::manager::{ask, InstanceManager};
use crate::metadata::{metadata_path_of, InstanceMetadata, MetadataView};
use crate::protocol::{
    summaries_view, InstanceId, InstanceState, InstanceSummary, InstanceSummaryView,
};
use crate::scan::{parse_u64, parse_unsigned};
use crate::text::chars_of;

verus! {

/// The directory under which every instance has its own.
pub open spec fn instances_root(config: ConfigView) -> Seq<char> {
    joined(config.state_dir, "instances"@)
}

/// The instance id that a directory name denotes, if it denotes one.
pub open spec fn id_of_name(name: Seq<char>) -> Option<InstanceId> {
    match parse_unsigned(name, u64::MAX as nat) {
        Some(n) => Some(n as u64),
        None => None,
    }
}

/// The instance ids denoted by the first `upto` names, in order.
pub open spec fn ids_of(names: Seq<Seq<char>>, upto: int) -> Seq<InstanceId>
    decreases upto,
{
    if upto <= 0 || upto > names.len() {
        Seq::empty()
    } else {
        match id_of_name(names[upto - 1]) {
            Some(id) => ids_of(names, upto - 1).push(id),
            None => ids_of(names, upto - 1),
        }
    }
}

/// Reads directory names as instance ids; names that are no numbers are passed over.
pub fn instance_ids(names: &Vec<String>) -> (out: Vec<InstanceId>)
    ensures
        out@ == ids_of(names.deep_view(), names.len() as int),
{
    let mut out: Vec<InstanceId> = Vec::new();
    let mut i: usize = 0;
    while i < names.len()
        invariant
            i <= names.len(),
            out@ == ids_of(names.deep_view(), i as int),
        decreases names.len() - i,
    {
        let v = chars_of(names[i].as_str());
        assert(names.deep_view()[i as int] == names@[i as int]@);
        match parse_u64(&v) {
            Some(id) => {
                out.push(id);
            },
            None => {},
        }
        i += 1;
    }
    out
}

/// The metadata files of the given instances, in order.
pub open spec fn record_paths(config: ConfigView, ids: Seq<InstanceId>) -> Seq<Seq<char>> {
    Seq::new(ids.len(), |i: int| metadata_path_of(config, ids[i]))
}

fn paths_of(manager: &InstanceManager, ids: &Vec<InstanceId>) -> (out: Vec<String>)
    ensures
        out.deep_view() == record_paths(manager.config@, ids@),
{
    let mut out: Vec<String> = Vec::new();
    let mut i: usize = 0;
    while i < ids.len()
        invariant
            i <= ids.len(),
            out.len() == i,
            forall|j: int| 0 <= j < i ==> out@[j]@ == metadata_path_of(manager.config@, ids@[j]),
        decreases ids.len() - i,
    {
        let paths = manager.paths(ids[i]);
        out.push(paths.metadata);
        i += 1;
    }
    assert(out.deep_view() =~= record_paths(manager.config@, ids@));
    out
}

/// Whether a list of summaries ascends by id.
pub open spec fn by_id(list: Seq<InstanceSummaryView>) -> bool {
    forall|i: int, j: int| 0 <= i < j < list.len() ==> list[i].id <= list[j].id
}

/// Where a summary with id `id` goes in a list that ascends by id: behind
/// every entry whose id is not greater.
pub open spec fn slot_for(list: Seq<InstanceSummaryView>, id: InstanceId, from: int) -> int
    decreases list.len() - from,
{
    if 0 <= from < list.len() && list[from].id <= id {
        slot_for(list, id, from + 1)
    } else {
        from
    }
}

/// The listing of the first `upto` records read: the summaries of the
/// readable records that are not destroyed, ascending by id, records with
/// the same id in the order in which they were read.
pub open spec fn listed(
    records: Seq<Result<InstanceMetadata, String>>,
    host: Seq<char>,
    upto: int,
) -> Seq<InstanceSummaryView>
    decreases upto,
{
    if upto <= 0 || upto > records.len() {
        Seq::empty()
    } else {
        let rest = listed(records, host, upto - 1);
        match records[upto - 1] {
            Ok(m) => if m.state != InstanceState::Destroyed {
                rest.insert(slot_for(rest, m.id, 0), m@.summary(host))
            } else {
                rest
            },
            Err(_) => rest,
        }
    }
}

/// The slot for an id lies behind the entries with ids not greater and
/// before an entry with a greater one.
pub proof fn lemma_slot_bounds(list: Seq<InstanceSummaryView>, id: InstanceId, from: int)
    requires
        0 <= from <= list.len(),
    ensures
        from <= slot_for(list, id, from) <= list.len(),
        forall|k: int| from <= k < slot_for(list, id, from) ==> list[k].id <= id,
        slot_for(list, id, from) < list.len() ==> list[slot_for(list, id, from)].id > id,
    decreases list.len() - from,
{
    if from < list.len() && list[from].id <= id {
        lemma_slot_bounds(list, id, from + 1);
    }
}

/// A listing ascends by id and shows no destroyed instance.
pub proof fn lemma_listing_is_ordered(
    records: Seq<Result<InstanceMetadata, String>>,
    host: Seq<char>,
    upto: int,
)
    requires
        0 <= upto <= records.len(),
    ensures
        by_id(listed(records, host, upto)),
        forall|i: int|
            0 <= i < listed(records, host, upto).len() ==> (#[trigger] listed(
                records,
                host,
                upto,
            )[i]).state != InstanceState::Destroyed,
    decreases upto,
{
    if upto > 0 {
        lemma_listing_is_ordered(records, host, upto - 1);
        let rest = listed(records, host, upto - 1);
        match records[upto - 1] {
            Ok(m) => {
                if m.state != InstanceState::Destroyed {
                    let at = slot_for(rest, m.id, 0);
                    lemma_slot_bounds(rest, m.id, 0);
                    let s = m@.summary(host);
                    let now = rest.insert(at, s);
                    assert forall|i: int, j: int| 0 <= i < j < now.len() implies now[i].id
                        <= now[j].id by {
                        if j < at {
                            assert(now[i] == rest[i] && now[j] == rest[j]);
                        } else if j == at {
                            assert(now[i] == rest[i]);
                        } else if i == at {
                            assert(now[j] == rest[j - 1]);
                            assert(rest[at].id > m.id);
                            if j - 1 > at {
                                assert(rest[at].id <= rest[j - 1].id);
                            }
                        } else if i < at {
                            assert(now[i] == rest[i] && now[j] == rest[j - 1]);
                        } else {
                            assert(now[i] == rest[i - 1] && now[j] == rest[j - 1]);
                        }
                    }
                    assert forall|i: int| 0 <= i < now.len() implies (#[trigger] now[i]).state
                        != InstanceState::Destroyed by {
                        if i < at {
                            assert(now[i] == rest[i]);
                        } else if i > at {
                            assert(now[i] == rest[i - 1]);
                        }
                    }
                }
            },
            Err(_) => {},
        }
    }
}

/// A destroyed instance is not listed: where every record of `id` that was
/// read says `Destroyed`, or none was read, no entry of the listing has
/// that id.
pub proof fn lemma_destroyed_is_not_listed(
    records: Seq<Result<InstanceMetadata, String>>,
    host: Seq<char>,
    id: InstanceId,
    upto: int,
)
    requires
        0 <= upto <= records.len(),
        forall|i: int|
            0 <= i < upto ==> (#[trigger] records[i] matches Ok(m) ==> m.id == id ==> m.state
                == InstanceState::Destroyed),
    ensures
        forall|k: int|
            0 <= k < listed(records, host, upto).len() ==> (#[trigger] listed(
                records,
                host,
                upto,
            )[k]).id != id,
    decreases upto,
{
    if upto > 0 {
        lemma_destroyed_is_not_listed(records, host, id, upto - 1);
        let rest = listed(records, host, upto - 1);
        match records[upto - 1] {
            Ok(m) => {
                if m.state != InstanceState::Destroyed {
                    let at = slot_for(rest, m.id, 0);
                    lemma_slot_bounds(rest, m.id, 0);
                    let now = rest.insert(at, m@.summary(host));
                    assert forall|k: int| 0 <= k < now.len() implies (#[trigger] now[k]).id
                        != id by {
                        if k < at {
                            assert(now[k] == rest[k]);
                        } else if k > at {
                            assert(now[k] == rest[k - 1]);
                        }
                    }
                }
            },
            Err(_) => {},
        }
    }
}

/// Lists the instances whose records were read: see [`listed`].
pub fn list_instances(records: &Vec<Result<InstanceMetadata, String>>, host: &str) -> (out: Vec<
    InstanceSummary,
>)
    ensures
        summaries_view(out@) == listed(records@, host@, records@.len() as int),
{
    let mut out: Vec<InstanceSummary> = Vec::new();
    let mut i: usize = 0;
    assert(summaries_view(out@) =~= listed(records@, host@, 0));
    while i < records.len()
        invariant
            i <= records.len(),
            summaries_view(out@) == listed(records@, host@, i as int),
        decreases records.len() - i,
    {
        let ghost rest = summaries_view(out@);
        match &records[i] {
            Ok(m) => {
                if m.state != InstanceState::Destroyed {
                    let mut at: usize = 0;
                    while at < out.len() && out[at].id <= m.id
                        invariant
                            at <= out.len(),
                            rest == summaries_view(out@),
                            slot_for(rest, m.id, 0) == slot_for(rest, m.id, at as int),
                        decreases out.len() - at,
                    {
                        assert(rest[at as int].id == out@[at as int].id);
                        at += 1;
                    }
                    proof {
                        if at < out.len() {
                            assert(rest[at as int].id == out@[at as int].id);
                        }
                    }
                    let summary = m.summary(host);
                    out.insert(at, summary);
                    assert(summaries_view(out@) =~= rest.insert(at as int, m@.summary(host@)));
                }
            },
            Err(_) => {},
        }
        i += 1;
    }
    out
}

/// Listing the instances.
#[derive(Clone, Copy, Debug, PartialEq, Eq, Structural)]
pub enum ListInstances {
    /// Waiting for the names of the instance directories.
    Scanning,
    /// Waiting for the records.
    Reading,
}

/// How a listing ends.
pub type ListResult = Result<Vec<InstanceSummary>, String>;

impl ListInstances {
    /// Begins a listing with a look at the instance directories.
    pub fn begin(manager: &InstanceManager) -> (out: (ListInstances, Directive))
        ensures
            out.0 == ListInstances::Scanning,
            out.1.effects@.len() == 0,
            out.1.call matches HostCall::ListDirs { dir } && dir@ == instances_root(
                manager.config@,
            ),
    {
        (
            ListInstances::Scanning,
            ask(
                HostCall::ListDirs { dir: join_path(manager.config.state_dir.as_str(),
                    "instances") },
            ),
        )
    }

    /// What one step does: the relation between the manager before and after
    /// the step, the host's answer, the clocks and the outcome of the step.
    pub open spec fn stepped(
        self,
        manager: &InstanceManager,
        reply: Reply,
        out: Step<ListInstances, ListResult>,
    ) -> bool {
        &&& (match (self, reply) {
                (ListInstances::Scanning, Reply::Dirs(Ok(Some(names)))) => out matches Step::Ask(
                    next,
                    d,
                ) && next == ListInstances::Reading && d.effects@.len() == 0 && (
                d.call matches HostCall::ReadRecords { paths } && paths.deep_view() == record_paths(
                    manager.config@,
                    ids_of(names.deep_view(), names.len() as int),
                )),
                (ListInstances::Scanning, Reply::Dirs(Ok(None))) => out matches Step::Done(
                    Ok(list),
                    last,
                ) && list@.len() == 0 && last@.len() == 0,
                (ListInstances::Scanning, Reply::Dirs(Err(e))) => fails(out, e@),
                (ListInstances::Reading, Reply::Records(records)) => out matches Step::Done(
                    Ok(list),
                    last,
                ) && summaries_view(list@) == listed(
                    records@,
                    manager.config.adb_host@,
                    records@.len() as int,
                ) && last@.len() == 0,
                _ => fails(out, unexpected_reply()),
            })
    }

    /// Continues a listing.
    ///
    /// Without an instance directory the listing is empty. Otherwise the
    /// record of every directory whose name is a number is read, and the
    /// listing shows the readable records that are not destroyed, ascending
    /// by id. A record that cannot be read is passed over.
    pub fn resume(self, manager: &InstanceManager, reply: Reply) -> (out: Step<
        ListInstances,
        ListResult,
    >)
        ensures
            self.stepped(manager, reply, out),
    {
        match (self, reply) {
            (ListInstances::Scanning, Reply::Dirs(Ok(Some(names)))) => {
                let ids = instance_ids(&names);
                Step::Ask(
                    ListInstances::Reading,
                    ask(HostCall::ReadRecords { paths: paths_of(manager, &ids) }),
                )
            },
            (ListInstances::Scanning, Reply::Dirs(Ok(None))) => Step::Done(
                Ok(Vec::new()),
                Vec::new(),
            ),
            (ListInstances::Scanning, Reply::Dirs(Err(e))) => Step::Done(Err(e), Vec::new()),
            (ListInstances::Reading, Reply::Records(records)) => Step::Done(
                Ok(list_instances(&records, manager.config.adb_host.as_str())),
                Vec::new(),
            ),
            _ => Step::Done(Err(unexpected()), Vec::new()),
        }
    }
}

/// Which instances a pruning takes.
#[derive(Clone, Copy, Debug, PartialEq, Eq, Structural)]
pub enum PruneMode {
    /// Those last touched at or before the cutoff.
    Expired { cutoff: u64 },
    /// All.
    All,
}

/// What a pruning does with one instance.
#[derive(Clone, Copy, Debug, PartialEq, Eq, Structural)]
pub enum PruneChoice {
    /// Pass it over: it is left untouched and counted nowhere.
    Skip,
    /// Destroy it.
    Prune,
}

/// What a pruning does with the instance whose record is `m`.
///
/// A destroyed instance and a held instance are passed over, whatever
/// the mode. Of the others, pruning by age takes those last touched at or
/// before the cutoff, and pruning everything takes all.
pub open spec fn choice_for(m: MetadataView, mode: PruneMode) -> PruneChoice {
    if m.state == InstanceState::Destroyed || m.held {
        PruneChoice::Skip
    } else {
        match mode {
            PruneMode::Expired { cutoff } => if m.updated_at > cutoff {
                PruneChoice::Skip
            } else {
                PruneChoice::Prune
            },
            PruneMode::All => PruneChoice::Prune,
        }
    }
}

/// Decides what a pruning does with one instance.
pub fn prune_choice(metadata: &InstanceMetadata, mode: PruneMode) -> (choice: PruneChoice)
    ensures
        choice == choice_for(metadata@, mode),
        metadata.held ==> choice == PruneChoice::Skip,
{
    if metadata.state == InstanceState::Destroyed || metadata.held {
        PruneChoice::Skip
    } else {
        match mode {
            PruneMode::Expired { cutoff } => if metadata.updated_at > cutoff {
                PruneChoice::Skip
            } else {
                PruneChoice::Prune
            },
            PruneMode::All => PruneChoice::Prune,
        }
    }
}

/// A held instance is never pruned, whatever its age and whatever the mode.
pub proof fn lemma_held_is_never_pruned(m: MetadataView, mode: PruneMode)
    requires
        m.held,
    ensures
        choice_for(m, mode) == PruneChoice::Skip,
{
}

/// The time before which an instance counts as expired.
pub open spec fn cutoff_of(now: u64, max_age_secs: u64) -> u64 {
    if now >= max_age_secs {
        (now - max_age_secs) as u64
    } else {
        0
    }
}

/// The instances that a pruning takes among the first `upto` records, in order.
pub open spec fn taken(
    ids: Seq<InstanceId>,
    records: Seq<Result<InstanceMetadata, String>>,
    mode: PruneMode,
    upto: int,
) -> Seq<InstanceId>
    decreases upto,
{
    if upto <= 0 || upto > ids.len() || upto > records.len() {
        Seq::empty()
    } else {
        let rest = taken(ids, records, mode, upto - 1);
        match records[upto - 1] {
            Ok(m) => if choice_for(m@, mode) == PruneChoice::Prune {
                rest.push(ids[upto - 1])
            } else {
                rest
            },
            Err(_) => rest,
        }
    }
}


/// The number of instances for which both an id and a record are at hand.
pub open spec fn paired(
    ids: Seq<InstanceId>,
    records: Seq<Result<InstanceMetadata, String>>,
) -> int {
    if ids.len() <= records.len() {
        ids.len() as int
    } else {
        records.len() as int
    }
}

/// Plans a pruning over the instances `ids` with the records read for
/// them: the instances to destroy, in order.
pub fn plan_prune(
    ids: &Vec<InstanceId>,
    records: &Vec<Result<InstanceMetadata, String>>,
    mode: PruneMode,
) -> (targets: Vec<InstanceId>)
    ensures
        targets@ == taken(ids@, records@, mode, paired(ids@, records@)),
{
    let mut targets: Vec<InstanceId> = Vec::new();
    let mut i: usize = 0;
    while i < ids.len() && i < records.len()
        invariant
            i <= ids.len(),
            i <= records.len(),
            targets@ == taken(ids@, records@, mode, i as int),
        decreases ids.len() - i,
    {
        match &records[i] {
            Ok(m) => {
                match prune_choice(m, mode) {
                    PruneChoice::Prune => {
                        targets.push(ids[i]);
                    },
                    PruneChoice::Skip => {},
                }
            },
            Err(_) => {},
        }
        i += 1;
    }
    targets
}

/// No instance that a pruning takes is held.
pub proof fn lemma_taken_are_not_held(
    ids: Seq<InstanceId>,
    records: Seq<Result<InstanceMetadata, String>>,
    mode: PruneMode,
    upto: int,
    k: int,
)
    requires
        0 <= upto <= paired(ids, records),
        0 <= k < taken(ids, records, mode, upto).len(),
    ensures
        exists|i: int|
            0 <= i < upto && ids[i] == taken(ids, records, mode, upto)[k] && (
            #[trigger] records[i] matches Ok(m) && !m.held && m.state != InstanceState::Destroyed),
    decreases upto,
{
    if upto > 0 {
        let rest = taken(ids, records, mode, upto - 1);
        if k < rest.len() {
            lemma_taken_are_not_held(ids, records, mode, upto - 1, k);
            let i = choose|i: int|
                0 <= i < upto - 1 && ids[i] == rest[k] && (#[trigger] records[i] matches Ok(m)
                    && !m.held && m.state != InstanceState::Destroyed);
            assert(taken(ids, records, mode, upto)[k] == rest[k]);
        } else {
            assert(records[upto - 1] is Ok);
        }
    }
}

/// What a pruning was asked to take.
#[derive(Clone, Copy, Debug, PartialEq, Eq, Structural)]
pub enum PruneRequest {
    /// The instances not touched for `max_age_secs` seconds.
    Expired { max_age_secs: u64 },
    /// All instances.
    All,
}

/// The destroy of one instance within a pruning.
#[derive(Debug)]
pub enum PrunePhase {
    Preparing(PrepareDestroy),
    Finishing(FinishDestroy),
}

/// A pruning that has its plan.
#[derive(Debug)]
pub struct PruneRun {
    pub targets: Vec<InstanceId>,
    /// The target that is being destroyed.
    pub index: usize,
    pub pruned: usize,
    pub retained: usize,
    pub phase: PrunePhase,
}

/// A pruning.
#[derive(Debug)]
pub enum Prune {
    /// Waiting for the names of the instance directories.
    Scanning { request: PruneRequest },
    /// Waiting for the records.
    Reading { mode: PruneMode, ids: Vec<InstanceId> },
    Destroying(PruneRun),
}

/// How a pruning ends: the number of instances pruned and the number retained.
pub type PruneResult = Result<(usize, usize), String>;

/// A count after one more instance, saturating.
pub open spec fn bumped(n: usize) -> usize {
    if n < usize::MAX {
        (n + 1) as usize
    } else {
        n
    }
}

/// A count after `k` more instances, saturating.
pub open spec fn raised(n: usize, k: int) -> usize {
    if k <= 0 {
        n
    } else if n + k <= usize::MAX {
        (n + k) as usize
    } else {
        usize::MAX
    }
}

/// Whether the destroy of `id` cannot even begin: its record is cached and
/// the clock cannot be read.
pub open spec fn balks(manager: &InstanceManager, id: InstanceId, clock: Clock) -> bool {
    manager.cache().contains_key(id) && clock.epoch_secs is None
}

/// The first target at or behind `from` whose destroy can begin; the number
/// of targets where there is none.
pub open spec fn next_index(
    manager: &InstanceManager,
    targets: Seq<InstanceId>,
    from: int,
    clock: Clock,
) -> int
    decreases targets.len() - from,
{
    if from < 0 || from >= targets.len() {
        targets.len() as int
    } else if balks(manager, targets[from], clock) {
        next_index(manager, targets, from + 1, clock)
    } else {
        from
    }
}

/// Whether a step goes on with the targets from `from` on, `pruned` and
/// `retained` being the counts so far. Every target whose destroy cannot
/// begin counts as retained. The destroy of the first other target begins
/// with the first step of its first phase; where there is none, the pruning
/// ends with the two counts.
pub open spec fn goes_on(
    out: Step<Prune, PruneResult>,
    manager: &InstanceManager,
    targets: Seq<InstanceId>,
    from: int,
    pruned: usize,
    retained: usize,
    clock: Clock,
) -> bool {
    let at = next_index(manager, targets, from, clock);
    let kept = raised(retained, at - from);
    if at < targets.len() {
        out matches Step::Ask(Prune::Destroying(run), d) && run.targets@ == targets && run.index
            == at && run.pruned == pruned && run.retained == kept && (
        run.phase matches PrunePhase::Preparing(prepare) && PrepareDestroy::begun(
            manager,
            targets[at],
            clock,
            Step::Ask(prepare, d),
        ))
    } else {
        out matches Step::Done(Ok(counts), last) && counts == (pruned, kept) && last@.len() == 0
    }
}

/// Whether a step stays with the current target of `run`, in phase `phase`:
/// the targets and the counts are as they were.
pub open spec fn stays(out: Step<Prune, PruneResult>, run: PruneRun, d: Directive) -> bool {
    out matches Step::Ask(Prune::Destroying(next), o) && o == d && next.targets@ == run.targets@
        && next.index == run.index && next.pruned == run.pruned && next.retained == run.retained
}

fn bump(n: usize) -> (out: usize)
    ensures
        out == bumped(n),
        out >= n,
{
    if n < usize::MAX {
        n + 1
    } else {
        n
    }
}

impl PruneRun {
    /// The instance being destroyed is the current target, and every target
    /// before it is counted once, as pruned or as retained.
    pub open spec fn on_target(&self) -> bool {
        self.index < self.targets@.len() && self.pruned + self.retained == self.index
            && match self.phase {
            PrunePhase::Preparing(prepare) => prepare.id() == self.targets@[self.index as int],
            PrunePhase::Finishing(finish) => finish.id() == self.targets@[self.index as int],
        }
    }
}

impl Prune {
    /// Every destroy under way is the destroy of a planned target.
    pub open spec fn settled(&self) -> bool {
        self matches Prune::Destroying(run) ==> run.on_target()
    }

    /// Begins a pruning with a look at the instance directories.
    pub fn begin(manager: &InstanceManager, request: PruneRequest) -> (out: (Prune, Directive))
        ensures
            out.0 == (Prune::Scanning { request }),
            out.1.effects@.len() == 0,
            out.1.call matches HostCall::ListDirs { dir } && dir@ == instances_root(
                manager.config@,
            ),
    {
        (
            Prune::Scanning { request },
            ask(
                HostCall::ListDirs { dir: join_path(manager.config.state_dir.as_str(),
                    "instances") },
            ),
        )
    }

    fn next_target(
        manager: &InstanceManager,
        targets: Vec<InstanceId>,
        from: usize,
        pruned: usize,
        retained: usize,
        clock: &Clock,
    ) -> (out: Step<Prune, PruneResult>)
        requires
            from <= targets.len(),
        ensures
            goes_on(out, manager, targets@, from as int, pruned, retained, *clock),
            from <= next_index(manager, targets@, from as int, *clock) <= targets@.len(),
    {
        let mut index = from;
        let mut count = retained;
        while index < targets.len()
            invariant
                from <= index <= targets.len(),
                count == raised(retained, index - from),
                next_index(manager, targets@, from as int, *clock) == next_index(
                    manager,
                    targets@,
                    index as int,
                    *clock,
                ),
            decreases targets.len() - index,
        {
            match PrepareDestroy::begin(manager, targets[index], clock) {
                Step::Ask(prepare, d) => {
                    return Step::Ask(
                        Prune::Destroying(
                            PruneRun {
                                targets,
                                index,
                                pruned,
                                retained: count,
                                phase: PrunePhase::Preparing(prepare),
                            },
                        ),
                        d,
                    );
                },
                Step::Done(_, _) => {
                    count = bump(count);
                },
            }
            index += 1;
        }
        Step::Done(Ok((pruned, count)), Vec::new())
    }

    /// What one step does: the relation between the manager before and after
    /// the step, the host's answer, the clocks and the outcome of the step.
    pub open spec fn stepped(
        self,
        before: &InstanceManager,
        after: &InstanceManager,
        reply: Reply,
        clock: Clock,
        out: Step<Prune, PruneResult>,
    ) -> bool {
        let same = after.cache() == before.cache() && after.registry() == before.registry();
        &&& (after.same_setup(before))
        &&& (self.settled() ==> match out {
                Step::Ask(next, _) => next.settled(),
                Step::Done(Ok(counts), _) => self matches Prune::Destroying(run) ==> counts.0
                    + counts.1 == run.targets@.len(),
                Step::Done(Err(_), _) => !(self is Destroying),
            })
        &&& (match (self, reply) {
                (Prune::Scanning { request }, Reply::Dirs(Ok(Some(names)))) => same && match (
                    request,
                    clock.epoch_secs,
                ) {
                    (PruneRequest::Expired { max_age_secs }, None) => fails(out, clock_failure()),
                    _ => out matches Step::Ask(Prune::Reading { mode, ids }, d) && mode == (
                    match request {
                        PruneRequest::Expired { max_age_secs } => PruneMode::Expired {
                            cutoff: cutoff_of(clock.epoch_secs->0, max_age_secs),
                        },
                        PruneRequest::All => PruneMode::All,
                    }) && ids@ == ids_of(names.deep_view(), names.len() as int) && d.effects@.len()
                        == 0 && (d.call matches HostCall::ReadRecords { paths }
                        && paths.deep_view() == record_paths(before.config@, ids@)),
                },
                (Prune::Scanning { request }, Reply::Dirs(Ok(None))) => same && (
                out matches Step::Done(Ok(counts), last) && counts == (0usize, 0usize)
                    && last@.len() == 0),
                (Prune::Scanning { request }, Reply::Dirs(Err(e))) => same && fails(out, e@),
                (Prune::Reading { mode, ids }, Reply::Records(records)) => same && if records@.len()
                    == ids@.len() {
                    goes_on(
                        out,
                        before,
                        taken(ids@, records@, mode, ids@.len() as int),
                        0,
                        0,
                        0,
                        clock,
                    )
                } else {
                    fails(out, unexpected_reply())
                },
                (Prune::Destroying(run), _) => if run.index >= run.targets@.len() {
                    same && fails(out, unexpected_reply())
                } else {
                    let behind = run.index + 1;
                    let id = run.targets@[run.index as int];
                    match run.phase {
                        PrunePhase::Preparing(prepare) => exists|
                            inner: Step<PrepareDestroy, crate::destroy::PrepareResult>,
                        |
                            #[trigger] prepare.stepped(before, after, reply, clock, inner)
                                && match inner {
                                Step::Ask(p, d) => stays(out, run, d) && (out matches Step::Ask(
                                    Prune::Destroying(next),
                                    _,
                                ) && next.phase matches PrunePhase::Preparing(p2) && p2 == p),
                                Step::Done(Ok(_), _) => out matches Step::Ask(
                                    Prune::Destroying(next),
                                    d,
                                ) && stays(out, run, d) && (
                                next.phase matches PrunePhase::Finishing(
                                    FinishDestroy::Cleaning { id: i, cleanup },
                                ) && i == id && cleanup == (Cleanup {
                                    id,
                                    phase: CleanupPhase::Killing(KillGuests::Swept { id }),
                                })) && crate::host::effects_view(d.effects@) == sweep_effects(id)
                                    && asks_search(d.call, id),
                                Step::Done(Err(_), _) => goes_on(
                                    out,
                                    after,
                                    run.targets@,
                                    behind,
                                    run.pruned,
                                    bumped(run.retained),
                                    clock,
                                ),
                            },
                        PrunePhase::Finishing(finish) => exists|
                            inner: Step<FinishDestroy, crate::destroy::FinishResult>,
                        |
                            #[trigger] finish.stepped(before, after, reply, clock, inner)
                                && match inner {
                                Step::Ask(f, d) => stays(out, run, d) && (out matches Step::Ask(
                                    Prune::Destroying(next),
                                    _,
                                ) && next.phase matches PrunePhase::Finishing(f2) && f2 == f),
                                Step::Done(Ok(outcome), _) => if outcome.guest_processes_killed {
                                    goes_on(
                                        out,
                                        after,
                                        run.targets@,
                                        behind,
                                        bumped(run.pruned),
                                        run.retained,
                                        clock,
                                    )
                                } else {
                                    goes_on(
                                        out,
                                        after,
                                        run.targets@,
                                        behind,
                                        run.pruned,
                                        bumped(run.retained),
                                        clock,
                                    )
                                },
                                Step::Done(Err(_), _) => goes_on(
                                    out,
                                    after,
                                    run.targets@,
                                    behind,
                                    run.pruned,
                                    bumped(run.retained),
                                    clock,
                                ),
                            },
                    }
                },
                _ => same && fails(out, unexpected_reply()),
            })
    }

    /// Continues a pruning.
    ///
    /// * Without an instance directory nothing is pruned and nothing retained.
    /// * The record of every directory whose name is a number is read, and
    ///   the plan is made: see [`choice_for`]. A held instance is never a target.
    /// * Each target is destroyed in two phases. A target whose teardown
    ///   found no process left counts as pruned; one that left processes,
    ///   and one whose destroy failed, counts as retained. A failure with
    ///   one target does not keep the pruning from the next.
    /// * Every target is counted once: at the end the two counts add up to
    ///   the number of targets.
    pub fn resume(self, manager: &mut InstanceManager, reply: Reply, clock: &Clock) -> (out: Step<
        Prune,
        PruneResult,
    >)
        ensures
            self.stepped(old(manager), final(manager), reply, *clock, out),
    {
        match (self, reply) {
            (Prune::Scanning { request }, Reply::Dirs(Ok(Some(names)))) => {
                let mode = match request {
                    PruneRequest::Expired { max_age_secs } => {
                        match clock.now() {
                            Ok(now) => {
                                let cutoff = if now >= max_age_secs {
                                    now - max_age_secs
                                } else {
                                    0
                                };
                                PruneMode::Expired { cutoff }
                            },
                            Err(e) => {
                                return Step::Done(Err(e), Vec::new());
                            },
                        }
                    },
                    PruneRequest::All => PruneMode::All,
                };
                let ids = instance_ids(&names);
                let call = HostCall::ReadRecords { paths: paths_of(manager, &ids) };
                Step::Ask(Prune::Reading { mode, ids }, ask(call))
            },
            (Prune::Scanning { request }, Reply::Dirs(Ok(None))) => Step::Done(
                Ok((0, 0)),
                Vec::new(),
            ),
            (Prune::Scanning { request }, Reply::Dirs(Err(e))) => Step::Done(Err(e), Vec::new()),
            (Prune::Reading { mode, ids }, Reply::Records(records)) => {
                if records.len() != ids.len() {
                    return Step::Done(Err(unexpected()), Vec::new());
                }
                let targets = plan_prune(&ids, &records, mode);
                Self::next_target(manager, targets, 0, 0, 0, clock)
            },
            (Prune::Destroying(run), reply) => {
                let PruneRun { targets, index, pruned, retained, phase } = run;
                if index >= targets.len() {
                    return Step::Done(Err(unexpected()), Vec::new());
                }
                let id = targets[index];
                match phase {
                    PrunePhase::Preparing(prepare) => {
                        let ghost answer = reply;
                        let ghost prepared = prepare;
                        let stepped = prepare.resume(manager, reply, clock);
                        assert(prepared.stepped(old(manager), manager, answer, *clock, stepped));
                        match stepped {
                            Step::Ask(next, d) => Step::Ask(
                                Prune::Destroying(
                                    PruneRun {
                                        targets,
                                        index,
                                        pruned,
                                        retained,
                                        phase: PrunePhase::Preparing(next),
                                    },
                                ),
                                d,
                            ),
                            Step::Done(Ok(_), _) => {
                                let (finish, directive) = FinishDestroy::begin(id);
                                Step::Ask(
                                    Prune::Destroying(
                                        PruneRun {
                                            targets,
                                            index,
                                            pruned,
                                            retained,
                                            phase: PrunePhase::Finishing(finish),
                                        },
                                    ),
                                    directive,
                                )
                            },
                            Step::Done(Err(_), _) => Self::next_target(
                                manager,
                                targets,
                                index + 1,
                                pruned,
                                bump(retained),
                                clock,
                            ),
                        }
                    },
                    PrunePhase::Finishing(finish) => {
                        let ghost answer = reply;
                        let ghost finished = finish;
                        let stepped = finish.resume(manager, reply, clock);
                        assert(finished.stepped(old(manager), manager, answer, *clock, stepped));
                        match stepped {
                            Step::Ask(next, d) => Step::Ask(
                                Prune::Destroying(
                                    PruneRun {
                                        targets,
                                        index,
                                        pruned,
                                        retained,
                                        phase: PrunePhase::Finishing(next),
                                    },
                                ),
                                d,
                            ),
                            Step::Done(Ok(outcome), _) => {
                                if outcome.guest_processes_killed {
                                    Self::next_target(
                                        manager,
                                        targets,
                                        index + 1,
                                        bump(pruned),
                                        retained,
                                        clock,
                                    )
                                } else {
                                    Self::next_target(
                                        manager,
                                        targets,
                                        index + 1,
                                        pruned,
                                        bump(retained),
                                        clock,
                                    )
                                }
                            },
                            Step::Done(Err(_), _) => Self::next_target(
                                manager,
                                targets,
                                index + 1,
                                pruned,
                                bump(retained),
                                clock,
                            ),
                        }
                    },
                }
            },
            _ => Step::Done(Err(unexpected()), Vec::new()),
        }
    }
}

} // verus!
