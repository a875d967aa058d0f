//! Destroying an instance in two phases.
//!
//! The first phase is quick: the record is marked destroyed, the guest is
//! terminated and its processes are killed. The second phase tears the
//! host state down and deletes the files of the instance, but only if no
//! guest process is left; otherwise the instance is marked failed and kept
//! so that the destroy can be tried again.

use vstd::prelude::*;
use crate::cleanup::{asks_search, sweep_effects, Cleanup, CleanupOutcome, CleanupPhase, KillGuests};
use crate::config::{adb_port_for, adb_port_of, joined, ConfigView};
use crate::host::{
    clock_failure, effects_view, file_steps_view, unexpected, unexpected_reply, Clock, Directive,
    Effect, EffectView, FileStep, FileStepView, FinishReport, HostCall, Reply, Step,
};
use crate::lifecycle::fails;
use crate::manager::{ask, ask_after, asks_env, asks_read, asks_write, InstanceManager};
use crate::metadata::{
    env_file_of, instance_root_of, metadata_path_of, InstanceMetadata, MetadataView,
};
use crate::protocol::{
    detail, error_detail, ActionView, ErrorDetail, InstanceActionResponse, InstanceId,
    InstanceState, InstanceSummary, InstanceSummaryView,
};
use crate::supervise::{Terminate, TerminatePhase};
use crate::text::{decimal, decimal_string, join3, signed_decimal, signed_decimal_string};

verus! {

/// Milliseconds of grace given to a guest that is destroyed.
pub const DESTROY_GRACE_MILLIS: u64 = 5000;

/// The record that stands in for an instance whose record cannot be read.
pub open spec fn stand_in(config: ConfigView, id: InstanceId, state: InstanceState,
    now: u64) -> MetadataView {
    MetadataView {
        id,
        purpose: None,
        adb_port: adb_port_of(config.base_adb_port, id),
        state,
        boot_image: config.default_boot_image,
        init_boot_image: config.default_init_boot_image,
        created_at: now,
        updated_at: now,
        held: false,
    }
}

/// The record `m` moved to `state` at `now`; a record that was never
/// stamped is taken as created at `now` too.
pub open spec fn restamped(m: MetadataView, state: InstanceState, now: u64) -> MetadataView {
    MetadataView {
        state,
        updated_at: now,
        created_at: if m.created_at == 0 {
            now
        } else {
            m.created_at
        },
        ..m
    }
}

/// The record to write when `loaded` is what reading the record gave.
pub open spec fn marked(
    config: ConfigView,
    id: InstanceId,
    loaded: Option<MetadataView>,
    state: InstanceState,
    now: u64,
) -> MetadataView {
    match loaded {
        Some(m) => restamped(m, state, now),
        None => stand_in(config, id, state, now),
    }
}

fn mark(
    manager: &InstanceManager,
    id: InstanceId,
    loaded: Option<InstanceMetadata>,
    state: InstanceState,
    now: u64,
) -> (out: InstanceMetadata)
    ensures
        out@ == marked(
            manager.config@,
            id,
            match loaded {
                Some(m) => Some(m@),
                None => None,
            },
            state,
            now,
        ),
        out.state == state,
{
    match loaded {
        Some(m) => {
            let mut m = m;
            m.state = state;
            m.updated_at = now;
            if m.created_at == 0 {
                m.created_at = now;
            }
            m
        },
        None => InstanceMetadata {
            id,
            purpose: None,
            adb_port: adb_port_for(manager.config.base_adb_port, id),
            state,
            boot_image: manager.config.default_boot_image.clone(),
            init_boot_image: manager.config.default_init_boot_image.clone(),
            created_at: now,
            updated_at: now,
            held: false,
        },
    }
}

/// The first phase of a destroy.
#[derive(Debug)]
pub enum PrepareDestroy {
    /// Waiting for the record to be read.
    Loading { id: InstanceId },
    /// Waiting to learn whether the metadata file exists.
    Probing { id: InstanceId, metadata: InstanceMetadata },
    /// Waiting for the destroyed record to be written.
    Writing { id: InstanceId },
    /// The guest is being terminated.
    Stopping { id: InstanceId, stop: Terminate },
    /// The processes of the guest are being killed.
    Killing { id: InstanceId, kill: KillGuests },
}

/// How the first phase of a destroy ends.
pub type PrepareResult = Result<InstanceSummary, String>;

/// The summary of a destroyed instance.
pub open spec fn destroyed_summary(id: InstanceId) -> InstanceSummaryView {
    InstanceSummaryView { id, adb: None, state: InstanceState::Destroyed }
}

/// Whether a step asks whether the metadata file of `id` exists, holding
/// the destroyed record to write, or fails because the clock cannot be read.
pub open spec fn probes_record(
    out: Step<PrepareDestroy, PrepareResult>,
    config: ConfigView,
    id: InstanceId,
    loaded: Option<MetadataView>,
    clock: Clock,
) -> bool {
    match clock.epoch_secs {
        Some(now) => out matches Step::Ask(PrepareDestroy::Probing { id: i, metadata }, d) && i
            == id && metadata@ == marked(config, id, loaded, InstanceState::Destroyed, now)
            && d.effects@.len() == 0 && (d.call matches HostCall::Probe { paths }
            && paths.deep_view() == seq![metadata_path_of(config, id)]),
        None => fails(out, clock_failure()),
    }
}

/// Whether a step goes on after the record is dealt with: the guest is
/// terminated if the instance has a live one, else its processes are killed.
pub open spec fn begins_kill(
    out: Step<PrepareDestroy, PrepareResult>,
    registry: Map<InstanceId, u64>,
    id: InstanceId,
) -> bool {
    if registry.contains_key(id) {
        out matches Step::Ask(PrepareDestroy::Stopping { id: i, stop }, d) && i == id && stop == (
        Terminate {
            id,
            token: registry[id],
            grace_millis: DESTROY_GRACE_MILLIS,
            phase: TerminatePhase::Asked,
        }) && d.effects@.len() == 0 && d.call == (HostCall::Signal {
            token: registry[id],
            signal: crate::host::GuestSignal::Terminate,
        })
    } else {
        out matches Step::Ask(PrepareDestroy::Killing { id: i, kill }, d) && i == id && kill == (
        KillGuests::Swept { id }) && effects_view(d.effects@) == sweep_effects(id) && asks_search(
            d.call,
            id,
        )
    }
}

impl PrepareDestroy {
    /// The instance that is destroyed.
    pub open spec fn id(&self) -> InstanceId {
        match self {
            PrepareDestroy::Loading { id } => *id,
            PrepareDestroy::Probing { id, .. } => *id,
            PrepareDestroy::Writing { id } => *id,
            PrepareDestroy::Stopping { id, .. } => *id,
            PrepareDestroy::Killing { id, .. } => *id,
        }
    }

    fn probe(manager: &InstanceManager, id: InstanceId, loaded: Option<InstanceMetadata>,
        clock: &Clock) -> (out:
        Step<PrepareDestroy, PrepareResult>)
        ensures
            probes_record(
                out,
                manager.config@,
                id,
                match loaded {
                    Some(m) => Some(m@),
                    None => None,
                },
                *clock,
            ),
    {
        match clock.now() {
            Ok(now) => {
                let metadata = mark(manager, id, loaded, InstanceState::Destroyed, now);
                let paths = manager.paths(id);
                let mut list: Vec<String> = Vec::new();
                list.push(paths.metadata);
                assert(list.deep_view() =~= seq![metadata_path_of(manager.config@, id)]);
                Step::Ask(
                    PrepareDestroy::Probing { id, metadata },
                    ask(HostCall::Probe { paths: list }),
                )
            },
            Err(e) => Step::Done(Err(e), Vec::new()),
        }
    }

    fn kill(manager: &mut InstanceManager, id: InstanceId) -> (out: Step<
        PrepareDestroy,
        PrepareResult,
    >)
        ensures
            final(manager).same_setup(old(manager)),
            final(manager).registry() == old(manager).registry(),
            final(manager).cache() == old(manager).cache().remove(id),
            begins_kill(out, old(manager).registry(), id),
    {
        manager.forget(id);
        match Terminate::begin(&manager.guest_registry, id, DESTROY_GRACE_MILLIS) {
            Step::Ask(stop, d) => Step::Ask(PrepareDestroy::Stopping { id, stop }, d),
            Step::Done(_, _) => {
                let (kill, directive) = KillGuests::begin(id);
                Step::Ask(PrepareDestroy::Killing { id, kill }, directive)
            },
        }
    }

    /// What the first step does: the relation between the manager, the
    /// clocks and the outcome of the step.
    pub open spec fn begun(
        manager: &InstanceManager,
        id: InstanceId,
        clock: Clock,
        out: Step<PrepareDestroy, PrepareResult>,
    ) -> bool {
        &&& (manager.cache().contains_key(id) ==> probes_record(
                out,
                manager.config@,
                id,
                Some(manager.cache()[id]),
                clock,
            ))
        &&& (!manager.cache().contains_key(id) ==> (out matches Step::Ask(next, d) && next == (
            PrepareDestroy::Loading { id }) && d.effects@.len() == 0 && asks_read(
                d.call,
                manager.config@,
                id,
            )))
        &&& (out matches Step::Ask(next, _) ==> next.id() == id)
        &&& (!(out matches Step::Done(Ok(_), _)))
    }

    /// Begins the first phase: with the record from the cache, or after
    /// reading it.
    pub fn begin(manager: &InstanceManager, id: InstanceId, clock: &Clock) -> (out: Step<
        PrepareDestroy,
        PrepareResult,
    >)
        ensures
            Self::begun(manager, id, *clock, out),
    {
        match manager.metadata_cache.get(id) {
            Some(metadata) => Self::probe(manager, id, Some(metadata), clock),
            None => Step::Ask(PrepareDestroy::Loading { id }, ask(manager.read_call(id))),
        }
    }

    /// What one step does: the relation between the manager before and after
    /// the step, the host's answer, the clocks and the outcome of the step.
    pub open spec fn stepped(
        self,
        before: &InstanceManager,
        after: &InstanceManager,
        reply: Reply,
        clock: Clock,
        out: Step<PrepareDestroy, PrepareResult>,
    ) -> bool {
        &&& (after.same_setup(before))
        &&& (out matches Step::Ask(next, _) ==> next.id() == self.id())
        &&& (out matches Step::Done(Ok(summary), last) ==> summary@ == destroyed_summary(self.id())
                && last@.len() == 0)
        &&& (match (self, reply) {
                (PrepareDestroy::Loading { id }, Reply::Metadata(loaded)) => after.cache()
                    == before.cache() && after.registry() == before.registry()
                    && probes_record(
                    out,
                    before.config@,
                    id,
                    match loaded {
                        Ok(m) => Some(m@),
                        Err(_) => None,
                    },
                    clock,
                ),
                (PrepareDestroy::Probing { id, metadata }, Reply::Flags(flags)) => if flags@.len()
                    == 1 && flags@[0] {
                    after.cache() == before.cache() && after.registry()
                        == before.registry() && (out matches Step::Ask(
                        PrepareDestroy::Writing { id: i },
                        d,
                    ) && i == id && d.effects@.len() == 0 && asks_write(
                        d.call,
                        before.config@,
                        id,
                        metadata@,
                    ))
                } else if flags@.len() == 1 {
                    after.cache() == before.cache().remove(id)
                        && after.registry() == before.registry() && begins_kill(
                        out,
                        before.registry(),
                        id,
                    )
                } else {
                    fails(out, unexpected_reply())
                },
                (PrepareDestroy::Writing { id }, Reply::Done(Ok(_))) => after.cache()
                    == before.cache().remove(id) && after.registry()
                        == before.registry() && begins_kill(out, before.registry(), id),
                (PrepareDestroy::Writing { id }, Reply::Done(Err(e))) => after.cache()
                    == before.cache() && after.registry() == before.registry()
                    && fails(out, e.brief()),
                (PrepareDestroy::Stopping { id, stop }, _)
                    => (exists|inner: Step<Terminate, crate::supervise::Termination>|
                        #[trigger] stop.stepped(before.registry(), after.registry(), reply, inner)
                            && crate::host::passes_on(inner, out))
                    && after.cache()
                    == before.cache() && match stop.next_phase(reply) {
                    Some(phase) => after.registry() == before.registry() && (
                    out matches Step::Ask(PrepareDestroy::Stopping { id: i, stop: s }, _) && i == id
                        && s == (Terminate { phase, ..stop })),
                    None => match stop.result(reply) {
                        Ok(_) => after.registry() == crate::supervise::without_handle(
                            before.registry(),
                            stop.id,
                            stop.token,
                        ) && (out matches Step::Ask(PrepareDestroy::Killing { id: i, kill }, d) && i
                            == id && kill == (KillGuests::Swept { id }) && effects_view(d.effects@)
                            == sweep_effects(id) && asks_search(d.call, id)),
                        Err(e) => after.registry() == before.registry() && fails(
                            out,
                            e,
                        ),
                    },
                },
                (PrepareDestroy::Killing { id, kill }, Reply::Tools(_))
                    => (exists|inner: Step<KillGuests, Result<bool, String>>|
                        #[trigger] kill.stepped(reply, inner)
                            && crate::host::passes_on(inner, out))
                    && after.cache()
                    == before.cache() && after.registry() == before.registry()
                    && match kill.next(reply) {
                    Some(next) => out matches Step::Ask(
                        PrepareDestroy::Killing { id: i, kill: k },
                        _,
                    ) && i == id && k == next,
                    None => out matches Step::Done(Ok(_), _),
                },
                _ => fails(out, unexpected_reply()),
            })
    }

    /// Continues the first phase.
    ///
    /// * The record moves to `Destroyed`; a stand-in is used if it cannot be
    ///   read. It is written only if the metadata file exists.
    /// * The record is dropped from the cache.
    /// * The guest is terminated with a grace of five seconds; a
    ///   termination that fails ends the phase with its failure.
    /// * The processes of the guest are killed; whatever that achieves, the
    ///   phase ends with the summary of a destroyed instance.
    pub fn resume(self, manager: &mut InstanceManager, reply: Reply, clock: &Clock) -> (out: Step<
        PrepareDestroy,
        PrepareResult,
    >)
        ensures
            self.stepped(old(manager), final(manager), reply, *clock, out),
    {
        match (self, reply) {
            (PrepareDestroy::Loading { id }, Reply::Metadata(loaded)) => {
                match loaded {
                    Ok(m) => Self::probe(manager, id, Some(m), clock),
                    Err(_) => Self::probe(manager, id, None, clock),
                }
            },
            (PrepareDestroy::Probing { id, metadata }, Reply::Flags(flags)) => {
                if flags.len() != 1 {
                    return Step::Done(Err(unexpected()), Vec::new());
                }
                if flags[0] {
                    let call = manager.write_call(id, &metadata);
                    Step::Ask(PrepareDestroy::Writing { id }, ask(call))
                } else {
                    Self::kill(manager, id)
                }
            },
            (PrepareDestroy::Writing { id }, Reply::Done(Ok(_))) => Self::kill(manager, id),
            (PrepareDestroy::Writing { id }, Reply::Done(Err(e)))
                => Step::Done(Err(e.in_brief()), Vec::new()),
            (PrepareDestroy::Stopping { id, stop }, reply) => {
                let ghost answer = reply;
                let stepped = stop.resume(&mut manager.guest_registry, reply);
                assert(stop.stepped(
                    old(manager).registry(),
                    manager.registry(),
                    answer,
                    stepped,
                ));
                match stepped {
                    Step::Ask(next, d) => Step::Ask(PrepareDestroy::Stopping { id, stop: next }, d),
                    Step::Done(Ok(_), _) => {
                        let (kill, directive) = KillGuests::begin(id);
                        Step::Ask(PrepareDestroy::Killing { id, kill }, directive)
                    },
                    Step::Done(Err(e), _) => Step::Done(Err(e), Vec::new()),
                }
            },
            (PrepareDestroy::Killing { id, kill }, Reply::Tools(runs)) => {
                let stepped = kill.resume(Reply::Tools(runs));
                assert(kill.stepped(reply, stepped));
                match stepped {
                    Step::Ask(next, d) => Step::Ask(PrepareDestroy::Killing { id, kill: next }, d),
                    Step::Done(_, _) => Step::Done(
                        Ok(InstanceSummary { id, adb: None, state: InstanceState::Destroyed }),
                        Vec::new(),
                    ),
                }
            },
            _ => Step::Done(Err(unexpected()), Vec::new()),
        }
    }
}

/// Where the marking of a kept instance stands.
#[derive(Debug)]
pub enum MarkPhase {
    /// Waiting for the record to be read.
    Loading { now: u64 },
    /// Waiting for the directory of the instance.
    MakingDirs { metadata: InstanceMetadata },
    /// Waiting for the record to be written.
    Writing { metadata: InstanceMetadata },
    /// Waiting for the environment file to be written.
    Exporting { metadata: InstanceMetadata },
}

/// The second phase of a destroy.
#[derive(Debug)]
pub enum FinishDestroy {
    /// The host state is being torn down.
    Cleaning { id: InstanceId, cleanup: Cleanup },
    /// Nothing is left of the guest; waiting for the files of the instance
    /// to be deleted.
    Removing { id: InstanceId, outcome: CleanupOutcome },
    /// Processes are left; the instance is being marked failed.
    Marking { id: InstanceId, outcome: CleanupOutcome, phase: MarkPhase },
}

/// How the second phase of a destroy ends.
pub type FinishResult = Result<CleanupOutcome, String>;

/// Whether `call` asks for the files of instance `id` to be deleted.
pub open spec fn asks_removal(call: HostCall, config: ConfigView, id: InstanceId) -> bool {
    call matches HostCall::RemoveArtifacts { env_file, root } && env_file@ == env_file_of(
        config,
        id,
    ) && root@ == instance_root_of(config, id)
}

/// Whether a step goes on to make the directory of an instance that is
/// kept, holding the failed record to write.
pub open spec fn makes_kept_dirs(
    out: Step<FinishDestroy, FinishResult>,
    config: ConfigView,
    id: InstanceId,
    outcome: CleanupOutcome,
    loaded: Option<MetadataView>,
    now: u64,
    carried: Seq<EffectView>,
) -> bool {
    out matches Step::Ask(FinishDestroy::Marking { id: i, outcome: o, phase }, d) && i == id && o
        == outcome && (phase matches MarkPhase::MakingDirs { metadata } && metadata@ == marked(
        config,
        id,
        loaded,
        InstanceState::Failed,
        now,
    )) && effects_view(d.effects@) == carried.push(
        EffectView::CreateDirAll { path: joined(instance_root_of(config, id), "artifacts"@) },
    ) && (d.call matches HostCall::Files { steps } && file_steps_view(steps@) == seq![
        FileStepView::CreateDirAll { path: instance_root_of(config, id), doing: None },
    ])
}

/// Whether a step reacts to the end of the teardown of a destroy, in
/// which the final search found the processes `found`.
///
/// If none is left, the deletion of the files of the instance is asked
/// for. Otherwise nothing is deleted and the instance is marked failed:
/// its record is taken from the cache, or asked for. In each case the
/// closing effects of the teardown are performed.
pub open spec fn after_teardown(
    out: Step<FinishDestroy, FinishResult>,
    manager: &InstanceManager,
    id: InstanceId,
    torn_down: InstanceId,
    found: Set<i32>,
    clock: Clock,
) -> bool {
    let config = manager.config@;
    let clean = found =~= Set::<i32>::empty();
    let closing = crate::cleanup::closing_effects(
        config,
        torn_down,
        clean,
        match clock.epoch_secs {
            Some(t) => t,
            None => 0,
        },
        manager.daemon_pid,
    );
    if clean {
        out matches Step::Ask(FinishDestroy::Removing { id: i, outcome }, d) && i == id
            && outcome@ == crate::cleanup::outcome_of(Seq::<i32>::empty()) && effects_view(
            d.effects@,
        ) == closing && asks_removal(d.call, config, id)
    } else {
        match clock.epoch_secs {
            Some(now) => out matches Step::Ask(FinishDestroy::Marking { id: i, outcome, phase }, d)
                && i == id && crate::cleanup::ascending(outcome.remaining_pids@)
                && outcome.remaining_pids@.to_set() == found && outcome@
                == crate::cleanup::outcome_of(outcome.remaining_pids@)
                    && if manager.cache().contains_key(
                id,
            ) {
                makes_kept_dirs(
                    out,
                    config,
                    id,
                    outcome,
                    Some(manager.cache()[id]),
                    now,
                    closing,
                )
            } else {
                phase == (MarkPhase::Loading { now }) && effects_view(d.effects@) == closing
                    && asks_read(d.call, config, id)
            },
            None => out matches Step::Done(Err(e), last) && e@ == clock_failure() && effects_view(
                last@,
            ) == closing,
        }
    }
}

impl FinishDestroy {
    /// The instance that is destroyed.
    pub open spec fn id(&self) -> InstanceId {
        match self {
            FinishDestroy::Cleaning { id, .. } => *id,
            FinishDestroy::Removing { id, .. } => *id,
            FinishDestroy::Marking { id, .. } => *id,
        }
    }

    /// Once the teardown has reported, deletion is pending only for an
    /// instance without remaining processes, and marking only for one with some.
    pub open spec fn settled(&self) -> bool {
        match self {
            FinishDestroy::Cleaning { .. } => true,
            FinishDestroy::Removing { outcome, .. } => outcome.remaining_pids@.len() == 0
                && outcome.guest_processes_killed,
            FinishDestroy::Marking { outcome, .. } => outcome.remaining_pids@.len() > 0
                && !outcome.guest_processes_killed,
        }
    }

    /// Begins the second phase with the teardown of the host state.
    pub fn begin(id: InstanceId) -> (out: (FinishDestroy, Directive))
        ensures
            out.0 matches FinishDestroy::Cleaning { id: i, cleanup } && i == id && cleanup == (
            Cleanup { id, phase: CleanupPhase::Killing(KillGuests::Swept { id }) }),
            out.0.settled(),
            effects_view(out.1.effects@) == sweep_effects(id),
            asks_search(out.1.call, id),
    {
        let (cleanup, directive) = Cleanup::begin(id);
        (FinishDestroy::Cleaning { id, cleanup }, directive)
    }

    fn dirs(
        manager: &InstanceManager,
        id: InstanceId,
        outcome: CleanupOutcome,
        loaded: Option<InstanceMetadata>,
        now: u64,
        carried: Vec<Effect>,
    ) -> (out: Step<FinishDestroy, FinishResult>)
        ensures
            makes_kept_dirs(
                out,
                manager.config@,
                id,
                outcome,
                match loaded {
                    Some(m) => Some(m@),
                    None => None,
                },
                now,
                effects_view(carried@),
            ),
    {
        let metadata = mark(manager, id, loaded, InstanceState::Failed, now);
        let paths = manager.paths(id);
        let mut steps: Vec<FileStep> = Vec::new();
        steps.push(FileStep::CreateDirAll { path: paths.root, doing: None });
        assert(file_steps_view(steps@) =~= seq![
            FileStepView::CreateDirAll {
                path: instance_root_of(manager.config@, id),
                doing: None,
            },
        ]);
        let mut effects = carried;
        let ghost before = effects_view(effects@);
        effects.push(Effect::CreateDirAll { path: paths.artifacts });
        assert(effects_view(effects@) =~= before.push(
            EffectView::CreateDirAll {
                path: joined(instance_root_of(manager.config@, id), "artifacts"@),
            },
        ));
        Step::Ask(
            FinishDestroy::Marking { id, outcome, phase: MarkPhase::MakingDirs { metadata } },
            ask_after(effects, HostCall::Files { steps }),
        )
    }

    /// What one step does: the relation between the manager before and after
    /// the step, the host's answer, the clocks and the outcome of the step.
    pub open spec fn stepped(
        self,
        before: &InstanceManager,
        after: &InstanceManager,
        reply: Reply,
        clock: Clock,
        out: Step<FinishDestroy, FinishResult>,
    ) -> bool {
        &&& (after.same_setup(before))
        &&& (after.registry() == before.registry())
        &&& (out matches Step::Ask(next, _) ==> next.id() == self.id())
        &&& (match out {
                Step::Ask(next, d) => d.call is RemoveArtifacts ==> self is Cleaning
                    && asks_removal(d.call, before.config@, self.id()) && (
                next matches FinishDestroy::Removing { outcome, .. }
                    && outcome.remaining_pids@.len() == 0 && outcome.guest_processes_killed),
                Step::Done(_, _) => true,
            })
        &&& (self.settled() ==> (out matches Step::Ask(next, _) ==> next.settled()))
        &&& (match (self, reply) {
                (FinishDestroy::Cleaning { id, cleanup }, _)
                    => (exists|inner: Step<Cleanup, Result<crate::cleanup::CleanupOutcome, String>>|
                        #[trigger] cleanup.stepped(&before.config, before.daemon_pid, reply, clock,
                            inner)
                            && crate::host::passes_on(inner, out))
                    && after.cache()
                    == before.cache() && match cleanup.next_phase(reply) {
                    Some(phase) => out matches Step::Ask(
                        FinishDestroy::Cleaning { id: i, cleanup: c },
                        _,
                    ) && i == id && c == (Cleanup { id: cleanup.id, phase }),
                    None => if cleanup.concludes(reply) {
                        after_teardown(
                            out,
                            before,
                            id,
                            cleanup.id,
                            crate::cleanup::found_by(reply),
                            clock,
                        )
                    } else {
                        fails(out, unexpected_reply())
                    },
                },
                (FinishDestroy::Removing { id, outcome }, Reply::Done(Ok(_)))
                    => after.cache() == before.cache().remove(id)
                    && (out matches Step::Done(
                    Ok(o),
                    last,
                ) && o == outcome && last@.len() == 0),
                (FinishDestroy::Removing { id, outcome }, Reply::Done(Err(_)))
                    => after.cache() == before.cache()
                    && (out matches Step::Done(Ok(o), last) && o
                    == outcome && last@.len() == 0),
                (
                    FinishDestroy::Marking { id, outcome, phase: MarkPhase::Loading { now } },
                    Reply::Metadata(loaded),
                ) => after.cache() == before.cache() && makes_kept_dirs(
                    out,
                    before.config@,
                    id,
                    outcome,
                    match loaded {
                        Ok(m) => Some(m@),
                        Err(_) => None,
                    },
                    now,
                    Seq::<EffectView>::empty(),
                ),
                (
                    FinishDestroy::Marking {
                        id,
                        outcome,
                        phase: MarkPhase::MakingDirs { metadata },
                    },
                    Reply::Done(Ok(_)),
                ) => after.cache() == before.cache() && (out matches Step::Ask(
                    FinishDestroy::Marking { id: i, outcome: o, phase },
                    d,
                ) && i == id && o == outcome && (phase matches MarkPhase::Writing { metadata: m }
                    && m == metadata) && d.effects@.len() == 0 && asks_write(
                    d.call,
                    before.config@,
                    id,
                    metadata@,
                )),
                (
                    FinishDestroy::Marking { id, outcome, phase: MarkPhase::Writing { metadata } },
                    Reply::Done(Ok(_)),
                ) => match clock.epoch_secs {
                    Some(now) => after.cache() == before.cache() && (
                    out matches Step::Ask(FinishDestroy::Marking { id: i, outcome: o, phase }, d)
                        && i == id && o == outcome && (phase matches MarkPhase::Exporting {
                        metadata: m,
                    } && m == metadata) && d.effects@.len() == 0 && asks_env(
                        d.call,
                        before.config@,
                        id,
                        metadata@,
                        now,
                    )),
                    None => after.cache() == before.cache().insert(id, metadata@)
                        && (out matches Step::Done(Ok(o), last) && o == outcome && last@.len()
                        == 0),
                },
                (
                    FinishDestroy::Marking {
                        id,
                        outcome,
                        phase: MarkPhase::Exporting { metadata },
                    },
                    Reply::Done(_),
                ) => after.cache() == before.cache().insert(id, metadata@) && (
                out matches Step::Done(Ok(o), last) && o == outcome && last@.len() == 0),
                (
                    FinishDestroy::Marking { id, outcome, phase: MarkPhase::MakingDirs { .. } },
                    Reply::Done(Err(e)),
                ) => after.cache() == before.cache() && fails(out, e.full()),
                (
                    FinishDestroy::Marking { id, outcome, phase: MarkPhase::Writing { .. } },
                    Reply::Done(Err(e)),
                ) => after.cache() == before.cache() && fails(out, e.full()),
                _ => after.cache() == before.cache() && fails(
                    out,
                    unexpected_reply(),
                ),
            })
    }

    /// Continues the second phase.
    ///
    /// * After a teardown that found no process left, the deletion of the
    ///   environment file and the instance directory is asked for. When it
    ///   succeeds the record is dropped from the cache; when it fails the
    ///   record stays. Both end the phase with the outcome of the teardown.
    /// * After a teardown that left processes, nothing is deleted. The
    ///   record is marked `Failed`: the instance directory is made sure of,
    ///   the record is written and cached; a failure to write the
    ///   environment file is ignored. A failure to write the record ends
    ///   the phase with the cause.
    pub fn resume(self, manager: &mut InstanceManager, reply: Reply, clock: &Clock) -> (out: Step<
        FinishDestroy,
        FinishResult,
    >)
        ensures
            self.stepped(old(manager), final(manager), reply, *clock, out),
    {
        match (self, reply) {
            (FinishDestroy::Cleaning { id, cleanup }, reply) => {
                let ghost answer = reply;
                let stepped = cleanup.resume(&manager.config, manager.daemon_pid, reply, clock);
                assert(cleanup.stepped(
                    &manager.config,
                    manager.daemon_pid,
                    answer,
                    *clock,
                    stepped,
                ));
                match stepped {
                    Step::Ask(next, d) => Step::Ask(FinishDestroy::Cleaning { id, cleanup: next },
                        d),
                    Step::Done(Ok(outcome), last) => {
                        proof {
                            let left = outcome.remaining_pids@;
                            if left.len() > 0 {
                                assert(left.contains(left[0]));
                                assert(left.to_set().contains(left[0]));
                            } else {
                                assert(left.to_set() =~= Set::<i32>::empty());
                                assert(left =~= Seq::<i32>::empty());
                            }
                        }
                        if outcome.guest_processes_killed {
                            let paths = manager.paths(id);
                            let call = HostCall::RemoveArtifacts {
                                env_file: paths.env_file(&manager.config),
                                root: paths.root,
                            };
                            Step::Ask(
                                FinishDestroy::Removing { id, outcome },
                                ask_after(last, call),
                            )
                        } else {
                            match clock.now() {
                                Ok(now) => {
                                    match manager.metadata_cache.get(id) {
                                        Some(m) => Self::dirs(manager, id, outcome, Some(m), now,
                                            last),
                                        None => Step::Ask(
                                            FinishDestroy::Marking {
                                                id,
                                                outcome,
                                                phase: MarkPhase::Loading { now },
                                            },
                                            ask_after(last, manager.read_call(id)),
                                        ),
                                    }
                                },
                                Err(e) => Step::Done(Err(e), last),
                            }
                        }
                    },
                    Step::Done(Err(e), last) => Step::Done(Err(e), last),
                }
            },
            (FinishDestroy::Removing { id, outcome }, Reply::Done(Ok(_))) => {
                manager.forget(id);
                Step::Done(Ok(outcome), Vec::new())
            },
            (FinishDestroy::Removing { id, outcome }, Reply::Done(Err(_))) => Step::Done(
                Ok(outcome),
                Vec::new(),
            ),
            (
                FinishDestroy::Marking { id, outcome, phase: MarkPhase::Loading { now } },
                Reply::Metadata(loaded),
            ) => {
                let carried: Vec<Effect> = Vec::new();
                assert(effects_view(carried@) =~= Seq::<EffectView>::empty());
                match loaded {
                    Ok(m) => Self::dirs(manager, id, outcome, Some(m), now, carried),
                    Err(_) => Self::dirs(manager, id, outcome, None, now, carried),
                }
            },
            (
                FinishDestroy::Marking { id, outcome, phase: MarkPhase::MakingDirs { metadata } },
                Reply::Done(Ok(_)),
            ) => {
                let call = manager.write_call(id, &metadata);
                Step::Ask(
                    FinishDestroy::Marking { id, outcome, phase: MarkPhase::Writing { metadata } },
                    ask(call),
                )
            },
            (
                FinishDestroy::Marking { id, outcome, phase: MarkPhase::Writing { metadata } },
                Reply::Done(Ok(_)),
            ) => {
                match clock.now() {
                    Ok(now) => {
                        let call = manager.env_call(id, &metadata, now);
                        Step::Ask(
                            FinishDestroy::Marking {
                                id,
                                outcome,
                                phase: MarkPhase::Exporting { metadata },
                            },
                            ask(call),
                        )
                    },
                    Err(_) => {
                        manager.remember(id, &metadata);
                        Step::Done(Ok(outcome), Vec::new())
                    },
                }
            },
            (
                FinishDestroy::Marking { id, outcome, phase: MarkPhase::Exporting { metadata } },
                Reply::Done(_),
            ) => {
                manager.remember(id, &metadata);
                Step::Done(Ok(outcome), Vec::new())
            },
            (
                FinishDestroy::Marking { id, outcome, phase: MarkPhase::MakingDirs { .. } },
                Reply::Done(Err(e)),
            ) => Step::Done(Err(e.in_full()), Vec::new()),
            (
                FinishDestroy::Marking { id, outcome, phase: MarkPhase::Writing { .. } },
                Reply::Done(Err(e)),
            ) => Step::Done(Err(e.in_full()), Vec::new()),
            _ => Step::Done(Err(unexpected()), Vec::new()),
        }
    }
}

/// The first `upto` process ids, separated by a comma and a space.
pub open spec fn pid_items(pids: Seq<i32>, upto: int) -> Seq<char>
    decreases upto,
{
    if upto <= 0 || upto > pids.len() {
        Seq::empty()
    } else if upto == 1 {
        signed_decimal(pids[0] as int)
    } else {
        pid_items(pids, upto - 1) + ", "@ + signed_decimal(pids[upto - 1] as int)
    }
}

/// A list of process ids in brackets.
pub open spec fn pid_list(pids: Seq<i32>) -> Seq<char> {
    "["@ + pid_items(pids, pids.len() as int) + "]"@
}

/// Renders a list of process ids in brackets.
pub fn render_pids(pids: &Vec<i32>) -> (out: String)
    ensures
        out@ == pid_list(pids@),
{
    let mut out = String::from_str("[");
    let mut i: usize = 0;
    assert("["@ + pid_items(pids@, 0) =~= "["@);
    while i < pids.len()
        invariant
            i <= pids.len(),
            out@ == "["@ + pid_items(pids@, i as int),
        decreases pids.len() - i,
    {
        let text = signed_decimal_string(pids[i]);
        if i > 0 {
            out.append(", ");
            out.append(text.as_str());
            assert(out@ =~= "["@ + (pid_items(pids@, i as int) + ", "@ + signed_decimal(
                pids@[i as int] as int,
            )));
        } else {
            out.append(text.as_str());
            assert(pid_items(pids@, 0) =~= Seq::<char>::empty());
            assert(out@ =~= "["@ + signed_decimal(pids@[0] as int));
        }
        i += 1;
    }
    out.append("]");
    out
}

/// The second phase of a destroy whose final search finds no process of
/// the guest goes on to remove the files of the instance, and ends with
/// the record dropped from the cache once they are removed: a destroy of a
/// dead guest removes its artifacts, however often it is asked for.
pub proof fn lemma_dead_guest_is_removed(
    op: FinishDestroy,
    before: &InstanceManager,
    after: &InstanceManager,
    reply: Reply,
    clock: Clock,
    out: Step<FinishDestroy, FinishResult>,
)
    requires
        op.stepped(before, after, reply, clock, out),
        match op {
            FinishDestroy::Cleaning { cleanup, .. } => cleanup.concludes(reply)
                && crate::cleanup::found_by(reply) =~= Set::<i32>::empty(),
            FinishDestroy::Removing { .. } => reply matches Reply::Done(Ok(_)),
            FinishDestroy::Marking { .. } => false,
        },
    ensures
        match op {
            FinishDestroy::Cleaning { id, .. } => out matches Step::Ask(
                FinishDestroy::Removing { id: i, outcome },
                d,
            ) && i == id && outcome.remaining_pids@.len() == 0 && asks_removal(
                d.call,
                before.config@,
                id,
            ),
            FinishDestroy::Removing { id, outcome } => (out matches Step::Done(Ok(o), _) && o
                == outcome) && after.cache() == before.cache().remove(id),
            FinishDestroy::Marking { .. } => true,
        },
{
}

/// The message for a destroy whose second phase outlasted the timeout.
pub open spec fn destroy_timed_out(id: InstanceId) -> Seq<char> {
    "destroy "@ + decimal(id as nat) + " exceeded timeout"@
}

/// The message for a destroy whose second phase vanished.
pub open spec fn destroy_lost(id: InstanceId, cause: Seq<char>) -> Seq<char> {
    "destroy "@ + decimal(id as nat) + " recv failed: "@ + cause
}

/// The message for a destroy whose teardown failed.
pub open spec fn destroy_cleanup_failed(id: InstanceId, cause: Seq<char>) -> Seq<char> {
    "cleanup for "@ + decimal(id as nat) + " failed: "@ + cause
}

/// The message for a destroy that left guest processes running.
pub open spec fn destroy_incomplete(id: InstanceId, pids: Seq<i32>) -> Seq<char> {
    "guest processes still running for "@ + decimal(id as nat) + ": "@ + pid_list(pids)
}

/// The destroy of one instance.
#[derive(Debug)]
pub enum DestroyInstance {
    /// The first phase is under way.
    Preparing { timeout_secs: Option<u64>, prepare: PrepareDestroy },
    /// The second phase runs in the background; waiting for its report.
    Finishing { id: InstanceId, summary: InstanceSummary },
}

/// How a destroy ends.
pub type DestroyResult = Result<InstanceActionResponse, ErrorDetail>;

/// Whether a step ends the destroy with the given code and message.
pub open spec fn destroy_fails(out: Step<DestroyInstance, DestroyResult>, code: Seq<char>,
    message: Seq<char>) -> bool {
    out matches Step::Done(Err(e), last) && e@ == detail(code, message) && last@.len() == 0
}

/// How a destroy goes on from a step of its first phase: a step that asks
/// is passed on, a first phase that is done has the second one handed to the
/// host with the timeout of the request, and a failure ends the destroy with
/// `destroy_prepare_failed`.
pub open spec fn follows_prepare(
    out: Step<DestroyInstance, DestroyResult>,
    timeout_secs: Option<u64>,
    id: InstanceId,
    inner: Step<PrepareDestroy, PrepareResult>,
) -> bool {
    match inner {
        Step::Ask(next, d) => out matches Step::Ask(
            DestroyInstance::Preparing { timeout_secs: t, prepare },
            o,
        ) && t == timeout_secs && prepare == next && o == d,
        Step::Done(Ok(summary), _) => out matches Step::Ask(
            DestroyInstance::Finishing { id: i, summary: s },
            d,
        ) && i == id && s == summary && d.effects@.len() == 0 && d.call == (
        HostCall::FinishDestroy { id, timeout_secs }),
        Step::Done(Err(e), _) => destroy_fails(out, "destroy_prepare_failed"@, e@),
    }
}

impl DestroyInstance {
    /// The instance that is destroyed.
    pub open spec fn id(&self) -> InstanceId {
        match self {
            DestroyInstance::Preparing { prepare, .. } => prepare.id(),
            DestroyInstance::Finishing { id, .. } => *id,
        }
    }

    fn preparing(timeout_secs: Option<u64>, stepped: Step<PrepareDestroy, PrepareResult>,
        id: InstanceId) -> (out:
        Step<DestroyInstance, DestroyResult>)
        ensures
            follows_prepare(out, timeout_secs, id, stepped),
    {
        match stepped {
            Step::Ask(prepare, d) => Step::Ask(DestroyInstance::Preparing { timeout_secs,
                prepare }, d),
            Step::Done(Ok(summary), _) => Step::Ask(
                DestroyInstance::Finishing { id, summary },
                ask(HostCall::FinishDestroy { id, timeout_secs }),
            ),
            Step::Done(Err(e), _) => Step::Done(
                Err(error_detail("destroy_prepare_failed", e)),
                Vec::new(),
            ),
        }
    }

    /// What the first step does: it is the first step of the first phase,
    /// carried by a destroy that keeps the timeout of the request. With a
    /// cached record the step asks whether the metadata file exists, and
    /// fails only where the clock cannot be read; without one it asks for
    /// the record to be read.
    pub open spec fn begun(
        manager: &InstanceManager,
        id: InstanceId,
        timeout_secs: Option<u64>,
        clock: Clock,
        out: Step<DestroyInstance, DestroyResult>,
    ) -> bool {
        &&& (exists|inner: Step<PrepareDestroy, PrepareResult>|
            #[trigger] PrepareDestroy::begun(manager, id, clock, inner) && follows_prepare(
                out,
                timeout_secs,
                id,
                inner,
            ))
        &&& (out matches Step::Ask(next, _) ==> next.id() == id && next is Preparing)
        &&& (out is Done <==> manager.cache().contains_key(id) && clock.epoch_secs is None)
        &&& (out is Done ==> destroy_fails(out, "destroy_prepare_failed"@, clock_failure()))
    }

    /// Begins a destroy with its first phase.
    pub fn begin(manager: &InstanceManager, id: InstanceId, timeout_secs: Option<u64>,
        clock: &Clock) -> (out:
        Step<DestroyInstance, DestroyResult>)
        ensures
            Self::begun(manager, id, timeout_secs, *clock, out),
    {
        let begun = PrepareDestroy::begin(manager, id, clock);
        assert(PrepareDestroy::begun(manager, id, *clock, begun));
        Self::preparing(timeout_secs, begun, id)
    }

    /// What one step does: the relation between the manager before and after
    /// the step, the host's answer, the clocks and the outcome of the step.
    pub open spec fn stepped(
        self,
        before: &InstanceManager,
        after: &InstanceManager,
        reply: Reply,
        clock: Clock,
        out: Step<DestroyInstance, DestroyResult>,
    ) -> bool {
        &&& (after.same_setup(before))
        &&& (out matches Step::Ask(next, _) ==> next.id() == self.id())
        &&& (match (self, reply) {
                (DestroyInstance::Preparing { timeout_secs, prepare }, _) => exists|
                    inner: Step<PrepareDestroy, PrepareResult>,
                |
                    #[trigger] prepare.stepped(before, after, reply, clock, inner)
                        && follows_prepare(out, timeout_secs, prepare.id(), inner),
                (DestroyInstance::Finishing { id, summary }, Reply::Finish(report))
                    => after.cache() == before.cache() && after.registry()
                    == before.registry() && match report {
                    FinishReport::TimedOut => destroy_fails(
                        out,
                        "destroy_timeout"@,
                        destroy_timed_out(id),
                    ),
                    FinishReport::Lost(e) => destroy_fails(
                        out,
                        "destroy_recv_failed"@,
                        destroy_lost(id, e@),
                    ),
                    FinishReport::Failed(e) => destroy_fails(
                        out,
                        "destroy_cleanup_failed"@,
                        destroy_cleanup_failed(id, e@),
                    ),
                    FinishReport::Finished(outcome) => if outcome.guest_processes_killed {
                        out matches Step::Done(Ok(response), last) && response@ == (ActionView {
                            summary: summary@,
                            journal_tail: None,
                            verification: None,
                            cleanup: Some(outcome@),
                        }) && last@.len() == 0
                    } else {
                        destroy_fails(
                            out,
                            "destroy_incomplete"@,
                            destroy_incomplete(id, outcome.remaining_pids@),
                        )
                    },
                },
                _ => after.cache() == before.cache() && after.registry()
                    == before.registry() && destroy_fails(
                    out,
                    "destroy_recv_failed"@,
                    destroy_lost(self.id(), unexpected_reply()),
                ),
            })
    }

    /// Continues a destroy.
    ///
    /// * A first phase that fails ends the destroy with `destroy_prepare_failed`.
    /// * When the first phase is done, the second is handed to the host to
    ///   run in the background, with the timeout of the request.
    /// * A timeout is `destroy_timeout`, a vanished second phase
    ///   `destroy_recv_failed`, a failed one `destroy_cleanup_failed`.
    /// * A second phase that left guest processes running is
    ///   `destroy_incomplete`, with the processes listed.
    /// * Otherwise the destroy succeeds with the summary of the destroyed
    ///   instance and the outcome of the teardown.
    pub fn resume(self, manager: &mut InstanceManager, reply: Reply, clock: &Clock) -> (out: Step<
        DestroyInstance,
        DestroyResult,
    >)
        ensures
            self.stepped(old(manager), final(manager), reply, *clock, out),
    {
        match (self, reply) {
            (DestroyInstance::Preparing { timeout_secs, prepare }, reply) => {
                let ghost answer = reply;
                let ghost prepared = prepare;
                let target = Self::target(&prepare);
                let stepped = prepare.resume(manager, reply, clock);
                assert(prepared.stepped(old(manager), manager, answer, *clock, stepped));
                Self::preparing(timeout_secs, stepped, target)
            },
            (DestroyInstance::Finishing { id, summary }, Reply::Finish(report)) => {
                let d = decimal_string(id);
                match report {
                    FinishReport::TimedOut => Step::Done(
                        Err(
                            error_detail(
                                "destroy_timeout",
                                join3("destroy ", d.as_str(), " exceeded timeout"),
                            ),
                        ),
                        Vec::new(),
                    ),
                    FinishReport::Lost(e) => {
                        let mut message = join3("destroy ", d.as_str(), " recv failed: ");
                        message.append(e.as_str());
                        Step::Done(Err(error_detail("destroy_recv_failed", message)), Vec::new())
                    },
                    FinishReport::Failed(e) => {
                        let mut message = join3("cleanup for ", d.as_str(), " failed: ");
                        message.append(e.as_str());
                        Step::Done(Err(error_detail("destroy_cleanup_failed", message)), Vec::new())
                    },
                    FinishReport::Finished(outcome) => {
                        if outcome.guest_processes_killed {
                            Step::Done(
                                Ok(
                                    InstanceActionResponse {
                                        summary,
                                        journal_tail: None,
                                        verification: None,
                                        cleanup: Some(outcome.summary()),
                                    },
                                ),
                                Vec::new(),
                            )
                        } else {
                            let pids = render_pids(&outcome.remaining_pids);
                            let mut message = join3(
                                "guest processes still running for ",
                                d.as_str(),
                                ": ",
                            );
                            message.append(pids.as_str());
                            Step::Done(
                                Err(error_detail("destroy_incomplete", message)),
                                Vec::new(),
                            )
                        }
                    },
                }
            },
            (DestroyInstance::Finishing { id, summary }, _) => {
                let d = decimal_string(id);
                let cause = unexpected();
                let mut message = join3("destroy ", d.as_str(), " recv failed: ");
                message.append(cause.as_str());
                Step::Done(Err(error_detail("destroy_recv_failed", message)), Vec::new())
            },
        }
    }

    fn target(prepare: &PrepareDestroy) -> (id: InstanceId)
        ensures
            id == prepare.id(),
    {
        match prepare {
            PrepareDestroy::Loading { id } => *id,
            PrepareDestroy::Probing { id, .. } => *id,
            PrepareDestroy::Writing { id } => *id,
            PrepareDestroy::Stopping { id, .. } => *id,
            PrepareDestroy::Killing { id, .. } => *id,
        }
    }
}

} // verus!
