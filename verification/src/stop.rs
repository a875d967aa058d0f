//! Stopping an instance, following the exit of its guest, and deploying
//! images into its workspace.

use vstd::prelude::*;
use crate::cleanup::{asks_search, sweep_effects, Cleanup, CleanupOutcome, CleanupPhase, KillGuests};
use crate::config::{join_path, joined, ConfigView};
use crate::guest::ExitStatusInfo;
use crate::host::{
    clock_failure, copy_step, effects_view, file_steps_view, unexpected, unexpected_reply, Clock,
    Directive, FileStep, FileStepView, HostCall, Reply, Step,
};
use crate::lifecycle::{fails, ActionResult};
use crate::manager::{ask, asks_env, asks_read, asks_write, InstanceManager};
use crate::metadata::{instance_root_of, InstanceMetadata, MetadataView};
use crate::protocol::{ActionView, DeployRequest, InstanceActionResponse, InstanceId, InstanceState};
use crate::supervise::{Terminate, TerminatePhase};

verus! {

/// Milliseconds of grace given to a guest that is stopped.
pub const STOP_GRACE_MILLIS: u64 = 10000;

/// The state of an instance whose guest ended as given: `Failed` after an
/// exit that was not clean, `Stopped` after a clean one and when no exit
/// was observed.
pub open spec fn state_after(exit: Option<ExitStatusInfo>) -> InstanceState {
    match exit {
        Some(status) => if status.is_success() {
            InstanceState::Stopped
        } else {
            InstanceState::Failed
        },
        None => InstanceState::Stopped,
    }
}

/// Decides the state of an instance after the end of its guest.
pub fn stop_state(exit: Option<ExitStatusInfo>) -> (state: InstanceState)
    ensures
        state == state_after(exit),
{
    match exit {
        Some(status) => if status.success() {
            InstanceState::Stopped
        } else {
            InstanceState::Failed
        },
        None => InstanceState::Stopped,
    }
}

/// Where a stop stands.
#[derive(Debug)]
pub enum StopPhase {
    /// The guest is being terminated.
    Stopping(Terminate),
    /// Waiting for the record to be written with the state after the exit.
    Saving,
    /// The host state is being torn down.
    Cleaning(Cleanup),
    /// Processes survived the teardown; waiting for the record to be
    /// written as failed.
    Resaving(CleanupOutcome),
}

/// A stop whose record is loaded.
#[derive(Debug)]
pub struct StopRun {
    pub id: InstanceId,
    pub metadata: InstanceMetadata,
    pub phase: StopPhase,
}

/// The stop of one instance.
#[derive(Debug)]
pub enum StopInstance {
    /// Waiting for the record to be read.
    Loading { id: InstanceId },
    Running(StopRun),
}

/// Whether a step goes on to write the record `m` of `id` in the state
/// that follows the exit `exit`, or fails because the clock cannot be read.
pub open spec fn saves_exit(
    out: Step<StopInstance, ActionResult>,
    config: ConfigView,
    id: InstanceId,
    m: MetadataView,
    exit: Option<ExitStatusInfo>,
    clock: Clock,
) -> bool {
    match clock.epoch_secs {
        Some(now) => out matches Step::Ask(StopInstance::Running(run), d) && run.id == id
            && run.metadata@ == m.moved_to(state_after(exit), now) && run.phase is Saving
            && d.effects@.len() == 0 && asks_write(d.call, config, id, run.metadata@),
        None => fails(out, clock_failure()),
    }
}

/// Whether a step begins the termination of the guest of `id` for a stop,
/// or, without a live guest, goes straight on to write the record.
pub open spec fn begins_stop(
    out: Step<StopInstance, ActionResult>,
    registry: Map<InstanceId, u64>,
    config: ConfigView,
    id: InstanceId,
    m: MetadataView,
    clock: Clock,
) -> bool {
    if registry.contains_key(id) {
        out matches Step::Ask(StopInstance::Running(run), d) && run.id == id && run.metadata@ == m
            && (run.phase matches StopPhase::Stopping(stop) && stop == (Terminate {
            id,
            token: registry[id],
            grace_millis: STOP_GRACE_MILLIS,
            phase: TerminatePhase::Asked,
        })) && d.effects@.len() == 0 && d.call == (HostCall::Signal {
            token: registry[id],
            signal: crate::host::GuestSignal::Terminate,
        })
    } else {
        saves_exit(out, config, id, m, None, clock)
    }
}

/// The response of a stop: the summary of the record and the teardown.
pub open spec fn stop_response(m: MetadataView, host: Seq<char>,
    outcome: CleanupOutcome) -> ActionView {
    ActionView {
        summary: m.summary(host),
        journal_tail: None,
        verification: None,
        cleanup: Some(outcome@),
    }
}

/// Whether a step reacts to the end of the teardown of a stop, in which
/// the final search found the processes `found`.
///
/// If none is left the stop ends with the summary of the record and the
/// outcome of the teardown. Otherwise the record moves to `Failed` and is
/// written again, unless the clock cannot be read. In each case the
/// closing effects of the teardown are performed.
pub open spec fn after_teardown(
    out: Step<StopInstance, ActionResult>,
    config: ConfigView,
    daemon_pid: u32,
    run: StopRun,
    id: InstanceId,
    found: Set<i32>,
    clock: Clock,
) -> bool {
    let clean = found =~= Set::<i32>::empty();
    let closing = crate::cleanup::closing_effects(
        config,
        id,
        clean,
        match clock.epoch_secs {
            Some(t) => t,
            None => 0,
        },
        daemon_pid,
    );
    if clean {
        out matches Step::Done(Ok(response), last) && response.summary@ == run.metadata@.summary(
            config.adb_host,
        ) && response.journal_tail is None && response.verification is None && (
        response.cleanup matches Some(summary) && summary@ == crate::cleanup::outcome_of(
            Seq::<i32>::empty(),
        )) && effects_view(last@) == closing
    } else {
        match clock.epoch_secs {
            Some(now) => out matches Step::Ask(StopInstance::Running(next), d) && next.id == run.id
                && next.metadata@ == run.metadata@.moved_to(InstanceState::Failed, now) && (
            next.phase matches StopPhase::Resaving(outcome) && crate::cleanup::ascending(
                outcome.remaining_pids@,
            ) && outcome.remaining_pids@.to_set() == found && outcome@
                == crate::cleanup::outcome_of(outcome.remaining_pids@)) && effects_view(d.effects@)
                == closing && asks_write(d.call, config, run.id, next.metadata@),
            None => out matches Step::Done(Err(e), last) && e@ == clock_failure() && effects_view(
                last@,
            ) == closing,
        }
    }
}

impl StopRun {
    fn save(self, manager: &InstanceManager, exit: Option<ExitStatusInfo>, clock: &Clock) -> (out:
        Step<StopInstance, ActionResult>)
        ensures
            saves_exit(out, manager.config@, self.id, self.metadata@, exit, *clock),
    {
        match clock.now() {
            Ok(now) => {
                let mut metadata = self.metadata;
                metadata.state = stop_state(exit);
                metadata.updated_at = now;
                let call = manager.write_call(self.id, &metadata);
                Step::Ask(
                    StopInstance::Running(
                        StopRun { id: self.id, metadata, phase: StopPhase::Saving },
                    ),
                    ask(call),
                )
            },
            Err(e) => Step::Done(Err(e), Vec::new()),
        }
    }

    fn finish(self, manager: &InstanceManager, outcome: CleanupOutcome) -> (out: Step<
        StopInstance,
        ActionResult,
    >)
        ensures
            out matches Step::Done(Ok(response), last) && response@ == stop_response(
                self.metadata@,
                manager.config.adb_host@,
                outcome,
            ) && last@.len() == 0,
    {
        let summary = self.metadata.summary(manager.config.adb_host.as_str());
        Step::Done(
            Ok(
                InstanceActionResponse {
                    summary,
                    journal_tail: None,
                    verification: None,
                    cleanup: Some(outcome.summary()),
                },
            ),
            Vec::new(),
        )
    }
}

impl StopInstance {
    /// The instance that is stopped.
    pub open spec fn id(&self) -> InstanceId {
        match self {
            StopInstance::Loading { id } => *id,
            StopInstance::Running(run) => run.id,
        }
    }

    /// What holds of a stop between its steps as long as nothing else
    /// touches the instance: while the host state is torn down, the cached
    /// record is the one that the stop wrote.
    pub open spec fn settled(&self, manager: &InstanceManager) -> bool {
        self matches StopInstance::Running(run) ==> (run.phase is Cleaning
            ==> manager.cache().contains_key(run.id) && manager.cache()[run.id] == run.metadata@)
    }

    fn stop(manager: &InstanceManager, id: InstanceId, metadata: InstanceMetadata,
        clock: &Clock) -> (out:
        Step<StopInstance, ActionResult>)
        ensures
            begins_stop(out, manager.registry(), manager.config@, id, metadata@, *clock),
    {
        match Terminate::begin(&manager.guest_registry, id, STOP_GRACE_MILLIS) {
            Step::Ask(stop, d) => Step::Ask(
                StopInstance::Running(StopRun { id, metadata, phase: StopPhase::Stopping(stop) }),
                d,
            ),
            Step::Done(_, _) => {
                let run = StopRun { id, metadata, phase: StopPhase::Saving };
                run.save(manager, None, clock)
            },
        }
    }

    /// What the first step does: the relation between the manager, the
    /// clocks and the outcome of the step.
    pub open spec fn begun(
        manager: &InstanceManager,
        id: InstanceId,
        clock: Clock,
        out: Step<StopInstance, ActionResult>,
    ) -> bool {
        &&& (manager.cache().contains_key(id) ==> begins_stop(
                out,
                manager.registry(),
                manager.config@,
                id,
                manager.cache()[id],
                clock,
            ))
        &&& (!manager.cache().contains_key(id) ==> (out matches Step::Ask(next, d) && next == (
            StopInstance::Loading { id }) && d.effects@.len() == 0 && asks_read(
                d.call,
                manager.config@,
                id,
            )))
        &&& (out matches Step::Ask(next, _) ==> next.id() == id && next.settled(manager))
    }

    /// Begins a stop: with the record from the cache, or after reading it,
    /// the guest is terminated with a grace of ten seconds.
    pub fn begin(manager: &InstanceManager, id: InstanceId, clock: &Clock) -> (out: Step<
        StopInstance,
        ActionResult,
    >)
        ensures
            Self::begun(manager, id, *clock, out),
    {
        match manager.metadata_cache.get(id) {
            Some(metadata) => Self::stop(manager, id, metadata, clock),
            None => Step::Ask(StopInstance::Loading { id }, ask(manager.read_call(id))),
        }
    }

    /// What one step does: the relation between the manager before and after
    /// the step, the host's answer, the clocks and the outcome of the step.
    pub open spec fn stepped(
        self,
        before: &InstanceManager,
        after: &InstanceManager,
        reply: Reply,
        clock: Clock,
        out: Step<StopInstance, ActionResult>,
    ) -> bool {
        &&& (after.same_setup(before))
        &&& (out matches Step::Ask(next, _) ==> next.id() == self.id())
        &&& (self.settled(before) ==> match out {
                Step::Ask(next, _) => next.settled(after),
                Step::Done(Ok(response), _) => after.cache().contains_key(self.id())
                    && response@.summary == after.cache()[self.id()].summary(
                    before.config.adb_host@,
                ),
                Step::Done(Err(_), _) => true,
            })
        &&& (match self {
                StopInstance::Loading { id } => after.cache() == before.cache()
                    && after.registry() == before.registry() && match reply {
                    Reply::Metadata(Ok(m)) => begins_stop(
                        out,
                        before.registry(),
                        before.config@,
                        id,
                        m@,
                        clock,
                    ),
                    Reply::Metadata(Err(e)) => fails(out, e@),
                    _ => fails(out, unexpected_reply()),
                },
                StopInstance::Running(run) => match (run.phase, reply) {
                    (StopPhase::Stopping(stop), _) => (exists|inner: Step<Terminate,
                        crate::supervise::Termination>|
                            #[trigger] stop.stepped(before.registry(), after.registry(), reply,
                                inner)
                                && crate::host::passes_on(inner, out))
                        && after.cache()
                        == before.cache() && match stop.next_phase(reply) {
                        Some(phase) => after.registry() == before.registry() && (
                        out matches Step::Ask(StopInstance::Running(next), _) && next.id == run.id
                            && next.metadata == run.metadata && (
                        next.phase matches StopPhase::Stopping(s) && s == (Terminate {
                            phase,
                            ..stop
                        }))),
                        None => match stop.result(reply) {
                            Ok(exit) => after.registry()
                                == crate::supervise::without_handle(
                                before.registry(),
                                stop.id,
                                stop.token,
                            ) && saves_exit(
                                out,
                                before.config@,
                                run.id,
                                run.metadata@,
                                exit,
                                clock,
                            ),
                            Err(e) => after.registry() == before.registry()
                                && fails(out, e),
                        },
                    },
                    (StopPhase::Saving, Reply::Done(Ok(_))) => after.registry()
                        == before.registry() && after.cache()
                        == before.cache().insert(
                        run.id,
                        run.metadata@,
                    ) && (out matches Step::Ask(StopInstance::Running(next), d) && next.id == run.id
                        && next.metadata == run.metadata && (
                    next.phase matches StopPhase::Cleaning(c) && c == (Cleanup {
                        id: run.id,
                        phase: CleanupPhase::Killing(KillGuests::Swept { id: run.id }),
                    })) && effects_view(d.effects@) == sweep_effects(run.id) && asks_search(
                        d.call,
                        run.id,
                    )),
                    (StopPhase::Saving, Reply::Done(Err(e))) => after.registry()
                        == before.registry() && after.cache()
                        == before.cache() && fails(
                        out,
                        e.brief(),
                    ),
                    (StopPhase::Cleaning(c), _) => (exists|inner: Step<Cleanup,
                        Result<crate::cleanup::CleanupOutcome, String>>|
                            #[trigger] c.stepped(&before.config, before.daemon_pid, reply, clock,
                                inner)
                                && crate::host::passes_on(inner, out))
                        && after.registry()
                        == before.registry() && after.cache() == before.cache()
                        && match c.next_phase(reply) {
                        Some(phase) => out matches Step::Ask(StopInstance::Running(next), _)
                            && next.id == run.id && next.metadata == run.metadata && (
                        next.phase matches StopPhase::Cleaning(c2) && c2 == (Cleanup {
                            id: c.id,
                            phase,
                        })),
                        None => if c.concludes(reply) {
                            after_teardown(
                                out,
                                before.config@,
                                before.daemon_pid,
                                run,
                                c.id,
                                crate::cleanup::found_by(reply),
                                clock,
                            )
                        } else {
                            fails(out, unexpected_reply())
                        },
                    },
                    (StopPhase::Resaving(outcome), Reply::Done(Ok(_))) => after.registry()
                        == before.registry() && after.cache()
                            == before.cache().insert(run.id, run.metadata@)
                            && (out matches Step::Done(
                        Ok(response),
                        last,
                    ) && response@ == stop_response(
                        run.metadata@,
                        before.config.adb_host@,
                        outcome,
                    ) && last@.len() == 0),
                    (StopPhase::Resaving(outcome), Reply::Done(Err(e))) => after.registry()
                        == before.registry() && after.cache()
                            == before.cache() && fails(out, e.brief()),
                    _ => after.registry() == before.registry()
                        && after.cache() == before.cache()
                        && fails(out, unexpected_reply()),
                },
            })
    }

    /// Continues a stop.
    ///
    /// * A termination that fails ends the stop with its failure.
    /// * The record is written with the state that follows the exit, then
    ///   cached, and the host state is torn down.
    /// * A teardown that leaves processes running forces the record to
    ///   `Failed`, whatever the exit was; it is written and cached again.
    /// * The response carries the summary of the record as last written and
    ///   the outcome of the teardown.
    pub fn resume(self, manager: &mut InstanceManager, reply: Reply, clock: &Clock) -> (out: Step<
        StopInstance,
        ActionResult,
    >)
        ensures
            self.stepped(old(manager), final(manager), reply, *clock, out),
    {
        match self {
            StopInstance::Loading { id } => {
                match reply {
                    Reply::Metadata(Ok(m)) => Self::stop(manager, id, m, clock),
                    Reply::Metadata(Err(e)) => Step::Done(Err(e), Vec::new()),
                    _ => Step::Done(Err(unexpected()), Vec::new()),
                }
            },
            StopInstance::Running(run) => {
                let StopRun { id, metadata, phase } = run;
                match (phase, reply) {
                    (StopPhase::Stopping(stop), reply) => {
                        let ghost answer = reply;
                        let stepped = stop.resume(&mut manager.guest_registry, reply);
                        assert(stop.stepped(
                            old(manager).registry(),
                            manager.registry(),
                            answer,
                            stepped,
                        ));
                        match stepped {
                            Step::Ask(next, d) => Step::Ask(
                                StopInstance::Running(
                                    StopRun { id, metadata, phase: StopPhase::Stopping(next) },
                                ),
                                d,
                            ),
                            Step::Done(Ok(exit), _) => {
                                let run = StopRun { id, metadata, phase: StopPhase::Saving };
                                run.save(manager, exit, clock)
                            },
                            Step::Done(Err(e), _) => Step::Done(Err(e), Vec::new()),
                        }
                    },
                    (StopPhase::Saving, Reply::Done(Ok(_))) => {
                        manager.remember(id, &metadata);
                        let (cleanup, directive) = Cleanup::begin(id);
                        Step::Ask(
                            StopInstance::Running(
                                StopRun { id, metadata, phase: StopPhase::Cleaning(cleanup) },
                            ),
                            directive,
                        )
                    },
                    (StopPhase::Saving, Reply::Done(Err(e)))
                        => Step::Done(Err(e.in_brief()), Vec::new()),
                    (StopPhase::Cleaning(cleanup), reply) => {
                        let ghost answer = reply;
                        let stepped = cleanup.resume(
                            &manager.config,
                            manager.daemon_pid,
                            reply,
                            clock,
                        );
                        assert(cleanup.stepped(
                            &manager.config,
                            manager.daemon_pid,
                            answer,
                            *clock,
                            stepped,
                        ));
                        match stepped {
                            Step::Ask(next, d) => Step::Ask(
                                StopInstance::Running(
                                    StopRun { id, metadata, phase: StopPhase::Cleaning(next) },
                                ),
                                d,
                            ),
                            Step::Done(Ok(outcome), last) => {
                                proof {
                                    let left = outcome.remaining_pids@;
                                    if left.len() > 0 {
                                        assert(left.contains(left[0]));
                                        assert(left.to_set().contains(left[0]));
                                    } else {
                                        assert(left.to_set() =~= Set::<i32>::empty());
                                        assert(left =~= Seq::<i32>::empty());
                                    }
                                }
                                if outcome.guest_processes_killed {
                                    let run = StopRun { id, metadata, phase: StopPhase::Saving };
                                    match run.finish(manager, outcome) {
                                        Step::Done(result, _) => Step::Done(result, last),
                                        Step::Ask(next, d) => Step::Ask(next, d),
                                    }
                                } else {
                                    match clock.now() {
                                        Ok(now) => {
                                            let mut failed = metadata;
                                            failed.state = InstanceState::Failed;
                                            failed.updated_at = now;
                                            let call = manager.write_call(id, &failed);
                                            Step::Ask(
                                                StopInstance::Running(
                                                    StopRun {
                                                        id,
                                                        metadata: failed,
                                                        phase: StopPhase::Resaving(outcome),
                                                    },
                                                ),
                                                Directive { effects: last, call },
                                            )
                                        },
                                        Err(e) => Step::Done(Err(e), last),
                                    }
                                }
                            },
                            Step::Done(Err(e), _) => Step::Done(Err(e), Vec::new()),
                        }
                    },
                    (StopPhase::Resaving(outcome), Reply::Done(Ok(_))) => {
                        manager.remember(id, &metadata);
                        let run = StopRun { id, metadata, phase: StopPhase::Saving };
                        run.finish(manager, outcome)
                    },
                    (StopPhase::Resaving(outcome), Reply::Done(Err(e))) => Step::Done(
                        Err(e.in_brief()),
                        Vec::new(),
                    ),
                    _ => Step::Done(Err(unexpected()), Vec::new()),
                }
            },
        }
    }
}

/// A status query that follows a successful stop answers with the state
/// that the stop reported: the stop ends with the summary of the record it
/// cached last, and the query answers with the summary of the cached record.
pub proof fn lemma_status_after_stop(
    op: StopInstance,
    before: &InstanceManager,
    after: &InstanceManager,
    reply: Reply,
    clock: Clock,
    out: Step<StopInstance, ActionResult>,
    status: Step<crate::lifecycle::Status, ActionResult>,
)
    requires
        op.settled(before),
        op.stepped(before, after, reply, clock, out),
        out matches Step::Done(Ok(_), _),
        crate::lifecycle::Status::begun(after, op.id(), None, status),
    ensures
        out matches Step::Done(Ok(stopped), _) && (status matches Step::Done(Ok(shown), _)
            && shown@.summary == stopped@.summary),
{
}

/// Where the follow-up of a guest exit stands.
#[derive(Debug)]
pub enum GuestExit {
    /// Waiting for the record to be read.
    Loading { id: InstanceId, exit: ExitStatusInfo },
    /// Waiting for the record to be written with the state after the exit.
    Saving { id: InstanceId, metadata: InstanceMetadata },
    /// The host state is being torn down.
    Cleaning(Cleanup),
}

/// How the follow-up of a guest exit ends.
pub type ExitResult = Result<(), String>;

/// Whether a step writes the record `m` of `id` in the state that follows
/// the exit, or fails because the clock cannot be read.
pub open spec fn records_exit(
    out: Step<GuestExit, ExitResult>,
    config: ConfigView,
    id: InstanceId,
    m: MetadataView,
    exit: ExitStatusInfo,
    clock: Clock,
) -> bool {
    match clock.epoch_secs {
        Some(now) => out matches Step::Ask(GuestExit::Saving { id: i, metadata }, d) && i == id
            && metadata@ == m.moved_to(state_after(Some(exit)), now) && d.effects@.len() == 0
            && asks_write(d.call, config, id, metadata@),
        None => fails(out, clock_failure()),
    }
}

impl GuestExit {
    fn record(
        manager: &InstanceManager,
        id: InstanceId,
        metadata: InstanceMetadata,
        exit: ExitStatusInfo,
        clock: &Clock,
    ) -> (out: Step<GuestExit, ExitResult>)
        ensures
            records_exit(out, manager.config@, id, metadata@, exit, *clock),
    {
        match clock.now() {
            Ok(now) => {
                let mut metadata = metadata;
                metadata.state = stop_state(Some(exit));
                metadata.updated_at = now;
                let call = manager.write_call(id, &metadata);
                Step::Ask(GuestExit::Saving { id, metadata }, ask(call))
            },
            Err(e) => Step::Done(Err(e), Vec::new()),
        }
    }

    /// Begins the follow-up of the exit of the guest of `id`, observed by
    /// the watcher that holds the handle `token`: that handle is dropped
    /// from the registry, and the record is taken from the cache or read.
    pub fn begin(
        manager: &mut InstanceManager,
        id: InstanceId,
        token: u64,
        exit: ExitStatusInfo,
        clock: &Clock,
    ) -> (out: Step<GuestExit, ExitResult>)
        ensures
            final(manager).same_setup(old(manager)),
            final(manager).cache() == old(manager).cache(),
            final(manager).registry() == crate::supervise::without_handle(
                old(manager).registry(),
                id,
                token,
            ),
            old(manager).cache().contains_key(id) ==> records_exit(
                out,
                old(manager).config@,
                id,
                old(manager).cache()[id],
                exit,
                *clock,
            ),
            !old(manager).cache().contains_key(id) ==> (out matches Step::Ask(next, d) && next == (
            GuestExit::Loading { id, exit }) && d.effects@.len() == 0 && asks_read(
                d.call,
                old(manager).config@,
                id,
            )),
    {
        manager.guest_registry.remove_if_handle(id, token);
        match manager.metadata_cache.get(id) {
            Some(metadata) => Self::record(manager, id, metadata, exit, clock),
            None => Step::Ask(GuestExit::Loading { id, exit }, ask(manager.read_call(id))),
        }
    }

    /// What one step does: the relation between the manager before and after
    /// the step, the host's answer, the clocks and the outcome of the step.
    pub open spec fn stepped(
        self,
        before: &InstanceManager,
        after: &InstanceManager,
        reply: Reply,
        clock: Clock,
        out: Step<GuestExit, ExitResult>,
    ) -> bool {
        &&& (after.same_setup(before))
        &&& (after.registry() == before.registry())
        &&& (match (self, reply) {
                (GuestExit::Loading { id, exit }, Reply::Metadata(Ok(m))) => after.cache()
                    == before.cache() && records_exit(
                    out,
                    before.config@,
                    id,
                    m@,
                    exit,
                    clock,
                ),
                (GuestExit::Loading { id, exit }, Reply::Metadata(Err(_)))
                    => after.cache() == before.cache()
                    && (out matches Step::Done(Ok(_), last)
                    && last@.len() == 0),
                (GuestExit::Saving { id, metadata }, Reply::Done(Ok(_))) => after.cache()
                    == before.cache().insert(id, metadata@) && (out matches Step::Ask(
                    GuestExit::Cleaning(c),
                    d,
                ) && c == (Cleanup {
                    id,
                    phase: CleanupPhase::Killing(KillGuests::Swept { id }),
                }) && effects_view(d.effects@) == sweep_effects(id) && asks_search(d.call, id)),
                (GuestExit::Saving { id, metadata }, Reply::Done(Err(e))) => after.cache()
                    == before.cache() && fails(out, e.brief()),
                (GuestExit::Cleaning(c), _) => (exists|inner: Step<Cleanup,
                    Result<crate::cleanup::CleanupOutcome, String>>|
                        #[trigger] c.stepped(&before.config, before.daemon_pid, reply, clock, inner)
                            && crate::host::passes_on(inner, out))
                    && after.cache() == before.cache()
                    && match c.next_phase(reply) {
                    Some(phase) => out matches Step::Ask(GuestExit::Cleaning(c2), _) && c2 == (
                    Cleanup { id: c.id, phase }),
                    None => if c.concludes(reply) {
                        out matches Step::Done(Ok(_), last) && effects_view(last@)
                            == crate::cleanup::closing_effects(
                            before.config@,
                            c.id,
                            crate::cleanup::found_by(reply) =~= Set::<i32>::empty(),
                            match clock.epoch_secs {
                                Some(t) => t,
                                None => 0,
                            },
                            before.daemon_pid,
                        )
                    } else {
                        fails(out, unexpected_reply())
                    },
                },
                _ => after.cache() == before.cache() && fails(
                    out,
                    unexpected_reply(),
                ),
            })
    }

    /// Continues the follow-up of a guest exit.
    ///
    /// An instance without a readable record is left alone. Otherwise the
    /// record moves to `Stopped` after a clean exit and to `Failed` after
    /// any other, is written and cached, and the host state is torn down.
    pub fn resume(self, manager: &mut InstanceManager, reply: Reply, clock: &Clock) -> (out: Step<
        GuestExit,
        ExitResult,
    >)
        ensures
            self.stepped(old(manager), final(manager), reply, *clock, out),
    {
        match (self, reply) {
            (GuestExit::Loading { id, exit }, Reply::Metadata(Ok(m))) => Self::record(
                manager,
                id,
                m,
                exit,
                clock,
            ),
            (GuestExit::Loading { id, exit }, Reply::Metadata(Err(_))) => Step::Done(
                Ok(()),
                Vec::new(),
            ),
            (GuestExit::Saving { id, metadata }, Reply::Done(Ok(_))) => {
                manager.remember(id, &metadata);
                let (cleanup, directive) = Cleanup::begin(id);
                Step::Ask(GuestExit::Cleaning(cleanup), directive)
            },
            (GuestExit::Saving { id, metadata }, Reply::Done(Err(e))) => Step::Done(
                Err(e.in_brief()),
                Vec::new(),
            ),
            (GuestExit::Cleaning(cleanup), reply) => {
                let ghost answer = reply;
                let stepped = cleanup.resume(&manager.config, manager.daemon_pid, reply, clock);
                assert(cleanup.stepped(
                    &manager.config,
                    manager.daemon_pid,
                    answer,
                    *clock,
                    stepped,
                ));
                match stepped {
                    Step::Ask(next, d) => Step::Ask(GuestExit::Cleaning(next), d),
                    Step::Done(Ok(outcome), last) => {
                        proof {
                            let left = outcome.remaining_pids@;
                            if left.len() > 0 {
                                assert(left.contains(left[0]));
                                assert(left.to_set().contains(left[0]));
                            } else {
                                assert(left.to_set() =~= Set::<i32>::empty());
                            }
                        }
                        Step::Done(Ok(()), last)
                    },
                    Step::Done(Err(e), last) => Step::Done(Err(e), last),
                }
            },
            _ => Step::Done(Err(unexpected()), Vec::new()),
        }
    }
}

/// Where a deployment stands.
#[derive(Debug)]
pub enum Deploy {
    /// Waiting for the record to be read.
    Loading { request: DeployRequest },
    /// Waiting for the images to be copied.
    Copying { request: DeployRequest, metadata: InstanceMetadata },
    /// Waiting for the record to be written.
    Saving { id: InstanceId, metadata: InstanceMetadata },
    /// Waiting for the environment file to be written.
    Exporting { id: InstanceId, metadata: InstanceMetadata },
}

/// How a deployment ends.
pub type DeployResult = Result<(), String>;

/// Where the boot image of instance `id` is deployed.
pub open spec fn deployed_boot(config: ConfigView, id: InstanceId) -> Seq<char> {
    joined(joined(instance_root_of(config, id), "artifacts"@), "boot.img"@)
}

/// Where the init boot image of instance `id` is deployed.
pub open spec fn deployed_init(config: ConfigView, id: InstanceId) -> Seq<char> {
    joined(joined(instance_root_of(config, id), "artifacts"@), "init_boot.img"@)
}

/// The copies that a deployment makes: one for each image that is given.
pub open spec fn deploy_copies(
    config: ConfigView,
    id: InstanceId,
    boot: Option<Seq<char>>,
    init: Option<Seq<char>>,
) -> Seq<FileStepView> {
    let first = match boot {
        Some(from) => seq![copy_step("boot image"@, from, deployed_boot(config, id))],
        None => Seq::<FileStepView>::empty(),
    };
    match init {
        Some(from) => first.push(copy_step("init_boot image"@, from, deployed_init(config, id))),
        None => first,
    }
}

/// The record after a deployment at time `now`: it points at the copy of
/// each image that was given.
pub open spec fn deployed_record(
    config: ConfigView,
    id: InstanceId,
    m: MetadataView,
    boot: bool,
    init: bool,
    now: u64,
) -> MetadataView {
    MetadataView {
        boot_image: if boot {
            deployed_boot(config, id)
        } else {
            m.boot_image
        },
        init_boot_image: if init {
            deployed_init(config, id)
        } else {
            m.init_boot_image
        },
        updated_at: now,
        ..m
    }
}

/// Whether a step asks for the copies of a deployment.
pub open spec fn begins_copies(
    out: Step<Deploy, DeployResult>,
    config: ConfigView,
    request: DeployRequest,
    m: MetadataView,
) -> bool {
    out matches Step::Ask(Deploy::Copying { request: r, metadata }, d) && r == request && metadata@
        == m && d.effects@.len() == 0 && (d.call matches HostCall::Files { steps }
        && file_steps_view(steps@) == deploy_copies(
        config,
        request.id,
        request.boot_image.deep_view(),
        request.init_boot_image.deep_view(),
    ))
}

impl Deploy {
    fn copy(manager: &InstanceManager, request: DeployRequest, metadata: InstanceMetadata) -> (out:
        Step<Deploy, DeployResult>)
        ensures
            begins_copies(out, manager.config@, request, metadata@),
    {
        let paths = manager.paths(request.id);
        let mut steps: Vec<FileStep> = Vec::new();
        match &request.boot_image {
            Some(from) => {
                steps.push(
                    FileStep::copy(
                        "boot image",
                        from.clone(),
                        join_path(paths.artifacts.as_str(), "boot.img"),
                    ),
                );
            },
            None => {},
        }
        match &request.init_boot_image {
            Some(from) => {
                steps.push(
                    FileStep::copy(
                        "init_boot image",
                        from.clone(),
                        join_path(paths.artifacts.as_str(), "init_boot.img"),
                    ),
                );
            },
            None => {},
        }
        assert(file_steps_view(steps@) =~= deploy_copies(
            manager.config@,
            request.id,
            request.boot_image.deep_view(),
            request.init_boot_image.deep_view(),
        ));
        Step::Ask(Deploy::Copying { request, metadata }, ask(HostCall::Files { steps }))
    }

    /// What the first step does: the relation between the manager, the
    /// clocks and the outcome of the step.
    pub open spec fn begun(
        manager: &InstanceManager,
        request: DeployRequest,
        out: Step<Deploy, DeployResult>,
    ) -> bool {
        &&& (manager.cache().contains_key(request.id) ==> begins_copies(
                out,
                manager.config@,
                request,
                manager.cache()[request.id],
            ))
        &&& (!manager.cache().contains_key(request.id) ==> (out matches Step::Ask(
                Deploy::Loading { request: r },
                d,
            ) && r == request && d.effects@.len() == 0 && asks_read(
                d.call,
                manager.config@,
                request.id,
            )))
    }

    /// Begins a deployment: with the record from the cache, or after
    /// reading it, the given images are copied into the workspace.
    pub fn begin(manager: &InstanceManager, request: DeployRequest) -> (out: Step<
        Deploy,
        DeployResult,
    >)
        ensures
            Self::begun(manager, request, out),
    {
        match manager.metadata_cache.get(request.id) {
            Some(metadata) => Self::copy(manager, request, metadata),
            None => {
                let call = manager.read_call(request.id);
                Step::Ask(Deploy::Loading { request }, ask(call))
            },
        }
    }

    /// What one step does: the relation between the manager before and after
    /// the step, the host's answer, the clocks and the outcome of the step.
    pub open spec fn stepped(
        self,
        before: &InstanceManager,
        after: &InstanceManager,
        reply: Reply,
        clock: Clock,
        out: Step<Deploy, DeployResult>,
    ) -> bool {
        &&& (after.same_setup(before))
        &&& (after.registry() == before.registry())
        &&& (!(self is Exporting && reply matches Reply::Done(Ok(_))) ==> after.cache()
                == before.cache())
        &&& (out matches Step::Done(Ok(_), _) ==> self is Exporting && reply matches Reply::Done(
                Ok(_),
            ))
        &&& (match (self, reply) {
                (Deploy::Loading { request }, Reply::Metadata(Ok(m))) => begins_copies(
                    out,
                    before.config@,
                    request,
                    m@,
                ),
                (Deploy::Loading { request }, Reply::Metadata(Err(e))) => fails(out, e@),
                (Deploy::Copying { request, metadata }, Reply::Done(Ok(_)))
                    => match clock.epoch_secs {
                    Some(now) => out matches Step::Ask(Deploy::Saving { id, metadata: m }, d) && id
                        == request.id && m@ == deployed_record(
                        before.config@,
                        request.id,
                        metadata@,
                        request.boot_image is Some,
                        request.init_boot_image is Some,
                        now,
                    ) && m.state == metadata.state && d.effects@.len() == 0 && asks_write(
                        d.call,
                        before.config@,
                        id,
                        m@,
                    ),
                    None => fails(out, clock_failure()),
                },
                (Deploy::Saving { id, metadata }, Reply::Done(Ok(_))) => match clock.epoch_secs {
                    Some(now) => out matches Step::Ask(Deploy::Exporting { id: i, metadata: m }, d)
                        && i == id && m == metadata && d.effects@.len() == 0 && asks_env(
                        d.call,
                        before.config@,
                        id,
                        metadata@,
                        now,
                    ),
                    None => fails(out, clock_failure()),
                },
                (Deploy::Exporting { id, metadata }, Reply::Done(Ok(_))) => after.cache()
                    == before.cache().insert(id, metadata@) && (out matches Step::Done(
                    Ok(_),
                    last,
                ) && last@.len() == 0),
                (Deploy::Copying { .. }, Reply::Done(Err(e))) => fails(out, e.brief()),
                (Deploy::Saving { .. }, Reply::Done(Err(e))) => fails(out, e.brief()),
                (Deploy::Exporting { .. }, Reply::Done(Err(e))) => fails(out, e.brief()),
                _ => fails(out, unexpected_reply()),
            })
    }

    /// Continues a deployment.
    ///
    /// Once the images are copied the record points at the copies and is
    /// written together with the environment file; then it is cached. The
    /// state of the instance does not change. Any failure ends the
    /// deployment with the cause.
    pub fn resume(self, manager: &mut InstanceManager, reply: Reply, clock: &Clock) -> (out: Step<
        Deploy,
        DeployResult,
    >)
        ensures
            self.stepped(old(manager), final(manager), reply, *clock, out),
    {
        match (self, reply) {
            (Deploy::Loading { request }, Reply::Metadata(Ok(m)))
                => Self::copy(manager, request, m),
            (Deploy::Loading { request }, Reply::Metadata(Err(e)))
                => Step::Done(Err(e), Vec::new()),
            (Deploy::Copying { request, metadata }, Reply::Done(Ok(_))) => {
                match clock.now() {
                    Ok(now) => {
                        let paths = manager.paths(request.id);
                        let mut metadata = metadata;
                        if request.boot_image.is_some() {
                            metadata.boot_image = join_path(paths.artifacts.as_str(), "boot.img");
                        }
                        if request.init_boot_image.is_some() {
                            metadata.init_boot_image = join_path(
                                paths.artifacts.as_str(),
                                "init_boot.img",
                            );
                        }
                        metadata.updated_at = now;
                        let call = manager.write_call(request.id, &metadata);
                        Step::Ask(Deploy::Saving { id: request.id, metadata }, ask(call))
                    },
                    Err(e) => Step::Done(Err(e), Vec::new()),
                }
            },
            (Deploy::Saving { id, metadata }, Reply::Done(Ok(_))) => {
                match clock.now() {
                    Ok(now) => {
                        let call = manager.env_call(id, &metadata, now);
                        Step::Ask(Deploy::Exporting { id, metadata }, ask(call))
                    },
                    Err(e) => Step::Done(Err(e), Vec::new()),
                }
            },
            (Deploy::Exporting { id, metadata }, Reply::Done(Ok(_))) => {
                manager.remember(id, &metadata);
                Step::Done(Ok(()), Vec::new())
            },
            (Deploy::Copying { .. }, Reply::Done(Err(e)))
                => Step::Done(Err(e.in_brief()), Vec::new()),
            (Deploy::Saving { .. }, Reply::Done(Err(e)))
                => Step::Done(Err(e.in_brief()), Vec::new()),
            (Deploy::Exporting { .. }, Reply::Done(Err(e)))
                => Step::Done(Err(e.in_brief()), Vec::new()),
            _ => Step::Done(Err(unexpected()), Vec::new()),
        }
    }
}

} // verus!
