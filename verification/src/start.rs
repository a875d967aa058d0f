//! Starting an instance: validation, a clean slate on the host, the launch
//! of the guest, and the wait for its bridge.

use vstd::prelude::*;
use crate::adb_wait::{WaitForAdb, WaitResult};
use crate::boot::VerifyBoot;
use crate::cleanup::{
    asks_search, sweep_effects, teardown, teardown_effects, trash_path, trash_path_of, KillGuests,
};
use crate::config::{host_assembly_dir_of, host_instance_dir_of, ConfigView};
use crate::guest::GuestHandle;
use crate::host::{
    clock_failure, create_step, deadline_from_timeout, effects_view, file_steps_view,
    secs_remaining, trash_step, unexpected, unexpected_reply, Clock, Effect, EffectView, FileStep,
    FileStepView, HostCall, LaunchReport, Reply, Step,
};
use crate::launcher::{daemon_launch, spawn_guest_process};
use crate::manager::{ask, ask_after, asks_env, asks_read, asks_write, InstanceManager};
use crate::metadata::{InstanceMetadata, MetadataView};
use crate::protocol::{
    detail, error_detail, plain_action, ErrorDetail, InstanceActionResponse, InstanceId,
    InstanceState, StartOptions,
};
use crate::supervise::{Terminate, TerminatePhase};
use crate::text::{decimal, decimal_string, join2, join3};

verus! {

/// Milliseconds of grace given to a guest that is terminated because its
/// bridge never came up during a start.
pub const START_GRACE_MILLIS: u64 = 5000;

/// How a start ends.
pub type StartResult = Result<InstanceActionResponse, ErrorDetail>;

/// Where a start stands.
#[derive(Debug)]
pub enum StartPhase {
    /// Waiting for the record to be written in state `Starting`.
    MarkingStart,
    /// Waiting for the environment file to be written.
    ExportingStart,
    /// The kill pass of the preflight cleanup is under way.
    Preflight(KillGuests),
    /// Waiting for the launcher's directories to be made anew.
    PreparingDirs,
    /// Waiting for the emulator's data directory.
    EnsuringQemu,
    /// Waiting to learn which images exist.
    ProbingImages,
    /// Waiting for the guest to be spawned.
    Launching,
    /// The spawn failed; waiting for the failed record to be written.
    MarkingFailed { cause: String },
    /// The guest runs; waiting for the running record to be written.
    MarkingRunning { token: u64 },
    /// Waiting for the bridge.
    Waiting { wait: WaitForAdb, token: u64, deadline: Option<u64> },
    /// The bridge never came up; the guest is being terminated.
    Aborting { stop: Terminate, failure: ErrorDetail },
    /// The bridge is up; the boot is being verified.
    Verifying { verify: VerifyBoot, token: u64, response: InstanceActionResponse },
}

/// A start whose record is loaded.
#[derive(Debug)]
pub struct StartRun {
    pub id: InstanceId,
    pub options: StartOptions,
    pub metadata: InstanceMetadata,
    pub phase: StartPhase,
}

/// The start of one instance.
#[derive(Debug)]
pub enum StartInstance {
    /// Waiting for the record to be read.
    Loading { id: InstanceId, options: StartOptions },
    Running(StartRun),
}

/// The message for options that exclude each other.
pub open spec fn invalid_options() -> Seq<char> {
    "cannot use both skip_adb_wait and verify_boot (boot verification requires ADB)"@
}

/// The message for an instance that already has a live guest.
pub open spec fn already_running(id: InstanceId) -> Seq<char> {
    "instance "@ + decimal(id as nat) + " already running"@
}

/// The message for a guest that could not be spawned.
pub open spec fn spawn_failed(cause: Seq<char>) -> Seq<char> {
    "launching cuttlefish guest: "@ + cause
}

/// Whether a step fails at once with the given code and message.
pub open spec fn start_fails(out: Step<StartInstance, StartResult>, code: Seq<char>,
    message: Seq<char>) -> bool {
    out matches Step::Done(Err(e), last) && e@ == detail(code, message) && last@.len() == 0
}

/// The steps that make the launcher's directories of an instance anew:
/// their parents are created, what is left of an earlier run is moved away,
/// and the two directories are created.
pub open spec fn prepare_steps(config: ConfigView, id: InstanceId, epoch: u64, pid: u32) -> Seq<
    FileStepView,
> {
    seq![
        create_step("instances root"@, config.cuttlefish_instances_dir),
        create_step("assembly root"@, config.cuttlefish_assembly_dir),
        trash_step(
            host_instance_dir_of(config, id),
            trash_path_of(config.cuttlefish_instances_dir, id, epoch, pid),
        ),
        trash_step(
            host_assembly_dir_of(config, id),
            trash_path_of(config.cuttlefish_assembly_dir, id, epoch, pid),
        ),
        create_step("instance dir"@, host_instance_dir_of(config, id)),
        create_step("assembly dir"@, host_assembly_dir_of(config, id)),
    ]
}

/// The time used in names of directories on their way out: the wall clock, or zero without one.
pub open spec fn epoch_or_zero(clock: Clock) -> u64 {
    match clock.epoch_secs {
        Some(t) => t,
        None => 0,
    }
}

/// The deadline of a start without one of its own: the timeout asked for,
/// or the configured one, from now.
pub open spec fn start_deadline(options: StartOptions, config: ConfigView, clock: Clock) -> u64 {
    clock.deadline_after(
        match options.timeout_secs {
            Some(secs) => secs,
            None => config.start_timeout_secs,
        },
    )
}

/// The whole seconds left until an optional deadline.
pub open spec fn seconds_left(deadline: Option<u64>, clock: Clock) -> Option<u64> {
    match deadline {
        Some(d) => Some(crate::host::seconds_until(d, clock.millis)),
        None => None,
    }
}

/// How a start goes on from a step of its boot verification: a step that
/// asks is passed on, a confirmed boot ends the start with the verification
/// added to the response and the exit of the guest watched, and a failure
/// ends it as it is.
pub open spec fn follows_verify(
    out: Step<StartInstance, StartResult>,
    id: InstanceId,
    options: StartOptions,
    metadata: InstanceMetadata,
    token: u64,
    response: InstanceActionResponse,
    inner: Step<VerifyBoot, crate::boot::BootResult>,
) -> bool {
    match inner {
        Step::Ask(v, d) => out matches Step::Ask(StartInstance::Running(next), o) && o == d
            && next.id == id && next.options == options && next.metadata == metadata
            && (next.phase matches StartPhase::Verifying { verify, token: t, response: r }
            && verify == v && t == token && r == response),
        Step::Done(Ok(result), _) => out matches Step::Done(Ok(r), last) && r@ == (
        crate::protocol::ActionView { verification: Some(result@), ..response@ }) && r.summary
            == response.summary && effects_view(last@) == watch(id, token),
        Step::Done(Err(failure), _) => out matches Step::Done(Err(f), last) && f == failure
            && last@.len() == 0,
    }
}

/// How a start goes on from a step of its wait for the bridge: a step that
/// asks is passed on; a failed wait has the guest terminated before the
/// failure is reported, or reported at once where no guest is registered;
/// a successful one ends the start with the exit of the guest watched, or
/// begins the verification of the boot where that was asked for.
pub open spec fn follows_wait(
    out: Step<StartInstance, StartResult>,
    manager: &InstanceManager,
    id: InstanceId,
    options: StartOptions,
    metadata: InstanceMetadata,
    token: u64,
    deadline: Option<u64>,
    inner: Step<WaitForAdb, WaitResult>,
    clock: Clock,
) -> bool {
    match inner {
        Step::Ask(w, d) => out matches Step::Ask(StartInstance::Running(next), o) && o == d
            && next.id == id && next.options == options && next.metadata == metadata
            && (next.phase matches StartPhase::Waiting { wait, token: t, deadline: limit }
            && wait == w && t == token && limit == deadline),
        Step::Done(Err(failure), _) => if manager.registry().contains_key(id) {
            out matches Step::Ask(StartInstance::Running(next), d) && next.id == id
                && next.options == options && next.metadata == metadata
                && (next.phase matches StartPhase::Aborting { stop, failure: f } && f == failure
                && stop == (Terminate {
                id,
                token: manager.registry()[id],
                grace_millis: START_GRACE_MILLIS,
                phase: TerminatePhase::Asked,
            })) && d.effects@.len() == 0 && d.call == (HostCall::Signal {
                token: manager.registry()[id],
                signal: crate::host::GuestSignal::Terminate,
            })
        } else {
            out matches Step::Done(Err(f), last) && f == failure && last@.len() == 0
        },
        Step::Done(Ok(response), _) => if options.verify_boot {
            exists|v: Step<VerifyBoot, crate::boot::BootResult>|
                #[trigger] VerifyBoot::begun(manager, id, seconds_left(deadline, clock), clock, v)
                    && follows_verify(out, id, options, metadata, token, response, v)
        } else {
            out matches Step::Done(Ok(r), last) && r == response && effects_view(last@) == watch(
                id,
                token,
            )
        },
    }
}

/// Whether a step begins the start proper for the record `m`: the record
/// is written in state `Starting`, or the start fails because the clock
/// cannot be read.
pub open spec fn marks_start(
    out: Step<StartInstance, StartResult>,
    config: ConfigView,
    id: InstanceId,
    options: StartOptions,
    m: MetadataView,
    clock: Clock,
) -> bool {
    match clock.epoch_secs {
        Some(now) => out matches Step::Ask(StartInstance::Running(run), d) && run.id == id
            && run.options == options && run.metadata@ == m.moved_to(InstanceState::Starting, now)
            && run.phase is MarkingStart && d.effects@.len() == 0 && asks_write(
            d.call,
            config,
            id,
            run.metadata@,
        ),
        None => start_fails(out, "start_instance_timestamp"@, clock_failure()),
    }
}

/// The effect that has the exit of a guest watched.
pub open spec fn watch(id: InstanceId, token: u64) -> Seq<EffectView> {
    seq![EffectView::WatchExit { id, token }]
}

/// A status query that follows a successful start answers `Running`,
/// never `Starting`: a successful start leaves a running record in the
/// cache, and a status query answers with the summary of the cached record.
pub proof fn lemma_status_after_start(
    cache: Map<InstanceId, MetadataView>,
    id: InstanceId,
    host: Seq<char>,
)
    requires
        cache.contains_key(id),
        cache[id].state == InstanceState::Running,
    ensures
        plain_action(cache[id].summary(host)).summary.state == InstanceState::Running,
        plain_action(cache[id].summary(host)).summary.state != InstanceState::Starting,
        plain_action(cache[id].summary(host)).summary.id == cache[id].id,
{
}

/// A status query that follows a start which failed for want of the
/// bridge shows `Failed`: a start that ends when the run log is read, to
/// enrich the failure of its wait, leaves a failed record in the cache, and
/// a status query answers with the summary of the cached record.
pub proof fn lemma_status_after_failed_start(
    op: StartInstance,
    before: &InstanceManager,
    after: &InstanceManager,
    reply: Reply,
    clock: Clock,
    out: Step<StartInstance, StartResult>,
    status: Step<crate::lifecycle::Status, crate::lifecycle::ActionResult>,
)
    requires
        op.settled(before),
        op.reads_log(),
        op.stepped(before, after, reply, clock, out),
        out matches Step::Done(Err(_), _),
        crate::lifecycle::Status::begun(after, op.id(), None, status),
    ensures
        status matches Step::Done(Ok(shown), _) && shown@.summary.state == InstanceState::Failed,
{
}

fn watcher(id: InstanceId, token: u64) -> (out: Vec<Effect>)
    ensures
        effects_view(out@) == watch(id, token),
{
    let mut out: Vec<Effect> = Vec::new();
    out.push(Effect::WatchExit { id, token });
    assert(effects_view(out@) =~= watch(id, token));
    out
}

fn fail(code: &str, message: String) -> (out: Step<StartInstance, StartResult>)
    ensures
        start_fails(out, code@, message@),
{
    Step::Done(Err(error_detail(code, message)), Vec::new())
}

fn prepare(manager: &InstanceManager, id: InstanceId, clock: &Clock) -> (out: Vec<FileStep>)
    ensures
        file_steps_view(out@) == prepare_steps(
            manager.config@,
            id,
            epoch_or_zero(*clock),
            manager.daemon_pid,
        ),
{
    let epoch = match clock.epoch_secs {
        Some(t) => t,
        None => 0,
    };
    let config = &manager.config;
    let mut out: Vec<FileStep> = Vec::new();
    out.push(FileStep::create("instances root", config.cuttlefish_instances_dir.clone()));
    out.push(FileStep::create("assembly root", config.cuttlefish_assembly_dir.clone()));
    out.push(
        FileStep::trash(
            config.host_instance_dir(id),
            trash_path(config.cuttlefish_instances_dir.as_str(), id, epoch, manager.daemon_pid),
        ),
    );
    out.push(
        FileStep::trash(
            config.host_assembly_dir(id),
            trash_path(config.cuttlefish_assembly_dir.as_str(), id, epoch, manager.daemon_pid),
        ),
    );
    out.push(FileStep::create("instance dir", config.host_instance_dir(id)));
    out.push(FileStep::create("assembly dir", config.host_assembly_dir(id)));
    assert(file_steps_view(out@) =~= prepare_steps(
        manager.config@,
        id,
        epoch_or_zero(*clock),
        manager.daemon_pid,
    ));
    out
}

impl StartInstance {
    /// The instance that is started.
    pub open spec fn id(&self) -> InstanceId {
        match self {
            StartInstance::Loading { id, .. } => *id,
            StartInstance::Running(run) => run.id,
        }
    }

    /// Whether the start waits for the end of the run log, to enrich the
    /// failure of its wait for the bridge.
    pub open spec fn reads_log(&self) -> bool {
        self matches StartInstance::Running(run) && (
        run.phase matches StartPhase::Waiting { wait, .. } && wait.reads_log())
    }

    /// What holds of a start between its steps as long as nothing else
    /// touches the instance: the record about to be written as running is a
    /// running one, a wait under way is settled, and while the boot is
    /// verified the cached record and the response to come say `Running`.
    pub open spec fn settled(&self, manager: &InstanceManager) -> bool {
        self matches StartInstance::Running(run) ==> match run.phase {
            StartPhase::MarkingRunning { token } => run.metadata.state == InstanceState::Running,
            StartPhase::Waiting { wait, token, deadline } => wait.settled(manager) && wait.id()
                == run.id,
            StartPhase::Verifying { verify, token, response } => manager.cache().contains_key(
                run.id,
            ) && manager.cache()[run.id].state == InstanceState::Running
                && response.summary.state == InstanceState::Running,
            _ => true,
        }
    }

    fn mark(
        manager: &InstanceManager,
        id: InstanceId,
        options: StartOptions,
        metadata: InstanceMetadata,
        clock: &Clock,
    ) -> (out: Step<StartInstance, StartResult>)
        ensures
            marks_start(out, manager.config@, id, options, metadata@, *clock),
    {
        match clock.now() {
            Ok(now) => {
                let mut starting = metadata;
                starting.state = InstanceState::Starting;
                starting.updated_at = now;
                let call = manager.write_call(id, &starting);
                Step::Ask(
                    StartInstance::Running(
                        StartRun { id, options, metadata: starting,
                            phase: StartPhase::MarkingStart },
                    ),
                    ask(call),
                )
            },
            Err(e) => fail("start_instance_timestamp", e),
        }
    }

    /// What the first step does: the relation between the manager, the
    /// clocks and the outcome of the step.
    pub open spec fn begun(
        manager: &InstanceManager,
        id: InstanceId,
        options: StartOptions,
        clock: Clock,
        out: Step<StartInstance, StartResult>,
    ) -> bool {
        &&& (if options.skip_adb_wait && options.verify_boot {
                start_fails(out, "start_instance_invalid_options"@, invalid_options())
            } else if manager.registry().contains_key(id) {
                start_fails(out, "start_instance_already_running"@, already_running(id))
            } else if manager.cache().contains_key(id) {
                marks_start(out, manager.config@, id, options, manager.cache()[id], clock)
            } else {
                out matches Step::Ask(next, d) && next == (StartInstance::Loading { id, options })
                    && d.effects@.len() == 0 && asks_read(d.call, manager.config@, id)
            })
        &&& (out matches Step::Ask(next, _) ==> next.id() == id && next.settled(manager))
        &&& (!(out matches Step::Done(Ok(_), _)))
    }

    /// Begins a start.
    ///
    /// Options that ask to skip the wait for the bridge and to verify the
    /// boot are rejected, and so is an instance that already has a live
    /// guest; both before anything is done on the host. Otherwise the
    /// record is taken from the cache, or read from its file, and written
    /// back in state `Starting`.
    pub fn begin(manager: &InstanceManager, id: InstanceId, options: StartOptions,
        clock: &Clock) -> (out:
        Step<StartInstance, StartResult>)
        ensures
            Self::begun(manager, id, options, *clock, out),
    {
        if options.skip_adb_wait && options.verify_boot {
            return fail(
                "start_instance_invalid_options",
                String::from_str(
                    "cannot use both skip_adb_wait and verify_boot (boot verification requires ADB)",
                ),
            );
        }
        if manager.guest_registry.contains(id) {
            let d = decimal_string(id);
            return fail(
                "start_instance_already_running",
                join3("instance ", d.as_str(), " already running"),
            );
        }
        match manager.metadata_cache.get(id) {
            Some(metadata) => Self::mark(manager, id, options, metadata, clock),
            None => Step::Ask(StartInstance::Loading { id, options }, ask(manager.read_call(id))),
        }
    }

    /// What one step does: the relation between the manager before and after
    /// the step, the host's answer, the clocks and the outcome of the step.
    pub open spec fn stepped(
        self,
        before: &InstanceManager,
        after: &InstanceManager,
        reply: Reply,
        clock: Clock,
        out: Step<StartInstance, StartResult>,
    ) -> bool {
        &&& (after.same_setup(before))
        &&& (out matches Step::Ask(next, _) ==> next.id() == self.id())
        &&& (self.settled(before) ==> match out {
                Step::Ask(next, _) => next.settled(after),
                Step::Done(Ok(response), _) => after.cache().contains_key(self.id())
                    && after.cache()[self.id()].state == InstanceState::Running
                    && response.summary.state == InstanceState::Running,
                Step::Done(Err(_), _) => self.reads_log() ==> after.cache().contains_key(
                    self.id(),
                ) && after.cache()[self.id()].state == InstanceState::Failed,
            })
        &&& (match self {
                StartInstance::Loading { id, options } => after.cache()
                    == before.cache() && after.registry() == before.registry()
                    && match reply {
                    Reply::Metadata(Ok(m)) => marks_start(
                        out,
                        before.config@,
                        id,
                        options,
                        m@,
                        clock,
                    ),
                    Reply::Metadata(Err(e)) => start_fails(out, "start_instance_metadata"@, e@),
                    _ => start_fails(out, "start_instance_metadata"@, unexpected_reply()),
                },
                StartInstance::Running(run) => {
                    let config = before.config@;
                    let same = after.cache() == before.cache()
                        && after.registry() == before.registry();
                    match (run.phase, reply) {
                        (StartPhase::MarkingStart, Reply::Done(Ok(_))) => same
                            && match clock.epoch_secs {
                            Some(now) => out matches Step::Ask(StartInstance::Running(next), d)
                                && next.id == run.id && next.options == run.options
                                && next.metadata == run.metadata && next.phase is ExportingStart
                                && d.effects@.len() == 0 && asks_env(
                                d.call,
                                config,
                                run.id,
                                run.metadata@,
                                now,
                            ),
                            None => start_fails(out, "start_instance_write_env"@, clock_failure()),
                        },
                        (StartPhase::MarkingStart, Reply::Done(Err(e))) => same && start_fails(
                            out,
                            "start_instance_write_metadata"@,
                            e.brief(),
                        ),
                        (StartPhase::ExportingStart, Reply::Done(Ok(_))) => after.cache()
                            == before.cache().insert(run.id, run.metadata@)
                                && after.registry() == before.registry() && (
                        out matches Step::Ask(StartInstance::Running(next), d) && next.id == run.id
                            && next.options == run.options && next.metadata == run.metadata && (
                        next.phase matches StartPhase::Preflight(kill) && kill == (
                        KillGuests::Swept { id: run.id })) && effects_view(d.effects@)
                            == sweep_effects(run.id) && asks_search(d.call, run.id)),
                        (StartPhase::ExportingStart, Reply::Done(Err(e))) => same && start_fails(
                            out,
                            "start_instance_write_env"@,
                            e.brief(),
                        ),
                        (StartPhase::Preflight(kill), Reply::Tools(_)) => same
                            && exists|inner: Step<KillGuests, Result<bool, String>>|
                            #[trigger] kill.stepped(reply, inner) && match inner {
                                Step::Ask(k, d) => out matches Step::Ask(
                                    StartInstance::Running(next),
                                    o,
                                ) && o == d && next.id == run.id && next.options == run.options
                                    && next.metadata == run.metadata
                                    && (next.phase matches StartPhase::Preflight(k2) && k2 == k),
                                Step::Done(_, _) => out matches Step::Ask(
                                    StartInstance::Running(next),
                                    d,
                                ) && next.id == run.id && next.options == run.options
                                    && next.metadata == run.metadata && next.phase is PreparingDirs
                                    && effects_view(d.effects@) == teardown_effects(run.id)
                                    && (d.call matches HostCall::Files { steps }
                                    && file_steps_view(steps@) == prepare_steps(
                                    config,
                                    run.id,
                                    epoch_or_zero(clock),
                                    before.daemon_pid,
                                )),
                            },
                        (StartPhase::PreparingDirs, Reply::Done(Ok(_))) => same && (
                        out matches Step::Ask(StartInstance::Running(next), d) && next.id == run.id
                            && next.options == run.options && next.metadata == run.metadata
                            && next.phase is EnsuringQemu && d.effects@.len() == 0
                            && d.call is EnsureQemuDatadir),
                        (StartPhase::PreparingDirs, Reply::Done(Err(e))) => same && start_fails(
                            out,
                            "start_instance_prepare_dirs"@,
                            e.brief(),
                        ),
                        (StartPhase::EnsuringQemu, Reply::Done(Ok(_))) => same && (
                        out matches Step::Ask(StartInstance::Running(next), d) && next.id == run.id
                            && next.options == run.options && next.metadata == run.metadata
                            && next.phase is ProbingImages && d.effects@.len() == 0 && (
                        d.call matches HostCall::Probe { paths } && paths.deep_view() == seq![
                            run.metadata.boot_image@,
                            run.metadata.init_boot_image@,
                        ])),
                        (StartPhase::EnsuringQemu, Reply::Done(Err(e))) => same && start_fails(
                            out,
                            "start_instance_ensure_qemu"@,
                            e.brief(),
                        ),
                        (StartPhase::ProbingImages, Reply::Flags(flags)) => same && if flags@.len()
                            == 2 {
                            out matches Step::Ask(StartInstance::Running(next), d) && next.id
                                == run.id && next.options == run.options && next.metadata
                                == run.metadata && next.phase is Launching && d.effects@.len() == 0
                                && (d.call matches HostCall::Launch { plan } && daemon_launch(
                                plan,
                                config,
                                run.id,
                                run.metadata@,
                                !run.options.disable_webrtc,
                                run.options.track.deep_view(),
                                flags@[0],
                                flags@[1],
                            ))
                        } else {
                            start_fails(out, "start_instance_protocol"@, unexpected_reply())
                        },
                        (StartPhase::Launching, Reply::Launched(LaunchReport::LogFailed(e))) => same
                            && start_fails(out, "start_instance_prepare_log"@, e.brief()),
                        (StartPhase::Launching, Reply::Launched(LaunchReport::SpawnFailed(e)))
                            => same
                            && match clock.epoch_secs {
                            Some(now) => out matches Step::Ask(StartInstance::Running(next), d)
                                && next.id == run.id && next.metadata@ == run.metadata@.moved_to(
                                InstanceState::Failed,
                                now,
                            ) && (next.phase matches StartPhase::MarkingFailed { cause } && cause@
                                == e.full()) && d.effects@.len() == 0 && asks_write(
                                d.call,
                                config,
                                run.id,
                                next.metadata@,
                            ),
                            None => start_fails(
                                out,
                                "start_instance_failed_timestamp"@,
                                clock_failure(),
                            ),
                        },
                        (
                            StartPhase::Launching,
                            Reply::Launched(LaunchReport::Spawned { pid, token }),
                        ) => after.registry() == before.registry().insert(run.id, token)
                            && after.cache() == before.cache() && if run.options.skip_adb_wait {
                            match clock.epoch_secs {
                                Some(now) => out matches Step::Ask(StartInstance::Running(next), d)
                                    && next.id == run.id && next.options == run.options
                                    && next.metadata@ == run.metadata@.moved_to(
                                    InstanceState::Running,
                                    now,
                                ) && (next.phase matches StartPhase::MarkingRunning { token: t }
                                    && t == token) && d.effects@.len() == 0 && asks_write(
                                    d.call,
                                    config,
                                    run.id,
                                    next.metadata@,
                                ),
                                None => start_fails(
                                    out,
                                    "start_instance_timestamp_after_skip"@,
                                    clock_failure(),
                                ),
                            }
                        } else {
                            let deadline = Some(start_deadline(run.options, config, clock));
                            exists|inner: Step<WaitForAdb, WaitResult>|
                                #[trigger] WaitForAdb::begun(
                                    after,
                                    run.id,
                                    seconds_left(deadline, clock),
                                    clock,
                                    inner,
                                ) && follows_wait(
                                    out,
                                    after,
                                    run.id,
                                    run.options,
                                    run.metadata,
                                    token,
                                    deadline,
                                    inner,
                                    clock,
                                )
                        },
                        (StartPhase::MarkingFailed { cause }, _) => after.registry()
                            == before.registry() && after.cache()
                                == before.cache().insert(run.id, run.metadata@)
                                && start_fails(
                            out,
                            "start_instance_spawn_failed"@,
                            spawn_failed(cause@),
                        ),
                        (StartPhase::MarkingRunning { token }, Reply::Done(Ok(_)))
                            => after.registry() == before.registry()
                            && after.cache()
                            == before.cache().insert(run.id, run.metadata@)
                            && (out matches Step::Done(
                            Ok(response),
                            last,
                        ) && response@ == plain_action(
                            run.metadata@.summary(before.config.adb_host@),
                        ) && effects_view(last@) == watch(run.id, token)),
                        (StartPhase::MarkingRunning { token }, Reply::Done(Err(e))) => same
                            && start_fails(out, "start_instance_write_metadata_after_skip"@,
                                e.brief()),
                        (StartPhase::Waiting { wait, token, deadline }, _) => exists|
                            inner: Step<WaitForAdb, WaitResult>,
                        |
                            #[trigger] wait.stepped(before, after, reply, clock, inner)
                                && follows_wait(
                                out,
                                after,
                                run.id,
                                run.options,
                                run.metadata,
                                token,
                                deadline,
                                inner,
                                clock,
                            ),
                        (StartPhase::Aborting { stop, failure }, _) => after.cache()
                            == before.cache() && exists|
                            inner: Step<Terminate, crate::supervise::Termination>,
                        |
                            #[trigger] stop.stepped(
                                before.registry(),
                                after.registry(),
                                reply,
                                inner,
                            ) && match inner {
                                Step::Ask(s, d) => out matches Step::Ask(
                                    StartInstance::Running(next),
                                    o,
                                ) && o == d && next.id == run.id && next.options == run.options
                                    && next.metadata == run.metadata
                                    && (next.phase matches StartPhase::Aborting {
                                    stop: s2,
                                    failure: f,
                                } && s2 == s && f == failure),
                                Step::Done(_, _) => out matches Step::Done(Err(f), last) && f
                                    == failure && last@.len() == 0,
                            },
                        (StartPhase::Verifying { verify, token, response }, _) => same && exists|
                            inner: Step<VerifyBoot, crate::boot::BootResult>,
                        |
                            #[trigger] verify.stepped(before, reply, clock, inner)
                                && follows_verify(
                                out,
                                run.id,
                                run.options,
                                run.metadata,
                                token,
                                response,
                                inner,
                            ),
                        _ => same && start_fails(
                            out,
                            "start_instance_protocol"@,
                            unexpected_reply(),
                        ),
                    }
                },
            })
    }

    /// Continues a start with the host's answer.
    ///
    /// Each step that can fail has its own code: reading the record
    /// (`start_instance_metadata`), writing it (`start_instance_write_metadata`),
    /// writing the environment file (`start_instance_write_env`), making the
    /// directories (`start_instance_prepare_dirs`), the emulator's data
    /// directory (`start_instance_ensure_qemu`), opening the run log
    /// (`start_instance_prepare_log`) and spawning the guest
    /// (`start_instance_spawn_failed`, after the record is marked failed).
    /// A spawned guest is registered. Without a wait for the bridge the
    /// record is written as running and the start ends; otherwise the
    /// bridge is waited for, a failed wait terminates the guest before it
    /// is reported, and a requested boot verification follows a successful
    /// one. Every successful end has the exit of the guest watched.
    pub fn resume(self, manager: &mut InstanceManager, reply: Reply, clock: &Clock) -> (out: Step<
        StartInstance,
        StartResult,
    >)
        ensures
            self.stepped(old(manager), final(manager), reply, *clock, out),
    {
        match self {
            StartInstance::Loading { id, options } => {
                match reply {
                    Reply::Metadata(Ok(m)) => Self::mark(manager, id, options, m, clock),
                    Reply::Metadata(Err(e)) => fail("start_instance_metadata", e),
                    _ => fail("start_instance_metadata", unexpected()),
                }
            },
            StartInstance::Running(run) => {
                let StartRun { id, options, metadata, phase } = run;
                match (phase, reply) {
                    (StartPhase::MarkingStart, Reply::Done(Ok(_))) => {
                        match clock.now() {
                            Ok(now) => {
                                let call = manager.env_call(id, &metadata, now);
                                Step::Ask(
                                    StartInstance::Running(
                                        StartRun {
                                            id,
                                            options,
                                            metadata,
                                            phase: StartPhase::ExportingStart,
                                        },
                                    ),
                                    ask(call),
                                )
                            },
                            Err(e) => fail("start_instance_write_env", e),
                        }
                    },
                    (StartPhase::MarkingStart, Reply::Done(Err(e))) => fail(
                        "start_instance_write_metadata",
                        e.in_brief(),
                    ),
                    (StartPhase::ExportingStart, Reply::Done(Ok(_))) => {
                        manager.remember(id, &metadata);
                        let (kill, directive) = KillGuests::begin(id);
                        Step::Ask(
                            StartInstance::Running(
                                StartRun { id, options, metadata,
                                    phase: StartPhase::Preflight(kill) },
                            ),
                            directive,
                        )
                    },
                    (StartPhase::ExportingStart, Reply::Done(Err(e))) => fail(
                        "start_instance_write_env",
                        e.in_brief(),
                    ),
                    (StartPhase::Preflight(kill), Reply::Tools(runs)) => {
                        let stepped = kill.resume(Reply::Tools(runs));
                        assert(kill.stepped(reply, stepped));
                        match stepped {
                            Step::Ask(next, directive) => Step::Ask(
                                StartInstance::Running(
                                    StartRun {
                                        id,
                                        options,
                                        metadata,
                                        phase: StartPhase::Preflight(next),
                                    },
                                ),
                                directive,
                            ),
                            Step::Done(_, _) => {
                                let steps = prepare(manager, id, clock);
                                Step::Ask(
                                    StartInstance::Running(
                                        StartRun {
                                            id,
                                            options,
                                            metadata,
                                            phase: StartPhase::PreparingDirs,
                                        },
                                    ),
                                    ask_after(teardown(id), HostCall::Files { steps }),
                                )
                            },
                        }
                    },
                    (StartPhase::PreparingDirs, Reply::Done(Ok(_))) => Step::Ask(
                        StartInstance::Running(
                            StartRun { id, options, metadata, phase: StartPhase::EnsuringQemu },
                        ),
                        ask(HostCall::EnsureQemuDatadir),
                    ),
                    (StartPhase::PreparingDirs, Reply::Done(Err(e))) => fail(
                        "start_instance_prepare_dirs",
                        e.in_brief(),
                    ),
                    (StartPhase::EnsuringQemu, Reply::Done(Ok(_))) => {
                        let mut paths: Vec<String> = Vec::new();
                        paths.push(metadata.boot_image.clone());
                        paths.push(metadata.init_boot_image.clone());
                        assert(paths.deep_view() =~= seq![
                            metadata.boot_image@,
                            metadata.init_boot_image@,
                        ]);
                        Step::Ask(
                            StartInstance::Running(
                                StartRun { id, options, metadata,
                                    phase: StartPhase::ProbingImages },
                            ),
                            ask(HostCall::Probe { paths }),
                        )
                    },
                    (StartPhase::EnsuringQemu, Reply::Done(Err(e))) => fail(
                        "start_instance_ensure_qemu",
                        e.in_brief(),
                    ),
                    (StartPhase::ProbingImages, Reply::Flags(flags)) => {
                        if flags.len() != 2 {
                            return fail("start_instance_protocol", unexpected());
                        }
                        let plan = spawn_guest_process(
                            &manager.config,
                            id,
                            &metadata,
                            !options.disable_webrtc,
                            &options.track,
                            flags[0],
                            flags[1],
                        );
                        Step::Ask(
                            StartInstance::Running(
                                StartRun { id, options, metadata, phase: StartPhase::Launching },
                            ),
                            ask(HostCall::Launch { plan }),
                        )
                    },
                    (StartPhase::Launching, Reply::Launched(report)) => {
                        match report {
                            LaunchReport::LogFailed(e) => fail(
                                "start_instance_prepare_log",
                                e.in_brief(),
                            ),
                            LaunchReport::SpawnFailed(e) => {
                                match clock.now() {
                                    Ok(now) => {
                                        let mut failed = metadata;
                                        failed.state = InstanceState::Failed;
                                        failed.updated_at = now;
                                        let call = manager.write_call(id, &failed);
                                        Step::Ask(
                                            StartInstance::Running(
                                                StartRun {
                                                    id,
                                                    options,
                                                    metadata: failed,
                                                    phase: StartPhase::MarkingFailed {
                                                        cause: e.in_full(),
                                                    },
                                                },
                                            ),
                                            ask(call),
                                        )
                                    },
                                    Err(e) => fail("start_instance_failed_timestamp", e),
                                }
                            },
                            LaunchReport::Spawned { pid, token } => {
                                let handle = GuestHandle::new(pid, token);
                                manager.guest_registry.insert(id, &handle);
                                if options.skip_adb_wait {
                                    match clock.now() {
                                        Ok(now) => {
                                            let mut running = metadata;
                                            running.state = InstanceState::Running;
                                            running.updated_at = now;
                                            let call = manager.write_call(id, &running);
                                            Step::Ask(
                                                StartInstance::Running(
                                                    StartRun {
                                                        id,
                                                        options,
                                                        metadata: running,
                                                        phase: StartPhase::MarkingRunning { token },
                                                    },
                                                ),
                                                ask(call),
                                            )
                                        },
                                        Err(e) => fail("start_instance_timestamp_after_skip", e),
                                    }
                                } else {
                                    let effective = match options.timeout_secs {
                                        Some(secs) => Some(secs),
                                        None => Some(manager.config.start_timeout_secs),
                                    };
                                    let deadline = deadline_from_timeout(clock, effective);
                                    let begun = WaitForAdb::begin(
                                        manager,
                                        id,
                                        secs_remaining(clock, deadline),
                                        clock,
                                    );
                                    assert(WaitForAdb::begun(
                                        manager,
                                        id,
                                        seconds_left(deadline, *clock),
                                        *clock,
                                        begun,
                                    ));
                                    Self::waiting(manager, id, options, metadata, token, deadline,
                                        begun, clock)
                                }
                            },
                        }
                    },
                    (StartPhase::MarkingFailed { cause }, _) => {
                        manager.remember(id, &metadata);
                        fail(
                            "start_instance_spawn_failed",
                            join2("launching cuttlefish guest: ", cause.as_str()),
                        )
                    },
                    (StartPhase::MarkingRunning { token }, Reply::Done(Ok(_))) => {
                        manager.remember(id, &metadata);
                        let summary = metadata.summary(manager.config.adb_host.as_str());
                        Step::Done(Ok(InstanceActionResponse::of_summary(summary)), watcher(id,
                            token))
                    },
                    (StartPhase::MarkingRunning { token }, Reply::Done(Err(e))) => fail(
                        "start_instance_write_metadata_after_skip",
                        e.in_brief(),
                    ),
                    (StartPhase::Waiting { wait, token, deadline }, reply) => {
                        let ghost answer = reply;
                        let ghost waited = wait;
                        let stepped = wait.resume(manager, reply, clock);
                        assert(waited.stepped(old(manager), manager, answer, *clock, stepped));
                        Self::waiting(manager, id, options, metadata, token, deadline, stepped,
                            clock)
                    },
                    (StartPhase::Aborting { stop, failure }, reply) => {
                        let ghost answer = reply;
                        let stepped = stop.resume(&mut manager.guest_registry, reply);
                        assert(stop.stepped(
                            old(manager).registry(),
                            manager.registry(),
                            answer,
                            stepped,
                        ));
                        match stepped {
                            Step::Ask(next, d) => Step::Ask(
                                StartInstance::Running(
                                    StartRun {
                                        id,
                                        options,
                                        metadata,
                                        phase: StartPhase::Aborting { stop: next, failure },
                                    },
                                ),
                                d,
                            ),
                            Step::Done(_, _) => Step::Done(Err(failure), Vec::new()),
                        }
                    },
                    (StartPhase::Verifying { verify, token, response }, reply) => {
                        let ghost answer = reply;
                        let ghost checked = verify;
                        let stepped = verify.resume(manager, reply, clock);
                        assert(checked.stepped(manager, answer, *clock, stepped));
                        Self::verifying(id, options, metadata, token, response, stepped)
                    },
                    _ => fail("start_instance_protocol", unexpected()),
                }
            },
        }
    }

    fn waiting(
        manager: &InstanceManager,
        id: InstanceId,
        options: StartOptions,
        metadata: InstanceMetadata,
        token: u64,
        deadline: Option<u64>,
        stepped: Step<WaitForAdb, WaitResult>,
        clock: &Clock,
    ) -> (out: Step<StartInstance, StartResult>)
        ensures
            follows_wait(out, manager, id, options, metadata, token, deadline, stepped, *clock),
    {
        match stepped {
            Step::Ask(wait, d) => Step::Ask(
                StartInstance::Running(
                    StartRun {
                        id,
                        options,
                        metadata,
                        phase: StartPhase::Waiting { wait, token, deadline },
                    },
                ),
                d,
            ),
            Step::Done(Err(failure), _) => {
                match Terminate::begin(&manager.guest_registry, id, START_GRACE_MILLIS) {
                    Step::Ask(stop, d) => Step::Ask(
                        StartInstance::Running(
                            StartRun {
                                id,
                                options,
                                metadata,
                                phase: StartPhase::Aborting { stop, failure },
                            },
                        ),
                        d,
                    ),
                    Step::Done(_, _) => Step::Done(Err(failure), Vec::new()),
                }
            },
            Step::Done(Ok(response), _) => {
                if options.verify_boot {
                    let begun = VerifyBoot::begin(manager, id, secs_remaining(clock, deadline),
                        clock);
                    assert(VerifyBoot::begun(
                        manager,
                        id,
                        seconds_left(deadline, *clock),
                        *clock,
                        begun,
                    ));
                    Self::verifying(id, options, metadata, token, response, begun)
                } else {
                    Step::Done(Ok(response), watcher(id, token))
                }
            },
        }
    }

    fn verifying(
        id: InstanceId,
        options: StartOptions,
        metadata: InstanceMetadata,
        token: u64,
        response: InstanceActionResponse,
        stepped: Step<VerifyBoot, crate::boot::BootResult>,
    ) -> (out: Step<StartInstance, StartResult>)
        ensures
            follows_verify(out, id, options, metadata, token, response, stepped),
    {
        match stepped {
            Step::Ask(verify, d) => Step::Ask(
                StartInstance::Running(
                    StartRun {
                        id,
                        options,
                        metadata,
                        phase: StartPhase::Verifying { verify, token, response },
                    },
                ),
                d,
            ),
            Step::Done(Ok(result), _) => {
                let mut response = response;
                response.verification = Some(result);
                Step::Done(Ok(response), watcher(id, token))
            },
            Step::Done(Err(failure), _) => Step::Done(Err(failure), Vec::new()),
        }
    }
}

} // verus!
