//! The lifecycle operations that only read or rewrite the record of an
//! instance: create, hold, deploy, status, describe and logs.

use vstd::prelude::*;
use crate::config::{adb_port_for, adb_port_of, joined, ConfigView};
use crate::host::{
    clock_failure, create_step, file_steps_view, unexpected, unexpected_reply, Clock, Directive,
    FileStep, FileStepView, HostCall, LogRead, Reply, Step,
};
use crate::manager::{ask, asks_env, asks_read, asks_write, InstanceManager};
use crate::metadata::{instance_root_of, run_log_of, InstanceMetadata, MetadataView};
use crate::protocol::{
    detail, error_detail, plain_action, ActionView, CreateInstanceResponse, ErrorDetail,
    InstanceActionResponse, InstanceId, InstanceState, LogsOptions, LogsResponse, LogsView,
};
use crate::readiness::{quoted_tail, MAX_TAIL_BYTES};
use crate::scan::tail_file;
use crate::text::{decimal, decimal_string, join3};

verus! {

/// The record of a freshly created instance.
pub open spec fn initial_record(
    config: ConfigView,
    id: InstanceId,
    purpose: Option<Seq<char>>,
    now: u64,
) -> MetadataView {
    MetadataView {
        id,
        purpose,
        adb_port: adb_port_of(config.base_adb_port, id),
        state: InstanceState::Created,
        boot_image: config.default_boot_image,
        init_boot_image: config.default_init_boot_image,
        created_at: now,
        updated_at: now,
        held: false,
    }
}

/// The directories of a new instance, in the order in which they are made.
pub open spec fn instance_dirs(config: ConfigView, id: InstanceId) -> Seq<FileStepView> {
    seq![
        create_step("instance dir"@, instance_root_of(config, id)),
        create_step("artifacts dir"@, joined(instance_root_of(config, id), "artifacts"@)),
    ]
}

/// Whether a step ends in a failure with the cause `message`.
pub open spec fn fails<S, T>(out: Step<S, Result<T, String>>, message: Seq<char>) -> bool {
    out matches Step::Done(Err(e), last) && e@ == message && last@.len() == 0
}

/// The creation of an instance.
#[derive(Debug)]
pub enum CreateInstance {
    /// Waiting for an instance id.
    Allocating { purpose: Option<String> },
    /// Waiting for the directories of the instance.
    MakingDirs { id: InstanceId, purpose: Option<String> },
    /// Waiting for the record to be written.
    Writing { metadata: InstanceMetadata },
    /// Waiting for the environment file to be written.
    Exporting { metadata: InstanceMetadata },
}

/// How a creation ends.
pub type CreateResult = Result<CreateInstanceResponse, String>;

impl CreateInstance {
    /// Begins a creation by asking for an instance id.
    pub fn begin(purpose: Option<String>) -> (out: (CreateInstance, Directive))
        ensures
            out.0 == (CreateInstance::Allocating { purpose }),
            out.1.effects@.len() == 0,
            out.1.call is AllocateId,
    {
        (CreateInstance::Allocating { purpose }, ask(HostCall::AllocateId))
    }

    /// What one step does: the relation between the manager before and after
    /// the step, the host's answer, the clocks and the outcome of the step.
    pub open spec fn stepped(
        self,
        before: &InstanceManager,
        after: &InstanceManager,
        reply: Reply,
        clock: Clock,
        out: Step<CreateInstance, CreateResult>,
    ) -> bool {
        &&& (after.same_setup(before))
        &&& (after.registry() == before.registry())
        &&& (!(self is Exporting && reply matches Reply::Done(Ok(_))) ==> after.cache()
                == before.cache())
        &&& (out matches Step::Done(Ok(_), _) ==> self is Exporting && reply matches Reply::Done(
                Ok(_),
            ))
        &&& (match (self, reply) {
                (CreateInstance::Allocating { purpose }, Reply::Slot(Ok(id)))
                    => out matches Step::Ask(
                    next,
                    d,
                ) && next == (CreateInstance::MakingDirs { id, purpose }) && d.effects@.len() == 0
                    && (d.call matches HostCall::Files { steps } && file_steps_view(steps@)
                    == instance_dirs(before.config@, id)),
                (CreateInstance::Allocating { purpose }, Reply::Slot(Err(e))) => fails(out, e@),
                (CreateInstance::MakingDirs { id, purpose }, Reply::Done(Ok(_)))
                    => match clock.epoch_secs {
                    Some(now) => out matches Step::Ask(CreateInstance::Writing { metadata }, d)
                        && metadata@ == initial_record(
                        before.config@,
                        id,
                        purpose.deep_view(),
                        now,
                    ) && d.effects@.len() == 0 && asks_write(
                        d.call,
                        before.config@,
                        id,
                        metadata@,
                    ),
                    None => fails(out, clock_failure()),
                },
                (CreateInstance::Writing { metadata }, Reply::Done(Ok(_)))
                    => match clock.epoch_secs {
                    Some(now) => out matches Step::Ask(CreateInstance::Exporting { metadata: m }, d)
                        && m == metadata && d.effects@.len() == 0 && asks_env(
                        d.call,
                        before.config@,
                        metadata.id,
                        metadata@,
                        now,
                    ),
                    None => fails(out, clock_failure()),
                },
                (CreateInstance::Exporting { metadata }, Reply::Done(Ok(_)))
                    => after.cache() == before.cache().insert(metadata.id,
                    metadata@) && (
                out matches Step::Done(Ok(response), last) && response.summary@
                    == metadata@.summary(before.config.adb_host@) && last@.len() == 0),
                (CreateInstance::MakingDirs { .. }, Reply::Done(Err(e))) => fails(out, e.brief()),
                (CreateInstance::Writing { .. }, Reply::Done(Err(e))) => fails(out, e.brief()),
                (CreateInstance::Exporting { .. }, Reply::Done(Err(e))) => fails(out, e.brief()),
                _ => fails(out, unexpected_reply()),
            })
    }

    /// Continues a creation.
    ///
    /// With an id drawn, the directories of the instance are made, its
    /// record is written in state `Created` with the bridge port that
    /// belongs to the id, and its environment file is written. Then the
    /// record is cached and its summary returned. Any failure on the way
    /// ends the creation with the cause.
    pub fn resume(self, manager: &mut InstanceManager, reply: Reply, clock: &Clock) -> (out: Step<
        CreateInstance,
        CreateResult,
    >)
        ensures
            self.stepped(old(manager), final(manager), reply, *clock, out),
    {
        match (self, reply) {
            (CreateInstance::Allocating { purpose }, Reply::Slot(Ok(id))) => {
                let paths = manager.paths(id);
                let mut steps: Vec<FileStep> = Vec::new();
                steps.push(FileStep::create("instance dir", paths.root));
                steps.push(FileStep::create("artifacts dir", paths.artifacts));
                assert(file_steps_view(steps@) =~= instance_dirs(manager.config@, id));
                Step::Ask(
                    CreateInstance::MakingDirs { id, purpose },
                    ask(HostCall::Files { steps }),
                )
            },
            (CreateInstance::Allocating { purpose }, Reply::Slot(Err(e))) => Step::Done(
                Err(e),
                Vec::new(),
            ),
            (CreateInstance::MakingDirs { id, purpose }, Reply::Done(Ok(_))) => {
                match clock.now() {
                    Ok(now) => {
                        let metadata = InstanceMetadata {
                            id,
                            purpose,
                            adb_port: adb_port_for(manager.config.base_adb_port, id),
                            state: InstanceState::Created,
                            boot_image: manager.config.default_boot_image.clone(),
                            init_boot_image: manager.config.default_init_boot_image.clone(),
                            created_at: now,
                            updated_at: now,
                            held: false,
                        };
                        let call = manager.write_call(id, &metadata);
                        Step::Ask(CreateInstance::Writing { metadata }, ask(call))
                    },
                    Err(e) => Step::Done(Err(e), Vec::new()),
                }
            },
            (CreateInstance::Writing { metadata }, Reply::Done(Ok(_))) => {
                match clock.now() {
                    Ok(now) => {
                        let call = manager.env_call(metadata.id, &metadata, now);
                        Step::Ask(CreateInstance::Exporting { metadata }, ask(call))
                    },
                    Err(e) => Step::Done(Err(e), Vec::new()),
                }
            },
            (CreateInstance::Exporting { metadata }, Reply::Done(Ok(_))) => {
                let summary = metadata.summary(manager.config.adb_host.as_str());
                manager.remember(metadata.id, &metadata);
                Step::Done(Ok(CreateInstanceResponse { summary }), Vec::new())
            },
            (CreateInstance::MakingDirs { .. }, Reply::Done(Err(e))) => Step::Done(
                Err(e.in_brief()),
                Vec::new(),
            ),
            (CreateInstance::Writing { .. }, Reply::Done(Err(e)))
                => Step::Done(Err(e.in_brief()), Vec::new()),
            (CreateInstance::Exporting { .. }, Reply::Done(Err(e))) => Step::Done(
                Err(e.in_brief()),
                Vec::new(),
            ),
            _ => Step::Done(Err(unexpected()), Vec::new()),
        }
    }
}

/// Marking an instance as held, which exempts it from pruning.
#[derive(Debug)]
pub enum HoldInstance {
    /// Waiting for the record to be read.
    Loading { id: InstanceId },
    /// Waiting for the held record to be written.
    Saving { id: InstanceId, metadata: InstanceMetadata },
}

/// How an action on one instance ends when its failures are causes in words.
pub type ActionResult = Result<InstanceActionResponse, String>;

/// Whether a step writes the record `m` of `id` as held, touched at the
/// current time, or fails because the clock cannot be read.
pub open spec fn marks_held(
    out: Step<HoldInstance, ActionResult>,
    config: ConfigView,
    id: InstanceId,
    m: MetadataView,
    clock: Clock,
) -> bool {
    match clock.epoch_secs {
        Some(now) => out matches Step::Ask(HoldInstance::Saving { id: i, metadata }, d) && i == id
            && metadata@ == (MetadataView { held: true, updated_at: now, ..m }) && d.effects@.len()
            == 0 && asks_write(d.call, config, id, metadata@),
        None => fails(out, clock_failure()),
    }
}

impl HoldInstance {
    fn mark(manager: &InstanceManager, id: InstanceId, metadata: InstanceMetadata,
        clock: &Clock) -> (out:
        Step<HoldInstance, ActionResult>)
        ensures
            marks_held(out, manager.config@, id, metadata@, *clock),
    {
        match clock.now() {
            Ok(now) => {
                let mut held = metadata;
                held.held = true;
                held.updated_at = now;
                let call = manager.write_call(id, &held);
                Step::Ask(HoldInstance::Saving { id, metadata: held }, ask(call))
            },
            Err(e) => Step::Done(Err(e), Vec::new()),
        }
    }

    /// What the first step does: the relation between the manager, the
    /// clocks and the outcome of the step.
    pub open spec fn begun(
        manager: &InstanceManager,
        id: InstanceId,
        clock: Clock,
        out: Step<HoldInstance, ActionResult>,
    ) -> bool {
        &&& (manager.cache().contains_key(id) ==> marks_held(
                out,
                manager.config@,
                id,
                manager.cache()[id],
                clock,
            ))
        &&& (!manager.cache().contains_key(id) ==> (out matches Step::Ask(next, d) && next == (
            HoldInstance::Loading { id }) && d.effects@.len() == 0 && asks_read(
                d.call,
                manager.config@,
                id,
            )))
    }

    /// Begins a hold: with the record from the cache, or after reading it.
    pub fn begin(manager: &InstanceManager, id: InstanceId, clock: &Clock) -> (out: Step<
        HoldInstance,
        ActionResult,
    >)
        ensures
            Self::begun(manager, id, *clock, out),
    {
        match manager.metadata_cache.get(id) {
            Some(metadata) => Self::mark(manager, id, metadata, clock),
            None => Step::Ask(HoldInstance::Loading { id }, ask(manager.read_call(id))),
        }
    }

    /// What one step does: the relation between the manager before and after
    /// the step, the host's answer, the clocks and the outcome of the step.
    pub open spec fn stepped(
        self,
        before: &InstanceManager,
        after: &InstanceManager,
        reply: Reply,
        clock: Clock,
        out: Step<HoldInstance, ActionResult>,
    ) -> bool {
        &&& (after.same_setup(before))
        &&& (after.registry() == before.registry())
        &&& (out matches Step::Done(Ok(_), _) ==> self is Saving
            && reply matches Reply::Done(Ok(_)))
        &&& (match (self, reply) {
                (HoldInstance::Loading { id }, Reply::Metadata(Ok(m))) => after.cache()
                    == before.cache() && marks_held(
                    out,
                    before.config@,
                    id,
                    m@,
                    clock,
                ),
                (HoldInstance::Loading { id }, Reply::Metadata(Err(e))) => after.cache()
                    == before.cache() && fails(out, e@),
                (HoldInstance::Saving { id, metadata }, Reply::Done(Ok(_)))
                    => after.cache() == before.cache().insert(id, metadata@)
                    && (out matches Step::Done(
                    Ok(response),
                    last,
                ) && response@ == plain_action(metadata@.summary(before.config.adb_host@))
                    && last@.len() == 0),
                (HoldInstance::Saving { id, metadata }, Reply::Done(Err(e)))
                    => after.cache() == before.cache() && fails(out, e.brief()),
                _ => after.cache() == before.cache() && fails(
                    out,
                    unexpected_reply(),
                ),
            })
    }

    /// Continues a hold. Only the held flag and the time of the record
    /// change; once the record is written it is cached and summarised.
    pub fn resume(self, manager: &mut InstanceManager, reply: Reply, clock: &Clock) -> (out: Step<
        HoldInstance,
        ActionResult,
    >)
        ensures
            self.stepped(old(manager), final(manager), reply, *clock, out),
    {
        match (self, reply) {
            (HoldInstance::Loading { id }, Reply::Metadata(Ok(m)))
                => Self::mark(manager, id, m, clock),
            (HoldInstance::Loading { id }, Reply::Metadata(Err(e)))
                => Step::Done(Err(e), Vec::new()),
            (HoldInstance::Saving { id, metadata }, Reply::Done(Ok(_))) => {
                manager.remember(id, &metadata);
                let summary = metadata.summary(manager.config.adb_host.as_str());
                Step::Done(Ok(InstanceActionResponse::of_summary(summary)), Vec::new())
            },
            (HoldInstance::Saving { id, metadata }, Reply::Done(Err(e))) => Step::Done(
                Err(e.in_brief()),
                Vec::new(),
            ),
            _ => Step::Done(Err(unexpected()), Vec::new()),
        }
    }
}

/// Reading the state of an instance, with or without the end of its run log.
#[derive(Debug)]
pub enum Status {
    /// Waiting for the record to be read.
    Loading { id: InstanceId, run_log_lines: Option<usize> },
    /// Waiting for the end of the run log.
    Tailing { response: InstanceActionResponse, lines: usize },
}

/// The end of a log as it is attached to a response: nothing for a log
/// that is missing, its last `lines` lines otherwise.
pub open spec fn journal_of(read: LogRead, lines: usize) -> Option<Seq<char>> {
    match read {
        LogRead::Content { text, clipped } => Some(quoted_tail(text@, clipped, lines)),
        _ => None,
    }
}

/// Whether a step reports on the record `m` of `id`: it ends with the
/// summary of the record, or, where lines of the run log are asked for,
/// asks for the end of the run log and holds the summary meanwhile.
pub open spec fn reports(
    out: Step<Status, ActionResult>,
    config: ConfigView,
    id: InstanceId,
    run_log_lines: Option<usize>,
    m: MetadataView,
) -> bool {
    match run_log_lines {
        None => out matches Step::Done(Ok(response), last) && response@ == plain_action(
            m.summary(config.adb_host),
        ) && last@.len() == 0,
        Some(lines) => out matches Step::Ask(Status::Tailing { response, lines: n }, d)
            && response@ == plain_action(m.summary(config.adb_host)) && n == lines
            && d.effects@.len() == 0 && (d.call matches HostCall::ReadLog { path, max_bytes }
            && path@ == run_log_of(config, id) && max_bytes == MAX_TAIL_BYTES),
    }
}

impl Status {
    fn report(
        manager: &InstanceManager,
        id: InstanceId,
        run_log_lines: Option<usize>,
        metadata: InstanceMetadata,
    ) -> (out: Step<Status, ActionResult>)
        ensures
            reports(out, manager.config@, id, run_log_lines, metadata@),
    {
        let summary = metadata.summary(manager.config.adb_host.as_str());
        let response = InstanceActionResponse::of_summary(summary);
        match run_log_lines {
            None => Step::Done(Ok(response), Vec::new()),
            Some(lines) => {
                let paths = manager.paths(id);
                Step::Ask(
                    Status::Tailing { response, lines },
                    ask(HostCall::ReadLog { path: paths.run_log, max_bytes: MAX_TAIL_BYTES }),
                )
            },
        }
    }

    /// What the first step does: the relation between the manager, the
    /// clocks and the outcome of the step.
    pub open spec fn begun(
        manager: &InstanceManager,
        id: InstanceId,
        run_log_lines: Option<usize>,
        out: Step<Status, ActionResult>,
    ) -> bool {
        &&& (manager.cache().contains_key(id) ==> reports(
                out,
                manager.config@,
                id,
                run_log_lines,
                manager.cache()[id],
            ))
        &&& (!manager.cache().contains_key(id) ==> (out matches Step::Ask(next, d) && next == (
            Status::Loading { id, run_log_lines }) && d.effects@.len() == 0 && asks_read(
                d.call,
                manager.config@,
                id,
            )))
    }

    /// Begins a status query: the summary of the cached record, or of the
    /// record once it is read. With `run_log_lines` the end of the run log
    /// is attached.
    pub fn begin(manager: &InstanceManager, id: InstanceId, run_log_lines: Option<usize>) -> (out:
        Step<Status, ActionResult>)
        ensures
            Self::begun(manager, id, run_log_lines, out),
    {
        match manager.metadata_cache.get(id) {
            Some(metadata) => Self::report(manager, id, run_log_lines, metadata),
            None => Step::Ask(Status::Loading { id, run_log_lines }, ask(manager.read_call(id))),
        }
    }

    /// What one step does: the relation between the manager before and after
    /// the step, the host's answer, the clocks and the outcome of the step.
    pub open spec fn stepped(
        self,
        manager: &InstanceManager,
        reply: Reply,
        out: Step<Status, ActionResult>,
    ) -> bool {
        &&& (match (self, reply) {
                (Status::Loading { id, run_log_lines }, Reply::Metadata(Ok(m))) => reports(
                    out,
                    manager.config@,
                    id,
                    run_log_lines,
                    m@,
                ),
                (Status::Loading { .. }, Reply::Metadata(Err(e))) => fails(out, e@),
                (Status::Tailing { response, lines }, Reply::Log(read)) => match read {
                    LogRead::Failed(e) => fails(out, e.brief()),
                    _ => out matches Step::Done(Ok(r), last) && r@ == (ActionView {
                        journal_tail: journal_of(read, lines),
                        ..response@
                    }) && last@.len() == 0,
                },
                _ => fails(out, unexpected_reply()),
            })
    }

    /// Continues a status query. It changes nothing.
    pub fn resume(self, manager: &InstanceManager, reply: Reply) -> (out: Step<
        Status,
        ActionResult,
    >)
        ensures
            self.stepped(manager, reply, out),
    {
        match (self, reply) {
            (Status::Loading { id, run_log_lines }, Reply::Metadata(Ok(m))) => Self::report(
                manager,
                id,
                run_log_lines,
                m,
            ),
            (Status::Loading { .. }, Reply::Metadata(Err(e))) => Step::Done(Err(e), Vec::new()),
            (Status::Tailing { response, lines }, Reply::Log(read)) => {
                match read {
                    LogRead::Failed(e) => Step::Done(Err(e.in_brief()), Vec::new()),
                    LogRead::Missing => {
                        let mut response = response;
                        response.journal_tail = None;
                        Step::Done(Ok(response), Vec::new())
                    },
                    LogRead::Content { text, clipped } => {
                        let mut response = response;
                        response.journal_tail = Some(tail_file(text.as_str(), lines, clipped));
                        Step::Done(Ok(response), Vec::new())
                    },
                }
            },
            _ => Step::Done(Err(unexpected()), Vec::new()),
        }
    }
}

/// Fetching the end of the run log of an instance.
#[derive(Clone, Copy, Debug, PartialEq, Eq, Structural)]
pub struct Logs {
    pub id: InstanceId,
    pub lines: usize,
}

/// How a log fetch ends.
pub type LogsResult = Result<LogsResponse, ErrorDetail>;

/// Where the guest of instance `id` writes its console.
pub open spec fn console_hint(id: InstanceId) -> Seq<char> {
    "/var/lib/cuttlefish/instances/"@ + decimal(id as nat) + "/instances/cvd-"@ + decimal(
        id as nat,
    ) + "/console_log"@
}

impl Logs {
    /// What the first step does: the relation between the manager, the
    /// clocks and the outcome of the step.
    pub open spec fn begun(
        manager: &InstanceManager,
        id: InstanceId,
        lines: Option<usize>,
        options: LogsOptions,
        out: Step<Logs, LogsResult>,
    ) -> bool {
        &&& (options.timeout_secs == Some(0u64) ==> (out matches Step::Done(Err(e), last) && e@
                == detail("logs_timeout"@, "timeout expired before logs retrieved"@) && last@.len()
                == 0))
        &&& (options.timeout_secs != Some(0u64) ==> (out matches Step::Ask(next, d) && next == (
            Logs {
                id,
                lines: match lines {
                    Some(n) => n,
                    None => manager.config.journal_lines,
                },
            }) && d.effects@.len() == 0 && (d.call matches HostCall::ReadLog { path, max_bytes }
                && path@ == run_log_of(manager.config@, id) && max_bytes == MAX_TAIL_BYTES)))
    }

    /// Begins a log fetch. A timeout of zero is exhausted before anything
    /// is read; otherwise the end of the run log is asked for. `lines`
    /// defaults to the configured number.
    pub fn begin(manager: &InstanceManager, id: InstanceId, lines: Option<usize>,
        options: LogsOptions) -> (out:
        Step<Logs, LogsResult>)
        ensures
            Self::begun(manager, id, lines, options, out),
    {
        match options.timeout_secs {
            Some(secs) => {
                if secs == 0 {
                    return Step::Done(
                        Err(
                            error_detail(
                                "logs_timeout",
                                String::from_str("timeout expired before logs retrieved"),
                            ),
                        ),
                        Vec::new(),
                    );
                }
            },
            None => {},
        }
        let keep = match lines {
            Some(n) => n,
            None => manager.config.journal_lines,
        };
        let paths = manager.paths(id);
        Step::Ask(
            Logs { id, lines: keep },
            ask(HostCall::ReadLog { path: paths.run_log, max_bytes: MAX_TAIL_BYTES }),
        )
    }

    /// What the step of a log fetch does: the relation between the host's
    /// answer and the outcome.
    pub open spec fn stepped(
        self,
        reply: Reply,
        out: Step<Logs, LogsResult>,
    ) -> bool {
        &&& (out matches Step::Done(_, last) && last@.len() == 0)
        &&& (match reply {
                Reply::Log(LogRead::Failed(e)) => out matches Step::Done(Err(d), _) && d@ == detail(
                    "logs_fetch_failed"@,
                    e.brief(),
                ),
                Reply::Log(read) => out matches Step::Done(Ok(r), _) && r@ == (LogsView {
                    journal: journal_of(read, self.lines),
                    console_log_path: Some(console_hint(self.id)),
                }),
                _ => out matches Step::Done(Err(d), _) && d@ == detail(
                    "logs_fetch_failed"@,
                    unexpected_reply(),
                ),
            })
    }

    /// Ends a log fetch: the journal is the end of the run log, or nothing
    /// if there is no run log; a log that cannot be read is `logs_fetch_failed`.
    pub fn resume(self, reply: Reply) -> (out: Step<Logs, LogsResult>)
        ensures
            self.stepped(reply, out),
    {
        let d = decimal_string(self.id);
        let mut hint = join3("/var/lib/cuttlefish/instances/", d.as_str(), "/instances/cvd-");
        hint.append(d.as_str());
        hint.append("/console_log");
        match reply {
            Reply::Log(LogRead::Failed(e)) => Step::Done(
                Err(error_detail("logs_fetch_failed", e.in_brief())),
                Vec::new(),
            ),
            Reply::Log(LogRead::Missing) => Step::Done(
                Ok(LogsResponse { journal: None, console_log_path: Some(hint) }),
                Vec::new(),
            ),
            Reply::Log(LogRead::Content { text, clipped }) => Step::Done(
                Ok(
                    LogsResponse {
                        journal: Some(tail_file(text.as_str(), self.lines, clipped)),
                        console_log_path: Some(hint),
                    },
                ),
                Vec::new(),
            ),
            _ => Step::Done(Err(error_detail("logs_fetch_failed", unexpected())), Vec::new()),
        }
    }
}

} // verus!
