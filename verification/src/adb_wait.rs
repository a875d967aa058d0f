//! Waiting for the bridge of a started guest.
//!
//! Each round checks that the guest is still alive, connects the bridge and
//! looks for the instance in the device list. The wait ends when the
//! instance shows up as ready, when the guest exits, or when a round fails
//! after the deadline; every failure is recorded before it is reported.

use vstd::prelude::*;
use crate::guest::ExitStatusInfo;
use crate::host::{
    clock_failure, effects_view, unexpected, unexpected_reply, Clock, Effect, EffectView,
    GuestSignal, HostCall, Reply, Step,
};
use crate::manager::{ask, ask_after, asks_read, asks_write, InstanceManager};
use crate::metadata::{InstanceMetadata, MetadataView};
use crate::protocol::{
    detail, error_detail, make_serial, plain_action, serial_of, ErrorDetail, InstanceActionResponse,
    InstanceId, InstanceState,
};
use crate::readiness::{
    active_serial, adb_connect, adb_devices, adb_of, failure_brief, failure_detail,
    resolve_active_adb_serial, run_failed, tool_failure, FailurePlan, RecordFailure, RecordPhase,
    WAIT_GRACE_MILLIS, WAIT_RETRY_MILLIS,
};
use crate::supervise::{without_handle, Terminate, TerminatePhase};
use crate::text::{decimal, decimal_string, join2, join3};

verus! {

/// How a wait for the bridge ends.
pub type WaitResult = Result<InstanceActionResponse, ErrorDetail>;

/// Where a round of the wait stands.
#[derive(Debug)]
pub enum RoundPhase {
    /// Waiting to learn whether the guest is still alive.
    Polling { token: u64 },
    /// Waiting for the bridge to connect.
    Connecting,
    /// Waiting for the device list.
    Listing,
    /// Waiting for the record of the running instance to be written.
    Saving,
    /// Terminating the guest after the deadline.
    Stopping { stop: Terminate, plan: FailurePlan },
    /// Recording the failure.
    Recording(RecordFailure),
}

/// A wait whose record is loaded.
#[derive(Debug)]
pub struct WaitRun {
    pub id: InstanceId,
    /// The monotonic reading after which a failed round ends the wait.
    pub deadline: u64,
    pub metadata: InstanceMetadata,
    pub phase: RoundPhase,
}

/// A wait for the bridge of one instance.
#[derive(Debug)]
pub enum WaitForAdb {
    /// Waiting for the record to be read.
    Loading { id: InstanceId, timeout_secs: Option<u64> },
    Running(WaitRun),
}

/// The address at which the bridge is told to connect.
pub open spec fn connect_serial_of(port: u16) -> Seq<char> {
    serial_of("0.0.0.0"@, port)
}

/// The message for an instance whose guest handle is gone.
pub open spec fn lost_base(id: InstanceId) -> Seq<char> {
    "instance "@ + decimal(id as nat) + " lost guest handle before adb became ready"@
}

/// What precedes the cause when a lost handle could not be recorded.
pub open spec fn lost_alt(id: InstanceId) -> Seq<char> {
    "instance "@ + decimal(id as nat) + " lost guest handle and record failed: "@
}

/// The message for a guest that exited before its bridge came up.
pub open spec fn exit_base(id: InstanceId, exit: ExitStatusInfo) -> Seq<char> {
    "instance "@ + decimal(id as nat) + " "@ + "exited before adb became ready"@ + " ("@
        + exit.description() + ")"@
}

/// What precedes the cause when an early exit could not be recorded.
pub open spec fn exit_alt(id: InstanceId) -> Seq<char> {
    "instance "@ + decimal(id as nat) + " exited before adb and record failed: "@
}

/// The message for a bridge that never connected.
pub open spec fn connect_base(addr: Seq<char>, cause: Seq<char>) -> Seq<char> {
    "timeout waiting for adb"@ + " on "@ + addr + ": "@ + cause
}

/// What precedes the cause when a failed connect could not be recorded.
pub open spec fn connect_alt(addr: Seq<char>) -> Seq<char> {
    "timeout waiting for adb"@ + " on "@ + addr + " and record failed: "@
}

/// The message for a device that never showed up as ready.
pub open spec fn absent_base(serial: Seq<char>) -> Seq<char> {
    "timeout waiting for adb"@ + " device "@ + serial
}

/// What precedes the cause when an absent device could not be recorded.
pub open spec fn absent_alt(serial: Seq<char>) -> Seq<char> {
    "timeout waiting for adb"@ + " device "@ + serial + " and record failed: "@
}

/// The message for a device list that could never be read.
pub open spec fn list_base(serial: Seq<char>, cause: Seq<char>) -> Seq<char> {
    "adb devices never succeeded for "@ + serial + ": "@ + cause
}

/// What precedes the cause when an unreadable list could not be recorded.
pub open spec fn list_alt(serial: Seq<char>) -> Seq<char> {
    "adb devices failed for "@ + serial + " and record failed: "@
}

/// The deadline of a wait that starts at `clock`: after the given timeout,
/// or after the configured one if none is given.
pub open spec fn wait_deadline(clock: Clock, timeout_secs: Option<u64>, default_secs: u64) -> u64 {
    match timeout_secs {
        Some(secs) => clock.deadline_after(secs),
        None => clock.deadline_after(default_secs),
    }
}

/// Whether a step fails at once with the given code and message.
pub open spec fn fails_with(out: Step<WaitForAdb, WaitResult>, code: Seq<char>,
    message: Seq<char>) -> bool {
    out matches Step::Done(Err(e), last) && e@ == detail(code, message) && last@.len() == 0
}

/// Whether a step begins to record the failure worded by `code`, `base`
/// and `alt` for the record `m`, or fails at once because the clock
/// cannot be read.
pub open spec fn starts_record(
    out: Step<WaitForAdb, WaitResult>,
    config: crate::config::ConfigView,
    id: InstanceId,
    m: MetadataView,
    code: Seq<char>,
    base: Seq<char>,
    alt: Seq<char>,
    clock: Clock,
) -> bool {
    match clock.epoch_secs {
        Some(now) => out matches Step::Ask(WaitForAdb::Running(run), d) && run.id == id
            && run.metadata@ == m && d.effects@.len() == 0
                && (run.phase matches RoundPhase::Recording(
            rec,
        ) && rec.phase == RecordPhase::Writing && rec.id == id && rec.plan.code@ == code
            && rec.plan.base@ == base && rec.plan.alt@ == alt && rec.metadata@ == m.moved_to(
            InstanceState::Failed,
            now,
        ) && rec.metadata.state == InstanceState::Failed && asks_write(
            d.call,
            config,
            id,
            rec.metadata@,
        )),
        None => fails_with(out, code, alt + clock_failure()),
    }
}

/// Whether a step begins a round for the record `m`: it polls the live
/// handle of the instance, after a pause if the round is a retry; if the
/// instance has no live handle it begins to record that instead.
pub open spec fn starts_round(
    out: Step<WaitForAdb, WaitResult>,
    registry: Map<InstanceId, u64>,
    config: crate::config::ConfigView,
    id: InstanceId,
    deadline: u64,
    m: MetadataView,
    retry: bool,
    clock: Clock,
) -> bool {
    if registry.contains_key(id) {
        out matches Step::Ask(WaitForAdb::Running(run), d) && run.id == id && run.deadline
            == deadline && run.metadata@ == m && (run.phase matches RoundPhase::Polling { token }
            && token == registry[id]) && d.call == (HostCall::PollGuest { token: registry[id] })
            && effects_view(d.effects@) == (if retry {
            seq![EffectView::Pause { millis: WAIT_RETRY_MILLIS }]
        } else {
            Seq::<EffectView>::empty()
        })
    } else {
        starts_record(out, config, id, m, "wait_for_adb_handle_lost"@, lost_base(id), lost_alt(id),
            clock)
    }
}

/// Whether a step reacts to a failed round: before the deadline it begins
/// the next round; after it, it terminates the guest if the instance has a
/// live handle, and otherwise goes straight to recording the timeout.
pub open spec fn after_failed_round(
    out: Step<WaitForAdb, WaitResult>,
    registry: Map<InstanceId, u64>,
    config: crate::config::ConfigView,
    id: InstanceId,
    deadline: u64,
    m: MetadataView,
    base: Seq<char>,
    alt: Seq<char>,
    clock: Clock,
) -> bool {
    if clock.millis >= deadline {
        if registry.contains_key(id) {
            out matches Step::Ask(WaitForAdb::Running(run), d) && run.id == id && run.metadata@ == m
                && d.effects@.len() == 0 && d.call == (HostCall::Signal {
                token: registry[id],
                signal: GuestSignal::Terminate,
            }) && (run.phase matches RoundPhase::Stopping { stop, plan } && stop == (Terminate {
                id,
                token: registry[id],
                grace_millis: WAIT_GRACE_MILLIS,
                phase: TerminatePhase::Asked,
            }) && plan.code@ == "wait_for_adb_timeout"@ && plan.base@ == base && plan.alt@ == alt)
        } else {
            starts_record(out, config, id, m, "wait_for_adb_timeout"@, base, alt, clock)
        }
    } else {
        starts_round(out, registry, config, id, deadline, m, true, clock)
    }
}

/// The report of a guest that exited before its bridge came up says so
/// and quotes the end of the run log, whatever the log holds.
pub proof fn lemma_guest_exit_report_quotes_the_log(
    id: InstanceId,
    exit: ExitStatusInfo,
    tail: Seq<char>,
)
    ensures
        crate::text::has_run(crate::readiness::enriched(exit_base(id, exit), tail), tail),
        crate::text::has_run(
            crate::readiness::enriched(exit_base(id, exit), tail),
            "cfctl-run.log tail"@,
        ),
        crate::text::has_run(
            crate::readiness::enriched(exit_base(id, exit), tail),
            "exited before adb became ready"@,
        ),
{
    let base = exit_base(id, exit);
    crate::readiness::lemma_enriched_contains_tail(base, tail);
    crate::text::lemma_run_in_middle(
        "instance "@ + decimal(id as nat) + " "@,
        "exited before adb became ready"@,
        " ("@ + exit.description() + ")"@,
    );
    assert(base =~= ("instance "@ + decimal(id as nat) + " "@) + "exited before adb became ready"@
        + (" ("@ + exit.description() + ")"@));
    crate::text::lemma_run_within(
        crate::readiness::enriched(base, tail),
        base,
        "exited before adb became ready"@,
    );
}

/// A wait that has recorded its failure ends when the run log is read: with
/// the code and the message of the failure, the message enriched with the
/// end of the log, and with a cached record that says `Failed`.
pub proof fn lemma_failed_wait_ends_enriched(
    op: WaitForAdb,
    before: &InstanceManager,
    after: &InstanceManager,
    text: String,
    clipped: bool,
    clock: Clock,
    out: Step<WaitForAdb, WaitResult>,
)
    requires
        op.settled(before),
        op.reads_log(),
        op.stepped(before, after, Reply::Log(crate::host::LogRead::Content { text, clipped }),
            clock, out),
    ensures
        op matches WaitForAdb::Running(run) && (run.phase matches RoundPhase::Recording(rec) && (
        out matches Step::Done(Err(e), _) && e@ == detail(
            rec.plan.code@,
            crate::readiness::enriched(
                rec.plan.base@,
                crate::readiness::quoted_tail(text@, clipped, before.config.journal_lines),
            ),
        ))),
        after.cache().contains_key(op.id()),
        after.cache()[op.id()].state == InstanceState::Failed,
{
}

/// A timeout says that it is one.
pub proof fn lemma_timeout_is_named(serial: Seq<char>)
    ensures
        crate::text::has_run(absent_base(serial), "timeout waiting for adb"@),
{
    crate::text::lemma_run_at_start("timeout waiting for adb"@, " device "@ + serial);
    assert(absent_base(serial) =~= "timeout waiting for adb"@ + (" device "@ + serial));
}

/// The report of a wait that ran out of time says so and quotes the end
/// of the run log, whatever the log holds.
pub proof fn lemma_timeout_report_quotes_the_log(serial: Seq<char>, tail: Seq<char>)
    ensures
        crate::text::has_run(crate::readiness::enriched(absent_base(serial), tail), tail),
        crate::text::has_run(
            crate::readiness::enriched(absent_base(serial), tail),
            "cfctl-run.log tail"@,
        ),
        crate::text::has_run(
            crate::readiness::enriched(absent_base(serial), tail),
            "timeout waiting for adb"@,
        ),
{
    let base = absent_base(serial);
    crate::readiness::lemma_enriched_contains_tail(base, tail);
    lemma_timeout_is_named(serial);
    crate::text::lemma_run_within(
        crate::readiness::enriched(base, tail),
        base,
        "timeout waiting for adb"@,
    );
}

fn instance_text(id: InstanceId, rest: &str) -> (out: String)
    ensures
        out@ == "instance "@ + decimal(id as nat) + rest@,
{
    let d = decimal_string(id);
    join3("instance ", d.as_str(), rest)
}

fn plan_of(code: &str, base: String, alt: String) -> (out: FailurePlan)
    ensures
        out.code@ == code@,
        out.base == base,
        out.alt == alt,
{
    FailurePlan { code: String::from_str(code), base, alt }
}

impl WaitRun {
    fn record(self, manager: &InstanceManager, plan: FailurePlan, clock: &Clock) -> (out: Step<
        WaitForAdb,
        WaitResult,
    >)
        ensures
            starts_record(
                out,
                manager.config@,
                self.id,
                self.metadata@,
                plan.code@,
                plan.base@,
                plan.alt@,
                *clock,
            ),
    {
        let copy = self.metadata.clone();
        match RecordFailure::begin(manager, self.id, copy, plan, clock) {
            Step::Ask(rec, d) => Step::Ask(
                WaitForAdb::Running(
                    WaitRun {
                        id: self.id,
                        deadline: self.deadline,
                        metadata: self.metadata,
                        phase: RoundPhase::Recording(rec),
                    },
                ),
                d,
            ),
            Step::Done(e, last) => Step::Done(Err(e), last),
        }
    }

    fn round(self, manager: &InstanceManager, retry: bool, clock: &Clock) -> (out: Step<
        WaitForAdb,
        WaitResult,
    >)
        ensures
            starts_round(
                out,
                manager.registry(),
                manager.config@,
                self.id,
                self.deadline,
                self.metadata@,
                retry,
                *clock,
            ),
    {
        match manager.guest_registry.get(self.id) {
            Some(token) => {
                let mut effects: Vec<Effect> = Vec::new();
                if retry {
                    effects.push(Effect::Pause { millis: WAIT_RETRY_MILLIS });
                    assert(effects_view(effects@) =~= seq![
                        EffectView::Pause { millis: WAIT_RETRY_MILLIS },
                    ]);
                } else {
                    assert(effects_view(effects@) =~= Seq::<EffectView>::empty());
                }
                Step::Ask(
                    WaitForAdb::Running(
                        WaitRun {
                            id: self.id,
                            deadline: self.deadline,
                            metadata: self.metadata,
                            phase: RoundPhase::Polling { token },
                        },
                    ),
                    ask_after(effects, HostCall::PollGuest { token }),
                )
            },
            None => {
                let id = self.id;
                let plan = plan_of(
                    "wait_for_adb_handle_lost",
                    instance_text(id, " lost guest handle before adb became ready"),
                    instance_text(id, " lost guest handle and record failed: "),
                );
                self.record(manager, plan, clock)
            },
        }
    }

    fn failed_round(self, manager: &InstanceManager, base: String, alt: String,
        clock: &Clock) -> (out:
        Step<WaitForAdb, WaitResult>)
        ensures
            after_failed_round(
                out,
                manager.registry(),
                manager.config@,
                self.id,
                self.deadline,
                self.metadata@,
                base@,
                alt@,
                *clock,
            ),
    {
        if clock.reached(self.deadline) {
            let plan = plan_of("wait_for_adb_timeout", base, alt);
            match Terminate::begin(&manager.guest_registry, self.id, WAIT_GRACE_MILLIS) {
                Step::Ask(stop, d) => Step::Ask(
                    WaitForAdb::Running(
                        WaitRun {
                            id: self.id,
                            deadline: self.deadline,
                            metadata: self.metadata,
                            phase: RoundPhase::Stopping { stop, plan },
                        },
                    ),
                    d,
                ),
                Step::Done(_, _) => self.record(manager, plan, clock),
            }
        } else {
            self.round(manager, true, clock)
        }
    }
}

impl WaitForAdb {
    /// The instance that is waited for.
    pub open spec fn id(&self) -> InstanceId {
        match self {
            WaitForAdb::Loading { id, .. } => *id,
            WaitForAdb::Running(run) => run.id,
        }
    }

    /// Whether the wait has recorded its failure and waits for the end of
    /// the run log, to enrich it.
    pub open spec fn reads_log(&self) -> bool {
        self matches WaitForAdb::Running(run) && (
        run.phase matches RoundPhase::Recording(rec) && rec.phase == RecordPhase::Tailing)
    }

    /// While a failure is being recorded, its recording is settled; while
    /// the running record is being written, it is a running one.
    pub open spec fn settled(&self, manager: &InstanceManager) -> bool {
        self matches WaitForAdb::Running(run) ==> {
            &&& run.phase matches RoundPhase::Recording(rec) ==> rec.settled(manager) && rec.id
                == run.id
            &&& run.phase is Saving ==> run.metadata.state == InstanceState::Running
        }
    }

    fn start(
        manager: &InstanceManager,
        id: InstanceId,
        timeout_secs: Option<u64>,
        metadata: InstanceMetadata,
        clock: &Clock,
    ) -> (out: Step<WaitForAdb, WaitResult>)
        ensures
            starts_round(
                out,
                manager.registry(),
                manager.config@,
                id,
                wait_deadline(*clock, timeout_secs, manager.config.adb_wait_timeout_secs),
                metadata@,
                false,
                *clock,
            ),
    {
        let deadline = match timeout_secs {
            Some(secs) => clock.deadline(secs),
            None => clock.deadline(manager.config.adb_wait_timeout_secs),
        };
        let run = WaitRun { id, deadline, metadata, phase: RoundPhase::Connecting };
        run.round(manager, false, clock)
    }

    /// What the first step does: the relation between the manager, the
    /// clocks and the outcome of the step.
    pub open spec fn begun(
        manager: &InstanceManager,
        id: InstanceId,
        timeout_secs: Option<u64>,
        clock: Clock,
        out: Step<WaitForAdb, WaitResult>,
    ) -> bool {
        &&& (manager.cache().contains_key(id) ==> starts_round(
                out,
                manager.registry(),
                manager.config@,
                id,
                wait_deadline(clock, timeout_secs, manager.config.adb_wait_timeout_secs),
                manager.cache()[id],
                false,
                clock,
            ))
        &&& (!manager.cache().contains_key(id) ==> (out matches Step::Ask(next, d) && next == (
            WaitForAdb::Loading { id, timeout_secs }) && d.effects@.len() == 0 && asks_read(
                d.call,
                manager.config@,
                id,
            )))
        &&& (out matches Step::Ask(next, _) ==> next.settled(manager) && next.id() == id)
        &&& (!(out matches Step::Done(Ok(_), _)))
    }

    /// Begins a wait. The record comes from the cache if it is there, and is
    /// read from its file otherwise; with the record at hand the first round begins.
    pub fn begin(
        manager: &InstanceManager,
        id: InstanceId,
        timeout_secs: Option<u64>,
        clock: &Clock,
    ) -> (out: Step<WaitForAdb, WaitResult>)
        ensures
            Self::begun(manager, id, timeout_secs, *clock, out),
    {
        match manager.metadata_cache.get(id) {
            Some(metadata) => Self::start(manager, id, timeout_secs, metadata, clock),
            None => Step::Ask(WaitForAdb::Loading { id, timeout_secs }, ask(manager.read_call(id))),
        }
    }

    /// What one step does: the relation between the manager before and after
    /// the step, the host's answer, the clocks and the outcome of the step.
    pub open spec fn stepped(
        self,
        before: &InstanceManager,
        after: &InstanceManager,
        reply: Reply,
        clock: Clock,
        out: Step<WaitForAdb, WaitResult>,
    ) -> bool {
        &&& (after.same_setup(before))
        &&& (out matches Step::Ask(next, _) ==> next.id() == self.id())
        &&& (out matches Step::Done(Ok(_), _) ==> (self matches WaitForAdb::Running(run)
                && run.phase is Saving) && reply matches Reply::Done(Ok(_)))
        &&& (self.settled(before) ==> match out {
                Step::Ask(next, _) => next.settled(after),
                Step::Done(Err(_), _) => self.reads_log() ==> after.cache().contains_key(
                    self.id(),
                ) && after.cache()[self.id()].state == InstanceState::Failed,
                Step::Done(Ok(response), _) => after.cache().contains_key(self.id())
                    && after.cache()[self.id()].state == InstanceState::Running
                    && response.summary.state == InstanceState::Running,
            })
        &&& (out matches Step::Done(Ok(response), last) ==> last@.len() == 0
                && after.cache().contains_key(self.id()) && response@ == plain_action(
                after.cache()[self.id()].summary(before.config.adb_host@),
            ) && after.registry() == before.registry())
        &&& (match self {
                WaitForAdb::Loading { id, timeout_secs } => after.cache()
                    == before.cache() && after.registry() == before.registry()
                    && match reply {
                    Reply::Metadata(Ok(m)) => starts_round(
                        out,
                        before.registry(),
                        before.config@,
                        id,
                        wait_deadline(
                            clock,
                            timeout_secs,
                            before.config.adb_wait_timeout_secs,
                        ),
                        m@,
                        false,
                        clock,
                    ),
                    Reply::Metadata(Err(e)) => fails_with(out, "wait_for_adb_metadata"@, e@),
                    _ => fails_with(out, "wait_for_adb_metadata"@, unexpected_reply()),
                },
                WaitForAdb::Running(run) => match (run.phase, reply) {
                    (RoundPhase::Polling { token }, Reply::Guest(Err(e))) => fails_with(
                        out,
                        "wait_for_adb_wait"@,
                        e@,
                    ) && after.registry() == before.registry()
                        && after.cache() == before.cache(),
                    (RoundPhase::Polling { token }, Reply::Guest(Ok(Some(exit))))
                        => after.registry()
                        == without_handle(before.registry(), run.id, token)
                        && after.cache() == before.cache() && starts_record(
                        out,
                        before.config@,
                        run.id,
                        run.metadata@,
                        "wait_for_adb_guest_exit"@,
                        exit_base(run.id, exit),
                        exit_alt(run.id),
                        clock,
                    ),
                    (RoundPhase::Polling { token }, Reply::Guest(Ok(None)))
                        => after.registry() == before.registry()
                        && after.cache() == before.cache()
                        && (out matches Step::Ask(WaitForAdb::Running(next), d) && next.id
                        == run.id && next.deadline == run.deadline && next.metadata == run.metadata
                        && next.phase is Connecting && d.effects@.len() == 0 && (
                    d.call matches HostCall::Tool(c) && c@ == adb_of(
                        before.config.cuttlefish_fhs@,
                        seq!["connect"@, connect_serial_of(run.metadata.adb_port)],
                    ))),
                    (RoundPhase::Connecting, Reply::Tool(tool)) => after.registry()
                        == before.registry() && after.cache()
                        == before.cache() && if run_failed(
                        tool,
                    ) {
                        after_failed_round(
                            out,
                            before.registry(),
                            before.config@,
                            run.id,
                            run.deadline,
                            run.metadata@,
                            connect_base(
                                serial_of(before.config.adb_host@, run.metadata.adb_port),
                                failure_brief(
                                    tool,
                                    "invoking adb connect "@ + connect_serial_of(
                                        run.metadata.adb_port,
                                    ),
                                    "adb connect"@,
                                ),
                            ),
                            connect_alt(
                                serial_of(before.config.adb_host@, run.metadata.adb_port),
                            ),
                            clock,
                        )
                    } else {
                        out matches Step::Ask(WaitForAdb::Running(next), d) && next.id == run.id
                            && next.deadline == run.deadline && next.metadata == run.metadata
                            && next.phase is Listing && d.effects@.len() == 0 && (
                        d.call matches HostCall::Tool(c) && c@ == adb_of(
                            before.config.cuttlefish_fhs@,
                            seq!["devices"@],
                        ))
                    },
                    (RoundPhase::Listing, Reply::Tool(tool)) => after.registry()
                        == before.registry() && after.cache()
                        == before.cache() && {
                        let serial = serial_of(
                            before.config.adb_host@,
                            run.metadata.adb_port,
                        );
                        if run_failed(tool) {
                            after_failed_round(
                                out,
                                before.registry(),
                                before.config@,
                                run.id,
                                run.deadline,
                                run.metadata@,
                                list_base(
                                    serial,
                                    failure_detail(tool, "invoking adb devices"@, "adb devices"@),
                                ),
                                list_alt(serial),
                                clock,
                            )
                        } else if active_serial(
                            tool->Ok_0.stdout@,
                            serial,
                            connect_serial_of(run.metadata.adb_port),
                        ) is None {
                            after_failed_round(
                                out,
                                before.registry(),
                                before.config@,
                                run.id,
                                run.deadline,
                                run.metadata@,
                                absent_base(serial),
                                absent_alt(serial),
                                clock,
                            )
                        } else {
                            match clock.epoch_secs {
                                Some(now) => out matches Step::Ask(WaitForAdb::Running(next), d)
                                    && next.id == run.id && next.deadline == run.deadline
                                    && next.metadata@ == run.metadata@.moved_to(
                                    InstanceState::Running,
                                    now,
                                ) && next.phase is Saving && d.effects@.len() == 0 && asks_write(
                                    d.call,
                                    before.config@,
                                    run.id,
                                    next.metadata@,
                                ),
                                None => fails_with(out, "wait_for_adb_time"@, clock_failure()),
                            }
                        }
                    },
                    (RoundPhase::Saving, Reply::Done(Ok(_))) => after.registry()
                        == before.registry() && after.cache()
                        == before.cache().insert(
                        run.id,
                        run.metadata@,
                    ) && (out matches Step::Done(Ok(response), last) && response@ == plain_action(
                        run.metadata@.summary(before.config.adb_host@),
                    )),
                    (RoundPhase::Saving, Reply::Done(Err(e))) => after.registry()
                        == before.registry() && after.cache()
                        == before.cache() && fails_with(
                        out,
                        "wait_for_adb_write_metadata"@,
                        e.brief(),
                    ),
                    (RoundPhase::Stopping { stop, plan }, _) => after.cache() == before.cache()
                        && exists|inner: Step<Terminate, crate::supervise::Termination>|
                        #[trigger] stop.stepped(before.registry(), after.registry(), reply, inner)
                            && match inner {
                            Step::Ask(s, d) => out matches Step::Ask(WaitForAdb::Running(next), o)
                                && o == d && next.id == run.id && next.deadline == run.deadline
                                && next.metadata == run.metadata && (
                            next.phase matches RoundPhase::Stopping { stop: s2, plan: p } && s2 == s
                                && p == plan),
                            Step::Done(_, _) => starts_record(
                                out,
                                before.config@,
                                run.id,
                                run.metadata@,
                                plan.code@,
                                plan.base@,
                                plan.alt@,
                                clock,
                            ),
                        },
                    (RoundPhase::Recording(rec), _)
                        => exists|inner: Step<RecordFailure, ErrorDetail>|
                        #[trigger] rec.stepped(before, after, reply, clock, inner) && match inner {
                            Step::Ask(r, d) => out matches Step::Ask(WaitForAdb::Running(next), o)
                                && o == d && next.id == run.id && next.deadline == run.deadline
                                && next.metadata == run.metadata && (
                            next.phase matches RoundPhase::Recording(r2) && r2 == r),
                            Step::Done(e, last) => out matches Step::Done(Err(f), l) && f == e
                                && l == last,
                        },
                    _ => fails_with(out, "wait_for_adb_wait"@, unexpected_reply())
                        && after.registry() == before.registry()
                        && after.cache() == before.cache(),
                },
            })
    }

    /// Continues a wait with the host's answer.
    ///
    /// * A record that cannot be read ends the wait with `wait_for_adb_metadata`.
    /// * A poll that fails ends it with `wait_for_adb_wait`. A guest that has
    ///   exited is dropped from the registry and the exit is recorded under
    ///   `wait_for_adb_guest_exit`. A guest that is alive has the bridge connect.
    /// * A bridge that connects has the device list read; a list that shows
    ///   the instance as ready has the record written in state `Running`.
    /// * A round that fails otherwise is repeated after a pause until the
    ///   deadline; after it the guest is terminated and the timeout is
    ///   recorded under `wait_for_adb_timeout`.
    /// * Once the running record is written it is cached and the wait ends
    ///   with its summary; a failed write ends it with `wait_for_adb_write_metadata`.
    pub fn resume(self, manager: &mut InstanceManager, reply: Reply, clock: &Clock) -> (out: Step<
        WaitForAdb,
        WaitResult,
    >)
        ensures
            self.stepped(old(manager), final(manager), reply, *clock, out),
    {
        match self {
            WaitForAdb::Loading { id, timeout_secs } => {
                match reply {
                    Reply::Metadata(Ok(m)) => Self::start(manager, id, timeout_secs, m, clock),
                    Reply::Metadata(Err(e)) => Step::Done(
                        Err(error_detail("wait_for_adb_metadata", e)),
                        Vec::new(),
                    ),
                    _ => Step::Done(
                        Err(error_detail("wait_for_adb_metadata", unexpected())),
                        Vec::new(),
                    ),
                }
            },
            WaitForAdb::Running(run) => {
                let WaitRun { id, deadline, metadata, phase } = run;
                match (phase, reply) {
                    (RoundPhase::Polling { token }, Reply::Guest(Err(e))) => Step::Done(
                        Err(error_detail("wait_for_adb_wait", e)),
                        Vec::new(),
                    ),
                    (RoundPhase::Polling { token }, Reply::Guest(Ok(Some(exit)))) => {
                        manager.guest_registry.remove_if_handle(id, token);
                        let words = exit.describe();
                        let mut base = instance_text(id, " ");
                        base.append("exited before adb became ready");
                        base.append(" (");
                        base.append(words.as_str());
                        base.append(")");
                        let plan = plan_of(
                            "wait_for_adb_guest_exit",
                            base,
                            instance_text(id, " exited before adb and record failed: "),
                        );
                        let run = WaitRun { id, deadline, metadata, phase: RoundPhase::Connecting };
                        run.record(manager, plan, clock)
                    },
                    (RoundPhase::Polling { token }, Reply::Guest(Ok(None))) => {
                        let target = make_serial("0.0.0.0", metadata.adb_port);
                        let call = HostCall::Tool(
                            adb_connect(manager.config.cuttlefish_fhs.as_str(), target.as_str()),
                        );
                        Step::Ask(
                            WaitForAdb::Running(
                                WaitRun { id, deadline, metadata, phase: RoundPhase::Connecting },
                            ),
                            ask(call),
                        )
                    },
                    (RoundPhase::Connecting, Reply::Tool(tool)) => {
                        let target = make_serial("0.0.0.0", metadata.adb_port);
                        let context = join2("invoking adb connect ", target.as_str());
                        match tool_failure(&tool, context.as_str(), "adb connect") {
                            Some(failure) => {
                                let addr = make_serial(
                                    manager.config.adb_host.as_str(),
                                    metadata.adb_port,
                                );
                                let mut base = join3(
                                    "timeout waiting for adb",
                                    " on ",
                                    addr.as_str(),
                                );
                                base.append(": ");
                                base.append(failure.brief.as_str());
                                let mut alt = join3(
                                    "timeout waiting for adb",
                                    " on ",
                                    addr.as_str(),
                                );
                                alt.append(" and record failed: ");
                                let run = WaitRun {
                                    id,
                                    deadline,
                                    metadata,
                                    phase: RoundPhase::Connecting,
                                };
                                run.failed_round(manager, base, alt, clock)
                            },
                            None => {
                                let call = HostCall::Tool(
                                    adb_devices(manager.config.cuttlefish_fhs.as_str()),
                                );
                                Step::Ask(
                                    WaitForAdb::Running(
                                        WaitRun { id, deadline, metadata,
                                            phase: RoundPhase::Listing },
                                    ),
                                    ask(call),
                                )
                            },
                        }
                    },
                    (RoundPhase::Listing, Reply::Tool(tool)) => {
                        let serial = make_serial(manager.config.adb_host.as_str(),
                            metadata.adb_port);
                        let target = make_serial("0.0.0.0", metadata.adb_port);
                        match tool_failure(&tool, "invoking adb devices", "adb devices") {
                            Some(failure) => {
                                let mut base = join3(
                                    "adb devices never succeeded for ",
                                    serial.as_str(),
                                    ": ",
                                );
                                base.append(failure.detailed.as_str());
                                let alt = join3(
                                    "adb devices failed for ",
                                    serial.as_str(),
                                    " and record failed: ",
                                );
                                let run = WaitRun {
                                    id,
                                    deadline,
                                    metadata,
                                    phase: RoundPhase::Connecting,
                                };
                                run.failed_round(manager, base, alt, clock)
                            },
                            None => {
                                let stdout = match &tool {
                                    Ok(out) => out.stdout.as_str(),
                                    Err(_) => "",
                                };
                                match resolve_active_adb_serial(
                                    stdout,
                                    serial.as_str(),
                                    target.as_str(),
                                ) {
                                    Some(_) => {
                                        match clock.now() {
                                            Ok(now) => {
                                                let mut running = metadata;
                                                running.state = InstanceState::Running;
                                                running.updated_at = now;
                                                let call = manager.write_call(id, &running);
                                                Step::Ask(
                                                    WaitForAdb::Running(
                                                        WaitRun {
                                                            id,
                                                            deadline,
                                                            metadata: running,
                                                            phase: RoundPhase::Saving,
                                                        },
                                                    ),
                                                    ask(call),
                                                )
                                            },
                                            Err(e) => Step::Done(
                                                Err(error_detail("wait_for_adb_time", e)),
                                                Vec::new(),
                                            ),
                                        }
                                    },
                                    None => {
                                        let base = join3(
                                            "timeout waiting for adb",
                                            " device ",
                                            serial.as_str(),
                                        );
                                        let mut alt = join3(
                                            "timeout waiting for adb",
                                            " device ",
                                            serial.as_str(),
                                        );
                                        alt.append(" and record failed: ");
                                        let run = WaitRun {
                                            id,
                                            deadline,
                                            metadata,
                                            phase: RoundPhase::Connecting,
                                        };
                                        run.failed_round(manager, base, alt, clock)
                                    },
                                }
                            },
                        }
                    },
                    (RoundPhase::Saving, Reply::Done(Ok(_))) => {
                        manager.remember(id, &metadata);
                        let summary = metadata.summary(manager.config.adb_host.as_str());
                        Step::Done(Ok(InstanceActionResponse::of_summary(summary)), Vec::new())
                    },
                    (RoundPhase::Saving, Reply::Done(Err(e))) => Step::Done(
                        Err(error_detail("wait_for_adb_write_metadata", e.in_brief())),
                        Vec::new(),
                    ),
                    (RoundPhase::Stopping { stop, plan }, reply) => {
                        let ghost answer = reply;
                        let stepped = stop.resume(&mut manager.guest_registry, reply);
                        assert(stop.stepped(
                            old(manager).registry(),
                            manager.registry(),
                            answer,
                            stepped,
                        ));
                        match stepped {
                            Step::Ask(next, d) => Step::Ask(
                                WaitForAdb::Running(
                                    WaitRun {
                                        id,
                                        deadline,
                                        metadata,
                                        phase: RoundPhase::Stopping { stop: next, plan },
                                    },
                                ),
                                d,
                            ),
                            Step::Done(_, _) => {
                                let run = WaitRun {
                                    id,
                                    deadline,
                                    metadata,
                                    phase: RoundPhase::Connecting,
                                };
                                run.record(manager, plan, clock)
                            },
                        }
                    },
                    (RoundPhase::Recording(rec), reply) => {
                        let ghost answer = reply;
                        let ghost recording = rec;
                        let stepped = rec.resume(manager, reply, clock);
                        assert(recording.stepped(old(manager), manager, answer, *clock, stepped));
                        match stepped {
                            Step::Ask(next, d) => Step::Ask(
                                WaitForAdb::Running(
                                    WaitRun {
                                        id,
                                        deadline,
                                        metadata,
                                        phase: RoundPhase::Recording(next),
                                    },
                                ),
                                d,
                            ),
                            Step::Done(e, last) => Step::Done(Err(e), last),
                        }
                    },
                    _ => Step::Done(
                        Err(error_detail("wait_for_adb_wait", unexpected())),
                        Vec::new(),
                    ),
                }
            },
        }
    }
}

/// The wait that takes step `i` of a run that begins as `first`: `first`
/// itself, or the wait that the step before went on as.
pub open spec fn state_at(
    first: WaitForAdb,
    outs: Seq<Step<WaitForAdb, WaitResult>>,
    i: int,
) -> Option<WaitForAdb> {
    if i == 0 {
        Some(first)
    } else if 0 < i <= outs.len() {
        match outs[i - 1] {
            Step::Ask(next, _) => Some(next),
            Step::Done(_, _) => None,
        }
    } else {
        None
    }
}

/// Whether `outs` are the steps of one wait that begins as `first`: step
/// `i` is taken with the manager `managers[i]`, the answer and the clocks
/// `answers[i]`, and leaves the manager `managers[i + 1]` to the next
/// step, so that nothing else touches the manager in between.
pub open spec fn is_run(
    first: WaitForAdb,
    managers: Seq<InstanceManager>,
    answers: Seq<(Reply, Clock)>,
    outs: Seq<Step<WaitForAdb, WaitResult>>,
) -> bool {
    &&& outs.len() == answers.len()
    &&& managers.len() == answers.len() + 1
    &&& forall|i: int|
        0 <= i < answers.len() ==> (#[trigger] state_at(first, outs, i) matches Some(op)
            && op.stepped(&managers[i], &managers[i + 1], answers[i].0, answers[i].1, outs[i]))
}

/// A failure whose recording begins at step `k` of a run, and which is
/// recorded without a hitch, ends the run three steps later: the record
/// and the environment file are written, the run log is read, and the wait
/// fails with the planned code and the planned message, enriched with the
/// end of the log. The cached record then says `Failed`, and the registry
/// is as it was.
pub proof fn lemma_recorded_failure_ends_the_wait(
    first: WaitForAdb,
    managers: Seq<InstanceManager>,
    answers: Seq<(Reply, Clock)>,
    outs: Seq<Step<WaitForAdb, WaitResult>>,
    k: int,
    text: String,
    clipped: bool,
)
    requires
        is_run(first, managers, answers, outs),
        0 <= k,
        k + 3 == answers.len(),
        state_at(first, outs, k) matches Some(WaitForAdb::Running(run)) && (
        run.phase matches RoundPhase::Recording(rec) && rec.phase == RecordPhase::Writing
            && rec.id == run.id && rec.metadata.state == InstanceState::Failed),
        answers[k].0 == Reply::Done(Ok(())),
        answers[k].1.epoch_secs is Some,
        answers[k + 1].0 == Reply::Done(Ok(())),
        answers[k + 2].0 == Reply::Log(crate::host::LogRead::Content { text, clipped }),
    ensures
        ({
            let rec = state_at(first, outs, k)->0->Running_0.phase->Recording_0;
            &&& outs[k + 2] matches Step::Done(Err(d), _) && d@ == detail(
                rec.plan.code@,
                crate::readiness::enriched(
                    rec.plan.base@,
                    crate::readiness::quoted_tail(text@, clipped, managers[k].config.journal_lines),
                ),
            )
            &&& managers[k + 3].cache().contains_key(rec.id)
            &&& managers[k + 3].cache()[rec.id].state == InstanceState::Failed
            &&& managers[k + 3].registry() == managers[k].registry()
        }),
{
    assert(state_at(first, outs, k) is Some);
    assert(state_at(first, outs, k + 1) is Some);
    assert(state_at(first, outs, k + 2) is Some);
}

/// A guest that has exited before its bridge came up fails the wait with
/// `wait_for_adb_guest_exit`, whatever the timeout.
///
/// The run begins with the poll that observes the exit of the registered
/// guest. The handle is dropped from the registry, the record is written
/// in state `Failed`, the run log is read, and the wait ends with a message
/// that describes the exit and quotes the end of the run log. The cached
/// record then says `Failed`.
pub proof fn lemma_wait_for_adb_fails_on_guest_exit(
    first: WaitForAdb,
    exit: ExitStatusInfo,
    text: String,
    clipped: bool,
    managers: Seq<InstanceManager>,
    answers: Seq<(Reply, Clock)>,
    outs: Seq<Step<WaitForAdb, WaitResult>>,
)
    requires
        is_run(first, managers, answers, outs),
        answers.len() == 4,
        first matches WaitForAdb::Running(run) && (run.phase matches RoundPhase::Polling { token }
            && managers[0].registry().contains_key(run.id) && managers[0].registry()[run.id]
            == token),
        answers[0].0 == Reply::Guest(Ok(Some(exit))),
        answers[0].1.epoch_secs is Some,
        answers[1].0 == Reply::Done(Ok(())),
        answers[1].1.epoch_secs is Some,
        answers[2].0 == Reply::Done(Ok(())),
        answers[3].0 == Reply::Log(crate::host::LogRead::Content { text, clipped }),
    ensures
        ({
            let id = first.id();
            let tail = crate::readiness::quoted_tail(
                text@,
                clipped,
                managers[0].config.journal_lines,
            );
            let message = crate::readiness::enriched(exit_base(id, exit), tail);
            &&& outs[0] matches Step::Ask(WaitForAdb::Running(next), d) && (
            next.phase matches RoundPhase::Recording(rec) && rec.metadata.state
                == InstanceState::Failed && asks_write(
                d.call,
                managers[0].config@,
                id,
                rec.metadata@,
            ))
            &&& outs[3] matches Step::Done(Err(d), _) && d@ == detail(
                "wait_for_adb_guest_exit"@,
                message,
            )
            &&& crate::text::has_run(message, exit.description())
            &&& crate::text::has_run(message, tail)
            &&& managers[4].cache().contains_key(id)
            &&& managers[4].cache()[id].state == InstanceState::Failed
            &&& !managers[4].registry().contains_key(id)
        }),
{
    let id = first.id();
    assert(state_at(first, outs, 0) is Some);
    assert(state_at(first, outs, 1) is Some);
    lemma_recorded_failure_ends_the_wait(first, managers, answers, outs, 1, text, clipped);
    let tail = crate::readiness::quoted_tail(text@, clipped, managers[0].config.journal_lines);
    let base = exit_base(id, exit);
    crate::readiness::lemma_enriched_contains_tail(base, tail);
    crate::text::lemma_run_in_middle(
        "instance "@ + decimal(id as nat) + " "@ + "exited before adb became ready"@ + " ("@,
        exit.description(),
        ")"@,
    );
    crate::text::lemma_run_within(
        crate::readiness::enriched(base, tail),
        base,
        exit.description(),
    );
}

/// How a round of the wait `run` fails when the host answers `round`: the
/// message of the failure and what precedes the cause where it cannot be
/// recorded. A round fails when the bridge does not connect, when the
/// device list cannot be read, and when the list does not show the
/// instance as ready; `host` is the address under which the daemon reaches
/// its guests.
pub open spec fn round_failure(
    run: WaitRun,
    host: Seq<char>,
    round: Result<crate::host::ToolOutput, String>,
) -> Option<(Seq<char>, Seq<char>)> {
    let serial = serial_of(host, run.metadata.adb_port);
    let connect = connect_serial_of(run.metadata.adb_port);
    match run.phase {
        RoundPhase::Connecting => if run_failed(round) {
            Some(
                (
                    connect_base(
                        serial,
                        failure_brief(round, "invoking adb connect "@ + connect, "adb connect"@),
                    ),
                    connect_alt(serial),
                ),
            )
        } else {
            None
        },
        RoundPhase::Listing => if run_failed(round) {
            Some(
                (
                    list_base(
                        serial,
                        failure_detail(round, "invoking adb devices"@, "adb devices"@),
                    ),
                    list_alt(serial),
                ),
            )
        } else if active_serial(round->Ok_0.stdout@, serial, connect) is None {
            Some((absent_base(serial), absent_alt(serial)))
        } else {
            None
        },
        _ => None,
    }
}

/// The message of a round that fails; nothing for one that does not.
pub open spec fn round_message(
    run: WaitRun,
    host: Seq<char>,
    round: Result<crate::host::ToolOutput, String>,
) -> Seq<char> {
    match round_failure(run, host, round) {
        Some(failure) => failure.0,
        None => Seq::empty(),
    }
}

/// The step of a run at which the recording of a timeout begins: behind
/// the termination of the guest, which takes two steps where the guest
/// exits within the grace period and four where it has to be killed.
pub open spec fn recording_step(grace: Option<ExitStatusInfo>) -> int {
    if grace is Some {
        3
    } else {
        5
    }
}

/// A bridge that has not come up by the deadline fails the wait with
/// `wait_for_adb_timeout`, whichever way the last round failed.
///
/// The run begins with a round that fails at or after the deadline while
/// the guest is registered. The guest is sent the graceful signal and, if
/// it is still alive after the grace period, the forced one; its handle is
/// dropped from the registry. The record is written in state `Failed`, the
/// run log is read, and the wait ends with the message of the failed round,
/// enriched with the end of the run log. The cached record then says
/// `Failed`.
pub proof fn lemma_wait_for_adb_fails_on_timeout(
    first: WaitForAdb,
    round: Result<crate::host::ToolOutput, String>,
    term: crate::host::SignalReport,
    grace: Option<ExitStatusInfo>,
    kill: crate::host::SignalReport,
    reaped: Option<ExitStatusInfo>,
    text: String,
    clipped: bool,
    managers: Seq<InstanceManager>,
    answers: Seq<(Reply, Clock)>,
    outs: Seq<Step<WaitForAdb, WaitResult>>,
)
    requires
        is_run(first, managers, answers, outs),
        answers.len() == recording_step(grace) + 3,
        first matches WaitForAdb::Running(run) && managers[0].registry().contains_key(run.id)
            && round_failure(run, managers[0].config.adb_host@, round) is Some
            && answers[0].1.millis >= run.deadline,
        answers[0].0 == Reply::Tool(round),
        answers[1].0 == Reply::Signalled(term),
        term.delivered || term.no_such_process,
        answers[2].0 == Reply::Guest(Ok(grace)),
        grace is None ==> answers[3].0 == Reply::Signalled(kill) && (kill.delivered
            || kill.no_such_process) && answers[4].0 == Reply::Guest(Ok(reaped)),
        answers[recording_step(grace) - 1].1.epoch_secs is Some,
        answers[recording_step(grace)].0 == Reply::Done(Ok(())),
        answers[recording_step(grace)].1.epoch_secs is Some,
        answers[recording_step(grace) + 1].0 == Reply::Done(Ok(())),
        answers[recording_step(grace) + 2].0 == Reply::Log(
            crate::host::LogRead::Content { text, clipped },
        ),
    ensures
        ({
            let id = first.id();
            let token = managers[0].registry()[id];
            let last = recording_step(grace) + 2;
            let tail = crate::readiness::quoted_tail(
                text@,
                clipped,
                managers[0].config.journal_lines,
            );
            let message = crate::readiness::enriched(
                round_message(first->Running_0, managers[0].config.adb_host@, round),
                tail,
            );
            &&& outs[0] matches Step::Ask(_, d) && d.call == (HostCall::Signal {
                token,
                signal: GuestSignal::Terminate,
            })
            &&& grace is None ==> (outs[2] matches Step::Ask(_, d) && d.call == (HostCall::Signal {
                token,
                signal: GuestSignal::Kill,
            }))
            &&& outs[last - 3] matches Step::Ask(WaitForAdb::Running(next), d) && (
            next.phase matches RoundPhase::Recording(rec) && rec.metadata.state
                == InstanceState::Failed && asks_write(
                d.call,
                managers[0].config@,
                id,
                rec.metadata@,
            ))
            &&& outs[last] matches Step::Done(Err(d), _) && d@ == detail(
                "wait_for_adb_timeout"@,
                message,
            )
            &&& crate::text::has_run(message, tail)
            &&& managers[last + 1].cache().contains_key(id)
            &&& managers[last + 1].cache()[id].state == InstanceState::Failed
            &&& !managers[last + 1].registry().contains_key(id)
        }),
{
    let k = recording_step(grace);
    assert(state_at(first, outs, 0) is Some);
    assert(state_at(first, outs, 1) is Some);
    assert(state_at(first, outs, 2) is Some);
    if grace is None {
        assert(state_at(first, outs, 3) is Some);
        assert(state_at(first, outs, 4) is Some);
    }
    assert(state_at(first, outs, k) is Some);
    lemma_recorded_failure_ends_the_wait(first, managers, answers, outs, k, text, clipped);
    crate::readiness::lemma_enriched_contains_tail(
        round_message(first->Running_0, managers[0].config.adb_host@, round),
        crate::readiness::quoted_tail(text@, clipped, managers[0].config.journal_lines),
    );
}

} // verus!
