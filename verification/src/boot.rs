//! Verification that a guest has finished booting.
//!
//! Each round connects the bridge, finds the instance in the device list
//! and reads the boot property. A value that does not confirm the boot, or
//! a property that cannot be read, sends the round to the logs: the end of
//! the console log and the end of the run log are searched for the marker.
//! Rounds repeat until the deadline. Verification never touches the guest.

use vstd::prelude::*;
use crate::config::console_log_of;
use crate::host::{
    effects_view, unexpected, unexpected_reply, Clock, Effect, EffectView, HostCall, LogRead, Reply,
    Step,
};
use crate::manager::{ask, ask_after, asks_read, InstanceManager};
use crate::metadata::run_log_of;
use crate::protocol::{
    detail, error_detail, make_serial, serial_of, BootVerificationResult, BootVerificationView,
    ErrorDetail, InstanceId,
};
use crate::readiness::{
    active_serial, adb_connect, adb_devices, adb_of, adb_shell_getprop, failure_detail, quoted_tail,
    resolve_active_adb_serial, run_failed, tool_failure, MAX_TAIL_BYTES,
};
use crate::scan::{tail_file, trim_span, trimmed};
use crate::text::{
    chars_of, decimal, decimal_string, has_run, join2, join3, str_contains, string_of_range,
};

verus! {

/// The property, and log marker, that reports a finished boot.
pub open spec fn boot_marker() -> Seq<char> {
    "VIRTUAL_DEVICE_BOOT_COMPLETED"@
}

/// Seconds granted to a verification that is given no timeout, or zero.
pub const DEFAULT_VERIFY_SECS: u64 = 120;

/// Milliseconds before the next round when the bridge or the property failed.
pub const QUICK_RETRY_MILLIS: u64 = 500;

/// Milliseconds before the next round when the property was read but does
/// not confirm the boot.
pub const SLOW_RETRY_MILLIS: u64 = 1000;

/// Whether a property value confirms the boot.
pub open spec fn confirms_boot(value: Seq<char>) -> bool {
    value == "1"@ || value == "true"@ || value == "TRUE"@
}

/// Decides whether a trimmed property value confirms the boot.
pub fn boot_value_confirms(value: &str) -> (yes: bool)
    ensures
        yes == confirms_boot(value@),
{
    let v = String::from_str(value);
    v == String::from_str("1") || v == String::from_str("true") || v == String::from_str("TRUE")
}

/// Whether the end of a log shows the boot marker. A log that is missing
/// or cannot be read shows nothing.
pub open spec fn log_shows_boot(read: LogRead, keep: usize) -> bool {
    read matches LogRead::Content { text, clipped } && has_run(
        quoted_tail(text@, clipped, keep),
        boot_marker(),
    )
}

/// Searches the last `keep` lines of a log for the boot marker.
pub fn console_has_boot_marker(read: &LogRead, keep: usize) -> (yes: bool)
    ensures
        yes == log_shows_boot(*read, keep),
{
    match read {
        LogRead::Content { text, clipped } => {
            let tail = tail_file(text.as_str(), keep, *clipped);
            str_contains(tail.as_str(), "VIRTUAL_DEVICE_BOOT_COMPLETED")
        },
        _ => false,
    }
}

/// Searches the last `keep` lines of the run log for the boot marker.
pub fn run_log_has_boot_marker(read: &LogRead, keep: usize) -> (yes: bool)
    ensures
        yes == log_shows_boot(*read, keep),
{
    console_has_boot_marker(read, keep)
}

/// A string as the standard debug formatter renders it: quoted and escaped.
pub uninterp spec fn debug_quoted(s: Seq<char>) -> Seq<char>;

/// `<str as core::fmt::Debug>::fmt`, reached through `format!("{:?}", ..)`:
/// the string in quotes with its special characters escaped. The contract
/// only names the result; it depends on the string alone.
#[verifier::external_body]
fn quote_debug(s: &str) -> (out: String)
    ensures
        out@ == debug_quoted(s@),
{
    format!("{:?}", s)
}

/// The message for a bridge that never connected while the boot was verified.
pub open spec fn connect_never(id: InstanceId, cause: Seq<char>) -> Seq<char> {
    "adb connect never succeeded for instance "@ + decimal(id as nat) + ": "@ + cause
}

/// The message for a device list that could never be read.
pub open spec fn devices_never(id: InstanceId, cause: Seq<char>) -> Seq<char> {
    "adb devices never succeeded for instance "@ + decimal(id as nat) + ": "@ + cause
}

/// The message for a device that never appeared in the list.
pub open spec fn device_absent(connect_serial: Seq<char>) -> Seq<char> {
    "adb device "@ + connect_serial + " never appeared in device list"@
}

/// The message for a boot property that could never be read.
pub open spec fn getprop_never(id: InstanceId, cause: Seq<char>) -> Seq<char> {
    "adb getprop never succeeded for instance "@ + decimal(id as nat) + ": "@ + cause
}

/// The message for a boot that was never confirmed, given the last value
/// read in its quoted form.
pub open spec fn marker_missing(id: InstanceId, quoted: Seq<char>) -> Seq<char> {
    "VIRTUAL_DEVICE_BOOT_COMPLETED not observed for instance "@ + decimal(id as nat)
        + " (last value: "@ + quoted + ")"@
}

/// Builds the message for a boot that was never confirmed.
pub fn marker_missing_message(id: InstanceId, quoted: &str) -> (out: String)
    ensures
        out@ == marker_missing(id, quoted@),
{
    let d = decimal_string(id);
    let mut out = join3(
        "VIRTUAL_DEVICE_BOOT_COMPLETED not observed for instance ",
        d.as_str(),
        " (last value: ",
    );
    out.append(quoted);
    out.append(")");
    out
}

fn never(what: &str, id: InstanceId, cause: &str) -> (out: String)
    ensures
        out@ == what@ + decimal(id as nat) + ": "@ + cause@,
{
    let d = decimal_string(id);
    let mut out = join3(what, d.as_str(), ": ");
    out.append(cause);
    out
}

/// What reading the boot property gave when it did not confirm the boot.
#[derive(Debug)]
pub enum Probe {
    /// The trimmed value that was read.
    Value(String),
    /// Why the property could not be read.
    Failed(String),
}

/// Where a round of the verification stands.
#[derive(Debug)]
pub enum BootPhase {
    /// Waiting for the bridge to connect.
    Connecting,
    /// Waiting for the device list.
    Listing,
    /// Waiting for the boot property of the device `active`.
    Probing { active: String },
    /// Waiting for the end of the console log.
    Console(Probe),
    /// Waiting for the end of the run log.
    RunLog(Probe),
}

/// A verification whose record is loaded.
#[derive(Debug)]
pub struct BootRun {
    pub id: InstanceId,
    pub deadline: u64,
    pub adb_port: u16,
    pub phase: BootPhase,
}

/// The verification of the boot of one instance.
#[derive(Debug)]
pub enum VerifyBoot {
    /// Waiting for the record to be read.
    Loading { id: InstanceId, timeout_secs: Option<u64> },
    Running(BootRun),
}

/// How a verification ends.
pub type BootResult = Result<BootVerificationResult, ErrorDetail>;

/// The deadline of a verification that starts at `clock`.
pub open spec fn verify_deadline(clock: Clock, timeout_secs: Option<u64>) -> u64 {
    match timeout_secs {
        Some(secs) => if secs > 0 {
            clock.deadline_after(secs)
        } else {
            clock.deadline_after(DEFAULT_VERIFY_SECS)
        },
        None => clock.deadline_after(DEFAULT_VERIFY_SECS),
    }
}

/// Whether a step fails at once with the given code and message.
pub open spec fn boot_fails(out: Step<VerifyBoot, BootResult>, code: Seq<char>,
    message: Seq<char>) -> bool {
    out matches Step::Done(Err(e), last) && e@ == detail(code, message) && last@.len() == 0
}

/// Whether a step confirms the boot.
pub open spec fn boot_confirmed(out: Step<VerifyBoot, BootResult>) -> bool {
    out matches Step::Done(Ok(r), last) && r@ == (BootVerificationView {
        adb_ready: true,
        boot_marker_observed: true,
        failure_reason: None,
    }) && last@.len() == 0
}

/// Whether a step begins a round: the bridge is told to connect, after
/// the given pause if the round is a retry.
pub open spec fn begins_round(
    out: Step<VerifyBoot, BootResult>,
    fhs: Seq<char>,
    id: InstanceId,
    deadline: u64,
    adb_port: u16,
    pause: Option<u64>,
) -> bool {
    out matches Step::Ask(VerifyBoot::Running(next), d) && next.id == id && next.deadline
        == deadline && next.adb_port == adb_port && next.phase is Connecting && (
    d.call matches HostCall::Tool(c) && c@ == adb_of(
        fhs,
        seq!["connect"@, serial_of("0.0.0.0"@, adb_port)],
    )) && effects_view(d.effects@) == (match pause {
        Some(millis) => seq![EffectView::Pause { millis }],
        None => Seq::<EffectView>::empty(),
    })
}

/// Whether a step reacts to a failed round: after the deadline it fails
/// with the given code and message, before it the next round begins.
pub open spec fn round_failed(
    out: Step<VerifyBoot, BootResult>,
    fhs: Seq<char>,
    run: BootRun,
    clock: Clock,
    pause: u64,
    code: Seq<char>,
    message: Seq<char>,
) -> bool {
    if clock.millis >= run.deadline {
        boot_fails(out, code, message)
    } else {
        begins_round(out, fhs, run.id, run.deadline, run.adb_port, Some(pause))
    }
}

/// Whether a step asks for the end of the log at `path`.
pub open spec fn asks_log(call: HostCall, path: Seq<char>) -> bool {
    call matches HostCall::ReadLog { path: p, max_bytes } && p@ == path && max_bytes
        == MAX_TAIL_BYTES
}

fn round(manager: &InstanceManager, id: InstanceId, deadline: u64, adb_port: u16,
    pause: Option<u64>) -> (out:
    Step<VerifyBoot, BootResult>)
    ensures
        begins_round(out, manager.config.cuttlefish_fhs@, id, deadline, adb_port, pause),
{
    let target = make_serial("0.0.0.0", adb_port);
    let mut effects: Vec<Effect> = Vec::new();
    match pause {
        Some(millis) => {
            effects.push(Effect::Pause { millis });
            assert(effects_view(effects@) =~= seq![EffectView::Pause { millis }]);
        },
        None => {
            assert(effects_view(effects@) =~= Seq::<EffectView>::empty());
        },
    }
    Step::Ask(
        VerifyBoot::Running(BootRun { id, deadline, adb_port, phase: BootPhase::Connecting }),
        ask_after(
            effects,
            HostCall::Tool(adb_connect(manager.config.cuttlefish_fhs.as_str(), target.as_str())),
        ),
    )
}

fn fail_or_retry(
    manager: &InstanceManager,
    run: BootRun,
    clock: &Clock,
    pause: u64,
    code: &str,
    message: String,
) -> (out: Step<VerifyBoot, BootResult>)
    ensures
        round_failed(out, manager.config.cuttlefish_fhs@, run, *clock, pause, code@, message@),
{
    if clock.reached(run.deadline) {
        Step::Done(Err(error_detail(code, message)), Vec::new())
    } else {
        round(manager, run.id, run.deadline, run.adb_port, Some(pause))
    }
}

fn confirmed() -> (out: Step<VerifyBoot, BootResult>)
    ensures
        boot_confirmed(out),
{
    Step::Done(Ok(BootVerificationResult::observed()), Vec::new())
}

/// The failure of a round, once the deadline has been reached.
pub open spec fn at_deadline(
    clock: Clock,
    deadline: u64,
    code: Seq<char>,
    message: Seq<char>,
) -> Option<Result<(), (Seq<char>, Seq<char>)>> {
    if clock.millis >= deadline {
        Some(Err((code, message)))
    } else {
        None
    }
}

impl VerifyBoot {
    /// How the verification ends when the host answers `reply`, if it
    /// ends: confirmed, or failed with a code and a message.
    ///
    /// The boot is confirmed by a property value that says so, and by the
    /// marker in the console log or in the run log. A round that fails
    /// otherwise ends the verification only once the deadline is reached.
    pub open spec fn verdict(
        self,
        adb_host: Seq<char>,
        keep: usize,
        reply: Reply,
        clock: Clock,
    ) -> Option<Result<(), (Seq<char>, Seq<char>)>> {
        match self {
            VerifyBoot::Loading { .. } => match reply {
                Reply::Metadata(Ok(_)) => None,
                Reply::Metadata(Err(e)) => Some(Err(("verify_boot_metadata"@, e@))),
                _ => Some(Err(("verify_boot_metadata"@, unexpected_reply()))),
            },
            VerifyBoot::Running(run) => {
                let serial = serial_of(adb_host, run.adb_port);
                let target = serial_of("0.0.0.0"@, run.adb_port);
                let failed = "verify_boot_adb_failed"@;
                match (run.phase, reply) {
                    (BootPhase::Connecting, Reply::Tool(tool)) => if run_failed(tool) {
                        at_deadline(
                            clock,
                            run.deadline,
                            failed,
                            connect_never(
                                run.id,
                                failure_detail(
                                    tool,
                                    "invoking adb connect "@ + target,
                                    "adb connect"@,
                                ),
                            ),
                        )
                    } else {
                        None
                    },
                    (BootPhase::Listing, Reply::Tool(tool)) => if run_failed(tool) {
                        at_deadline(
                            clock,
                            run.deadline,
                            failed,
                            devices_never(
                                run.id,
                                failure_detail(tool, "invoking adb devices"@, "adb devices"@),
                            ),
                        )
                    } else if active_serial(tool->Ok_0.stdout@, serial, target) is None {
                        at_deadline(clock, run.deadline, failed, device_absent(target))
                    } else {
                        None
                    },
                    (BootPhase::Probing { .. }, Reply::Tool(tool)) => if !run_failed(tool)
                        && confirms_boot(trimmed(tool->Ok_0.stdout@)) {
                        Some(Ok(()))
                    } else {
                        None
                    },
                    (BootPhase::Console(_), Reply::Log(read)) => if log_shows_boot(read, keep) {
                        Some(Ok(()))
                    } else {
                        None
                    },
                    (BootPhase::RunLog(probe), Reply::Log(read)) => if log_shows_boot(read, keep) {
                        Some(Ok(()))
                    } else {
                        match probe {
                            Probe::Value(v) => at_deadline(
                                clock,
                                run.deadline,
                                "verify_boot_marker_missing"@,
                                marker_missing(run.id, debug_quoted(v@)),
                            ),
                            Probe::Failed(cause) => at_deadline(
                                clock,
                                run.deadline,
                                failed,
                                getprop_never(run.id, cause@),
                            ),
                        }
                    },
                    _ => Some(Err((failed, unexpected_reply()))),
                }
            },
        }
    }

    fn start(
        manager: &InstanceManager,
        id: InstanceId,
        timeout_secs: Option<u64>,
        adb_port: u16,
        clock: &Clock,
    ) -> (out: Step<VerifyBoot, BootResult>)
        ensures
            begins_round(
                out,
                manager.config.cuttlefish_fhs@,
                id,
                verify_deadline(*clock, timeout_secs),
                adb_port,
                None,
            ),
    {
        let secs = match timeout_secs {
            Some(secs) => if secs > 0 {
                secs
            } else {
                DEFAULT_VERIFY_SECS
            },
            None => DEFAULT_VERIFY_SECS,
        };
        round(manager, id, clock.deadline(secs), adb_port, None)
    }

    /// What the first step does: the relation between the manager, the
    /// clocks and the outcome of the step.
    pub open spec fn begun(
        manager: &InstanceManager,
        id: InstanceId,
        timeout_secs: Option<u64>,
        clock: Clock,
        out: Step<VerifyBoot, BootResult>,
    ) -> bool {
        &&& (manager.cache().contains_key(id) ==> begins_round(
                out,
                manager.config.cuttlefish_fhs@,
                id,
                verify_deadline(clock, timeout_secs),
                manager.cache()[id].adb_port,
                None,
            ))
        &&& (!manager.cache().contains_key(id) ==> (out matches Step::Ask(next, d) && next == (
            VerifyBoot::Loading { id, timeout_secs }) && d.effects@.len() == 0 && asks_read(
                d.call,
                manager.config@,
                id,
            )))
        &&& (out is Ask)
    }

    /// Begins a verification. The record comes from the cache if it is
    /// there, and is read from its file otherwise; with the record at hand
    /// the first round begins.
    pub fn begin(
        manager: &InstanceManager,
        id: InstanceId,
        timeout_secs: Option<u64>,
        clock: &Clock,
    ) -> (out: Step<VerifyBoot, BootResult>)
        ensures
            Self::begun(manager, id, timeout_secs, *clock, out),
    {
        match manager.metadata_cache.get(id) {
            Some(metadata) => Self::start(manager, id, timeout_secs, metadata.adb_port, clock),
            None => Step::Ask(VerifyBoot::Loading { id, timeout_secs }, ask(manager.read_call(id))),
        }
    }

    /// What one step does: the relation between the manager before and after
    /// the step, the host's answer, the clocks and the outcome of the step.
    pub open spec fn stepped(
        self,
        manager: &InstanceManager,
        reply: Reply,
        clock: Clock,
        out: Step<VerifyBoot, BootResult>,
    ) -> bool {
        &&& (match self.verdict(
                manager.config.adb_host@,
                manager.config.journal_lines,
                reply,
                clock,
            ) {
                Some(Ok(_)) => boot_confirmed(out),
                Some(Err(failure)) => boot_fails(out, failure.0, failure.1),
                None => out is Ask,
            })
        &&& (match self {
                VerifyBoot::Loading { id, timeout_secs } => match reply {
                    Reply::Metadata(Ok(m)) => begins_round(
                        out,
                        manager.config.cuttlefish_fhs@,
                        id,
                        verify_deadline(clock, timeout_secs),
                        m.adb_port,
                        None,
                    ),
                    Reply::Metadata(Err(e)) => boot_fails(out, "verify_boot_metadata"@, e@),
                    _ => boot_fails(out, "verify_boot_metadata"@, unexpected_reply()),
                },
                VerifyBoot::Running(run) => {
                    let fhs = manager.config.cuttlefish_fhs@;
                    let serial = serial_of(manager.config.adb_host@, run.adb_port);
                    let target = serial_of("0.0.0.0"@, run.adb_port);
                    let keep = manager.config.journal_lines;
                    match (run.phase, reply) {
                        (BootPhase::Connecting, Reply::Tool(tool)) => if run_failed(tool) {
                            round_failed(
                                out,
                                fhs,
                                run,
                                clock,
                                QUICK_RETRY_MILLIS,
                                "verify_boot_adb_failed"@,
                                connect_never(
                                    run.id,
                                    failure_detail(
                                        tool,
                                        "invoking adb connect "@ + target,
                                        "adb connect"@,
                                    ),
                                ),
                            )
                        } else {
                            out matches Step::Ask(VerifyBoot::Running(next), d) && next.id == run.id
                                && next.deadline == run.deadline && next.adb_port == run.adb_port
                                && next.phase is Listing && d.effects@.len() == 0 && (
                            d.call matches HostCall::Tool(c) && c@ == adb_of(fhs, seq!["devices"@]))
                        },
                        (BootPhase::Listing, Reply::Tool(tool)) => if run_failed(tool) {
                            round_failed(
                                out,
                                fhs,
                                run,
                                clock,
                                QUICK_RETRY_MILLIS,
                                "verify_boot_adb_failed"@,
                                devices_never(
                                    run.id,
                                    failure_detail(tool, "invoking adb devices"@, "adb devices"@),
                                ),
                            )
                        } else {
                            match active_serial(tool->Ok_0.stdout@, serial, target) {
                                Some(active) => out matches Step::Ask(VerifyBoot::Running(next), d)
                                    && next.id == run.id && next.deadline == run.deadline
                                    && next.adb_port == run.adb_port && (
                                next.phase matches BootPhase::Probing { active: a } && a@ == active)
                                    && d.effects@.len() == 0 && (d.call matches HostCall::Tool(c)
                                    && c@ == adb_of(
                                    fhs,
                                    seq!["-s"@, active, "shell"@, "getprop"@, boot_marker()],
                                )),
                                None => round_failed(
                                    out,
                                    fhs,
                                    run,
                                    clock,
                                    QUICK_RETRY_MILLIS,
                                    "verify_boot_adb_failed"@,
                                    device_absent(target),
                                ),
                            }
                        },
                        (BootPhase::Probing { active }, Reply::Tool(tool)) => if !run_failed(tool)
                            && confirms_boot(trimmed(tool->Ok_0.stdout@)) {
                            boot_confirmed(out)
                        } else {
                            out matches Step::Ask(VerifyBoot::Running(next), d) && next.id == run.id
                                && next.deadline == run.deadline && next.adb_port == run.adb_port
                                && d.effects@.len() == 0 && asks_log(
                                d.call,
                                console_log_of(manager.config@, run.id),
                            ) && (next.phase matches BootPhase::Console(probe) && if run_failed(
                                tool,
                            ) {
                                probe matches Probe::Failed(cause) && cause@ == failure_detail(
                                    tool,
                                    "invoking adb getprop "@ + boot_marker() + " for "@ + active@,
                                    "adb"@,
                                )
                            } else {
                                probe matches Probe::Value(v) && v@ == trimmed(tool->Ok_0.stdout@)
                            })
                        },
                        (BootPhase::Console(probe), Reply::Log(read)) => if log_shows_boot(
                            read,
                            keep,
                        ) {
                            boot_confirmed(out)
                        } else {
                            out matches Step::Ask(VerifyBoot::Running(next), d) && next.id == run.id
                                && next.deadline == run.deadline && next.adb_port == run.adb_port
                                && d.effects@.len() == 0 && asks_log(
                                d.call,
                                run_log_of(manager.config@, run.id),
                            ) && (next.phase matches BootPhase::RunLog(p) && p == probe)
                        },
                        (BootPhase::RunLog(probe), Reply::Log(read)) => if log_shows_boot(
                            read,
                            keep,
                        ) {
                            boot_confirmed(out)
                        } else {
                            match probe {
                                Probe::Value(v) => round_failed(
                                    out,
                                    fhs,
                                    run,
                                    clock,
                                    SLOW_RETRY_MILLIS,
                                    "verify_boot_marker_missing"@,
                                    marker_missing(run.id, debug_quoted(v@)),
                                ),
                                Probe::Failed(cause) => round_failed(
                                    out,
                                    fhs,
                                    run,
                                    clock,
                                    QUICK_RETRY_MILLIS,
                                    "verify_boot_adb_failed"@,
                                    getprop_never(run.id, cause@),
                                ),
                            }
                        },
                        _ => boot_fails(out, "verify_boot_adb_failed"@, unexpected_reply()),
                    }
                },
            })
    }

    /// Continues a verification with the host's answer.
    ///
    /// * A record that cannot be read ends it with `verify_boot_metadata`.
    /// * A bridge that does not connect, a device list that cannot be read
    ///   or does not show the instance, and a property that cannot be read
    ///   repeat the round after a short pause; after the deadline they end
    ///   the verification with `verify_boot_adb_failed`.
    /// * A property value of `1`, `true` or `TRUE` confirms the boot.
    /// * Without such a value the console log and then the run log are
    ///   searched; the marker in either confirms the boot.
    /// * A value that was read but never confirmed ends the verification
    ///   after the deadline with `verify_boot_marker_missing`.
    pub fn resume(self, manager: &InstanceManager, reply: Reply, clock: &Clock) -> (out: Step<
        VerifyBoot,
        BootResult,
    >)
        ensures
            self.stepped(manager, reply, *clock, out),
    {
        match self {
            VerifyBoot::Loading { id, timeout_secs } => {
                match reply {
                    Reply::Metadata(Ok(m)) => Self::start(manager, id, timeout_secs, m.adb_port,
                        clock),
                    Reply::Metadata(Err(e)) => Step::Done(
                        Err(error_detail("verify_boot_metadata", e)),
                        Vec::new(),
                    ),
                    _ => Step::Done(
                        Err(error_detail("verify_boot_metadata", unexpected())),
                        Vec::new(),
                    ),
                }
            },
            VerifyBoot::Running(run) => {
                let BootRun { id, deadline, adb_port, phase } = run;
                let target = make_serial("0.0.0.0", adb_port);
                match (phase, reply) {
                    (BootPhase::Connecting, Reply::Tool(tool)) => {
                        let context = join2("invoking adb connect ", target.as_str());
                        match tool_failure(&tool, context.as_str(), "adb connect") {
                            Some(failure) => fail_or_retry(
                                manager,
                                BootRun { id, deadline, adb_port, phase: BootPhase::Connecting },
                                clock,
                                QUICK_RETRY_MILLIS,
                                "verify_boot_adb_failed",
                                never(
                                    "adb connect never succeeded for instance ",
                                    id,
                                    failure.detailed.as_str(),
                                ),
                            ),
                            None => Step::Ask(
                                VerifyBoot::Running(
                                    BootRun { id, deadline, adb_port, phase: BootPhase::Listing },
                                ),
                                ask(
                                    HostCall::Tool(
                                        adb_devices(manager.config.cuttlefish_fhs.as_str()),
                                    ),
                                ),
                            ),
                        }
                    },
                    (BootPhase::Listing, Reply::Tool(tool)) => {
                        match tool_failure(&tool, "invoking adb devices", "adb devices") {
                            Some(failure) => fail_or_retry(
                                manager,
                                BootRun { id, deadline, adb_port, phase: BootPhase::Connecting },
                                clock,
                                QUICK_RETRY_MILLIS,
                                "verify_boot_adb_failed",
                                never(
                                    "adb devices never succeeded for instance ",
                                    id,
                                    failure.detailed.as_str(),
                                ),
                            ),
                            None => {
                                let serial = make_serial(manager.config.adb_host.as_str(),
                                    adb_port);
                                let stdout = match &tool {
                                    Ok(out) => out.stdout.as_str(),
                                    Err(_) => "",
                                };
                                match resolve_active_adb_serial(
                                    stdout,
                                    serial.as_str(),
                                    target.as_str(),
                                ) {
                                    Some(active) => {
                                        let call = HostCall::Tool(
                                            adb_shell_getprop(
                                                manager.config.cuttlefish_fhs.as_str(),
                                                active.as_str(),
                                                "VIRTUAL_DEVICE_BOOT_COMPLETED",
                                            ),
                                        );
                                        Step::Ask(
                                            VerifyBoot::Running(
                                                BootRun {
                                                    id,
                                                    deadline,
                                                    adb_port,
                                                    phase: BootPhase::Probing { active },
                                                },
                                            ),
                                            ask(call),
                                        )
                                    },
                                    None => fail_or_retry(
                                        manager,
                                        BootRun {
                                            id,
                                            deadline,
                                            adb_port,
                                            phase: BootPhase::Connecting,
                                        },
                                        clock,
                                        QUICK_RETRY_MILLIS,
                                        "verify_boot_adb_failed",
                                        join3(
                                            "adb device ",
                                            target.as_str(),
                                            " never appeared in device list",
                                        ),
                                    ),
                                }
                            },
                        }
                    },
                    (BootPhase::Probing { active }, Reply::Tool(tool)) => {
                        let mut context = join3(
                            "invoking adb getprop ",
                            "VIRTUAL_DEVICE_BOOT_COMPLETED",
                            " for ",
                        );
                        context.append(active.as_str());
                        let probe = match tool_failure(&tool, context.as_str(), "adb") {
                            Some(failure) => Probe::Failed(failure.detailed),
                            None => {
                                let stdout = match &tool {
                                    Ok(out) => out.stdout.as_str(),
                                    Err(_) => "",
                                };
                                let v = chars_of(stdout);
                                let span = trim_span(&v);
                                let value = string_of_range(&v, span.0, span.1);
                                if boot_value_confirms(value.as_str()) {
                                    return confirmed();
                                }
                                Probe::Value(value)
                            },
                        };
                        Step::Ask(
                            VerifyBoot::Running(
                                BootRun { id, deadline, adb_port,
                                    phase: BootPhase::Console(probe) },
                            ),
                            ask(
                                HostCall::ReadLog {
                                    path: manager.config.console_log_path(id),
                                    max_bytes: MAX_TAIL_BYTES,
                                },
                            ),
                        )
                    },
                    (BootPhase::Console(probe), Reply::Log(read)) => {
                        if console_has_boot_marker(&read, manager.config.journal_lines) {
                            confirmed()
                        } else {
                            let paths = manager.paths(id);
                            Step::Ask(
                                VerifyBoot::Running(
                                    BootRun {
                                        id,
                                        deadline,
                                        adb_port,
                                        phase: BootPhase::RunLog(probe),
                                    },
                                ),
                                ask(
                                    HostCall::ReadLog {
                                        path: paths.run_log,
                                        max_bytes: MAX_TAIL_BYTES,
                                    },
                                ),
                            )
                        }
                    },
                    (BootPhase::RunLog(probe), Reply::Log(read)) => {
                        if run_log_has_boot_marker(&read, manager.config.journal_lines) {
                            confirmed()
                        } else {
                            let run = BootRun { id, deadline, adb_port,
                                phase: BootPhase::Connecting };
                            match probe {
                                Probe::Value(v) => {
                                    let quoted = quote_debug(v.as_str());
                                    fail_or_retry(
                                        manager,
                                        run,
                                        clock,
                                        SLOW_RETRY_MILLIS,
                                        "verify_boot_marker_missing",
                                        marker_missing_message(id, quoted.as_str()),
                                    )
                                },
                                Probe::Failed(cause) => fail_or_retry(
                                    manager,
                                    run,
                                    clock,
                                    QUICK_RETRY_MILLIS,
                                    "verify_boot_adb_failed",
                                    never(
                                        "adb getprop never succeeded for instance ",
                                        id,
                                        cause.as_str(),
                                    ),
                                ),
                            }
                        }
                    },
                    _ => Step::Done(
                        Err(error_detail("verify_boot_adb_failed", unexpected())),
                        Vec::new(),
                    ),
                }
            },
        }
    }
}

} // verus!
