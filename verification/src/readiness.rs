//! Readiness of a started guest: the bridge tool's answers, the record kept
//! of a failed launch, and the polling protocol that waits for the bridge.

use vstd::prelude::*;
use crate::cleanup::slice_of;
use crate::host::{
    unexpected, unexpected_reply, Clock, Command, CommandView, HostCall, LogRead, Reply, Step,
    ToolOutput,
};
use crate::manager::{ask, asks_env, asks_write, InstanceManager};
use crate::metadata::{run_log_of, InstanceMetadata};
use crate::protocol::{detail, error_detail, ErrorDetail, InstanceId, InstanceState};
use crate::scan::{
    after_spaces, after_word, first_word, line_spans, second_word, split_lines, tail_file, tail_of,
};
use crate::text::{chars_of, join2, join3, range_equals, string_of_range};

verus! {

/// The most that is read from the end of a log file.
pub const MAX_TAIL_BYTES: u64 = 1048576;

/// Milliseconds between two rounds of waiting for the bridge.
pub const WAIT_RETRY_MILLIS: u64 = 1000;

/// Milliseconds of grace given to a guest that is terminated because the
/// bridge never came up.
pub const WAIT_GRACE_MILLIS: u64 = 2000;

/// The bridge tool invoked through the launcher's wrapper.
pub open spec fn adb_of(fhs: Seq<char>, rest: Seq<Seq<char>>) -> CommandView {
    CommandView { program: fhs, args: seq!["--"@, "adb"@] + rest }
}

/// The command that connects the bridge to `serial`.
pub fn adb_connect(fhs: &str, serial: &str) -> (out: Command)
    ensures
        out@ == adb_of(fhs@, seq!["connect"@, serial@]),
{
    let out = crate::cleanup::command4(fhs, "--", "adb", "connect", serial);
    assert(out@.args =~= seq!["--"@, "adb"@] + seq!["connect"@, serial@]);
    out
}

/// The command that lists the bridge's devices.
pub fn adb_devices(fhs: &str) -> (out: Command)
    ensures
        out@ == adb_of(fhs@, seq!["devices"@]),
{
    let out = crate::cleanup::command3(fhs, "--", "adb", "devices");
    assert(out@.args =~= seq!["--"@, "adb"@] + seq!["devices"@]);
    out
}

/// The command that reads a property of the device `serial`.
pub fn adb_shell_getprop(fhs: &str, serial: &str, property: &str) -> (out: Command)
    ensures
        out@ == adb_of(fhs@, seq!["-s"@, serial@, "shell"@, "getprop"@, property@]),
{
    let mut args: Vec<String> = Vec::new();
    args.push(String::from_str("--"));
    args.push(String::from_str("adb"));
    args.push(String::from_str("-s"));
    args.push(String::from_str(serial));
    args.push(String::from_str("shell"));
    args.push(String::from_str("getprop"));
    args.push(String::from_str(property));
    assert(args.deep_view() =~= seq!["--"@, "adb"@] + seq![
        "-s"@,
        serial@,
        "shell"@,
        "getprop"@,
        property@,
    ]);
    Command { program: String::from_str(fhs), args }
}

/// Whether a run counts as failed: it could not be started, or the program
/// did not exit with code zero.
pub open spec fn run_failed(run: Result<ToolOutput, String>) -> bool {
    !(run matches Ok(out) && out.succeeded())
}

/// The short wording of a failed run: the context if the program could not
/// be started, else what it returned and what it printed as errors.
pub open spec fn failure_brief(
    run: Result<ToolOutput, String>,
    context: Seq<char>,
    label: Seq<char>,
) -> Seq<char> {
    match run {
        Err(_) => context,
        Ok(out) => label + " returned "@ + out.status@ + ": "@ + out.stderr@,
    }
}

/// The long wording of a failed run: as the short one, followed by the
/// cause if the program could not be started.
pub open spec fn failure_detail(
    run: Result<ToolOutput, String>,
    context: Seq<char>,
    label: Seq<char>,
) -> Seq<char> {
    match run {
        Err(cause) => context + ": "@ + cause@,
        Ok(out) => label + " returned "@ + out.status@ + ": "@ + out.stderr@,
    }
}

/// A failed run in both wordings.
#[derive(Debug)]
pub struct ToolFailure {
    pub brief: String,
    pub detailed: String,
}

/// Judges a run: nothing if it succeeded, else its failure in both wordings.
pub fn tool_failure(run: &Result<ToolOutput, String>, context: &str, label: &str) -> (out: Option<
    ToolFailure,
>)
    ensures
        out is Some == run_failed(*run),
        out matches Some(f) ==> f.brief@ == failure_brief(*run, context@, label@) && f.detailed@
            == failure_detail(*run, context@, label@),
{
    match run {
        Err(cause) => Some(
            ToolFailure {
                brief: String::from_str(context),
                detailed: join3(context, ": ", cause.as_str()),
            },
        ),
        Ok(out) => {
            if out.success() {
                None
            } else {
                let mut brief = join3(label, " returned ", out.status.as_str());
                brief.append(": ");
                brief.append(out.stderr.as_str());
                let detailed = brief.clone();
                Some(ToolFailure { brief, detailed })
            }
        },
    }
}

/// The device that a line of the device list reports as ready, if it is
/// one of the two addresses of the instance.
pub open spec fn ready_entry(line: Seq<char>, a: Seq<char>, b: Seq<char>) -> Option<Seq<char>> {
    match first_word(line) {
        Some(w) => if (w == a || w == b) && second_word(line) == "device"@ {
            Some(w)
        } else {
            None
        },
        None => None,
    }
}

/// The first ready device in `lines[from..]`.
pub open spec fn first_ready(lines: Seq<Seq<char>>, from: int, a: Seq<char>,
    b: Seq<char>) -> Option<
    Seq<char>,
>
    decreases lines.len() - from,
{
    if 0 <= from < lines.len() {
        match ready_entry(lines[from], a, b) {
            Some(w) => Some(w),
            None => first_ready(lines, from + 1, a, b),
        }
    } else {
        None
    }
}

/// The address under which the device list shows the instance as ready.
/// The first line of the list is its heading and is not read.
pub open spec fn active_serial(stdout: Seq<char>, a: Seq<char>, b: Seq<char>) -> Option<Seq<char>> {
    first_ready(split_lines(stdout), 1, a, b)
}

fn ready_in_line(line: &Vec<char>, a: &Vec<char>, b: &Vec<char>, device: &Vec<char>) -> (out:
    Option<String>)
    requires
        device@ == "device"@,
    ensures
        match out {
            Some(w) => ready_entry(line@, a@, b@) == Some(w@),
            None => ready_entry(line@, a@, b@) is None,
        },
{
    let s1 = after_spaces(line, 0);
    if s1 >= line.len() {
        return None;
    }
    let e1 = after_word(line, s1);
    let s2 = after_spaces(line, e1);
    let matches_serial = range_equals(line, s1, e1, a) || range_equals(line, s1, e1, b);
    if !matches_serial {
        return None;
    }
    if s2 < line.len() {
        let e2 = after_word(line, s2);
        if range_equals(line, s2, e2, device) {
            Some(string_of_range(line, s1, e1))
        } else {
            None
        }
    } else {
        proof {
            reveal_strlit("device");
            assert("device"@.len() == 6);
        }
        None
    }
}

/// Finds the address under which the device list shows the instance as ready.
pub fn resolve_active_adb_serial(stdout: &str, serial_a: &str, serial_b: &str) -> (out: Option<
    String,
>)
    ensures
        match out {
            Some(w) => active_serial(stdout@, serial_a@, serial_b@) == Some(w@),
            None => active_serial(stdout@, serial_a@, serial_b@) is None,
        },
{
    let v = chars_of(stdout);
    let a = chars_of(serial_a);
    let b = chars_of(serial_b);
    let device = chars_of("device");
    let spans = line_spans(&v, 0);
    let ghost lines = split_lines(stdout@);
    if spans.len() <= 1 {
        return None;
    }
    let mut i: usize = 1;
    while i < spans.len()
        invariant
            1 <= i <= spans.len(),
            v@ == stdout@,
            a@ == serial_a@,
            b@ == serial_b@,
            device@ == "device"@,
            lines == split_lines(stdout@),
            crate::scan::cut(v@, spans@) == lines,
            crate::scan::spans_within(spans@, v@.len()),
            first_ready(lines, 1, a@, b@) == first_ready(lines, i as int, a@, b@),
        decreases spans.len() - i,
    {
        let span = spans[i];
        let line = slice_of(&v, span.start, span.end);
        assert(line@ == lines[i as int]);
        match ready_in_line(&line, &a, &b, &device) {
            Some(w) => {
                return Some(w);
            },
            None => {},
        }
        i += 1;
    }
    None
}

/// What is put in front of a failure when the run log could be read.
pub open spec fn enriched(base: Seq<char>, tail: Seq<char>) -> Seq<char> {
    "cfctl-run.log tail"@ + ":\n"@ + tail + ": "@ + base
}

/// A failure that was enriched with the end of the run log names the log
/// and contains that end and the failure itself, whatever they are.
pub proof fn lemma_enriched_contains_tail(base: Seq<char>, tail: Seq<char>)
    ensures
        crate::text::has_run(enriched(base, tail), tail),
        crate::text::has_run(enriched(base, tail), base),
        crate::text::has_run(enriched(base, tail), "cfctl-run.log tail"@),
{
    let whole = enriched(base, tail);
    let empty = Seq::<char>::empty();
    crate::text::lemma_run_in_middle("cfctl-run.log tail"@ + ":\n"@, tail, ": "@ + base);
    assert(whole =~= ("cfctl-run.log tail"@ + ":\n"@) + tail + (": "@ + base));
    crate::text::lemma_run_in_middle("cfctl-run.log tail"@ + ":\n"@ + tail + ": "@, base, empty);
    assert(whole =~= ("cfctl-run.log tail"@ + ":\n"@ + tail + ": "@) + base + empty);
    crate::text::lemma_run_at_start("cfctl-run.log tail"@, ":\n"@ + tail + ": "@ + base);
    assert(whole =~= "cfctl-run.log tail"@ + (":\n"@ + tail + ": "@ + base));
}

/// The text of a log as it is quoted in messages: its last `keep` lines.
pub open spec fn quoted_tail(text: Seq<char>, clipped: bool, keep: usize) -> Seq<char> {
    tail_of(text, keep as nat, clipped)
}

/// How a launch failure is worded.
#[derive(Debug)]
pub struct FailurePlan {
    /// The code of the failure.
    pub code: String,
    /// The message when the failure was recorded.
    pub base: String,
    /// What precedes the cause when recording the failure failed itself.
    pub alt: String,
}

/// Where the recording of a launch failure stands.
#[derive(Clone, Copy, Debug, PartialEq, Eq, Structural)]
pub enum RecordPhase {
    /// Waiting for the metadata file to be written.
    Writing,
    /// Waiting for the environment file to be written.
    Exporting,
    /// Waiting for the end of the run log.
    Tailing,
}

/// The recording of a launch failure: the record is marked failed and
/// persisted, and the failure is enriched with the end of the run log.
#[derive(Debug)]
pub struct RecordFailure {
    pub id: InstanceId,
    pub plan: FailurePlan,
    /// The record as it is written: failed, touched at the time of the failure.
    pub metadata: InstanceMetadata,
    pub phase: RecordPhase,
}

/// Whether a step ends in the failure with the given code and message.
pub open spec fn ends_with(
    out: Step<RecordFailure, ErrorDetail>,
    code: Seq<char>,
    message: Seq<char>,
) -> bool {
    out matches Step::Done(e, last) && e@ == detail(code, message) && last@.len() == 0
}

impl RecordFailure {
    /// The record being written is a failed one, and while the log is
    /// awaited it is the cached one.
    pub open spec fn settled(&self, manager: &InstanceManager) -> bool {
        &&& self.metadata.state == InstanceState::Failed
        &&& self.phase == RecordPhase::Tailing ==> manager.cache().contains_key(self.id)
            && manager.cache()[self.id] == self.metadata@
    }

    /// The message with which the recording ends when the host answers
    /// `reply`, if it ends: the planned message, enriched with the end of
    /// the run log if there is one, once the failure is recorded; the
    /// alternative wording and the cause when recording fails itself.
    pub open spec fn verdict(self, reply: Reply, clock: Clock, keep: usize) -> Option<Seq<char>> {
        match (self.phase, reply) {
            (RecordPhase::Writing, Reply::Done(Ok(_))) => match clock.epoch_secs {
                Some(_) => None,
                None => Some(self.plan.alt@ + crate::host::clock_failure()),
            },
            (RecordPhase::Writing, Reply::Done(Err(e))) => Some(self.plan.alt@ + e.full()),
            (RecordPhase::Exporting, Reply::Done(Ok(_))) => None,
            (RecordPhase::Exporting, Reply::Done(Err(e))) => Some(self.plan.alt@ + e.full()),
            (RecordPhase::Tailing, Reply::Log(read)) => match read {
                LogRead::Missing => Some(self.plan.base@),
                LogRead::Failed(e) => Some(self.plan.alt@ + e.full()),
                LogRead::Content { text, clipped } => Some(
                    enriched(self.plan.base@, quoted_tail(text@, clipped, keep)),
                ),
            },
            _ => Some(self.plan.alt@ + unexpected_reply()),
        }
    }

    fn give_up(plan: FailurePlan, cause: &str) -> (out: Step<RecordFailure, ErrorDetail>)
        ensures
            ends_with(out, plan.code@, plan.alt@ + cause@),
    {
        let message = join2(plan.alt.as_str(), cause);
        Step::Done(error_detail(plan.code.as_str(), message), Vec::new())
    }

    /// Begins recording: the record moves to `Failed` with the current time
    /// and is written to its metadata file. If the clock cannot be read,
    /// recording fails at once.
    pub fn begin(
        manager: &InstanceManager,
        id: InstanceId,
        metadata: InstanceMetadata,
        plan: FailurePlan,
        clock: &Clock,
    ) -> (out: Step<RecordFailure, ErrorDetail>)
        ensures
            match clock.epoch_secs {
                Some(now) => out matches Step::Ask(next, d) && next.phase == RecordPhase::Writing
                    && next.id == id && next.plan == plan && next.metadata@ == metadata@.moved_to(
                    InstanceState::Failed,
                    now,
                ) && d.effects@.len() == 0 && asks_write(
                    d.call,
                    manager.config@,
                    id,
                    next.metadata@,
                ) && next.settled(manager),
                None => ends_with(out, plan.code@, plan.alt@ + crate::host::clock_failure()),
            },
    {
        match clock.now() {
            Ok(now) => {
                let mut failed = metadata;
                failed.state = InstanceState::Failed;
                failed.updated_at = now;
                let call = manager.write_call(id, &failed);
                Step::Ask(
                    RecordFailure { id, plan, metadata: failed, phase: RecordPhase::Writing },
                    ask(call),
                )
            },
            Err(e) => Self::give_up(plan, e.as_str()),
        }
    }

    /// What one step does: the relation between the manager before and after
    /// the step, the host's answer, the clocks and the outcome of the step.
    pub open spec fn stepped(
        self,
        before: &InstanceManager,
        after: &InstanceManager,
        reply: Reply,
        clock: Clock,
        out: Step<RecordFailure, ErrorDetail>,
    ) -> bool {
        &&& (after.same_setup(before))
        &&& (after.registry() == before.registry())
        &&& (match self.verdict(reply, clock, before.config.journal_lines) {
                Some(message) => ends_with(out, self.plan.code@, message),
                None => out matches Step::Ask(next, _) && next.id == self.id && next.plan
                    == self.plan,
            })
        &&& (self.settled(before) ==> match out {
                Step::Ask(next, _) => next.settled(after),
                Step::Done(_, _) => self.phase == RecordPhase::Tailing
                    ==> after.cache().contains_key(self.id)
                    && after.cache()[self.id].state == InstanceState::Failed,
            })
        &&& (match (self.phase, reply) {
                (RecordPhase::Writing, Reply::Done(Ok(_))) => after.cache()
                    == before.cache() && match clock.epoch_secs {
                    Some(now) => out matches Step::Ask(next, d) && next.phase
                        == RecordPhase::Exporting && next.id == self.id && next.plan == self.plan
                        && next.metadata == self.metadata && d.effects@.len() == 0 && asks_env(
                        d.call,
                        before.config@,
                        self.id,
                        self.metadata@,
                        now,
                    ),
                    None => ends_with(
                        out,
                        self.plan.code@,
                        self.plan.alt@ + crate::host::clock_failure(),
                    ),
                },
                (RecordPhase::Writing, Reply::Done(Err(e))) => after.cache()
                    == before.cache() && ends_with(out, self.plan.code@, self.plan.alt@ + e.full()),
                (RecordPhase::Exporting, Reply::Done(Ok(_))) => after.cache()
                    == before.cache().insert(self.id, self.metadata@)
                    && (out matches Step::Ask(next, d)
                    && next.phase == RecordPhase::Tailing && next.id == self.id && next.plan
                    == self.plan && next.metadata == self.metadata && d.effects@.len() == 0 && (
                d.call matches HostCall::ReadLog { path, max_bytes } && path@ == run_log_of(
                    before.config@,
                    self.id,
                ) && max_bytes == MAX_TAIL_BYTES)),
                (RecordPhase::Exporting, Reply::Done(Err(e))) => after.cache()
                    == before.cache() && ends_with(out, self.plan.code@, self.plan.alt@ + e.full()),
                (RecordPhase::Tailing, Reply::Log(read)) => after.cache()
                    == before.cache() && match read {
                    LogRead::Missing => ends_with(out, self.plan.code@, self.plan.base@),
                    LogRead::Failed(e) => ends_with(out, self.plan.code@, self.plan.alt@
                        + e.full()),
                    LogRead::Content { text, clipped } => ends_with(
                        out,
                        self.plan.code@,
                        enriched(
                            self.plan.base@,
                            quoted_tail(text@, clipped, before.config.journal_lines),
                        ),
                    ),
                },
                _ => after.cache() == before.cache() && ends_with(
                    out,
                    self.plan.code@,
                    self.plan.alt@ + unexpected_reply(),
                ),
            })
    }

    /// Continues recording.
    ///
    /// Any failure to persist ends it with the alternative wording and the
    /// cause. Once both files are written the record is cached. The result
    /// is the planned message, preceded by the end of the run log if there is one.
    pub fn resume(self, manager: &mut InstanceManager, reply: Reply, clock: &Clock) -> (out: Step<
        RecordFailure,
        ErrorDetail,
    >)
        ensures
            self.stepped(old(manager), final(manager), reply, *clock, out),
    {
        match (self.phase, reply) {
            (RecordPhase::Writing, Reply::Done(Ok(_))) => {
                match clock.now() {
                    Ok(now) => {
                        let call = manager.env_call(self.id, &self.metadata, now);
                        Step::Ask(
                            RecordFailure {
                                id: self.id,
                                plan: self.plan,
                                metadata: self.metadata,
                                phase: RecordPhase::Exporting,
                            },
                            ask(call),
                        )
                    },
                    Err(e) => Self::give_up(self.plan, e.as_str()),
                }
            },
            (RecordPhase::Writing, Reply::Done(Err(e)))
                => Self::give_up(self.plan, e.in_full().as_str()),
            (RecordPhase::Exporting, Reply::Done(Ok(_))) => {
                manager.remember(self.id, &self.metadata);
                let paths = manager.paths(self.id);
                Step::Ask(
                    RecordFailure {
                        id: self.id,
                        plan: self.plan,
                        metadata: self.metadata,
                        phase: RecordPhase::Tailing,
                    },
                    ask(HostCall::ReadLog { path: paths.run_log, max_bytes: MAX_TAIL_BYTES }),
                )
            },
            (RecordPhase::Exporting, Reply::Done(Err(e)))
                => Self::give_up(self.plan, e.in_full().as_str()),
            (RecordPhase::Tailing, Reply::Log(read)) => {
                match read {
                    LogRead::Missing => Step::Done(
                        error_detail(self.plan.code.as_str(), self.plan.base),
                        Vec::new(),
                    ),
                    LogRead::Failed(e) => Self::give_up(self.plan, e.in_full().as_str()),
                    LogRead::Content { text, clipped } => {
                        let tail = tail_file(text.as_str(), manager.config.journal_lines, clipped);
                        let mut message = join3("cfctl-run.log tail", ":\n", tail.as_str());
                        message.append(": ");
                        message.append(self.plan.base.as_str());
                        Step::Done(error_detail(self.plan.code.as_str(), message), Vec::new())
                    },
                }
            },
            _ => {
                let cause = unexpected();
                Self::give_up(self.plan, cause.as_str())
            },
        }
    }
}

} // verus!
