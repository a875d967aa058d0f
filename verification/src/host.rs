//! The boundary between the lifecycle logic and the machine it runs on.
//!
//! An operation never touches the operating system. It hands the host a
//! [`Directive`]: side effects to perform in order, best effort, and one
//! question. The host answers with a [`Reply`], and the operation goes on
//! from there. Time is read by the host and passed in as a [`Clock`].

use vstd::prelude::*;
use crate::guest::ExitStatusInfo;
use crate::metadata::InstanceMetadata;
use crate::protocol::InstanceId;

verus! {

/// The host's clocks at the moment of a step.
#[derive(Clone, Copy, Debug)]
pub struct Clock {
    /// Seconds since the epoch, or nothing if the wall clock is set before it.
    pub epoch_secs: Option<u64>,
    /// A monotonic reading in milliseconds.
    pub millis: u64,
}

/// The message reported when the wall clock cannot be read.
pub open spec fn clock_failure() -> Seq<char> {
    "system clock is set before the epoch"@
}

impl Clock {
    /// The wall-clock time, or the failure message.
    pub fn now(&self) -> (out: Result<u64, String>)
        ensures
            match self.epoch_secs {
                Some(t) => out == Ok::<u64, String>(t),
                None => out matches Err(e) && e@ == clock_failure(),
            },
    {
        match self.epoch_secs {
            Some(t) => Ok(t),
            None => Err(String::from_str("system clock is set before the epoch")),
        }
    }

    /// The monotonic reading `secs` seconds from now, saturating.
    pub open spec fn deadline_after(self, secs: u64) -> u64 {
        let target = self.millis as int + secs as int * 1000;
        if target > u64::MAX as int {
            u64::MAX
        } else {
            target as u64
        }
    }

    /// Computes the deadline `secs` seconds from now.
    pub fn deadline(&self, secs: u64) -> (out: u64)
        ensures
            out == self.deadline_after(secs),
    {
        if secs > u64::MAX / 1000 {
            u64::MAX
        } else {
            let span: u64 = secs * 1000;
            if span > u64::MAX - self.millis {
                u64::MAX
            } else {
                self.millis + span
            }
        }
    }

    /// Whether the deadline has been reached.
    pub fn reached(&self, deadline: u64) -> (yes: bool)
        ensures
            yes == (self.millis >= deadline),
    {
        self.millis >= deadline
    }
}

/// The wall-clock time in seconds since the epoch, as the host read it.
pub fn epoch_secs(clock: &Clock) -> (out: Result<u64, String>)
    ensures
        match clock.epoch_secs {
            Some(t) => out == Ok::<u64, String>(t),
            None => out matches Err(e) && e@ == clock_failure(),
        },
{
    clock.now()
}

/// The deadline for an optional timeout in seconds.
pub fn deadline_from_timeout(clock: &Clock, timeout_secs: Option<u64>) -> (out: Option<u64>)
    ensures
        out == match timeout_secs {
            Some(secs) => Some(clock.deadline_after(secs)),
            None => None,
        },
{
    match timeout_secs {
        Some(secs) => Some(clock.deadline(secs)),
        None => None,
    }
}

/// The whole seconds left until a deadline in milliseconds; zero once it has passed.
pub open spec fn seconds_until(deadline: u64, now: u64) -> u64 {
    if deadline > now {
        ((deadline - now) / 1000) as u64
    } else {
        0
    }
}

/// The whole seconds left until an optional deadline.
pub fn secs_remaining(clock: &Clock, deadline: Option<u64>) -> (out: Option<u64>)
    ensures
        out == match deadline {
            Some(d) => Some(seconds_until(d, clock.millis)),
            None => None,
        },
{
    match deadline {
        Some(d) => {
            if d > clock.millis {
                Some((d - clock.millis) / 1000)
            } else {
                Some(0)
            }
        },
        None => None,
    }
}

/// A program to run with its arguments.
#[derive(Clone, Debug)]
pub struct Command {
    pub program: String,
    pub args: Vec<String>,
}

/// A command with its texts as character sequences.
pub struct CommandView {
    pub program: Seq<char>,
    pub args: Seq<Seq<char>>,
}

impl View for Command {
    type V = CommandView;

    open spec fn view(&self) -> CommandView {
        CommandView { program: self.program@, args: self.args.deep_view() }
    }
}

/// What running a program produced.
#[derive(Clone, Debug)]
pub struct ToolOutput {
    /// The exit code, if the program exited rather than being signalled.
    pub code: Option<i32>,
    /// The exit status as the host words it.
    pub status: String,
    pub stdout: String,
    pub stderr: String,
}

impl ToolOutput {
    /// A run succeeded when the program exited with code zero.
    pub open spec fn succeeded(self) -> bool {
        self.code == Some(0i32)
    }

    /// Whether the program exited with code zero.
    pub fn success(&self) -> (ok: bool)
        ensures
            ok == self.succeeded(),
    {
        match self.code {
            Some(code) => code == 0,
            None => false,
        }
    }
}

/// A side effect the host performs without reporting back. A failure of one
/// effect is swallowed and never stops the effects after it.
#[derive(Clone, Debug)]
pub enum Effect {
    /// Run a program and ignore how it ends.
    Run(Command),
    /// Sleep.
    Pause { millis: u64 },
    /// Create a directory and its parents.
    CreateDirAll { path: String },
    /// Remove a directory tree.
    RemoveTree { path: String },
    /// Remove a file or symlink.
    RemoveFile { path: String },
    /// If `path` exists, rename it to `trash` and delete `trash` in the background.
    Trash { path: String, trash: String },
    /// Run the programs one after the other in the background.
    Detach { commands: Vec<Command> },
    /// Wait in the background for the guest to exit, then report the exit.
    WatchExit { id: InstanceId, token: u64 },
}

/// A side effect with its texts as character sequences.
pub enum EffectView {
    Run(CommandView),
    Pause { millis: u64 },
    CreateDirAll { path: Seq<char> },
    RemoveTree { path: Seq<char> },
    RemoveFile { path: Seq<char> },
    Trash { path: Seq<char>, trash: Seq<char> },
    Detach { commands: Seq<CommandView> },
    WatchExit { id: InstanceId, token: u64 },
}

/// The views of a list of commands, in order.
pub open spec fn commands_view(list: Seq<Command>) -> Seq<CommandView> {
    Seq::new(list.len(), |i: int| list[i]@)
}

impl View for Effect {
    type V = EffectView;

    open spec fn view(&self) -> EffectView {
        match self {
            Effect::Run(c) => EffectView::Run(c@),
            Effect::Pause { millis } => EffectView::Pause { millis: *millis },
            Effect::CreateDirAll { path } => EffectView::CreateDirAll { path: path@ },
            Effect::RemoveTree { path } => EffectView::RemoveTree { path: path@ },
            Effect::RemoveFile { path } => EffectView::RemoveFile { path: path@ },
            Effect::Trash { path, trash } => EffectView::Trash { path: path@, trash: trash@ },
            Effect::Detach { commands }
                => EffectView::Detach { commands: commands_view(commands@) },
            Effect::WatchExit { id, token } => EffectView::WatchExit { id: *id, token: *token },
        }
    }
}

/// The views of a list of effects, in order.
pub open spec fn effects_view(list: Seq<Effect>) -> Seq<EffectView> {
    Seq::new(list.len(), |i: int| list[i]@)
}

/// A filesystem step of a strict sequence: the first failure ends the sequence.
///
/// `doing` is what the host says it was doing where the step fails; without
/// it the host tells only what went wrong.
#[derive(Clone, Debug)]
pub enum FileStep {
    /// Create a directory and its parents.
    CreateDirAll { path: String, doing: Option<String> },
    /// If `path` exists, rename it to `trash` and delete `trash` in the background.
    Trash { path: String, trash: String, doing: Option<String> },
    /// Copy a file.
    Copy { from: String, to: String, doing: Option<String> },
}

/// A filesystem step with its texts as character sequences.
pub enum FileStepView {
    CreateDirAll { path: Seq<char>, doing: Option<Seq<char>> },
    Trash { path: Seq<char>, trash: Seq<char>, doing: Option<Seq<char>> },
    Copy { from: Seq<char>, to: Seq<char>, doing: Option<Seq<char>> },
}

/// The text of an optional text.
pub open spec fn text_of(text: Option<String>) -> Option<Seq<char>> {
    match text {
        Some(t) => Some(t@),
        None => None,
    }
}

impl View for FileStep {
    type V = FileStepView;

    open spec fn view(&self) -> FileStepView {
        match self {
            FileStep::CreateDirAll { path, doing } => FileStepView::CreateDirAll {
                path: path@,
                doing: text_of(*doing),
            },
            FileStep::Trash { path, trash, doing } => FileStepView::Trash {
                path: path@,
                trash: trash@,
                doing: text_of(*doing),
            },
            FileStep::Copy { from, to, doing } => FileStepView::Copy {
                from: from@,
                to: to@,
                doing: text_of(*doing),
            },
        }
    }
}

/// The step that creates the directory `path`, which is `what` to the
/// daemon.
pub open spec fn create_step(what: Seq<char>, path: Seq<char>) -> FileStepView {
    FileStepView::CreateDirAll { path, doing: Some("creating "@ + what + " "@ + path) }
}

/// The step that moves `path` out of the way to `trash`.
pub open spec fn trash_step(path: Seq<char>, trash: Seq<char>) -> FileStepView {
    FileStepView::Trash {
        path,
        trash,
        doing: Some("renaming "@ + path + " -> "@ + trash + " before async purge"@),
    }
}

/// The step that copies the file `from`, which is `what` to the daemon,
/// to `to`.
pub open spec fn copy_step(what: Seq<char>, from: Seq<char>, to: Seq<char>) -> FileStepView {
    FileStepView::Copy { from, to, doing: Some("copy "@ + what + " "@ + from + " -> "@ + to) }
}

impl FileStep {
    /// The step that creates a directory.
    pub fn create(what: &str, path: String) -> (out: FileStep)
        ensures
            out@ == create_step(what@, path@),
    {
        let mut doing = crate::text::join3("creating ", what, " ");
        doing.append(path.as_str());
        FileStep::CreateDirAll { path, doing: Some(doing) }
    }

    /// The step that moves a directory out of the way.
    pub fn trash(path: String, trash: String) -> (out: FileStep)
        ensures
            out@ == trash_step(path@, trash@),
    {
        let mut doing = crate::text::join3("renaming ", path.as_str(), " -> ");
        doing.append(trash.as_str());
        doing.append(" before async purge");
        FileStep::Trash { path, trash, doing: Some(doing) }
    }

    /// The step that copies a file.
    pub fn copy(what: &str, from: String, to: String) -> (out: FileStep)
        ensures
            out@ == copy_step(what@, from@, to@),
    {
        let mut doing = crate::text::join3("copy ", what, " ");
        doing.append(from.as_str());
        doing.append(" -> ");
        doing.append(to.as_str());
        FileStep::Copy { from, to, doing: Some(doing) }
    }
}

/// The views of a list of filesystem steps, in order.
pub open spec fn file_steps_view(list: Seq<FileStep>) -> Seq<FileStepView> {
    Seq::new(list.len(), |i: int| list[i]@)
}

/// How to start a guest.
#[derive(Clone, Debug)]
pub struct LaunchPlan {
    pub command: Command,
    /// Environment variables to set, as name and value.
    pub env: Vec<(String, String)>,
    /// The working directory, if one is to be set.
    pub dir: Option<String>,
    /// The file that receives the guest's output, truncated first.
    pub log_path: String,
    /// What the host says it was doing where the spawn fails.
    pub spawning: String,
}

/// The one question of a directive.
#[derive(Debug)]
pub enum HostCall {
    /// Nothing to ask; the host answers `Reply::Done(Ok(()))`.
    Settle,
    /// Draw a fresh instance id under the allocation lock.
    AllocateId,
    /// Read and decode a metadata file.
    ReadMetadata { id: InstanceId, path: String },
    /// Replace the metadata file atomically: write `tmp`, then rename it to `path`.
    WriteMetadata { path: String, tmp: String, metadata: InstanceMetadata },
    /// Replace a text file atomically and restrict it to `mode`.
    WriteText { path: String, tmp: String, content: String, mode: u32 },
    /// Perform filesystem steps in order until one fails.
    Files { steps: Vec<FileStep> },
    /// Say for each path whether it exists.
    Probe { paths: Vec<String> },
    /// Make sure the emulator's data directory holds its firmware file.
    EnsureQemuDatadir,
    /// Open the run log and spawn the guest.
    Launch { plan: LaunchPlan },
    /// Poll the guest without blocking.
    PollGuest { token: u64 },
    /// Wait for the guest to exit, for at most `millis` milliseconds.
    AwaitGuest { token: u64, millis: u64 },
    /// Send a signal to the guest.
    Signal { token: u64, signal: GuestSignal },
    /// Run a program and capture what it prints.
    Tool(Command),
    /// Run each program and capture what it prints.
    Tools { commands: Vec<Command> },
    /// Read at most the last `max_bytes` bytes of a log file.
    ReadLog { path: String, max_bytes: u64 },
    /// List the names of the directories under `dir`.
    ListDirs { dir: String },
    /// Read and decode each metadata file.
    ReadRecords { paths: Vec<String> },
    /// Run the second phase of a destroy in the background and wait for it,
    /// at most until the timeout if there is one.
    FinishDestroy { id: InstanceId, timeout_secs: Option<u64> },
    /// Delete the environment file and the instance directory.
    RemoveArtifacts { env_file: String, root: String },
}

/// Side effects to perform in order, then one question to answer.
#[derive(Debug)]
pub struct Directive {
    pub effects: Vec<Effect>,
    pub call: HostCall,
}

/// How a launch attempt ended.
#[derive(Clone, Debug)]
pub enum LaunchReport {
    /// The run log could not be opened.
    LogFailed(HostFailure),
    /// The guest could not be spawned.
    SpawnFailed(HostFailure),
    /// The guest runs as process `pid`; the host knows it under `token`.
    Spawned { pid: i32, token: u64 },
}

/// A failure on the host: what was being done, where the host tells it, and
/// what went wrong.
#[derive(Clone, Debug)]
pub struct HostFailure {
    pub context: Option<String>,
    pub cause: String,
}

impl HostFailure {
    /// The failure in brief: what was being done, or what went wrong where
    /// the host does not tell what was being done.
    pub open spec fn brief(self) -> Seq<char> {
        match self.context {
            Some(context) => context@,
            None => self.cause@,
        }
    }

    /// The failure in full: what was being done, and behind it what went wrong.
    pub open spec fn full(self) -> Seq<char> {
        match self.context {
            Some(context) => context@ + ": "@ + self.cause@,
            None => self.cause@,
        }
    }

    /// Words the failure in brief.
    pub fn in_brief(self) -> (out: String)
        ensures
            out@ == self.brief(),
    {
        match self.context {
            Some(context) => context,
            None => self.cause,
        }
    }

    /// Words the failure in full.
    pub fn in_full(self) -> (out: String)
        ensures
            out@ == self.full(),
    {
        match self.context {
            Some(context) => crate::text::join3(context.as_str(), ": ", self.cause.as_str()),
            None => self.cause,
        }
    }
}

/// What a log read produced.
#[derive(Clone, Debug)]
pub enum LogRead {
    /// The file does not exist.
    Missing,
    /// The file could not be read.
    Failed(HostFailure),
    /// The end of the file; `clipped` says that its beginning was left out.
    Content { text: String, clipped: bool },
}

/// The signals sent to a guest.
#[derive(Clone, Copy, Debug, PartialEq, Eq, Structural)]
pub enum GuestSignal {
    /// Ask the process to terminate.
    Terminate,
    /// Kill the process.
    Kill,
}

/// `libc::SIGTERM`: the number of the termination signal, which is fifteen
/// on every target that the crate knows.
#[verifier::external_body]
fn sigterm() -> (number: i32)
    ensures
        number == 15,
{
    libc::SIGTERM as i32
}

/// `libc::SIGKILL`: the number of the kill signal, which is nine on every
/// target that the crate knows.
#[verifier::external_body]
fn sigkill() -> (number: i32)
    ensures
        number == 9,
{
    libc::SIGKILL as i32
}

impl GuestSignal {
    /// The number under which the operating system knows the signal.
    pub fn number(self) -> (number: i32)
        ensures
            number == match self {
                GuestSignal::Terminate => 15i32,
                GuestSignal::Kill => 9i32,
            },
    {
        match self {
            GuestSignal::Terminate => sigterm(),
            GuestSignal::Kill => sigkill(),
        }
    }
}

/// How sending a signal ended.
#[derive(Clone, Debug)]
pub struct SignalReport {
    /// Whether the system call succeeded.
    pub delivered: bool,
    /// Whether it failed because the process no longer exists.
    pub no_such_process: bool,
    /// The host's wording of the failure.
    pub error: String,
}

impl SignalReport {
    /// Sending counts as done when the signal was delivered or the process
    /// was already gone; any other failure is an error.
    pub fn outcome(self) -> (out: Result<(), String>)
        ensures
            self.delivered || self.no_such_process ==> out is Ok,
            !(self.delivered || self.no_such_process) ==> out == Err::<(), String>(self.error),
    {
        if self.delivered || self.no_such_process {
            Ok(())
        } else {
            Err(self.error)
        }
    }
}

/// How the background phase of a destroy ended, as far as the caller waited.
#[derive(Debug)]
pub enum FinishReport {
    /// The timeout elapsed first; the cleanup goes on in the background.
    TimedOut,
    /// The background phase vanished without reporting.
    Lost(String),
    /// The cleanup failed.
    Failed(String),
    /// The cleanup ran and reported.
    Finished(crate::cleanup::CleanupOutcome),
}

/// The host's answer to the question of a directive.
#[derive(Debug)]
pub enum Reply {
    Done(Result<(), HostFailure>),
    Slot(Result<InstanceId, String>),
    Metadata(Result<InstanceMetadata, String>),
    Flags(Vec<bool>),
    Launched(LaunchReport),
    Guest(Result<Option<ExitStatusInfo>, String>),
    Signalled(SignalReport),
    Tool(Result<ToolOutput, String>),
    Tools(Vec<Result<ToolOutput, String>>),
    Log(LogRead),
    Dirs(Result<Option<Vec<String>>, String>),
    Records(Vec<Result<InstanceMetadata, String>>),
    Finish(FinishReport),
}

/// The message reported when the host answers a question that was not asked.
pub open spec fn unexpected_reply() -> Seq<char> {
    "unexpected reply from host"@
}

/// Builds the message for an answer that does not fit the question.
pub fn unexpected() -> (out: String)
    ensures
        out@ == unexpected_reply(),
{
    String::from_str("unexpected reply from host")
}

/// The outcome of one step of an operation: either the operation goes on in
/// state `S` once the host has followed the directive, or it has ended with
/// result `T`, leaving last side effects to perform.
#[derive(Debug)]
pub enum Step<S, T> {
    Ask(S, Directive),
    Done(T, Vec<Effect>),
}

/// Whether a step passes on what a nested step asks of the host: where the
/// nested step asks, the step asks the same.
pub open spec fn passes_on<S, T, U, V>(inner: Step<S, T>, out: Step<U, V>) -> bool {
    inner matches Step::Ask(_, d) ==> (out matches Step::Ask(_, o) && o == d)
}

} // verus!
