//! Requests, responses and the records they carry.
//!
//! Each record that appears in a contract has a view: the same shape with
//! every string replaced by its character sequence.

use vstd::prelude::*;
use crate::text::{decimal, decimal_string, join3};

verus! {

/// Identifies one guest instance; live instances draw theirs from `1..=99`.
pub type InstanceId = u64;

/// Where an instance stands in its lifecycle.
#[derive(Clone, Copy, Debug, PartialEq, Eq, Structural)]
pub enum InstanceState {
    Unknown,
    Created,
    Starting,
    Running,
    Stopped,
    Failed,
    Destroyed,
}

impl Default for InstanceState {
    fn default() -> (state: InstanceState)
        ensures
            state == InstanceState::Unknown,
    {
        InstanceState::Unknown
    }
}

impl InstanceState {
    /// The lower-case name used on the wire.
    pub open spec fn wire_name(self) -> Seq<char> {
        match self {
            InstanceState::Unknown => "unknown"@,
            InstanceState::Created => "created"@,
            InstanceState::Starting => "starting"@,
            InstanceState::Running => "running"@,
            InstanceState::Stopped => "stopped"@,
            InstanceState::Failed => "failed"@,
            InstanceState::Destroyed => "destroyed"@,
        }
    }

    /// The lower-case name used on the wire.
    pub fn name(self) -> (out: &'static str)
        ensures
            out@ == self.wire_name(),
    {
        match self {
            InstanceState::Unknown => "unknown",
            InstanceState::Created => "created",
            InstanceState::Starting => "starting",
            InstanceState::Running => "running",
            InstanceState::Stopped => "stopped",
            InstanceState::Failed => "failed",
            InstanceState::Destroyed => "destroyed",
        }
    }
}

/// How to reach an instance's device bridge.
#[derive(Clone, Debug)]
pub struct AdbInfo {
    pub host: String,
    pub port: u16,
    pub serial: String,
}

/// Bridge information with its texts as character sequences.
pub struct AdbInfoView {
    pub host: Seq<char>,
    pub port: u16,
    pub serial: Seq<char>,
}

impl View for AdbInfo {
    type V = AdbInfoView;

    open spec fn view(&self) -> AdbInfoView {
        AdbInfoView { host: self.host@, port: self.port, serial: self.serial@ }
    }
}

/// The address `host:port` under which the bridge lists a device.
pub open spec fn serial_of(host: Seq<char>, port: u16) -> Seq<char> {
    host + seq![':'] + decimal(port as nat)
}

/// Builds the address `host:port`.
pub fn make_serial(host: &str, port: u16) -> (out: String)
    ensures
        out@ == serial_of(host@, port),
{
    let digits = decimal_string(port as u64);
    proof {
        reveal_strlit(":");
        assert(":"@ == seq![':']);
    }
    join3(host, ":", digits.as_str())
}

/// What a client is told about one instance.
#[derive(Clone, Debug)]
pub struct InstanceSummary {
    pub id: InstanceId,
    pub adb: Option<AdbInfo>,
    pub state: InstanceState,
}

/// A summary with its texts as character sequences.
pub struct InstanceSummaryView {
    pub id: InstanceId,
    pub adb: Option<AdbInfoView>,
    pub state: InstanceState,
}

impl View for InstanceSummary {
    type V = InstanceSummaryView;

    open spec fn view(&self) -> InstanceSummaryView {
        InstanceSummaryView {
            id: self.id,
            adb: match self.adb {
                Some(adb) => Some(adb@),
                None => None,
            },
            state: self.state,
        }
    }
}

/// The payload of a creation.
#[derive(Clone, Debug)]
pub struct CreateInstanceResponse {
    pub summary: InstanceSummary,
}

/// Outcome of boot verification.
#[derive(Clone, Debug)]
pub struct BootVerificationResult {
    pub adb_ready: bool,
    pub boot_marker_observed: bool,
    pub failure_reason: Option<String>,
}

/// A verification result with its texts as character sequences.
pub struct BootVerificationView {
    pub adb_ready: bool,
    pub boot_marker_observed: bool,
    pub failure_reason: Option<Seq<char>>,
}

impl View for BootVerificationResult {
    type V = BootVerificationView;

    open spec fn view(&self) -> BootVerificationView {
        BootVerificationView {
            adb_ready: self.adb_ready,
            boot_marker_observed: self.boot_marker_observed,
            failure_reason: self.failure_reason.deep_view(),
        }
    }
}

impl BootVerificationResult {
    /// The result reported when the boot marker was seen.
    pub fn observed() -> (out: BootVerificationResult)
        ensures
            out@ == (BootVerificationView {
                adb_ready: true,
                boot_marker_observed: true,
                failure_reason: None,
            }),
    {
        BootVerificationResult { adb_ready: true, boot_marker_observed: true, failure_reason: None }
    }
}

/// A machine-readable failure.
#[derive(Clone, Debug)]
pub struct ErrorDetail {
    pub code: String,
    pub message: Option<String>,
}

/// A failure with its texts as character sequences.
pub struct ErrorDetailView {
    pub code: Seq<char>,
    pub message: Option<Seq<char>>,
}

impl View for ErrorDetail {
    type V = ErrorDetailView;

    open spec fn view(&self) -> ErrorDetailView {
        ErrorDetailView { code: self.code@, message: self.message.deep_view() }
    }
}

/// The failure with the given code and message.
pub open spec fn detail(code: Seq<char>, message: Seq<char>) -> ErrorDetailView {
    ErrorDetailView { code, message: Some(message) }
}

/// Builds a failure from a code and a message.
pub fn error_detail(code: &str, message: String) -> (out: ErrorDetail)
    ensures
        out@ == detail(code@, message@),
{
    ErrorDetail { code: String::from_str(code), message: Some(message) }
}

/// What a teardown pass reports to the client.
#[derive(Clone, Debug)]
pub struct CleanupSummary {
    pub guest_processes_killed: bool,
    pub remaining_pids: Vec<i32>,
    pub steps: Vec<String>,
}

/// A teardown report with its texts as character sequences.
pub struct CleanupView {
    pub guest_processes_killed: bool,
    pub remaining_pids: Seq<i32>,
    pub steps: Seq<Seq<char>>,
}

impl View for CleanupSummary {
    type V = CleanupView;

    open spec fn view(&self) -> CleanupView {
        CleanupView {
            guest_processes_killed: self.guest_processes_killed,
            remaining_pids: self.remaining_pids@,
            steps: self.steps.deep_view(),
        }
    }
}

/// The payload of every lifecycle action on one instance.
#[derive(Clone, Debug)]
pub struct InstanceActionResponse {
    pub summary: InstanceSummary,
    pub journal_tail: Option<String>,
    pub verification: Option<BootVerificationResult>,
    pub cleanup: Option<CleanupSummary>,
}

/// An action payload with its texts as character sequences.
pub struct ActionView {
    pub summary: InstanceSummaryView,
    pub journal_tail: Option<Seq<char>>,
    pub verification: Option<BootVerificationView>,
    pub cleanup: Option<CleanupView>,
}

impl View for InstanceActionResponse {
    type V = ActionView;

    open spec fn view(&self) -> ActionView {
        ActionView {
            summary: self.summary@,
            journal_tail: self.journal_tail.deep_view(),
            verification: match self.verification {
                Some(v) => Some(v@),
                None => None,
            },
            cleanup: match self.cleanup {
                Some(c) => Some(c@),
                None => None,
            },
        }
    }
}

/// An action payload that carries the summary and nothing else.
pub open spec fn plain_action(summary: InstanceSummaryView) -> ActionView {
    ActionView { summary, journal_tail: None, verification: None, cleanup: None }
}

impl InstanceActionResponse {
    /// Wraps a summary with no journal, verification or cleanup attached.
    pub fn of_summary(summary: InstanceSummary) -> (out: InstanceActionResponse)
        ensures
            out@ == plain_action(summary@),
            out.summary == summary,
    {
        InstanceActionResponse { summary, journal_tail: None, verification: None, cleanup: None }
    }
}

/// The payload of a log fetch.
#[derive(Clone, Debug)]
pub struct LogsResponse {
    pub journal: Option<String>,
    pub console_log_path: Option<String>,
}

/// A log payload with its texts as character sequences.
pub struct LogsView {
    pub journal: Option<Seq<char>>,
    pub console_log_path: Option<Seq<char>>,
}

impl View for LogsResponse {
    type V = LogsView;

    open spec fn view(&self) -> LogsView {
        LogsView {
            journal: self.journal.deep_view(),
            console_log_path: self.console_log_path.deep_view(),
        }
    }
}

/// Which images to copy into the workspace of an instance.
#[derive(Clone, Debug)]
pub struct DeployRequest {
    pub id: InstanceId,
    pub boot_image: Option<String>,
    pub init_boot_image: Option<String>,
}

/// How an instance is to be started.
#[derive(Clone, Debug)]
pub struct StartOptions {
    pub disable_webrtc: bool,
    pub timeout_secs: Option<u64>,
    pub verify_boot: bool,
    pub skip_adb_wait: bool,
    pub track: Option<String>,
}

impl Default for StartOptions {
    fn default() -> (out: StartOptions)
        ensures
            !out.disable_webrtc,
            out.timeout_secs is None,
            !out.verify_boot,
            !out.skip_adb_wait,
            out.track is None,
    {
        StartOptions {
            disable_webrtc: false,
            timeout_secs: None,
            verify_boot: false,
            skip_adb_wait: false,
            track: None,
        }
    }
}

/// How long a destroy may wait for its second phase.
#[derive(Clone, Copy, Debug)]
pub struct DestroyOptions {
    pub timeout_secs: Option<u64>,
}

impl Default for DestroyOptions {
    fn default() -> (out: DestroyOptions)
        ensures
            out.timeout_secs is None,
    {
        DestroyOptions { timeout_secs: None }
    }
}

/// How logs are to be fetched.
#[derive(Clone, Copy, Debug)]
pub struct LogsOptions {
    pub timeout_secs: Option<u64>,
    pub stream_stdout: bool,
}

impl Default for LogsOptions {
    fn default() -> (out: LogsOptions)
        ensures
            out.timeout_secs is None,
            !out.stream_stdout,
    {
        LogsOptions { timeout_secs: None, stream_stdout: false }
    }
}

/// One client request, tagged by its action.
#[allow(inconsistent_fields)]
#[derive(Clone, Debug)]
pub enum Request {
    CreateInstance { purpose: Option<String> },
    StartInstance { id: InstanceId, options: StartOptions },
    CreateStartInstance { purpose: Option<String>, options: StartOptions },
    StopInstance { id: InstanceId },
    HoldInstance { id: InstanceId },
    DestroyInstance { id: InstanceId, options: DestroyOptions },
    Deploy(DeployRequest),
    WaitForAdb { id: InstanceId, timeout_secs: Option<u64> },
    Logs { id: InstanceId, lines: Option<usize>, options: LogsOptions },
    Status { id: InstanceId },
    Describe { id: InstanceId, run_log_lines: Option<usize> },
    ListInstances,
    PruneExpired { max_age_secs: u64 },
    PruneAll,
}

impl Request {
    /// The instance a request targets, if it targets one.
    pub open spec fn target(self) -> Option<InstanceId> {
        match self {
            Request::StartInstance { id, .. } => Some(id),
            Request::StopInstance { id } => Some(id),
            Request::HoldInstance { id } => Some(id),
            Request::DestroyInstance { id, .. } => Some(id),
            Request::Deploy(req) => Some(req.id),
            Request::WaitForAdb { id, .. } => Some(id),
            Request::Logs { id, .. } => Some(id),
            Request::Status { id } => Some(id),
            Request::Describe { id, .. } => Some(id),
            _ => None,
        }
    }

    /// Whether serving the request draws a fresh instance id.
    pub open spec fn allocates(self) -> bool {
        self is CreateInstance || self is CreateStartInstance
    }

    /// The action's name as it appears in logs.
    pub open spec fn action_name(self) -> Seq<char> {
        match self {
            Request::CreateInstance { .. } => "CreateInstance"@,
            Request::CreateStartInstance { .. } => "CreateStartInstance"@,
            Request::StartInstance { .. } => "StartInstance"@,
            Request::StopInstance { .. } => "StopInstance"@,
            Request::HoldInstance { .. } => "HoldInstance"@,
            Request::DestroyInstance { .. } => "DestroyInstance"@,
            Request::Deploy(_) => "Deploy"@,
            Request::WaitForAdb { .. } => "WaitForAdb"@,
            Request::Logs { .. } => "Logs"@,
            Request::Status { .. } => "Status"@,
            Request::Describe { .. } => "Describe"@,
            Request::ListInstances => "ListInstances"@,
            Request::PruneExpired { .. } => "PruneExpired"@,
            Request::PruneAll => "PruneAll"@,
        }
    }

    /// The label of a request: its action name, followed in parentheses by
    /// the instance id it targets or, for age-based pruning, the age limit.
    pub open spec fn label(self) -> Seq<char> {
        match self {
            Request::PruneExpired { max_age_secs } => "PruneExpired(max_age_secs="@ + decimal(
                max_age_secs as nat,
            ) + ")"@,
            _ => match self.target() {
                Some(id) => self.action_name() + "("@ + decimal(id as nat) + ")"@,
                None => self.action_name(),
            },
        }
    }
}

fn label_with(name: &str, n: u64) -> (out: String)
    ensures
        out@ == name@ + "("@ + decimal(n as nat) + ")"@,
{
    let digits = decimal_string(n);
    let mut out = join3(name, "(", digits.as_str());
    out.append(")");
    out
}

/// Renders the label under which a request is logged.
pub fn describe_request(request: &Request) -> (out: String)
    ensures
        out@ == request.label(),
{
    match request {
        Request::CreateInstance { .. } => String::from_str("CreateInstance"),
        Request::CreateStartInstance { .. } => String::from_str("CreateStartInstance"),
        Request::StartInstance { id, .. } => label_with("StartInstance", *id),
        Request::StopInstance { id } => label_with("StopInstance", *id),
        Request::HoldInstance { id } => label_with("HoldInstance", *id),
        Request::DestroyInstance { id, .. } => label_with("DestroyInstance", *id),
        Request::Deploy(req) => label_with("Deploy", req.id),
        Request::WaitForAdb { id, .. } => label_with("WaitForAdb", *id),
        Request::Logs { id, .. } => label_with("Logs", *id),
        Request::Status { id } => label_with("Status", *id),
        Request::Describe { id, .. } => label_with("Describe", *id),
        Request::ListInstances => String::from_str("ListInstances"),
        Request::PruneExpired { max_age_secs } => {
            let digits = decimal_string(*max_age_secs);
            join3("PruneExpired(max_age_secs=", digits.as_str(), ")")
        },
        Request::PruneAll => String::from_str("PruneAll"),
    }
}

/// Which locks a request must hold while it is served.
#[derive(Clone, Copy, Debug, PartialEq, Eq, Structural)]
pub struct LockPlan {
    /// The instance whose lock is taken for the whole operation.
    pub instance: Option<InstanceId>,
    /// Whether the id-allocation lock is taken.
    pub id_allocation: bool,
}

/// Decides the locks for a request: the targeted instance's lock, and the
/// id-allocation lock exactly for the requests that create an instance.
pub fn lock_plan(request: &Request) -> (plan: LockPlan)
    ensures
        plan.instance == request.target(),
        plan.id_allocation == request.allocates(),
{
    let instance = match request {
        Request::StartInstance { id, .. } => Some(*id),
        Request::StopInstance { id } => Some(*id),
        Request::HoldInstance { id } => Some(*id),
        Request::DestroyInstance { id, .. } => Some(*id),
        Request::Deploy(req) => Some(req.id),
        Request::WaitForAdb { id, .. } => Some(*id),
        Request::Logs { id, .. } => Some(*id),
        Request::Status { id } => Some(*id),
        Request::Describe { id, .. } => Some(*id),
        _ => None,
    };
    let id_allocation = match request {
        Request::CreateInstance { .. } => true,
        Request::CreateStartInstance { .. } => true,
        _ => false,
    };
    LockPlan { instance, id_allocation }
}

/// Whether a per-instance lock entry can be dropped from the lock table:
/// only when the table's own reference is the last one.
pub fn lock_entry_idle(holders: usize) -> (idle: bool)
    ensures
        idle == (holders == 1),
{
    holders == 1
}

/// The reply to one request.
#[derive(Clone, Debug)]
pub struct Response {
    pub ok: bool,
    pub message: Option<String>,
    pub create: Option<CreateInstanceResponse>,
    pub action: Option<InstanceActionResponse>,
    pub logs: Option<LogsResponse>,
    pub instances: Option<Vec<InstanceSummary>>,
    pub error: Option<ErrorDetail>,
}

/// A response with its texts as character sequences; a creation is
/// shown by the summary it carries.
pub struct ResponseView {
    pub ok: bool,
    pub message: Option<Seq<char>>,
    pub create: Option<InstanceSummaryView>,
    pub action: Option<ActionView>,
    pub logs: Option<LogsView>,
    pub instances: Option<Seq<InstanceSummaryView>>,
    pub error: Option<ErrorDetailView>,
}

/// The views of a list of summaries, in order.
pub open spec fn summaries_view(list: Seq<InstanceSummary>) -> Seq<InstanceSummaryView> {
    Seq::new(list.len(), |i: int| list[i]@)
}

impl View for Response {
    type V = ResponseView;

    open spec fn view(&self) -> ResponseView {
        ResponseView {
            ok: self.ok,
            message: self.message.deep_view(),
            create: match self.create {
                Some(c) => Some(c.summary@),
                None => None,
            },
            action: match self.action {
                Some(a) => Some(a@),
                None => None,
            },
            logs: match self.logs {
                Some(l) => Some(l@),
                None => None,
            },
            instances: match self.instances {
                Some(list) => Some(summaries_view(list@)),
                None => None,
            },
            error: match self.error {
                Some(e) => Some(e@),
                None => None,
            },
        }
    }
}

/// A response with the given verdict and no payload.
pub open spec fn bare_response(ok: bool) -> ResponseView {
    ResponseView {
        ok,
        message: None,
        create: None,
        action: None,
        logs: None,
        instances: None,
        error: None,
    }
}

impl ResponseView {
    /// How many of the payload fields are populated.
    pub open spec fn payload_count(self) -> nat {
        let a: nat = if self.create is Some { 1 } else { 0 };
        let b: nat = if self.action is Some { 1 } else { 0 };
        let c: nat = if self.logs is Some { 1 } else { 0 };
        let d: nat = if self.instances is Some { 1 } else { 0 };
        let e: nat = if self.error is Some { 1 } else { 0 };
        let f: nat = if self.message is Some { 1 } else { 0 };
        a + b + c + d + e + f
    }
}

impl Response {
    /// A success with no payload.
    pub fn ok() -> (out: Response)
        ensures
            out@ == bare_response(true),
    {
        Response {
            ok: true,
            message: None,
            create: None,
            action: None,
            logs: None,
            instances: None,
            error: None,
        }
    }

    /// The same response with its message replaced.
    pub fn with_message(self, msg: String) -> (out: Response)
        ensures
            out@ == (ResponseView { message: Some(msg@), ..self@ }),
    {
        let mut out = self;
        out.message = Some(msg);
        out
    }

    /// A failure that carries only a human-readable message.
    pub fn error(msg: String) -> (out: Response)
        ensures
            out@ == (ResponseView { message: Some(msg@), ..bare_response(false) }),
    {
        Response {
            ok: false,
            message: Some(msg),
            create: None,
            action: None,
            logs: None,
            instances: None,
            error: None,
        }
    }

    /// A failure that carries a machine-readable detail.
    pub fn error_with_detail(detail: ErrorDetail) -> (out: Response)
        ensures
            out@ == (ResponseView { error: Some(detail@), ..bare_response(false) }),
    {
        Response {
            ok: false,
            message: None,
            create: None,
            action: None,
            logs: None,
            instances: None,
            error: Some(detail),
        }
    }

    /// A success whose payload is a creation summary.
    pub fn created(create: CreateInstanceResponse) -> (out: Response)
        ensures
            out@ == (ResponseView { create: Some(create.summary@), ..bare_response(true) }),
    {
        Response {
            ok: true,
            message: None,
            create: Some(create),
            action: None,
            logs: None,
            instances: None,
            error: None,
        }
    }

    /// A success whose payload is an action result.
    pub fn acted(action: InstanceActionResponse) -> (out: Response)
        ensures
            out@ == (ResponseView { action: Some(action@), ..bare_response(true) }),
    {
        Response {
            ok: true,
            message: None,
            create: None,
            action: Some(action),
            logs: None,
            instances: None,
            error: None,
        }
    }

    /// A success whose payload is a log excerpt.
    pub fn with_logs(logs: LogsResponse) -> (out: Response)
        ensures
            out@ == (ResponseView { logs: Some(logs@), ..bare_response(true) }),
    {
        Response {
            ok: true,
            message: None,
            create: None,
            action: None,
            logs: Some(logs),
            instances: None,
            error: None,
        }
    }

    /// A success whose payload is the instance list.
    pub fn listing(instances: Vec<InstanceSummary>) -> (out: Response)
        ensures
            out@ == (ResponseView {
                instances: Some(summaries_view(instances@)),
                ..bare_response(true)
            }),
    {
        Response {
            ok: true,
            message: None,
            create: None,
            action: None,
            logs: None,
            instances: Some(instances),
            error: None,
        }
    }
}

} // verus!
