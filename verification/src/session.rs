//! Serving one request from beginning to end.
//!
//! A session is the operation that a request started, together with what
//! is needed to word its response. The host follows the directives of the
//! session until it ends with the response.

use vstd::prelude::*;
use crate::adb_wait::{WaitForAdb, WaitResult};
use crate::destroy::{DestroyInstance, DestroyResult};
use crate::fleet::{ListInstances, ListResult, Prune, PruneRequest, PruneResult};
use crate::host::{Clock, Reply, Step};
use crate::lifecycle::{
    ActionResult, CreateInstance, CreateResult, HoldInstance, Logs, LogsResult, Status,
};
use crate::manager::InstanceManager;
use crate::protocol::{
    bare_response, detail, error_detail, summaries_view, ErrorDetail, InstanceActionResponse,
    InstanceId, InstanceState, Request, Response, ResponseView, StartOptions,
};
use crate::start::{StartInstance, StartResult};
use crate::stop::{Deploy, DeployResult, StopInstance};
use crate::text::{decimal, decimal_string, join3};

verus! {

/// The response to an action whose failures carry a code.
pub open spec fn coded_response(
    result: Result<InstanceActionResponse, ErrorDetail>,
) -> ResponseView {
    match result {
        Ok(action) => ResponseView { action: Some(action@), ..bare_response(true) },
        Err(e) => ResponseView { error: Some(e@), ..bare_response(false) },
    }
}

/// The response to a failure: an error with the code of the operation
/// that failed and the cause as its message.
pub open spec fn failed_response(code: Seq<char>, cause: Seq<char>) -> ResponseView {
    ResponseView { error: Some(detail(code, cause)), ..bare_response(false) }
}

/// Words the response to a failure.
pub fn respond_failed(code: &str, cause: String) -> (out: Response)
    ensures
        out@ == failed_response(code@, cause@),
        out@.payload_count() == 1,
{
    Response::error_with_detail(error_detail(code, cause))
}

/// The response to an action whose failures are causes in words: a failure
/// is reported under `code`.
pub open spec fn plain_response(
    code: Seq<char>,
    result: Result<InstanceActionResponse, String>,
) -> ResponseView {
    match result {
        Ok(action) => ResponseView { action: Some(action@), ..bare_response(true) },
        Err(e) => failed_response(code, e@),
    }
}

/// Words the response to an action whose failures carry a code.
pub fn respond_coded(result: Result<InstanceActionResponse, ErrorDetail>) -> (out: Response)
    ensures
        out@ == coded_response(result),
        out@.payload_count() == 1,
{
    match result {
        Ok(action) => Response::acted(action),
        Err(e) => Response::error_with_detail(e),
    }
}

/// Words the response to an action whose failures are causes in words.
pub fn respond_plain(code: &str, result: Result<InstanceActionResponse, String>) -> (out: Response)
    ensures
        out@ == plain_response(code@, result),
        out@.payload_count() == 1,
{
    match result {
        Ok(action) => Response::acted(action),
        Err(e) => respond_failed(code, e),
    }
}

/// The response to a creation.
pub open spec fn created_response(result: CreateResult) -> ResponseView {
    match result {
        Ok(c) => ResponseView { create: Some(c.summary@), ..bare_response(true) },
        Err(e) => failed_response("create_instance_failed"@, e@),
    }
}

/// Words the response to a creation.
pub fn respond_created(result: CreateResult) -> (out: Response)
    ensures
        out@ == created_response(result),
        out@.payload_count() == 1,
{
    match result {
        Ok(created) => Response::created(created),
        Err(e) => respond_failed("create_instance_failed", e),
    }
}

/// The response to a log fetch.
pub open spec fn logs_response(result: LogsResult) -> ResponseView {
    match result {
        Ok(l) => ResponseView { logs: Some(l@), ..bare_response(true) },
        Err(e) => ResponseView { error: Some(e@), ..bare_response(false) },
    }
}

/// Words the response to a log fetch.
pub fn respond_logs(result: LogsResult) -> (out: Response)
    ensures
        out@ == logs_response(result),
        out@.payload_count() == 1,
{
    match result {
        Ok(logs) => Response::with_logs(logs),
        Err(e) => Response::error_with_detail(e),
    }
}

/// The response to a listing.
pub open spec fn listing_response(result: ListResult) -> ResponseView {
    match result {
        Ok(list) => ResponseView { instances: Some(summaries_view(list@)), ..bare_response(true) },
        Err(e) => failed_response("list_instances_failed"@, e@),
    }
}

/// Words the response to a listing.
pub fn respond_listing(result: ListResult) -> (out: Response)
    ensures
        out@ == listing_response(result),
        out@.payload_count() == 1,
{
    match result {
        Ok(list) => Response::listing(list),
        Err(e) => respond_failed("list_instances_failed", e),
    }
}

/// The response to a deployment.
pub open spec fn deployed_response(result: DeployResult) -> ResponseView {
    match result {
        Ok(_) => ResponseView { message: Some("deploy updated"@), ..bare_response(true) },
        Err(e) => failed_response("deploy_failed"@, e@),
    }
}

/// Words the response to a deployment.
pub fn respond_deployed(result: DeployResult) -> (out: Response)
    ensures
        out@ == deployed_response(result),
        out@.payload_count() == 1,
{
    match result {
        Ok(_) => Response::ok().with_message(String::from_str("deploy updated")),
        Err(e) => respond_failed("deploy_failed", e),
    }
}

/// The message that reports a pruning: how many instances were pruned
/// and, if any were retained, how many are still running.
pub open spec fn prune_message(request: PruneRequest, pruned: usize, retained: usize) -> Seq<char> {
    let what = match request {
        PruneRequest::Expired { .. } => " expired instances"@,
        PruneRequest::All => " instances"@,
    };
    let head = "pruned "@ + decimal(pruned as nat) + what;
    if retained > 0 {
        head + "; "@ + decimal(retained as nat) + " still running"@
    } else {
        head
    }
}

/// The code under which a failed pruning is reported.
pub open spec fn prune_code(request: PruneRequest) -> Seq<char> {
    match request {
        PruneRequest::Expired { .. } => "prune_expired_failed"@,
        PruneRequest::All => "prune_all_failed"@,
    }
}

/// The response to a pruning.
pub open spec fn pruned_response(request: PruneRequest, result: PruneResult) -> ResponseView {
    match result {
        Ok(counts) => ResponseView {
            message: Some(prune_message(request, counts.0, counts.1)),
            ..bare_response(true)
        },
        Err(e) => failed_response(prune_code(request), e@),
    }
}

/// Words the response to a pruning.
pub fn respond_pruned(request: PruneRequest, result: PruneResult) -> (out: Response)
    ensures
        out@ == pruned_response(request, result),
        out@.payload_count() == 1,
{
    match result {
        Ok(counts) => {
            let (pruned, retained) = counts;
            let p = decimal_string(pruned as u64);
            let what = match request {
                PruneRequest::Expired { .. } => " expired instances",
                PruneRequest::All => " instances",
            };
            let mut message = join3("pruned ", p.as_str(), what);
            if retained > 0 {
                let r = decimal_string(retained as u64);
                message.append("; ");
                message.append(r.as_str());
                message.append(" still running");
            }
            Response::ok().with_message(message)
        },
        Err(e) => match request {
            PruneRequest::Expired { .. } => respond_failed("prune_expired_failed", e),
            PruneRequest::All => respond_failed("prune_all_failed", e),
        },
    }
}

/// The request kinds, by the payload of their response.
#[derive(Clone, Copy, Debug, PartialEq, Eq, Structural)]
pub enum Kind {
    Create,
    Action,
    Logs,
    List,
    Note,
}

/// Whether a response fits a request kind: a success carries the payload
/// of the kind and nothing else; a failure carries an error with a code
/// and nothing else.
pub open spec fn fits(kind: Kind, r: ResponseView) -> bool {
    &&& r.payload_count() == 1
    &&& r.ok ==> match kind {
        Kind::Create => r.create is Some,
        Kind::Action => r.action is Some,
        Kind::Logs => r.logs is Some,
        Kind::List => r.instances is Some,
        Kind::Note => r.message is Some,
    }
    &&& !r.ok ==> r.error is Some
}

/// A request being served.
#[derive(Debug)]
pub enum Session {
    Create(CreateInstance),
    Start(StartInstance),
    CreateStart { create: CreateInstance, options: StartOptions },
    Stop(StopInstance),
    Hold(HoldInstance),
    Destroy(DestroyInstance),
    Deploy(Deploy),
    WaitForAdb(WaitForAdb),
    Logs(Logs),
    Status(Status),
    Describe(Status),
    List(ListInstances),
    Prune { request: PruneRequest, prune: Prune },
}

/// Whether a session step carries the step `inner` of its operation: where
/// the operation asks, the session asks the same and goes on as `next` of
/// the operation; where it ends, the session ends with the same last
/// effects and the response that `response` gives for the result.
pub open spec fn carries<S, T>(
    inner: Step<S, T>,
    out: Step<Session, Response>,
    next: spec_fn(S) -> Session,
    response: spec_fn(T) -> ResponseView,
) -> bool {
    match inner {
        Step::Ask(s, d) => out matches Step::Ask(n, o) && n == next(s) && o == d,
        Step::Done(result, last) => out matches Step::Done(r, l) && r@ == response(result) && l
            == last,
    }
}

/// The response to a creation that failed before the start it was to be
/// followed by.
pub open spec fn create_start_failed(cause: Seq<char>) -> ResponseView {
    failed_response("create_start_create_failed"@, cause)
}

/// Words the response to a creation that failed before a start.
pub fn respond_create_failed(cause: String) -> (out: Response)
    ensures
        out@ == create_start_failed(cause@),
        out@.payload_count() == 1,
{
    respond_failed("create_start_create_failed", cause)
}

/// The response to a request whose serving broke off before it ended.
pub open spec fn broken_off(cause: Seq<char>) -> ResponseView {
    failed_response("request_failed"@, cause)
}

/// Words the response to a request whose serving broke off.
pub fn respond_broken_off(cause: String) -> (out: Response)
    ensures
        out@ == broken_off(cause@),
        out@.payload_count() == 1,
{
    respond_failed("request_failed", cause)
}

impl Session {
    /// The kind of the request that the session serves.
    pub open spec fn kind(&self) -> Kind {
        match self {
            Session::Create(_) => Kind::Create,
            Session::Logs(_) => Kind::Logs,
            Session::List(_) => Kind::List,
            Session::Deploy(_) => Kind::Note,
            Session::Prune { .. } => Kind::Note,
            _ => Kind::Action,
        }
    }

    /// What holds of a session between its steps as long as nothing else
    /// touches its instance: what holds of its operation.
    pub open spec fn settled(&self, manager: &InstanceManager) -> bool {
        match self {
            Session::Start(op) => op.settled(manager),
            Session::WaitForAdb(op) => op.settled(manager),
            Session::Prune { prune, .. } => prune.settled(),
            _ => true,
        }
    }

    /// The instance whose record a successful end of the session leaves
    /// running, if the session is a start or a wait for the bridge.
    pub open spec fn brings_up(&self) -> Option<InstanceId> {
        match self {
            Session::Start(op) => Some(op.id()),
            Session::WaitForAdb(op) => Some(op.id()),
            _ => None,
        }
    }

    /// The recording of a launch failure that the session is busy with, if
    /// it is: that of its wait for the bridge, on its own or within a start.
    pub open spec fn recording(&self) -> Option<crate::readiness::RecordFailure> {
        match self {
            Session::WaitForAdb(WaitForAdb::Running(w)) => match w.phase {
                crate::adb_wait::RoundPhase::Recording(rec) => Some(rec),
                _ => None,
            },
            Session::Start(StartInstance::Running(run)) => match run.phase {
                crate::start::StartPhase::Waiting { wait: WaitForAdb::Running(w), .. }
                    => match w.phase {
                    crate::adb_wait::RoundPhase::Recording(rec) => Some(rec),
                    _ => None,
                },
                _ => None,
            },
            _ => None,
        }
    }

    fn started(stepped: Step<StartInstance, StartResult>) -> (out: Step<Session, Response>)
        ensures
            carries(
                stepped,
                out,
                |s: StartInstance| Session::Start(s),
                |r: StartResult| coded_response(r),
            ),
    {
        match stepped {
            Step::Ask(op, d) => Step::Ask(Session::Start(op), d),
            Step::Done(result, last) => Step::Done(respond_coded(result), last),
        }
    }

    fn creating(stepped: Step<CreateInstance, CreateResult>) -> (out: Step<Session, Response>)
        ensures
            carries(
                stepped,
                out,
                |s: CreateInstance| Session::Create(s),
                |r: CreateResult| created_response(r),
            ),
    {
        match stepped {
            Step::Ask(op, d) => Step::Ask(Session::Create(op), d),
            Step::Done(result, last) => Step::Done(respond_created(result), last),
        }
    }

    fn stopping(stepped: Step<StopInstance, ActionResult>) -> (out: Step<Session, Response>)
        ensures
            carries(
                stepped,
                out,
                |s: StopInstance| Session::Stop(s),
                |r: ActionResult| plain_response("stop_instance_failed"@, r),
            ),
    {
        match stepped {
            Step::Ask(op, d) => Step::Ask(Session::Stop(op), d),
            Step::Done(result, last) => Step::Done(
                respond_plain("stop_instance_failed", result),
                last,
            ),
        }
    }

    fn holding(stepped: Step<HoldInstance, ActionResult>) -> (out: Step<Session, Response>)
        ensures
            carries(
                stepped,
                out,
                |s: HoldInstance| Session::Hold(s),
                |r: ActionResult| plain_response("hold_instance_failed"@, r),
            ),
    {
        match stepped {
            Step::Ask(op, d) => Step::Ask(Session::Hold(op), d),
            Step::Done(result, last) => Step::Done(
                respond_plain("hold_instance_failed", result),
                last,
            ),
        }
    }

    fn destroying(stepped: Step<DestroyInstance, DestroyResult>) -> (out: Step<Session, Response>)
        ensures
            carries(
                stepped,
                out,
                |s: DestroyInstance| Session::Destroy(s),
                |r: DestroyResult| coded_response(r),
            ),
    {
        match stepped {
            Step::Ask(op, d) => Step::Ask(Session::Destroy(op), d),
            Step::Done(result, last) => Step::Done(respond_coded(result), last),
        }
    }

    fn deploying(stepped: Step<Deploy, DeployResult>) -> (out: Step<Session, Response>)
        ensures
            carries(
                stepped,
                out,
                |s: Deploy| Session::Deploy(s),
                |r: DeployResult| deployed_response(r),
            ),
    {
        match stepped {
            Step::Ask(op, d) => Step::Ask(Session::Deploy(op), d),
            Step::Done(result, last) => Step::Done(respond_deployed(result), last),
        }
    }

    fn waiting(stepped: Step<WaitForAdb, WaitResult>) -> (out: Step<Session, Response>)
        ensures
            carries(
                stepped,
                out,
                |s: WaitForAdb| Session::WaitForAdb(s),
                |r: WaitResult| coded_response(r),
            ),
    {
        match stepped {
            Step::Ask(op, d) => Step::Ask(Session::WaitForAdb(op), d),
            Step::Done(result, last) => Step::Done(respond_coded(result), last),
        }
    }

    fn logging(stepped: Step<Logs, LogsResult>) -> (out: Step<Session, Response>)
        ensures
            carries(
                stepped,
                out,
                |s: Logs| Session::Logs(s),
                |r: LogsResult| logs_response(r),
            ),
    {
        match stepped {
            Step::Ask(op, d) => Step::Ask(Session::Logs(op), d),
            Step::Done(result, last) => Step::Done(respond_logs(result), last),
        }
    }

    fn showing(stepped: Step<Status, ActionResult>) -> (out: Step<Session, Response>)
        ensures
            carries(
                stepped,
                out,
                |s: Status| Session::Status(s),
                |r: ActionResult| plain_response("status_failed"@, r),
            ),
    {
        match stepped {
            Step::Ask(op, d) => Step::Ask(Session::Status(op), d),
            Step::Done(result, last) => Step::Done(respond_plain("status_failed", result), last),
        }
    }

    fn describing(stepped: Step<Status, ActionResult>) -> (out: Step<Session, Response>)
        ensures
            carries(
                stepped,
                out,
                |s: Status| Session::Describe(s),
                |r: ActionResult| plain_response("describe_failed"@, r),
            ),
    {
        match stepped {
            Step::Ask(op, d) => Step::Ask(Session::Describe(op), d),
            Step::Done(result, last) => Step::Done(
                respond_plain("describe_failed", result),
                last,
            ),
        }
    }

    fn listing(stepped: Step<ListInstances, ListResult>) -> (out: Step<Session, Response>)
        ensures
            carries(
                stepped,
                out,
                |s: ListInstances| Session::List(s),
                |r: ListResult| listing_response(r),
            ),
    {
        match stepped {
            Step::Ask(op, d) => Step::Ask(Session::List(op), d),
            Step::Done(result, last) => Step::Done(respond_listing(result), last),
        }
    }

    fn pruning(request: PruneRequest, stepped: Step<Prune, PruneResult>) -> (out: Step<
        Session,
        Response,
    >)
        ensures
            carries(
                stepped,
                out,
                |s: Prune| Session::Prune { request, prune: s },
                |r: PruneResult| pruned_response(request, r),
            ),
    {
        match stepped {
            Step::Ask(prune, d) => Step::Ask(Session::Prune { request, prune }, d),
            Step::Done(result, last) => Step::Done(respond_pruned(request, result), last),
        }
    }

    /// What one step does: the relation between the manager before and after
    /// the step, the host's answer, the clocks and the outcome of the step.
    /// It is the step of the operation, carried by the session.
    pub open spec fn stepped(
        self,
        before: &InstanceManager,
        after: &InstanceManager,
        reply: Reply,
        clock: Clock,
        out: Step<Session, Response>,
    ) -> bool {
        &&& (after.same_setup(before))
        &&& (out matches Step::Done(response, _) ==> fits(self.kind(), response@))
        &&& (out matches Step::Ask(next, _) ==> next.kind() == self.kind())
        &&& (match self.recording() {
                Some(rec) => match rec.verdict(reply, clock, before.config.journal_lines) {
                    Some(message) => match out {
                        Step::Done(response, _) => response@ == (ResponseView {
                            error: Some(detail(rec.plan.code@, message)),
                            ..bare_response(false)
                        }),
                        Step::Ask(next, _) => self is Start,
                    },
                    None => out is Ask,
                },
                None => true,
            })
        &&& (self.settled(before) ==> match out {
                Step::Ask(next, _) => next.settled(after) && (self.brings_up() is Some
                    ==> next.brings_up() == self.brings_up()),
                Step::Done(response, _) => match self.brings_up() {
                    Some(id) => (response.ok ==> after.cache().contains_key(id)
                        && after.cache()[id].state == InstanceState::Running && (
                    response.action matches Some(action) && action.summary.state
                        == InstanceState::Running)) && ((self.recording() matches Some(rec)
                        && rec.phase == crate::readiness::RecordPhase::Tailing)
                        ==> after.cache().contains_key(id) && after.cache()[id].state
                        == InstanceState::Failed),
                    None => true,
                },
            })
        &&& (match self {
                Session::Create(op) => exists|inner: Step<CreateInstance, CreateResult>|
                    #[trigger] op.stepped(before, after, reply, clock, inner) && carries(
                        inner,
                        out,
                        |s: CreateInstance| Session::Create(s),
                        |r: CreateResult| created_response(r),
                    ),
                Session::Start(op) => exists|inner: Step<StartInstance, StartResult>|
                    #[trigger] op.stepped(before, after, reply, clock, inner) && carries(
                        inner,
                        out,
                        |s: StartInstance| Session::Start(s),
                        |r: StartResult| coded_response(r),
                    ),
                Session::CreateStart { create, options } => exists|
                    inner: Step<CreateInstance, CreateResult>,
                |
                    #[trigger] create.stepped(before, after, reply, clock, inner) && match inner {
                        Step::Ask(c, d) => out matches Step::Ask(
                            Session::CreateStart { create: c2, options: o2 },
                            o,
                        ) && c2 == c && o2 == options && o == d,
                        Step::Done(Ok(created), _) => exists|
                            first: Step<StartInstance, StartResult>,
                        |
                            #[trigger] StartInstance::begun(
                                after,
                                created.summary.id,
                                options,
                                clock,
                                first,
                            ) && carries(
                                first,
                                out,
                                |s: StartInstance| Session::Start(s),
                                |r: StartResult| coded_response(r),
                            ),
                        Step::Done(Err(e), last) => out matches Step::Done(r, l) && r@
                            == create_start_failed(e@) && l == last,
                    },
                Session::Stop(op) => exists|inner: Step<StopInstance, ActionResult>|
                    #[trigger] op.stepped(before, after, reply, clock, inner) && carries(
                        inner,
                        out,
                        |s: StopInstance| Session::Stop(s),
                        |r: ActionResult| plain_response("stop_instance_failed"@, r),
                    ),
                Session::Hold(op) => exists|inner: Step<HoldInstance, ActionResult>|
                    #[trigger] op.stepped(before, after, reply, clock, inner) && carries(
                        inner,
                        out,
                        |s: HoldInstance| Session::Hold(s),
                        |r: ActionResult| plain_response("hold_instance_failed"@, r),
                    ),
                Session::Destroy(op) => exists|inner: Step<DestroyInstance, DestroyResult>|
                    #[trigger] op.stepped(before, after, reply, clock, inner) && carries(
                        inner,
                        out,
                        |s: DestroyInstance| Session::Destroy(s),
                        |r: DestroyResult| coded_response(r),
                    ),
                Session::Deploy(op) => exists|inner: Step<Deploy, DeployResult>|
                    #[trigger] op.stepped(before, after, reply, clock, inner) && carries(
                        inner,
                        out,
                        |s: Deploy| Session::Deploy(s),
                        |r: DeployResult| deployed_response(r),
                    ),
                Session::WaitForAdb(op) => exists|inner: Step<WaitForAdb, WaitResult>|
                    #[trigger] op.stepped(before, after, reply, clock, inner) && carries(
                        inner,
                        out,
                        |s: WaitForAdb| Session::WaitForAdb(s),
                        |r: WaitResult| coded_response(r),
                    ),
                Session::Logs(op) => after.cache() == before.cache() && after.registry()
                    == before.registry() && exists|inner: Step<Logs, LogsResult>|
                    #[trigger] op.stepped(reply, inner) && carries(
                        inner,
                        out,
                        |s: Logs| Session::Logs(s),
                        |r: LogsResult| logs_response(r),
                    ),
                Session::Status(op) => after.cache() == before.cache() && after.registry()
                    == before.registry() && exists|inner: Step<Status, ActionResult>|
                    #[trigger] op.stepped(before, reply, inner) && carries(
                        inner,
                        out,
                        |s: Status| Session::Status(s),
                        |r: ActionResult| plain_response("status_failed"@, r),
                    ),
                Session::Describe(op) => after.cache() == before.cache() && after.registry()
                    == before.registry() && exists|inner: Step<Status, ActionResult>|
                    #[trigger] op.stepped(before, reply, inner) && carries(
                        inner,
                        out,
                        |s: Status| Session::Describe(s),
                        |r: ActionResult| plain_response("describe_failed"@, r),
                    ),
                Session::List(op) => after.cache() == before.cache() && after.registry()
                    == before.registry() && exists|inner: Step<ListInstances, ListResult>|
                    #[trigger] op.stepped(before, reply, inner) && carries(
                        inner,
                        out,
                        |s: ListInstances| Session::List(s),
                        |r: ListResult| listing_response(r),
                    ),
                Session::Prune { request, prune } => exists|inner: Step<Prune, PruneResult>|
                    #[trigger] prune.stepped(before, after, reply, clock, inner) && carries(
                        inner,
                        out,
                        |s: Prune| Session::Prune { request, prune: s },
                        |r: PruneResult| pruned_response(request, r),
                    ),
            })
    }

    /// Continues a session with the host's answer.
    ///
    /// The session goes on as its operation does. When the operation ends,
    /// so does the session, with the response that reports the result: the
    /// payload of the request's kind on success, an error with a code or a
    /// message on failure. A creation that is followed by a start begins the
    /// start as soon as the instance is created, and reports a failed
    /// creation as `create_start_create_failed`.
    pub fn resume(self, manager: &mut InstanceManager, reply: Reply, clock: &Clock) -> (out: Step<
        Session,
        Response,
    >)
        ensures
            self.stepped(old(manager), final(manager), reply, *clock, out),
    {
        match self {
            Session::Create(op) => {
                let ghost answer = reply;
                let ghost held = op;
                let stepped = op.resume(manager, reply, clock);
                assert(held.stepped(old(manager), manager, answer, *clock, stepped));
                Self::creating(stepped)
            },
            Session::Start(op) => {
                let ghost answer = reply;
                let ghost held = op;
                let stepped = op.resume(manager, reply, clock);
                assert(held.stepped(old(manager), manager, answer, *clock, stepped));
                Self::started(stepped)
            },
            Session::CreateStart { create, options } => {
                let ghost answer = reply;
                let ghost held = create;
                let stepped = create.resume(manager, reply, clock);
                assert(held.stepped(old(manager), manager, answer, *clock, stepped));
                match stepped {
                    Step::Ask(next, d) => Step::Ask(
                        Session::CreateStart { create: next, options },
                        d,
                    ),
                    Step::Done(Ok(created), _) => {
                        let first = StartInstance::begin(
                            manager,
                            created.summary.id,
                            options,
                            clock,
                        );
                        assert(StartInstance::begun(
                            manager,
                            created.summary.id,
                            options,
                            *clock,
                            first,
                        ));
                        Self::started(first)
                    },
                    Step::Done(Err(e), last) => Step::Done(respond_create_failed(e), last),
                }
            },
            Session::Stop(op) => {
                let ghost answer = reply;
                let ghost held = op;
                let stepped = op.resume(manager, reply, clock);
                assert(held.stepped(old(manager), manager, answer, *clock, stepped));
                Self::stopping(stepped)
            },
            Session::Hold(op) => {
                let ghost answer = reply;
                let ghost held = op;
                let stepped = op.resume(manager, reply, clock);
                assert(held.stepped(old(manager), manager, answer, *clock, stepped));
                Self::holding(stepped)
            },
            Session::Destroy(op) => {
                let ghost answer = reply;
                let ghost held = op;
                let stepped = op.resume(manager, reply, clock);
                assert(held.stepped(old(manager), manager, answer, *clock, stepped));
                Self::destroying(stepped)
            },
            Session::Deploy(op) => {
                let ghost answer = reply;
                let ghost held = op;
                let stepped = op.resume(manager, reply, clock);
                assert(held.stepped(old(manager), manager, answer, *clock, stepped));
                Self::deploying(stepped)
            },
            Session::WaitForAdb(op) => {
                let ghost answer = reply;
                let ghost held = op;
                let stepped = op.resume(manager, reply, clock);
                assert(held.stepped(old(manager), manager, answer, *clock, stepped));
                Self::waiting(stepped)
            },
            Session::Logs(op) => {
                let ghost answer = reply;
                let ghost held = op;
                let stepped = op.resume(reply);
                assert(held.stepped(answer, stepped));
                Self::logging(stepped)
            },
            Session::Status(op) => {
                let ghost answer = reply;
                let ghost held = op;
                let stepped = op.resume(manager, reply);
                assert(held.stepped(manager, answer, stepped));
                Self::showing(stepped)
            },
            Session::Describe(op) => {
                let ghost answer = reply;
                let ghost held = op;
                let stepped = op.resume(manager, reply);
                assert(held.stepped(manager, answer, stepped));
                Self::describing(stepped)
            },
            Session::List(op) => {
                let ghost answer = reply;
                let ghost held = op;
                let stepped = op.resume(manager, reply);
                assert(held.stepped(manager, answer, stepped));
                Self::listing(stepped)
            },
            Session::Prune { request, prune } => {
                let ghost answer = reply;
                let ghost held = prune;
                let stepped = prune.resume(manager, reply, clock);
                assert(held.stepped(old(manager), manager, answer, *clock, stepped));
                Self::pruning(request, stepped)
            },
        }
    }
}

/// The kind of a request, by the payload of its response.
pub open spec fn kind_of(request: Request) -> Kind {
    match request {
        Request::CreateInstance { .. } => Kind::Create,
        Request::Logs { .. } => Kind::Logs,
        Request::ListInstances => Kind::List,
        Request::Deploy(_) => Kind::Note,
        Request::PruneExpired { .. } => Kind::Note,
        Request::PruneAll => Kind::Note,
        _ => Kind::Action,
    }
}

/// The number of lines asked for, or the default.
pub open spec fn lines_or(asked: Option<usize>, default: usize) -> usize {
    match asked {
        Some(n) => n,
        None => default,
    }
}

/// Whether a step ends at once, before anything is asked of the host, with
/// the failure `e`.
pub open spec fn rejected(out: Step<Session, Response>,
    e: crate::protocol::ErrorDetailView) -> bool {
    out matches Step::Done(response, last) && response@ == (ResponseView {
        error: Some(e),
        ..bare_response(false)
    }) && last@.len() == 0
}

impl InstanceManager {
    /// How the serving of a request begins: the first step of the operation
    /// that the request names, carried by its session.
    pub open spec fn answers(
        &self,
        request: Request,
        clock: Clock,
        out: Step<Session, Response>,
    ) -> bool {
            match request {
                Request::CreateInstance { purpose } => out matches Step::Ask(
                    Session::Create(op),
                    d,
                ) && op == (CreateInstance::Allocating { purpose }) && d.effects@.len() == 0
                    && d.call is AllocateId,
                Request::CreateStartInstance { purpose, options } => out matches Step::Ask(
                    Session::CreateStart { create, options: o },
                    d,
                ) && create == (CreateInstance::Allocating { purpose }) && o == options
                    && d.effects@.len() == 0 && d.call is AllocateId,
                Request::StartInstance { id, options } => (exists|
                    inner: Step<StartInstance, StartResult>,
                |
                    #[trigger] StartInstance::begun(self, id, options, clock, inner)
                        && carries(
                        inner,
                        out,
                        |s: StartInstance| Session::Start(s),
                        |r: StartResult| coded_response(r),
                    )) && if options.skip_adb_wait && options.verify_boot {
                    rejected(
                        out,
                        detail("start_instance_invalid_options"@, crate::start::invalid_options()),
                    )
                } else if self.registry().contains_key(id) {
                    rejected(
                        out,
                        detail(
                            "start_instance_already_running"@,
                            crate::start::already_running(id),
                        ),
                    )
                } else if self.cache().contains_key(id) && clock.epoch_secs is None {
                    rejected(
                        out,
                        detail("start_instance_timestamp"@, crate::host::clock_failure()),
                    )
                } else {
                    out matches Step::Ask(Session::Start(_), d) && d.effects@.len() == 0
                },
                Request::Logs { id, lines, options } => (exists|inner: Step<Logs, LogsResult>|
                    #[trigger] Logs::begun(self, id, lines, options, inner) && carries(
                        inner,
                        out,
                        |s: Logs| Session::Logs(s),
                        |r: LogsResult| logs_response(r),
                    )) && if options.timeout_secs == Some(0u64) {
                    rejected(
                        out,
                        detail("logs_timeout"@, "timeout expired before logs retrieved"@),
                    )
                } else {
                    out matches Step::Ask(Session::Logs(op), d) && op == (Logs {
                        id,
                        lines: match lines {
                            Some(n) => n,
                            None => self.config.journal_lines,
                        },
                    }) && d.effects@.len() == 0
                },
                Request::Status { id } => if self.cache().contains_key(id) {
                    out matches Step::Done(response, last) && response@ == (ResponseView {
                        action: Some(
                            crate::protocol::plain_action(
                                self.cache()[id].summary(self.config.adb_host@),
                            ),
                        ),
                        ..bare_response(true)
                    }) && last@.len() == 0
                } else {
                    out matches Step::Ask(Session::Status(op), d) && op == (Status::Loading {
                        id,
                        run_log_lines: None,
                    }) && d.effects@.len() == 0 && crate::manager::asks_read(
                        d.call,
                        self.config@,
                        id,
                    )
                },
                Request::ListInstances => out matches Step::Ask(Session::List(op), d) && op
                    == ListInstances::Scanning && d.effects@.len() == 0 && (
                d.call matches crate::host::HostCall::ListDirs { dir } && dir@
                    == crate::fleet::instances_root(self.config@)),
                Request::PruneExpired { max_age_secs } => out matches Step::Ask(
                    Session::Prune { request: r, prune },
                    d,
                ) && r == (PruneRequest::Expired { max_age_secs }) && prune == (Prune::Scanning {
                    request: r,
                }) && d.effects@.len() == 0 && (d.call matches crate::host::HostCall::ListDirs {
                    dir,
                } && dir@ == crate::fleet::instances_root(self.config@)),
                Request::PruneAll => out matches Step::Ask(Session::Prune { request: r, prune }, d)
                    && r == PruneRequest::All && prune == (Prune::Scanning { request: r })
                    && d.effects@.len() == 0 && (d.call matches crate::host::HostCall::ListDirs {
                    dir,
                } && dir@ == crate::fleet::instances_root(self.config@)),
                Request::StopInstance { id } => exists|inner: Step<StopInstance, ActionResult>|
                    #[trigger] StopInstance::begun(self, id, clock, inner) && carries(
                        inner,
                        out,
                        |s: StopInstance| Session::Stop(s),
                        |r: ActionResult| plain_response("stop_instance_failed"@, r),
                    ),
                Request::HoldInstance { id } => exists|inner: Step<HoldInstance, ActionResult>|
                    #[trigger] HoldInstance::begun(self, id, clock, inner) && carries(
                        inner,
                        out,
                        |s: HoldInstance| Session::Hold(s),
                        |r: ActionResult| plain_response("hold_instance_failed"@, r),
                    ),
                Request::DestroyInstance { id, options }
                    => exists|inner: Step<DestroyInstance, DestroyResult>|
                    #[trigger] DestroyInstance::begun(self, id, options.timeout_secs, clock, inner)
                        && carries(
                        inner,
                        out,
                        |s: DestroyInstance| Session::Destroy(s),
                        |r: DestroyResult| coded_response(r),
                    ),
                Request::Deploy(deploy) => exists|inner: Step<Deploy, DeployResult>|
                    #[trigger] Deploy::begun(self, deploy, inner) && carries(
                        inner,
                        out,
                        |s: Deploy| Session::Deploy(s),
                        |r: DeployResult| deployed_response(r),
                    ),
                Request::WaitForAdb { id, timeout_secs }
                    => exists|inner: Step<WaitForAdb, WaitResult>|
                    #[trigger] WaitForAdb::begun(self, id, timeout_secs, clock, inner) && carries(
                        inner,
                        out,
                        |s: WaitForAdb| Session::WaitForAdb(s),
                        |r: WaitResult| coded_response(r),
                    ),
                Request::Describe { id, run_log_lines } => {
                    let lines = lines_or(run_log_lines, self.config.journal_lines);
                    exists|inner: Step<Status, ActionResult>|
                        #[trigger] Status::begun(self, id, Some(lines), inner) && carries(
                            inner,
                            out,
                            |s: Status| Session::Describe(s),
                            |r: ActionResult| plain_response("describe_failed"@, r),
                        )
                },
            }
    }

    /// Begins to serve a request.
    ///
    /// The request starts the operation it names. A request that is
    /// rejected at once, such as a start with options that exclude each
    /// other or a start of an instance that already runs, ends with its
    /// response before anything is asked of the host.
    pub fn handle(&mut self, request: Request, clock: &Clock) -> (out: Step<Session, Response>)
        ensures
            final(self).same_setup(old(self)),
            final(self).cache() == old(self).cache(),
            final(self).registry() == old(self).registry(),
            out matches Step::Done(response, _) ==> fits(kind_of(request), response@),
            out matches Step::Ask(next, _) ==> next.kind() == kind_of(request) && next.settled(
                final(self),
            ),
            old(self).answers(request, *clock, out),
    {
        match request {
            Request::CreateInstance { purpose } => {
                let (op, d) = CreateInstance::begin(purpose);
                Step::Ask(Session::Create(op), d)
            },
            Request::StartInstance { id, options } => {
                let first = StartInstance::begin(self, id, options, clock);
                assert(StartInstance::begun(self, id, options, *clock, first));
                Session::started(first)
            },
            Request::CreateStartInstance { purpose, options } => {
                let (create, d) = CreateInstance::begin(purpose);
                Step::Ask(Session::CreateStart { create, options }, d)
            },
            Request::StopInstance { id } => {
                let first = StopInstance::begin(self, id, clock);
                assert(StopInstance::begun(self, id, *clock, first));
                Session::stopping(first)
            },
            Request::HoldInstance { id } => {
                let first = HoldInstance::begin(self, id, clock);
                assert(HoldInstance::begun(self, id, *clock, first));
                Session::holding(first)
            },
            Request::DestroyInstance { id, options } => {
                let first = DestroyInstance::begin(self, id, options.timeout_secs, clock);
                assert(DestroyInstance::begun(self, id, options.timeout_secs, *clock, first));
                Session::destroying(first)
            },
            Request::Deploy(deploy) => {
                let first = Deploy::begin(self, deploy);
                assert(Deploy::begun(self, deploy, first));
                Session::deploying(first)
            },
            Request::WaitForAdb { id, timeout_secs } => {
                let first = WaitForAdb::begin(self, id, timeout_secs, clock);
                assert(WaitForAdb::begun(self, id, timeout_secs, *clock, first));
                Session::waiting(first)
            },
            Request::Logs { id, lines, options } => {
                let first = Logs::begin(self, id, lines, options);
                assert(Logs::begun(self, id, lines, options, first));
                Session::logging(first)
            },
            Request::Status { id } => {
                Session::showing(Status::begin(self, id, None))
            },
            Request::Describe { id, run_log_lines } => {
                let lines = match run_log_lines {
                    Some(n) => n,
                    None => self.config.journal_lines,
                };
                assert(lines == lines_or(run_log_lines, self.config.journal_lines));
                let first = Status::begin(self, id, Some(lines));
                assert(Status::begun(self, id, Some(lines), first));
                Session::describing(first)
            },
            Request::ListInstances => {
                let (op, d) = ListInstances::begin(self);
                Step::Ask(Session::List(op), d)
            },
            Request::PruneExpired { max_age_secs } => {
                let request = PruneRequest::Expired { max_age_secs };
                let (prune, d) = Prune::begin(self, request);
                Step::Ask(Session::Prune { request, prune }, d)
            },
            Request::PruneAll => {
                let (prune, d) = Prune::begin(self, PruneRequest::All);
                Step::Ask(Session::Prune { request: PruneRequest::All, prune }, d)
            },
        }
    }
}

} // verus!
