//! Termination of a guest with escalation from a graceful to a forced signal.

use vstd::prelude::*;
use crate::guest::{ExitStatusInfo, GuestRegistry};
use crate::host::{unexpected, unexpected_reply, Directive, GuestSignal, HostCall, Reply, Step};
use crate::protocol::InstanceId;

verus! {

/// Milliseconds granted to a guest after the forced signal.
pub const KILL_WAIT_MILLIS: u64 = 5000;

/// Where a termination stands.
#[derive(Clone, Copy, Debug, PartialEq, Eq, Structural)]
pub enum TerminatePhase {
    /// The graceful signal was sent.
    Asked,
    /// Waiting out the grace period.
    Grace,
    /// The forced signal was sent.
    Forced,
    /// Waiting for the killed process to be reaped.
    Reaping,
}

/// The termination of the guest of one instance.
#[derive(Clone, Copy, Debug, PartialEq, Eq, Structural)]
pub struct Terminate {
    pub id: InstanceId,
    /// The handle that was registered when the termination began.
    pub token: u64,
    pub grace_millis: u64,
    pub phase: TerminatePhase,
}

/// How a termination ends: the exit status, nothing if the guest never
/// exited or had no live handle, or the failure of a signal or a wait.
pub type Termination = Result<Option<ExitStatusInfo>, String>;

/// The registry once the handle `token` of `id` has been dropped from it;
/// a different handle registered for `id` stays.
pub open spec fn without_handle(registry: Map<InstanceId, u64>, id: InstanceId, token: u64) -> Map<
    InstanceId,
    u64,
> {
    if registry.contains_key(id) && registry[id] == token {
        registry.remove(id)
    } else {
        registry
    }
}

/// Once a termination has ended with a result, the instance has no live
/// handle left, provided that no other handle was registered for it in
/// the meantime.
pub proof fn lemma_terminated_guest_is_unregistered(
    registry: Map<InstanceId, u64>,
    id: InstanceId,
    token: u64,
)
    requires
        registry.contains_key(id) ==> registry[id] == token,
    ensures
        !without_handle(registry, id, token).contains_key(id),
{
}

fn ask(call: HostCall) -> (out: Directive)
    ensures
        out.effects@.len() == 0,
        out.call == call,
{
    Directive { effects: Vec::new(), call }
}

/// How a termination ends, with the failure as its character sequence.
pub type TerminationView = Result<Option<ExitStatusInfo>, Seq<char>>;

impl Terminate {
    /// The phase that follows when the host answers `reply`, if the
    /// termination goes on: a signal that was sent is followed by its wait,
    /// and a grace period that ran out by the forced signal.
    pub open spec fn next_phase(self, reply: Reply) -> Option<TerminatePhase> {
        match (self.phase, reply) {
            (TerminatePhase::Asked, Reply::Signalled(report)) => if report.delivered
                || report.no_such_process {
                Some(TerminatePhase::Grace)
            } else {
                None
            },
            (TerminatePhase::Forced, Reply::Signalled(report)) => if report.delivered
                || report.no_such_process {
                Some(TerminatePhase::Reaping)
            } else {
                None
            },
            (TerminatePhase::Grace, Reply::Guest(Ok(None))) => Some(TerminatePhase::Forced),
            _ => None,
        }
    }

    /// The result with which the termination ends when the host answers
    /// `reply` and the termination does not go on.
    pub open spec fn result(self, reply: Reply) -> TerminationView {
        match (self.phase, reply) {
            (TerminatePhase::Asked, Reply::Signalled(report)) => Err(report.error@),
            (TerminatePhase::Forced, Reply::Signalled(report)) => Err(report.error@),
            (TerminatePhase::Grace, Reply::Guest(Ok(seen))) => Ok(seen),
            (TerminatePhase::Reaping, Reply::Guest(Ok(seen))) => Ok(seen),
            (TerminatePhase::Grace, Reply::Guest(Err(e))) => Err(e@),
            (TerminatePhase::Reaping, Reply::Guest(Err(e))) => Err(e@),
            _ => Err(unexpected_reply()),
        }
    }

    /// What the first step of a termination does.
    pub open spec fn begun(
        registry: Map<InstanceId, u64>,
        id: InstanceId,
        grace_millis: u64,
        out: Step<Terminate, Termination>,
    ) -> bool {
        &&& (!registry.contains_key(id) ==> (out matches Step::Done(Ok(None), last) && last@.len()
                == 0))
        &&& (registry.contains_key(id) ==> (out matches Step::Ask(next, d) && next == (Terminate {
                id,
                token: registry[id],
                grace_millis,
                phase: TerminatePhase::Asked,
            }) && d.effects@.len() == 0 && d.call == (HostCall::Signal {
                token: registry[id],
                signal: GuestSignal::Terminate,
            })))
    }

    /// Begins the termination of the guest of `id`.
    ///
    /// Without a live handle there is nothing to do; otherwise the graceful
    /// signal is sent to the registered handle.
    pub fn begin(registry: &GuestRegistry, id: InstanceId, grace_millis: u64) -> (out: Step<
        Terminate,
        Termination,
    >)
        ensures
            Self::begun(registry@, id, grace_millis, out),
    {
        match registry.get(id) {
            Some(token) => Step::Ask(
                Terminate { id, token, grace_millis, phase: TerminatePhase::Asked },
                ask(HostCall::Signal { token, signal: GuestSignal::Terminate }),
            ),
            None => Step::Done(Ok(None), Vec::new()),
        }
    }

    /// What one step of a termination does: the relation between the
    /// registry before and after the step, the host's answer and the outcome.
    pub open spec fn stepped(
        self,
        before: Map<InstanceId, u64>,
        after: Map<InstanceId, u64>,
        reply: Reply,
        out: Step<Terminate, Termination>,
    ) -> bool {
        &&& (match self.next_phase(reply) {
                Some(phase) => out matches Step::Ask(next, _) && next == (Terminate {
                    phase,
                    ..self
                }),
                None => out matches Step::Done(ended, _) && match (ended, self.result(reply)) {
                    (Ok(a), Ok(b)) => a == b,
                    (Err(a), Err(b)) => a@ == b,
                    _ => false,
                },
            })
        &&& (out matches Step::Ask(_, d) ==> d.effects@.len() == 0)
        &&& (out matches Step::Done(_, last) ==> last@.len() == 0)
        &&& (out matches Step::Done(Ok(_), _) ==> after == without_handle(
                before,
                self.id,
                self.token,
            ))
        &&& (!(out matches Step::Done(Ok(_), _)) ==> after == before)
        &&& (match (self.phase, reply) {
                (TerminatePhase::Asked, Reply::Signalled(report)) => if report.delivered
                    || report.no_such_process {
                    out matches Step::Ask(next, d) && next == (Terminate {
                        phase: TerminatePhase::Grace,
                        ..self
                    }) && d.call == (HostCall::AwaitGuest {
                        token: self.token,
                        millis: self.grace_millis,
                    })
                } else {
                    out matches Step::Done(Err(e), _) && e == report.error
                },
                (TerminatePhase::Forced, Reply::Signalled(report)) => if report.delivered
                    || report.no_such_process {
                    out matches Step::Ask(next, d) && next == (Terminate {
                        phase: TerminatePhase::Reaping,
                        ..self
                    }) && d.call == (HostCall::AwaitGuest {
                        token: self.token,
                        millis: KILL_WAIT_MILLIS,
                    })
                } else {
                    out matches Step::Done(Err(e), _) && e == report.error
                },
                (TerminatePhase::Grace, Reply::Guest(Ok(Some(status)))) => out matches Step::Done(
                    Ok(Some(s)),
                    _,
                ) && s == status,
                (TerminatePhase::Grace, Reply::Guest(Ok(None))) => out matches Step::Ask(next, d)
                    && next == (Terminate { phase: TerminatePhase::Forced, ..self }) && d.call == (
                HostCall::Signal { token: self.token, signal: GuestSignal::Kill }),
                (TerminatePhase::Reaping, Reply::Guest(Ok(found))) => out matches Step::Done(
                    Ok(status),
                    _,
                ) && status == found,
                (TerminatePhase::Grace, Reply::Guest(Err(e))) => out matches Step::Done(
                    Err(msg),
                    _,
                ) && msg == e,
                (TerminatePhase::Reaping, Reply::Guest(Err(e))) => out matches Step::Done(
                    Err(msg),
                    _,
                ) && msg == e,
                _ => out matches Step::Done(Err(e), _) && e@ == unexpected_reply(),
            })
    }

    /// Continues a termination.
    ///
    /// A signal that cannot be sent and a wait that fails end the
    /// termination with that failure and leave the registry as it is. An
    /// exit within the grace period ends it with the status. Otherwise the
    /// forced signal follows, with a fixed second wait. Once that wait has
    /// returned, the handle is dropped from the registry whether or not the
    /// process was reaped; the result is the status, or nothing if it never exited.
    pub fn resume(self, registry: &mut GuestRegistry, reply: Reply) -> (out: Step<
        Terminate,
        Termination,
    >)
        ensures
            self.stepped(old(registry)@, final(registry)@, reply, out),
    {
        match (self.phase, reply) {
            (TerminatePhase::Asked, Reply::Signalled(report)) => {
                match report.outcome() {
                    Ok(()) => Step::Ask(
                        Terminate { phase: TerminatePhase::Grace, ..self },
                        ask(HostCall::AwaitGuest { token: self.token, millis: self.grace_millis }),
                    ),
                    Err(e) => Step::Done(Err(e), Vec::new()),
                }
            },
            (TerminatePhase::Forced, Reply::Signalled(report)) => {
                match report.outcome() {
                    Ok(()) => Step::Ask(
                        Terminate { phase: TerminatePhase::Reaping, ..self },
                        ask(HostCall::AwaitGuest { token: self.token, millis: KILL_WAIT_MILLIS }),
                    ),
                    Err(e) => Step::Done(Err(e), Vec::new()),
                }
            },
            (TerminatePhase::Grace, Reply::Guest(Ok(Some(status)))) => {
                registry.remove_if_handle(self.id, self.token);
                Step::Done(Ok(Some(status)), Vec::new())
            },
            (TerminatePhase::Grace, Reply::Guest(Ok(None))) => Step::Ask(
                Terminate { phase: TerminatePhase::Forced, ..self },
                ask(HostCall::Signal { token: self.token, signal: GuestSignal::Kill }),
            ),
            (TerminatePhase::Reaping, Reply::Guest(Ok(found))) => {
                registry.remove_if_handle(self.id, self.token);
                Step::Done(Ok(found), Vec::new())
            },
            (TerminatePhase::Grace, Reply::Guest(Err(e))) => Step::Done(Err(e), Vec::new()),
            (TerminatePhase::Reaping, Reply::Guest(Err(e))) => Step::Done(Err(e), Vec::new()),
            _ => Step::Done(Err(unexpected()), Vec::new()),
        }
    }
}

} // verus!
