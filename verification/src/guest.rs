//! Guest process bookkeeping: exit status, the per-process handle state and
//! the registry of live handles.
//!
//! The operating system is never touched here. A handle records what the
//! host observed about its process and answers from that record whenever it
//! can; the registry maps each instance to the identity of its live handle.

use vstd::prelude::*;
use dashmap::DashMap;
use crate::protocol::InstanceId;
use crate::text::{join2, join3, signed_decimal, signed_decimal_string};

verus! {

/// How a guest process ended.
#[derive(Clone, Copy, Debug, PartialEq, Eq, Structural)]
pub struct ExitStatusInfo {
    pub code: Option<i32>,
    pub signal: Option<i32>,
}

impl ExitStatusInfo {
    /// A clean exit: code zero and no signal.
    pub open spec fn is_success(self) -> bool {
        self.code == Some(0i32) && self.signal is None
    }

    /// The phrase that describes this status in messages.
    pub open spec fn description(self) -> Seq<char> {
        match (self.code, self.signal) {
            (Some(code), None) => "exit code "@ + signed_decimal(code as int),
            (None, Some(sig)) => "signal "@ + signed_decimal(sig as int),
            (Some(code), Some(sig)) => "exit code "@ + signed_decimal(code as int) + " (signal "@
                + signed_decimal(sig as int) + ")"@,
            (None, None) => "unknown status"@,
        }
    }

    /// Whether the process exited with code zero and was not signalled.
    pub fn success(&self) -> (ok: bool)
        ensures
            ok == self.is_success(),
    {
        match (self.code, self.signal) {
            (Some(code), None) => code == 0,
            _ => false,
        }
    }

    /// Describes the status for a log line or an error message.
    pub fn describe(&self) -> (out: String)
        ensures
            out@ == self.description(),
    {
        match (self.code, self.signal) {
            (Some(code), None) => {
                let digits = signed_decimal_string(code);
                join2("exit code ", digits.as_str())
            },
            (None, Some(sig)) => {
                let digits = signed_decimal_string(sig);
                join2("signal ", digits.as_str())
            },
            (Some(code), Some(sig)) => {
                let code_digits = signed_decimal_string(code);
                let sig_digits = signed_decimal_string(sig);
                let mut out = join3("exit code ", code_digits.as_str(), " (signal ");
                out.append(sig_digits.as_str());
                out.append(")");
                out
            },
            (None, None) => String::from_str("unknown status"),
        }
    }
}

/// The record kept for one spawned guest process.
///
/// `token` is the handle's identity: two handles are the same handle exactly
/// when their tokens are equal. `exit` caches the status once the process has
/// been reaped; `attached` says whether the host still holds the process.
#[derive(Clone, Copy, Debug)]
pub struct GuestHandle {
    pid: i32,
    token: u64,
    attached: bool,
    exit: Option<ExitStatusInfo>,
}

/// The message reported when a process is awaited a second time.
pub open spec fn already_awaited() -> Seq<char> {
    "guest process already awaited"@
}

impl GuestHandle {
    /// The process id.
    pub closed spec fn spec_pid(&self) -> i32 {
        self.pid
    }

    /// The identity of the handle.
    pub closed spec fn spec_token(&self) -> u64 {
        self.token
    }

    /// The cached exit status, if the process has been reaped.
    pub closed spec fn cached_exit(self) -> Option<ExitStatusInfo> {
        self.exit
    }

    /// Whether the host still holds the process.
    pub closed spec fn is_attached(self) -> bool {
        self.attached
    }

    /// Whether answering a status query needs the operating system.
    pub open spec fn needs_host(self) -> bool {
        self.cached_exit() is None && self.is_attached()
    }

    /// A process that has been reaped is no longer held. Every handle made
    /// by `new` satisfies this, and every query keeps it so.
    pub open spec fn wf(self) -> bool {
        self.cached_exit() is Some ==> !self.is_attached()
    }

    /// A handle for a process the host just spawned.
    pub fn new(pid: i32, token: u64) -> (handle: GuestHandle)
        ensures
            handle.spec_pid() == pid,
            handle.spec_token() == token,
            handle.cached_exit() is None,
            handle.is_attached(),
            handle.wf(),
    {
        GuestHandle { pid, token, attached: true, exit: None }
    }

    /// The process id.
    #[verifier::when_used_as_spec(spec_pid)]
    pub fn pid(&self) -> (pid: i32)
        ensures
            pid == self.spec_pid(),
    {
        self.pid
    }

    /// The identity of the handle.
    #[verifier::when_used_as_spec(spec_token)]
    pub fn token(&self) -> (token: u64)
        ensures
            token == self.spec_token(),
    {
        self.token
    }

    /// Whether the operating system must be polled before `try_wait` can answer.
    pub fn must_poll(&self) -> (need: bool)
        ensures
            need == self.needs_host(),
    {
        self.exit.is_none() && self.attached
    }

    /// Non-blocking status query.
    ///
    /// `polled` is what polling the operating system returned; it is read only
    /// when `needs_host()` holds. A cached status is returned as it is, and a
    /// newly observed exit is cached and detaches the process.
    pub fn try_wait(&mut self, polled: Result<Option<ExitStatusInfo>, String>) -> (out: Result<
        Option<ExitStatusInfo>,
        String,
    >)
        ensures
            final(self).spec_pid() == old(self).spec_pid(),
            final(self).spec_token() == old(self).spec_token(),
            old(self).wf() ==> final(self).wf(),
            !old(self).needs_host() ==> *final(self) == *old(self) && out == Ok::<
                Option<ExitStatusInfo>,
                String,
            >(old(self).cached_exit()),
            old(self).needs_host() ==> match polled {
                Ok(Some(status)) => out == Ok::<Option<ExitStatusInfo>, String>(Some(status))
                    && final(self).cached_exit() == Some(status) && !final(self).is_attached(),
                Ok(None) => out == Ok::<Option<ExitStatusInfo>, String>(None) && *final(self)
                    == *old(self),
                Err(e) => out == Err::<Option<ExitStatusInfo>, String>(e) && *final(self)
                    == *old(self),
            },
    {
        if let Some(exit) = self.exit {
            return Ok(Some(exit));
        }
        if !self.attached {
            return Ok(None);
        }
        match polled {
            Ok(Some(status)) => {
                self.attached = false;
                self.exit = Some(status);
                Ok(Some(status))
            },
            Ok(None) => Ok(None),
            Err(e) => Err(e),
        }
    }

    /// Blocking status query.
    ///
    /// `waited` is what waiting on the process returned; it is read only when
    /// `needs_host()` holds. Waiting detaches the process whether or not the
    /// wait succeeded, so a failed wait cannot be repeated.
    pub fn wait(&mut self, waited: Result<ExitStatusInfo, String>) -> (out: Result<
        ExitStatusInfo,
        String,
    >)
        ensures
            final(self).spec_pid() == old(self).spec_pid(),
            final(self).spec_token() == old(self).spec_token(),
            old(self).wf() ==> final(self).wf(),
            !final(self).needs_host(),
            old(self).cached_exit() matches Some(status) ==> (*final(self) == *old(self) && out
                == Ok::<ExitStatusInfo, String>(status)),
            old(self).cached_exit() is None && !old(self).is_attached() ==> *final(self)
                == *old(self) && (out matches Err(e) && e@ == already_awaited()),
            old(self).needs_host() ==> !final(self).is_attached() && match waited {
                Ok(status) => out == Ok::<ExitStatusInfo, String>(status)
                    && final(self).cached_exit() == Some(status),
                Err(e) => out == Err::<ExitStatusInfo, String>(e) && final(self).cached_exit()
                    is None,
            },
    {
        if let Some(exit) = self.exit {
            return Ok(exit);
        }
        if self.attached {
            self.attached = false;
            match waited {
                Ok(status) => {
                    self.exit = Some(status);
                    Ok(status)
                },
                Err(e) => Err(e),
            }
        } else {
            Err(String::from_str("guest process already awaited"))
        }
    }
}

impl GuestHandle {
    /// Judges how sending a signal to the process ended: a signal that was
    /// delivered, and one that found the process gone, count as sent; any
    /// other failure is an error in the host's words.
    pub fn signal(&self, report: crate::host::SignalReport) -> (out: Result<(), String>)
        ensures
            report.delivered || report.no_such_process ==> out is Ok,
            !(report.delivered || report.no_such_process) ==> out == Err::<(), String>(
                report.error,
            ),
    {
        report.outcome()
    }

    /// One round of a bounded wait: the status query of `try_wait`,
    /// followed by the decision between giving up and polling again.
    ///
    /// `polled` is read only when `needs_host()` holds. An exit that the
    /// poll reports is cached, detaches the process and ends the wait; a
    /// poll that fails is reported as it is; otherwise the deadline decides.
    pub fn wait_timeout(
        &mut self,
        polled: Result<Option<ExitStatusInfo>, String>,
        now_millis: u64,
        deadline_millis: u64,
    ) -> (out: Result<WaitStep, String>)
        ensures
            final(self).spec_pid() == old(self).spec_pid(),
            final(self).spec_token() == old(self).spec_token(),
            old(self).wf() ==> final(self).wf(),
            !old(self).needs_host() ==> *final(self) == *old(self) && out == Ok::<
                WaitStep,
                String,
            >(step_after(old(self).cached_exit(), now_millis, deadline_millis)),
            old(self).needs_host() ==> match polled {
                Ok(Some(status)) => out == Ok::<WaitStep, String>(WaitStep::Exited(status))
                    && final(self).cached_exit() == Some(status) && !final(self).is_attached(),
                Ok(None) => out == Ok::<WaitStep, String>(
                    step_after(None, now_millis, deadline_millis),
                ) && *final(self) == *old(self),
                Err(e) => out == Err::<WaitStep, String>(e) && *final(self) == *old(self),
            },
    {
        match self.try_wait(polled) {
            Ok(observed) => Ok(wait_timeout_step(observed, now_millis, deadline_millis)),
            Err(e) => Err(e),
        }
    }
}

/// What a bounded wait does after one poll.
#[derive(Clone, Copy, Debug, PartialEq, Eq, Structural)]
pub enum WaitStep {
    /// The process has exited with this status.
    Exited(ExitStatusInfo),
    /// The deadline has passed and the process is still running.
    TimedOut,
    /// Sleep for this many milliseconds, then poll again.
    Retry(u64),
}

/// Milliseconds between two polls of a bounded wait.
pub const WAIT_POLL_MILLIS: u64 = 200;

/// What a bounded wait does once a poll has observed `observed`: an
/// observed exit ends it, otherwise the deadline decides between giving up
/// and polling again after a pause.
pub open spec fn step_after(
    observed: Option<ExitStatusInfo>,
    now_millis: u64,
    deadline_millis: u64,
) -> WaitStep {
    match observed {
        Some(status) => WaitStep::Exited(status),
        None => if now_millis >= deadline_millis {
            WaitStep::TimedOut
        } else {
            WaitStep::Retry(WAIT_POLL_MILLIS)
        },
    }
}

/// One round of a bounded wait: see [`step_after`].
pub fn wait_timeout_step(observed: Option<ExitStatusInfo>, now_millis: u64,
    deadline_millis: u64) -> (step: WaitStep)
    ensures
        step == step_after(observed, now_millis, deadline_millis),
{
    match observed {
        Some(status) => WaitStep::Exited(status),
        None => {
            if now_millis >= deadline_millis {
                WaitStep::TimedOut
            } else {
                WaitStep::Retry(WAIT_POLL_MILLIS)
            }
        },
    }
}

/// `dashmap::DashMap`, the concurrent map, as an opaque type: nothing is
/// known of a value but what the table functions below state.
#[verifier::external_type_specification]
#[verifier::external_body]
#[verifier::reject_recursive_types(K)]
#[verifier::reject_recursive_types(V)]
#[verifier::reject_recursive_types(S)]
pub struct ExDashMap<K, V, S>(DashMap<K, V, S>);

/// The entries of a handle table: instance id to handle token.
pub uninterp spec fn table_entries(table: DashMap<u64, u64>) -> Map<u64, u64>;

/// The table without entries.
pub open spec fn no_entries() -> Map<u64, u64> {
    Map::empty()
}

/// `DashMap::new`: a fresh table has no entries.
#[verifier::external_body]
fn table_new() -> (fresh: DashMap<u64, u64>)
    ensures
        table_entries(fresh) == no_entries(),
{
    DashMap::new()
}

/// `DashMap::insert`: the key maps to the new value afterwards, every other
/// entry is untouched, and the value it replaced is returned.
#[verifier::external_body]
fn table_insert(table: &mut DashMap<u64, u64>, id: u64, token: u64) -> (previous: Option<u64>)
    ensures
        table_entries(*final(table)) == table_entries(*old(table)).insert(id, token),
        previous == (if table_entries(*old(table)).contains_key(id) {
            Some(table_entries(*old(table))[id])
        } else {
            None
        }),
{
    table.insert(id, token)
}

/// `DashMap::get`: the value stored under the key, copied out of the guard.
#[verifier::external_body]
fn table_get(table: &DashMap<u64, u64>, id: u64) -> (found: Option<u64>)
    ensures
        found == (if table_entries(*table).contains_key(id) {
            Some(table_entries(*table)[id])
        } else {
            None
        }),
{
    table.get(&id).map(|entry| *entry.value())
}

/// `DashMap::contains_key`: whether the key has an entry.
#[verifier::external_body]
fn table_contains(table: &DashMap<u64, u64>, id: u64) -> (present: bool)
    ensures
        present == table_entries(*table).contains_key(id),
{
    table.contains_key(&id)
}

/// `DashMap::remove`: the key has no entry afterwards, every other entry is
/// untouched, and the removed value is returned.
#[verifier::external_body]
fn table_remove(table: &mut DashMap<u64, u64>, id: u64) -> (removed: Option<u64>)
    ensures
        table_entries(*final(table)) == table_entries(*old(table)).remove(id),
        removed == (if table_entries(*old(table)).contains_key(id) {
            Some(table_entries(*old(table))[id])
        } else {
            None
        }),
{
    table.remove(&id).map(|(_, token)| token)
}

/// The live guest handles, at most one per instance.
pub struct GuestRegistry {
    handles: DashMap<u64, u64>,
}

impl View for GuestRegistry {
    type V = Map<InstanceId, u64>;

    /// Instance id to the token of its live handle.
    closed spec fn view(&self) -> Map<InstanceId, u64> {
        table_entries(self.handles)
    }
}

impl GuestRegistry {
    /// An empty registry.
    pub fn new() -> (registry: GuestRegistry)
        ensures
            registry@ == Map::<InstanceId, u64>::empty(),
    {
        GuestRegistry { handles: table_new() }
    }

    /// Registers `handle` as the live handle of `id` and returns the token of
    /// the handle it replaced, if any.
    pub fn insert(&mut self, id: InstanceId, handle: &GuestHandle) -> (previous: Option<u64>)
        ensures
            final(self)@ == old(self)@.insert(id, handle.spec_token()),
            previous == (if old(self)@.contains_key(id) {
                Some(old(self)@[id])
            } else {
                None
            }),
    {
        table_insert(&mut self.handles, id, handle.token())
    }

    /// The token of the live handle of `id`.
    pub fn get(&self, id: InstanceId) -> (found: Option<u64>)
        ensures
            found == (if self@.contains_key(id) {
                Some(self@[id])
            } else {
                None
            }),
    {
        table_get(&self.handles, id)
    }

    /// Whether `id` has a live handle.
    pub fn contains(&self, id: InstanceId) -> (present: bool)
        ensures
            present == self@.contains_key(id),
    {
        table_contains(&self.handles, id)
    }

    /// Removes the entry of `id` if and only if it is the handle with the
    /// given token; a handle installed by a newer start is left in place.
    pub fn remove_if_handle(&mut self, id: InstanceId, token: u64) -> (removed: Option<u64>)
        ensures
            old(self)@.contains_key(id) && old(self)@[id] == token ==> final(self)@
                == old(self)@.remove(id) && removed == Some(token),
            !(old(self)@.contains_key(id) && old(self)@[id] == token) ==> final(self)@
                == old(self)@ && removed is None,
    {
        if let Some(existing) = table_get(&self.handles, id) {
            if existing == token {
                return table_remove(&mut self.handles, id);
            }
        }
        None
    }
}

} // verus!
