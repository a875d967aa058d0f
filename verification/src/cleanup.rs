//! Teardown of what a guest leaves behind on the host: stray processes,
//! network devices, temporary directories and the launcher's directories.

use vstd::prelude::*;
use vstd::std_specs::iter::IteratorSpec;
use std::collections::HashSet;
use crate::config::{host_assembly_dir_of, host_instance_dir_of, CfctlDaemonConfig, ConfigView};
use crate::host::{
    unexpected, unexpected_reply, Clock, Command, CommandView, Directive, Effect, EffectView,
    HostCall, Reply, Step, ToolOutput,
};
use crate::protocol::{CleanupSummary, CleanupView, InstanceId};
use crate::scan::{line_spans, parse_i32_in, parse_signed, split_lines, trim_span, trimmed};
use crate::text::{
    chars_of, decimal, decimal_padded2, decimal_padded2_string, decimal_string, has_run, join2,
    join3, str_contains, string_of,
};

verus! {

/// The result of a teardown pass. It is never an error: a pass reports what
/// it could not confirm instead of failing.
#[derive(Debug)]
pub struct CleanupOutcome {
    pub guest_processes_killed: bool,
    pub remaining_pids: Vec<i32>,
    pub steps: Vec<String>,
}

impl View for CleanupOutcome {
    type V = CleanupView;

    open spec fn view(&self) -> CleanupView {
        CleanupView {
            guest_processes_killed: self.guest_processes_killed,
            remaining_pids: self.remaining_pids@,
            steps: self.steps.deep_view(),
        }
    }
}

/// A copy of a list of strings.
pub fn copy_strings(list: &Vec<String>) -> (out: Vec<String>)
    ensures
        out.deep_view() == list.deep_view(),
{
    let mut out: Vec<String> = Vec::new();
    let mut i: usize = 0;
    while i < list.len()
        invariant
            i <= list.len(),
            out.len() == i,
            forall|j: int| 0 <= j < i ==> out@[j]@ == list@[j]@,
        decreases list.len() - i,
    {
        out.push(list[i].clone());
        i += 1;
    }
    assert(out.deep_view() =~= list.deep_view());
    out
}

/// A copy of a list of process ids.
pub fn copy_pids(list: &Vec<i32>) -> (out: Vec<i32>)
    ensures
        out@ == list@,
{
    let mut out: Vec<i32> = Vec::new();
    let mut i: usize = 0;
    while i < list.len()
        invariant
            i <= list.len(),
            out@ == list@.subrange(0, i as int),
        decreases list.len() - i,
    {
        out.push(list[i]);
        i += 1;
        assert(list@.subrange(0, i as int) == list@.subrange(0, i - 1).push(list@[i - 1]));
    }
    assert(list@.subrange(0, list.len() as int) == list@);
    out
}

impl CleanupOutcome {
    /// The outcome for the processes still running after the pass and the
    /// steps it took: the guest counts as gone exactly when none remains.
    pub fn from_parts(remaining_pids: Vec<i32>, steps: Vec<String>) -> (out: CleanupOutcome)
        ensures
            out@ == (CleanupView {
                guest_processes_killed: remaining_pids@.len() == 0,
                remaining_pids: remaining_pids@,
                steps: steps.deep_view(),
            }),
    {
        let guest_processes_killed = remaining_pids.len() == 0;
        CleanupOutcome { guest_processes_killed, remaining_pids, steps }
    }

    /// The outcome as reported to clients.
    pub fn summary(&self) -> (out: CleanupSummary)
        ensures
            out@ == self@,
    {
        CleanupSummary {
            guest_processes_killed: self.guest_processes_killed,
            remaining_pids: copy_pids(&self.remaining_pids),
            steps: copy_strings(&self.steps),
        }
    }
}

/// The command-line patterns by which the processes of instance `id` are found.
pub open spec fn guest_patterns(id: InstanceId) -> Seq<Seq<char>> {
    let d = decimal(id as nat);
    seq![
        "--instance_dir=/var/lib/cuttlefish/instances/"@ + d,
        "--assembly_dir=/var/lib/cuttlefish/assembly/"@ + d,
        "/var/lib/cuttlefish/instances/"@ + d + "/"@,
        "/var/lib/cuttlefish/assembly/"@ + d + "/"@,
        "cvd-"@ + d,
    ]
}

/// Builds the patterns by which the processes of instance `id` are found.
pub fn guest_process_patterns(id: InstanceId) -> (out: Vec<String>)
    ensures
        out.deep_view() == guest_patterns(id),
{
    let d = decimal_string(id);
    let mut out: Vec<String> = Vec::new();
    out.push(join2("--instance_dir=/var/lib/cuttlefish/instances/", d.as_str()));
    out.push(join2("--assembly_dir=/var/lib/cuttlefish/assembly/", d.as_str()));
    out.push(join3("/var/lib/cuttlefish/instances/", d.as_str(), "/"));
    out.push(join3("/var/lib/cuttlefish/assembly/", d.as_str(), "/"));
    out.push(join2("cvd-", d.as_str()));
    assert(out.deep_view() =~= guest_patterns(id));
    out
}

/// The directories under which a process may still hold files of instance `id`.
pub open spec fn holder_roots(id: InstanceId) -> Seq<Seq<char>> {
    let d = decimal(id as nat);
    seq!["/var/lib/cuttlefish/instances/"@ + d, "/var/lib/cuttlefish/assembly/"@ + d]
}

/// The temporary directories that the guest of instance `id` leaves behind.
pub open spec fn ephemeral_dirs(id: InstanceId) -> Seq<Seq<char>> {
    let d = decimal(id as nat);
    seq!["/tmp/cf_avd_0/cvd-"@ + d, "/tmp/cf_env_0/env-"@ + d, "/tmp/cf_img_0/cvd-"@ + d]
}

/// The global configuration link that the guest launcher recreates on every start.
pub open spec fn config_link() -> Seq<char> {
    "/var/lib/cuttlefish/.cuttlefish_config.json"@
}

/// The name under which `name` is moved out of the way before it is
/// deleted: the name, a marker, the time and the daemon's process id.
pub open spec fn trash_name_of(name: Seq<char>, epoch: u64, pid: u32) -> Seq<char> {
    name + ".__trash__."@ + decimal(epoch as nat) + "."@ + decimal(pid as nat)
}

/// Builds a trash name.
pub fn trash_name(name: &str, epoch: u64, pid: u32) -> (out: String)
    ensures
        out@ == trash_name_of(name@, epoch, pid),
{
    let e = decimal_string(epoch);
    let p = decimal_string(pid as u64);
    let mut out = join3(name, ".__trash__.", e.as_str());
    out.append(".");
    out.append(p.as_str());
    out
}

/// Whether a directory entry is a leftover of an interrupted deletion.
pub fn is_trash_name(name: &str) -> (yes: bool)
    ensures
        yes == has_run(name@, ".__trash__."@),
{
    str_contains(name, ".__trash__.")
}

/// A command with one argument.
pub fn command1(program: &str, a: &str) -> (out: Command)
    ensures
        out@ == (CommandView { program: program@, args: seq![a@] }),
{
    let mut args: Vec<String> = Vec::new();
    args.push(String::from_str(a));
    assert(args.deep_view() =~= seq![a@]);
    Command { program: String::from_str(program), args }
}

/// A command with two arguments.
pub fn command2(program: &str, a: &str, b: &str) -> (out: Command)
    ensures
        out@ == (CommandView { program: program@, args: seq![a@, b@] }),
{
    let mut args: Vec<String> = Vec::new();
    args.push(String::from_str(a));
    args.push(String::from_str(b));
    assert(args.deep_view() =~= seq![a@, b@]);
    Command { program: String::from_str(program), args }
}

/// A command with three arguments.
pub fn command3(program: &str, a: &str, b: &str, c: &str) -> (out: Command)
    ensures
        out@ == (CommandView { program: program@, args: seq![a@, b@, c@] }),
{
    let mut args: Vec<String> = Vec::new();
    args.push(String::from_str(a));
    args.push(String::from_str(b));
    args.push(String::from_str(c));
    assert(args.deep_view() =~= seq![a@, b@, c@]);
    Command { program: String::from_str(program), args }
}

/// A command with four arguments.
pub fn command4(program: &str, a: &str, b: &str, c: &str, d: &str) -> (out: Command)
    ensures
        out@ == (CommandView { program: program@, args: seq![a@, b@, c@, d@] }),
{
    let mut args: Vec<String> = Vec::new();
    args.push(String::from_str(a));
    args.push(String::from_str(b));
    args.push(String::from_str(c));
    args.push(String::from_str(d));
    assert(args.deep_view() =~= seq![a@, b@, c@, d@]);
    Command { program: String::from_str(program), args }
}

/// The forced kill of every process whose command line matches `pattern`.
pub open spec fn pkill_of(pattern: Seq<char>) -> CommandView {
    CommandView { program: "pkill"@, args: seq!["-9"@, "-f"@, pattern] }
}

/// The search for the processes whose command line matches `pattern`.
pub open spec fn pgrep_of(pattern: Seq<char>) -> CommandView {
    CommandView { program: "pgrep"@, args: seq!["-f"@, pattern] }
}

/// The forced kill of one process.
pub open spec fn kill_of(pid: Seq<char>) -> CommandView {
    CommandView { program: "kill"@, args: seq!["-9"@, pid] }
}

/// The search for the processes that hold files under `path`.
pub open spec fn lsof_of(path: Seq<char>) -> CommandView {
    CommandView { program: "lsof"@, args: seq!["-t"@, path] }
}

/// Whether `s` strictly ascends.
pub open spec fn ascending(s: Seq<i32>) -> bool {
    forall|i: int, j: int| 0 <= i < j < s.len() ==> s[i] < s[j]
}

/// Whether `s` ascends, equal neighbours allowed.
pub open spec fn sorted(s: Seq<i32>) -> bool {
    forall|i: int, j: int| 0 <= i < j < s.len() ==> s[i] <= s[j]
}

/// `<[i32]>::sort_unstable` of the standard library: afterwards the list
/// ascends, and it holds what it held before, each value as often as before.
#[verifier::external_body]
fn sort_pids(pids: &mut Vec<i32>)
    ensures
        sorted(final(pids)@),
        final(pids)@.to_multiset() == old(pids)@.to_multiset(),
{
    pids.sort_unstable();
}

/// The members of a set of process ids, in ascending order.
fn ascending_pids(seen: &HashSet<i32>) -> (out: Vec<i32>)
    ensures
        ascending(out@),
        out@.to_set() == seen@,
{
    broadcast use vstd::std_specs::hash::group_hash_axioms;

    let mut out: Vec<i32> = Vec::new();
    let ghost members = seen.iter().remaining().unref();
    for pid in it: seen.iter()
        invariant
            it.seq().unref() == members,
            members.to_set() == seen@,
            members.no_duplicates(),
            out@ == members.subrange(0, it.index() as int),
    {
        out.push(*pid);
    }
    assert(out@ =~= members);
    sort_pids(&mut out);
    proof {
        let sorted = out@;
        members.lemma_multiset_has_no_duplicates();
        sorted.lemma_multiset_has_no_duplicates_conv();
        members.to_multiset_ensures();
        sorted.to_multiset_ensures();
        assert forall|x: i32| sorted.contains(x) <==> members.contains(x) by {
            assert(sorted.to_multiset().count(x) == members.to_multiset().count(x));
        }
        assert(sorted.to_set() =~= members.to_set());
    }
    out
}

/// The process id that a line of search output denotes, if it denotes one.
pub open spec fn pid_of_line(line: Seq<char>) -> Option<i32> {
    match parse_signed(trimmed(line), i32::MIN as int, i32::MAX as int) {
        Some(n) => Some(n as i32),
        None => None,
    }
}

/// The process ids denoted by the lines `lines[..upto]`.
pub open spec fn pids_of_lines(lines: Seq<Seq<char>>, upto: int) -> Set<i32>
    decreases upto,
{
    if upto <= 0 || upto > lines.len() {
        Set::empty()
    } else {
        match pid_of_line(lines[upto - 1]) {
            Some(p) => pids_of_lines(lines, upto - 1).insert(p),
            None => pids_of_lines(lines, upto - 1),
        }
    }
}

/// The process ids that one search reports: those printed by a run that
/// succeeded, none for a run that failed or could not be started.
pub open spec fn pids_of_run(run: Result<ToolOutput, String>) -> Set<i32> {
    match run {
        Ok(out) => if out.succeeded() {
            pids_of_lines(split_lines(out.stdout@), split_lines(out.stdout@).len() as int)
        } else {
            Set::empty()
        },
        Err(_) => Set::empty(),
    }
}

/// The process ids that the searches `runs[..upto]` report.
pub open spec fn pids_of_runs(runs: Seq<Result<ToolOutput, String>>, upto: int) -> Set<i32>
    decreases upto,
{
    if upto <= 0 || upto > runs.len() {
        Set::empty()
    } else {
        pids_of_runs(runs, upto - 1).union(pids_of_run(runs[upto - 1]))
    }
}

/// The characters `v[from..to]`.
pub fn slice_of(v: &Vec<char>, from: usize, to: usize) -> (out: Vec<char>)
    requires
        from <= to <= v.len(),
    ensures
        out@ == v@.subrange(from as int, to as int),
{
    let mut out: Vec<char> = Vec::new();
    let mut i: usize = from;
    while i < to
        invariant
            from <= i <= to <= v.len(),
            out@ == v@.subrange(from as int, i as int),
        decreases to - i,
    {
        out.push(v[i]);
        i += 1;
        assert(v@.subrange(from as int, i as int) == v@.subrange(from as int, i - 1).push(
            v@[i - 1],
        ));
    }
    out
}

fn add_pids_of_text(seen: &mut HashSet<i32>, stdout: &str)
    ensures
        final(seen)@ == old(seen)@.union(
            pids_of_lines(split_lines(stdout@), split_lines(stdout@).len() as int),
        ),
{
    broadcast use vstd::std_specs::hash::group_hash_axioms;

    let v = chars_of(stdout);
    let spans = line_spans(&v, 0);
    let ghost lines = split_lines(stdout@);
    let ghost start = seen@;
    let mut i: usize = 0;
    assert(start.union(pids_of_lines(lines, 0)) =~= start);
    while i < spans.len()
        invariant
            i <= spans.len(),
            v@ == stdout@,
            lines == split_lines(stdout@),
            crate::scan::cut(v@, spans@) == lines,
            crate::scan::spans_within(spans@, v@.len()),
            seen@ == start.union(pids_of_lines(lines, i as int)),
        decreases spans.len() - i,
    {
        let span = spans[i];
        let line = slice_of(&v, span.start, span.end);
        assert(line@ == lines[i as int]);
        let t = trim_span(&line);
        let parsed = parse_i32_in(&line, t.0, t.1);
        match parsed {
            Some(pid) => {
                seen.insert(pid);
                assert(seen@ =~= start.union(pids_of_lines(lines, i + 1)));
            },
            None => {
                assert(seen@ =~= start.union(pids_of_lines(lines, i + 1)));
            },
        }
        i += 1;
    }
}

/// Collects the process ids that a round of searches reports, each once, in
/// ascending order.
pub fn collect_guest_pids(runs: &Vec<Result<ToolOutput, String>>) -> (out: Vec<i32>)
    ensures
        ascending(out@),
        out@.to_set() == pids_of_runs(runs@, runs@.len() as int),
{
    broadcast use vstd::std_specs::hash::group_hash_axioms;

    let mut seen: HashSet<i32> = HashSet::new();
    let mut k: usize = 0;
    assert(seen@ =~= pids_of_runs(runs@, 0));
    while k < runs.len()
        invariant
            k <= runs.len(),
            seen@ == pids_of_runs(runs@, k as int),
        decreases runs.len() - k,
    {
        match &runs[k] {
            Ok(out) => {
                if out.success() {
                    add_pids_of_text(&mut seen, out.stdout.as_str());
                } else {
                    assert(seen@.union(Set::<i32>::empty()) =~= seen@);
                }
            },
            Err(_) => {
                assert(seen@.union(Set::<i32>::empty()) =~= seen@);
            },
        }
        k += 1;
    }
    ascending_pids(&seen)
}

/// Milliseconds granted to signalled processes before they are looked for again.
pub const SETTLE_MILLIS: u64 = 200;

/// The opening of a kill pass: a forced kill for each pattern, then a pause.
pub open spec fn sweep_effects(id: InstanceId) -> Seq<EffectView> {
    Seq::new(5, |i: int| EffectView::Run(pkill_of(guest_patterns(id)[i]))).push(
        EffectView::Pause { millis: SETTLE_MILLIS },
    )
}

/// The searches that find the processes of instance `id`, one per pattern.
pub open spec fn search_commands(id: InstanceId) -> Seq<CommandView> {
    Seq::new(5, |i: int| pgrep_of(guest_patterns(id)[i]))
}

/// The follow-up of a kill pass: a forced kill for each survivor, then a pause.
pub open spec fn chase_effects(pids: Seq<i32>) -> Seq<EffectView> {
    Seq::new(
        pids.len(),
        |i: int| EffectView::Run(kill_of(crate::text::signed_decimal(pids[i] as int))),
    ).push(EffectView::Pause { millis: SETTLE_MILLIS })
}

fn sweep(id: InstanceId) -> (out: Vec<Effect>)
    ensures
        crate::host::effects_view(out@) == sweep_effects(id),
{
    let patterns = guest_process_patterns(id);
    assert(patterns.len() == 5) by {
        assert(patterns.deep_view().len() == 5);
    }
    let mut out: Vec<Effect> = Vec::new();
    let mut i: usize = 0;
    while i < 5
        invariant
            i <= 5,
            patterns.deep_view() == guest_patterns(id),
            patterns.len() == 5,
            out.len() == i,
            forall|j: int| 0 <= j < i ==> out@[j]@
                == EffectView::Run(pkill_of(guest_patterns(id)[j])),
        decreases 5 - i,
    {
        assert(patterns@[i as int]@ == guest_patterns(id)[i as int]) by {
            assert(patterns.deep_view()[i as int] == patterns@[i as int]@);
        }
        out.push(Effect::Run(command3("pkill", "-9", "-f", patterns[i].as_str())));
        i += 1;
    }
    out.push(Effect::Pause { millis: SETTLE_MILLIS });
    assert(crate::host::effects_view(out@) =~= sweep_effects(id));
    out
}

fn searches(id: InstanceId) -> (out: Vec<Command>)
    ensures
        crate::host::commands_view(out@) == search_commands(id),
{
    let patterns = guest_process_patterns(id);
    assert(patterns.len() == 5) by {
        assert(patterns.deep_view().len() == 5);
    }
    let mut out: Vec<Command> = Vec::new();
    let mut i: usize = 0;
    while i < 5
        invariant
            i <= 5,
            patterns.deep_view() == guest_patterns(id),
            patterns.len() == 5,
            out.len() == i,
            forall|j: int| 0 <= j < i ==> out@[j]@ == pgrep_of(guest_patterns(id)[j]),
        decreases 5 - i,
    {
        assert(patterns@[i as int]@ == guest_patterns(id)[i as int]) by {
            assert(patterns.deep_view()[i as int] == patterns@[i as int]@);
        }
        out.push(command2("pgrep", "-f", patterns[i].as_str()));
        i += 1;
    }
    assert(crate::host::commands_view(out@) =~= search_commands(id));
    out
}

fn chase(pids: &Vec<i32>) -> (out: Vec<Effect>)
    ensures
        crate::host::effects_view(out@) == chase_effects(pids@),
{
    let mut out: Vec<Effect> = Vec::new();
    let mut i: usize = 0;
    while i < pids.len()
        invariant
            i <= pids.len(),
            out.len() == i,
            forall|j: int|
                0 <= j < i ==> out@[j]@ == EffectView::Run(
                    kill_of(crate::text::signed_decimal(pids@[j] as int)),
                ),
        decreases pids.len() - i,
    {
        let text = crate::text::signed_decimal_string(pids[i]);
        out.push(Effect::Run(command2("kill", "-9", text.as_str())));
        i += 1;
    }
    out.push(Effect::Pause { millis: SETTLE_MILLIS });
    assert(crate::host::effects_view(out@) =~= chase_effects(pids@));
    out
}

/// A kill pass over the processes of one instance.
///
/// The pass kills by pattern, pauses and searches; if the search finds
/// survivors it kills them one by one, pauses and searches once more.
#[derive(Clone, Copy, Debug, PartialEq, Eq, Structural)]
pub enum KillGuests {
    /// Killed by pattern; waiting for the first search.
    Swept { id: InstanceId },
    /// Killed the survivors; waiting for the second search.
    Chased { id: InstanceId },
}

/// Whether a directive asks for the searches of instance `id`.
pub open spec fn asks_search(call: HostCall, id: InstanceId) -> bool {
    call matches HostCall::Tools { commands } && crate::host::commands_view(commands@)
        == search_commands(id)
}

/// The processes that a round of searches found; none if the host's
/// answer is not one to searches.
pub open spec fn found_by(reply: Reply) -> Set<i32> {
    match reply {
        Reply::Tools(runs) => pids_of_runs(runs@, runs@.len() as int),
        _ => Set::empty(),
    }
}

impl KillGuests {
    /// The state that follows when the host answers `reply`, if the pass
    /// goes on: survivors of the first search are chased once.
    pub open spec fn next(self, reply: Reply) -> Option<KillGuests> {
        match (self, reply) {
            (KillGuests::Swept { id }, Reply::Tools(_)) => if found_by(reply) =~= Set::<
                i32,
            >::empty() {
                None
            } else {
                Some(KillGuests::Chased { id })
            },
            _ => None,
        }
    }

    /// The instance whose processes are killed.
    pub open spec fn id(self) -> InstanceId {
        match self {
            KillGuests::Swept { id } => id,
            KillGuests::Chased { id } => id,
        }
    }

    /// Starts a kill pass.
    pub fn begin(id: InstanceId) -> (out: (KillGuests, Directive))
        ensures
            out.0 == (KillGuests::Swept { id }),
            crate::host::effects_view(out.1.effects@) == sweep_effects(id),
            asks_search(out.1.call, id),
    {
        (
            KillGuests::Swept { id },
            Directive { effects: sweep(id), call: HostCall::Tools { commands: searches(id) } },
        )
    }

    /// What one step of a kill pass does: the relation between the host's
    /// answer and the outcome of the step.
    pub open spec fn stepped(
        self,
        reply: Reply,
        out: Step<KillGuests, Result<bool, String>>,
    ) -> bool {
        &&& (match self.next(reply) {
                Some(next) => out matches Step::Ask(state, _) && state == next,
                None => out is Done,
            })
        &&& (match reply {
                Reply::Tools(runs) => {
                    let found = pids_of_runs(runs@, runs@.len() as int);
                    match self {
                        KillGuests::Swept { id } => if found =~= Set::<i32>::empty() {
                            out matches Step::Done(Ok(gone), last) && gone && last@.len() == 0
                        } else {
                            out matches Step::Ask(next, d) && next == (KillGuests::Chased { id })
                                && asks_search(d.call, id) && exists|pids: Seq<i32>|
                                ascending(pids) && pids.to_set() == found
                                    && crate::host::effects_view(d.effects@)
                                        == #[trigger] chase_effects(
                                    pids,
                                )
                        },
                        KillGuests::Chased { id } => out matches Step::Done(Ok(gone), last) && gone
                            == (found =~= Set::<i32>::empty()) && last@.len() == 0,
                    }
                },
                _ => out matches Step::Done(Err(e), last) && e@ == unexpected_reply() && last@.len()
                    == 0,
            })
    }

    /// Continues a kill pass with the result of a search. The pass ends with
    /// `true` exactly when the search it waited for found no process.
    pub fn resume(self, reply: Reply) -> (out: Step<KillGuests, Result<bool, String>>)
        ensures
            self.stepped(reply, out),
    {
        match reply {
            Reply::Tools(runs) => {
                let pids = collect_guest_pids(&runs);
                proof {
                    if pids@.len() > 0 {
                        assert(pids@.to_set().contains(pids@[0])) by {
                            assert(pids@.contains(pids@[0]));
                        }
                    } else {
                        assert(pids@.to_set() =~= Set::<i32>::empty());
                    }
                }
                match self {
                    KillGuests::Swept { id } => {
                        if pids.len() == 0 {
                            Step::Done(Ok(true), Vec::new())
                        } else {
                            Step::Ask(
                                KillGuests::Chased { id },
                                Directive {
                                    effects: chase(&pids),
                                    call: HostCall::Tools { commands: searches(id) },
                                },
                            )
                        }
                    },
                    KillGuests::Chased { id } => Step::Done(Ok(pids.len() == 0), Vec::new()),
                }
            },
            _ => Step::Done(Err(unexpected()), Vec::new()),
        }
    }
}

/// The devices, directories and links removed by every teardown pass.
pub open spec fn teardown_effects(id: InstanceId) -> Seq<EffectView> {
    let n = decimal_padded2(id as nat);
    seq![
        EffectView::Run(
            CommandView {
                program: "ip"@,
                args: seq!["tuntap"@, "del"@, "dev"@, "cvd-mtap-"@ + n],
            },
        ),
        EffectView::Run(
            CommandView { program: "ip"@, args: seq!["tuntap"@, "del"@, "dev"@, "cvd-tap-"@ + n] },
        ),
        EffectView::Run(CommandView { program: "ip"@, args: seq!["link"@, "del"@, "cvd-eth-"@
            + n] }),
        EffectView::RemoveTree { path: ephemeral_dirs(id)[0] },
        EffectView::RemoveTree { path: ephemeral_dirs(id)[1] },
        EffectView::RemoveTree { path: ephemeral_dirs(id)[2] },
        EffectView::RemoveFile { path: config_link() },
    ]
}

/// Builds the removals of network devices, temporary directories and the
/// launcher's configuration link.
pub fn teardown(id: InstanceId) -> (out: Vec<Effect>)
    ensures
        crate::host::effects_view(out@) == teardown_effects(id),
{
    let n = decimal_padded2_string(id);
    let d = decimal_string(id);
    let mtap = join2("cvd-mtap-", n.as_str());
    let tap = join2("cvd-tap-", n.as_str());
    let eth = join2("cvd-eth-", n.as_str());
    let mut out: Vec<Effect> = Vec::new();
    out.push(Effect::Run(command4("ip", "tuntap", "del", "dev", mtap.as_str())));
    out.push(Effect::Run(command4("ip", "tuntap", "del", "dev", tap.as_str())));
    out.push(Effect::Run(command3("ip", "link", "del", eth.as_str())));
    out.push(Effect::RemoveTree { path: join2("/tmp/cf_avd_0/cvd-", d.as_str()) });
    out.push(Effect::RemoveTree { path: join2("/tmp/cf_env_0/env-", d.as_str()) });
    out.push(Effect::RemoveTree { path: join2("/tmp/cf_img_0/cvd-", d.as_str()) });
    out.push(
        Effect::RemoveFile { path: String::from_str("/var/lib/cuttlefish/.cuttlefish_config.json") },
    );
    assert(crate::host::effects_view(out@) =~= teardown_effects(id));
    out
}

/// The forced kills for the holders listed in `lines[..upto]`: one for each
/// line that is not blank.
pub open spec fn holder_kills(lines: Seq<Seq<char>>, upto: int) -> Seq<EffectView>
    decreases upto,
{
    if upto <= 0 || upto > lines.len() {
        Seq::empty()
    } else if trimmed(lines[upto - 1]).len() > 0 {
        holder_kills(lines, upto - 1).push(EffectView::Run(kill_of(lines[upto - 1])))
    } else {
        holder_kills(lines, upto - 1)
    }
}

/// The forced kills that follow one search for file holders: none unless
/// the search ran and succeeded.
pub open spec fn holder_effects(run: Result<ToolOutput, String>) -> Seq<EffectView> {
    match run {
        Ok(out) => if out.succeeded() {
            holder_kills(split_lines(out.stdout@), split_lines(out.stdout@).len() as int)
        } else {
            Seq::empty()
        },
        Err(_) => Seq::empty(),
    }
}

/// Builds the forced kills that follow one search for file holders.
pub fn kill_open_file_holders(run: &Result<ToolOutput, String>) -> (out: Vec<Effect>)
    ensures
        crate::host::effects_view(out@) == holder_effects(*run),
{
    let mut out: Vec<Effect> = Vec::new();
    match run {
        Ok(tool) => {
            if tool.success() {
                let v = chars_of(tool.stdout.as_str());
                let spans = line_spans(&v, 0);
                let ghost lines = split_lines(tool.stdout@);
                let mut i: usize = 0;
                assert(crate::host::effects_view(out@) =~= holder_kills(lines, 0));
                while i < spans.len()
                    invariant
                        i <= spans.len(),
                        v@ == tool.stdout@,
                        lines == split_lines(tool.stdout@),
                        crate::scan::cut(v@, spans@) == lines,
                        crate::scan::spans_within(spans@, v@.len()),
                        crate::host::effects_view(out@) == holder_kills(lines, i as int),
                    decreases spans.len() - i,
                {
                    let span = spans[i];
                    let line = slice_of(&v, span.start, span.end);
                    assert(line@ == lines[i as int]);
                    let t = trim_span(&line);
                    let ghost before = out@;
                    if t.0 < t.1 {
                        let text = string_of(&line);
                        out.push(Effect::Run(command2("kill", "-9", text.as_str())));
                        assert(crate::host::effects_view(out@) =~= crate::host::effects_view(
                            before,
                        ).push(EffectView::Run(kill_of(line@))));
                    }
                    i += 1;
                }
            } else {
                assert(crate::host::effects_view(out@) =~= Seq::<EffectView>::empty());
            }
        },
        Err(_) => {
            assert(crate::host::effects_view(out@) =~= Seq::<EffectView>::empty());
        },
    }
    out
}

/// The steps that a teardown pass records, in order. The two directory
/// removals are taken, and recorded, only by a pass that found no process left.
pub open spec fn cleanup_steps(clean: bool) -> Seq<Seq<char>> {
    let head = seq![
        "kill_guest_processes"@,
        "remove_network_devices"@,
        "remove_ephemeral_dirs"@,
        "remove_cuttlefish_config_symlink"@,
        "kill_open_file_holders"@,
        "collect_guest_pids"@,
    ];
    if clean {
        head + seq!["trash_instance_dir"@, "trash_assembly_dir"@, "reset_permissions"@]
    } else {
        head + seq!["reset_permissions"@]
    }
}

fn step_names(clean: bool) -> (out: Vec<String>)
    ensures
        out.deep_view() == cleanup_steps(clean),
{
    let mut out: Vec<String> = Vec::new();
    out.push(String::from_str("kill_guest_processes"));
    out.push(String::from_str("remove_network_devices"));
    out.push(String::from_str("remove_ephemeral_dirs"));
    out.push(String::from_str("remove_cuttlefish_config_symlink"));
    out.push(String::from_str("kill_open_file_holders"));
    out.push(String::from_str("collect_guest_pids"));
    if clean {
        out.push(String::from_str("trash_instance_dir"));
        out.push(String::from_str("trash_assembly_dir"));
    }
    out.push(String::from_str("reset_permissions"));
    assert(out.deep_view() =~= cleanup_steps(clean));
    out
}

/// The outcome of a pass after which the processes `remaining` still run.
pub open spec fn outcome_of(remaining: Seq<i32>) -> CleanupView {
    CleanupView {
        guest_processes_killed: remaining.len() == 0,
        remaining_pids: remaining,
        steps: cleanup_steps(remaining.len() == 0),
    }
}

/// The reset of ownership and permissions under the guest image root.
pub open spec fn reset_commands() -> Seq<CommandView> {
    seq![
        CommandView {
            program: "chown"@,
            args: seq!["-R"@, "justin:cvdnetwork"@, "/var/lib/cuttlefish"@],
        },
        CommandView { program: "chmod"@, args: seq!["-R"@, "g+rwX"@, "/var/lib/cuttlefish"@] },
    ]
}

/// Where a launcher directory of instance `id` under `base` is moved before it is deleted.
pub open spec fn trash_path_of(base: Seq<char>, id: InstanceId, epoch: u64, pid: u32) -> Seq<char> {
    crate::config::joined(base, trash_name_of(decimal(id as nat), epoch, pid))
}

/// The effects that close a teardown pass: the launcher's directories are
/// moved away and deleted only if no process is left, and ownership and
/// permissions are reset in any case.
pub open spec fn closing_effects(
    config: ConfigView,
    id: InstanceId,
    clean: bool,
    epoch: u64,
    pid: u32,
) -> Seq<EffectView> {
    let reset = EffectView::Detach { commands: reset_commands() };
    if clean {
        seq![
            EffectView::Trash {
                path: host_instance_dir_of(config, id),
                trash: trash_path_of(config.cuttlefish_instances_dir, id, epoch, pid),
            },
            EffectView::Trash {
                path: host_assembly_dir_of(config, id),
                trash: trash_path_of(config.cuttlefish_assembly_dir, id, epoch, pid),
            },
            reset,
        ]
    } else {
        seq![reset]
    }
}

/// Builds the path to which a launcher directory is moved before deletion.
pub fn trash_path(base: &str, id: InstanceId, epoch: u64, pid: u32) -> (out: String)
    ensures
        out@ == trash_path_of(base@, id, epoch, pid),
{
    let d = decimal_string(id);
    let name = trash_name(d.as_str(), epoch, pid);
    crate::config::join_path(base, name.as_str())
}

fn closing(config: &CfctlDaemonConfig, id: InstanceId, clean: bool, epoch: u64, pid: u32) -> (out:
    Vec<Effect>)
    ensures
        crate::host::effects_view(out@) == closing_effects(config@, id, clean, epoch, pid),
{
    let mut out: Vec<Effect> = Vec::new();
    if clean {
        out.push(
            Effect::Trash {
                path: config.host_instance_dir(id),
                trash: trash_path(config.cuttlefish_instances_dir.as_str(), id, epoch, pid),
            },
        );
        out.push(
            Effect::Trash {
                path: config.host_assembly_dir(id),
                trash: trash_path(config.cuttlefish_assembly_dir.as_str(), id, epoch, pid),
            },
        );
    }
    let mut commands: Vec<Command> = Vec::new();
    commands.push(command3("chown", "-R", "justin:cvdnetwork", "/var/lib/cuttlefish"));
    commands.push(command3("chmod", "-R", "g+rwX", "/var/lib/cuttlefish"));
    assert(crate::host::commands_view(commands@) =~= reset_commands());
    out.push(Effect::Detach { commands });
    assert(crate::host::effects_view(out@) =~= closing_effects(config@, id, clean, epoch, pid));
    out
}

/// Where a teardown pass stands.
#[derive(Clone, Copy, Debug, PartialEq, Eq, Structural)]
pub enum CleanupPhase {
    /// The kill pass is under way.
    Killing(KillGuests),
    /// Waiting for the holders of the instance directory.
    InstanceHolders,
    /// Waiting for the holders of the assembly directory.
    AssemblyHolders,
    /// Waiting for the final search for survivors.
    Collecting,
}

/// A teardown pass over the host state of one instance.
#[derive(Clone, Copy, Debug, PartialEq, Eq, Structural)]
pub struct Cleanup {
    pub id: InstanceId,
    pub phase: CleanupPhase,
}

/// Whether a directive asks who holds files under `path`.
pub open spec fn asks_holders(call: HostCall, path: Seq<char>) -> bool {
    call matches HostCall::Tool(c) && c@ == lsof_of(path)
}

impl Cleanup {
    /// The phase that follows when the host answers `reply`, if the pass
    /// goes on. The kill pass is followed by the two searches for file
    /// holders and those by the final search, whatever they find.
    pub open spec fn next_phase(self, reply: Reply) -> Option<CleanupPhase> {
        match (self.phase, reply) {
            (CleanupPhase::Killing(kill), Reply::Tools(_)) => match kill.next(reply) {
                Some(next) => Some(CleanupPhase::Killing(next)),
                None => Some(CleanupPhase::InstanceHolders),
            },
            (CleanupPhase::InstanceHolders, Reply::Tool(_)) => Some(CleanupPhase::AssemblyHolders),
            (CleanupPhase::AssemblyHolders, Reply::Tool(_)) => Some(CleanupPhase::Collecting),
            _ => None,
        }
    }

    /// Whether the host's answer `reply` ends the pass with an outcome: it
    /// is the answer to the final search.
    pub open spec fn concludes(self, reply: Reply) -> bool {
        self.phase is Collecting && reply is Tools
    }

    /// Starts a teardown pass with its kill pass.
    pub fn begin(id: InstanceId) -> (out: (Cleanup, Directive))
        ensures
            out.0 == (Cleanup { id, phase: CleanupPhase::Killing(KillGuests::Swept { id }) }),
            crate::host::effects_view(out.1.effects@) == sweep_effects(id),
            asks_search(out.1.call, id),
    {
        let (kill, directive) = KillGuests::begin(id);
        (Cleanup { id, phase: CleanupPhase::Killing(kill) }, directive)
    }

    /// What one step of a teardown pass does: the relation between the
    /// settings, the host's answer, the clocks and the outcome of the step.
    pub open spec fn stepped(
        self,
        config: &CfctlDaemonConfig,
        daemon_pid: u32,
        reply: Reply,
        clock: Clock,
        out: Step<Cleanup, Result<CleanupOutcome, String>>,
    ) -> bool {
        &&& (match self.next_phase(reply) {
                Some(phase) => out matches Step::Ask(next, _) && next == (Cleanup {
                    id: self.id,
                    phase,
                }),
                None => if self.concludes(reply) {
                    out matches Step::Done(Ok(_), _)
                } else {
                    out matches Step::Done(Err(e), last) && e@ == unexpected_reply()
                        && last@.len() == 0
                },
            })
        &&& (match (self.phase, reply) {
                (CleanupPhase::Killing(kill), Reply::Tools(runs)) => {
                    let found = pids_of_runs(runs@, runs@.len() as int);
                    if kill is Swept && !(found =~= Set::<i32>::empty()) {
                        out matches Step::Ask(next, d) && next == (Cleanup {
                            id: self.id,
                            phase: CleanupPhase::Killing(KillGuests::Chased { id: kill.id() }),
                        }) && asks_search(d.call, kill.id()) && exists|pids: Seq<i32>|
                            ascending(pids) && pids.to_set() == found
                                && crate::host::effects_view(d.effects@)
                                    == #[trigger] chase_effects(
                                pids,
                            )
                    } else {
                        out matches Step::Ask(next, d) && next == (Cleanup {
                            id: self.id,
                            phase: CleanupPhase::InstanceHolders,
                        }) && crate::host::effects_view(d.effects@) == teardown_effects(self.id)
                            && asks_holders(d.call, holder_roots(self.id)[0])
                    }
                },
                (CleanupPhase::InstanceHolders, Reply::Tool(run)) => out matches Step::Ask(next, d)
                    && next == (Cleanup { id: self.id, phase: CleanupPhase::AssemblyHolders })
                    && crate::host::effects_view(d.effects@) == holder_effects(run) && asks_holders(
                    d.call,
                    holder_roots(self.id)[1],
                ),
                (CleanupPhase::AssemblyHolders, Reply::Tool(run)) => out matches Step::Ask(next, d)
                    && next == (Cleanup { id: self.id, phase: CleanupPhase::Collecting })
                    && crate::host::effects_view(d.effects@) == holder_effects(run) && asks_search(
                    d.call,
                    self.id,
                ),
                (CleanupPhase::Collecting, Reply::Tools(runs)) => {
                    let found = pids_of_runs(runs@, runs@.len() as int);
                    out matches Step::Done(Ok(outcome), last) && ascending(outcome.remaining_pids@)
                        && outcome.remaining_pids@.to_set() == found && outcome@ == outcome_of(
                        outcome.remaining_pids@,
                    ) && crate::host::effects_view(last@) == closing_effects(
                        config@,
                        self.id,
                        outcome.remaining_pids@.len() == 0,
                        match clock.epoch_secs {
                            Some(t) => t,
                            None => 0,
                        },
                        daemon_pid,
                    )
                },
                _ => out matches Step::Done(Err(e), last) && e@ == unexpected_reply() && last@.len()
                    == 0,
            })
    }

    /// Continues a teardown pass.
    ///
    /// Whatever the kill pass reports, the pass goes on to remove network
    /// devices, temporary directories and the configuration link, and to
    /// kill the holders of open files. The final search decides the outcome:
    /// the processes it finds are the remaining ones, and the launcher's
    /// directories are moved away only if it finds none.
    pub fn resume(
        self,
        config: &CfctlDaemonConfig,
        daemon_pid: u32,
        reply: Reply,
        clock: &Clock,
    ) -> (out: Step<Cleanup, Result<CleanupOutcome, String>>)
        ensures
            self.stepped(config, daemon_pid, reply, *clock, out),
    {
        let id = self.id;
        match self.phase {
            CleanupPhase::Killing(kill) => {
                match reply {
                    Reply::Tools(runs) => {
                        match kill.resume(Reply::Tools(runs)) {
                            Step::Ask(next, directive) => Step::Ask(
                                Cleanup { id, phase: CleanupPhase::Killing(next) },
                                directive,
                            ),
                            Step::Done(_, _) => {
                                let d = decimal_string(id);
                                let root = join2("/var/lib/cuttlefish/instances/", d.as_str());
                                Step::Ask(
                                    Cleanup { id, phase: CleanupPhase::InstanceHolders },
                                    Directive {
                                        effects: teardown(id),
                                        call: HostCall::Tool(command2("lsof", "-t", root.as_str())),
                                    },
                                )
                            },
                        }
                    },
                    _ => Step::Done(Err(unexpected()), Vec::new()),
                }
            },
            CleanupPhase::InstanceHolders => {
                match reply {
                    Reply::Tool(run) => {
                        let d = decimal_string(id);
                        let root = join2("/var/lib/cuttlefish/assembly/", d.as_str());
                        Step::Ask(
                            Cleanup { id, phase: CleanupPhase::AssemblyHolders },
                            Directive {
                                effects: kill_open_file_holders(&run),
                                call: HostCall::Tool(command2("lsof", "-t", root.as_str())),
                            },
                        )
                    },
                    _ => Step::Done(Err(unexpected()), Vec::new()),
                }
            },
            CleanupPhase::AssemblyHolders => {
                match reply {
                    Reply::Tool(run) => Step::Ask(
                        Cleanup { id, phase: CleanupPhase::Collecting },
                        Directive {
                            effects: kill_open_file_holders(&run),
                            call: HostCall::Tools { commands: searches(id) },
                        },
                    ),
                    _ => Step::Done(Err(unexpected()), Vec::new()),
                }
            },
            CleanupPhase::Collecting => {
                match reply {
                    Reply::Tools(runs) => {
                        let remaining = collect_guest_pids(&runs);
                        let clean = remaining.len() == 0;
                        let epoch = match clock.epoch_secs {
                            Some(t) => t,
                            None => 0,
                        };
                        let last = closing(config, id, clean, epoch, daemon_pid);
                        let outcome = CleanupOutcome::from_parts(remaining, step_names(clean));
                        Step::Done(Ok(outcome), last)
                    },
                    _ => Step::Done(Err(unexpected()), Vec::new()),
                }
            },
        }
    }
}

/// A pass moves the launcher's directories away only when it reports that
/// no guest process remains.
pub proof fn lemma_directories_survive_unclean_pass(
    config: ConfigView,
    id: InstanceId,
    remaining: Seq<i32>,
    epoch: u64,
    pid: u32,
    k: int,
)
    requires
        0 <= k < closing_effects(config, id, remaining.len() == 0, epoch, pid).len(),
        closing_effects(config, id, remaining.len() == 0, epoch, pid)[k] is Trash,
    ensures
        remaining.len() == 0,
        outcome_of(remaining).guest_processes_killed,
{
}

} // verus!
