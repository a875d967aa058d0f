//! Running one guest without the daemon: configuration from the
//! environment, the plan of a run, the choice of an instance slot, and the
//! verdicts of the two polling loops.

use vstd::prelude::*;
use crate::boot::{boot_value_confirms, confirms_boot};
use crate::cleanup::{command3, slice_of};
use crate::config::{default_config, join_path, joined, CfctlDaemonConfig, ConfigView};
use crate::host::{Command, CommandView};
use crate::launcher::{launch_flags, present, LaunchParams};
use crate::protocol::{BootVerificationResult, BootVerificationView};
use crate::readiness::{active_serial, enriched, resolve_active_adb_serial};
use crate::scan::{parse_u16, parse_u64, parse_unsigned, trim_span, trimmed};
use crate::text::{chars_of, decimal_padded2, decimal_padded2_string, join2, join3, string_of_range};

verus! {

/// The value of the first variable named `name`, if there is one.
pub open spec fn lookup(vars: Seq<(String, String)>, name: Seq<char>,
    from: int) -> Option<Seq<char>>
    decreases vars.len() - from,
{
    if 0 <= from < vars.len() {
        if vars[from].0@ == name {
            Some(vars[from].1@)
        } else {
            lookup(vars, name, from + 1)
        }
    } else {
        None
    }
}

/// Looks a variable up in a snapshot of the environment.
pub fn env_lookup(vars: &Vec<(String, String)>, name: &str) -> (out: Option<String>)
    ensures
        out.deep_view() == lookup(vars@, name@, 0),
{
    let wanted = String::from_str(name);
    let mut i: usize = 0;
    while i < vars.len()
        invariant
            i <= vars.len(),
            wanted@ == name@,
            lookup(vars@, name@, 0) == lookup(vars@, name@, i as int),
        decreases vars.len() - i,
    {
        if vars[i].0 == wanted {
            return Some(vars[i].1.clone());
        }
        i += 1;
    }
    None
}

/// A text setting: the variable's value if it is set, else the default.
pub open spec fn text_or(value: Option<Seq<char>>, default: Seq<char>) -> Seq<char> {
    match value {
        Some(v) => v,
        None => default,
    }
}

/// A numeric setting: the number that the variable holds if it is set to
/// one that is at most `max`, else the default.
pub open spec fn number_or(value: Option<Seq<char>>, max: nat, default: nat) -> nat {
    match value {
        Some(v) => match parse_unsigned(v, max) {
            Some(n) => n,
            None => default,
        },
        None => default,
    }
}

/// A switch: `true` or `false` if the variable is set to that word, else the default.
pub open spec fn switch_or(value: Option<Seq<char>>, default: bool) -> bool {
    match value {
        Some(v) => if v == "true"@ {
            true
        } else if v == "false"@ {
            false
        } else {
            default
        },
        None => default,
    }
}

/// The index of the next comma at or after `from`, or the length.
pub open spec fn next_comma(s: Seq<char>, from: int) -> int
    decreases s.len() - from,
{
    if 0 <= from < s.len() && s[from] != ',' {
        next_comma(s, from + 1)
    } else {
        from
    }
}

/// The items of a comma-separated list from index `from` on, each trimmed,
/// blank items left out.
pub open spec fn list_items(s: Seq<char>, from: int) -> Seq<Seq<char>>
    decreases s.len() - from + 1,
{
    if 0 <= from <= s.len() {
        let e = next_comma(s, from);
        let item = trimmed(s.subrange(from, if from <= e <= s.len() {
            e
        } else {
            from
        }));
        let rest = if from <= e < s.len() {
            list_items(s, e + 1)
        } else {
            Seq::empty()
        };
        if item.len() > 0 {
            seq![item] + rest
        } else {
            rest
        }
    } else {
        Seq::empty()
    }
}

/// Splits a comma-separated list into its trimmed, non-blank items.
pub fn split_list(text: &str) -> (out: Vec<String>)
    ensures
        out.deep_view() == list_items(text@, 0),
{
    let v = chars_of(text);
    let mut out: Vec<String> = Vec::new();
    let mut pos: usize = 0;
    let mut done = false;
    assert(out.deep_view() =~= Seq::<Seq<char>>::empty());
    while !done
        invariant
            pos <= v.len(),
            v@ == text@,
            !done ==> list_items(v@, 0) == out.deep_view() + list_items(v@, pos as int),
            done ==> list_items(v@, 0) == out.deep_view(),
        decreases v.len() - pos + (if done {
            0int
        } else {
            1int
        }),
    {
        let mut e = pos;
        while e < v.len() && v[e] != ','
            invariant
                pos <= e <= v.len(),
                next_comma(v@, pos as int) == next_comma(v@, e as int),
            decreases v.len() - e,
        {
            e += 1;
        }
        let piece = slice_of(&v, pos, e);
        let span = trim_span(&piece);
        let ghost before = out.deep_view();
        let ghost item = trimmed(v@.subrange(pos as int, e as int));
        if span.0 < span.1 {
            out.push(string_of_range(&piece, span.0, span.1));
            assert(out.deep_view() =~= before + seq![item]);
        }
        proof {
            let rest = if e < v.len() {
                list_items(v@, e + 1)
            } else {
                Seq::<Seq<char>>::empty()
            };
            if item.len() > 0 {
                assert(before + (seq![item] + rest) =~= before + seq![item] + rest);
            }
            assert(before + Seq::<Seq<char>>::empty() =~= before);
            assert(out.deep_view() + Seq::<Seq<char>>::empty() =~= out.deep_view());
        }
        if e < v.len() {
            pos = e + 1;
        } else {
            done = true;
        }
    }
    out
}

/// The settings that the environment `vars` gives a daemon: each
/// `CFCTL_*` variable that is set, and well-formed where a number or a
/// switch is wanted, replaces the default.
pub open spec fn configured(vars: Seq<(String, String)>) -> ConfigView {
    let d = default_config();
    ConfigView {
        socket_path: d.socket_path,
        state_dir: text_or(lookup(vars, "CFCTL_STATE_DIR"@, 0), d.state_dir),
        etc_instances_dir: text_or(lookup(vars, "CFCTL_ETC_DIR"@, 0), d.etc_instances_dir),
        default_boot_image: text_or(lookup(vars, "CFCTL_DEFAULT_BOOT"@, 0), d.default_boot_image),
        default_init_boot_image: text_or(
            lookup(vars, "CFCTL_DEFAULT_INIT_BOOT"@, 0),
            d.default_init_boot_image,
        ),
        start_timeout_secs: number_or(
            lookup(vars, "CFCTL_START_TIMEOUT_SECS"@, 0),
            u64::MAX as nat,
            d.start_timeout_secs as nat,
        ) as u64,
        adb_wait_timeout_secs: number_or(
            lookup(vars, "CFCTL_ADB_TIMEOUT_SECS"@, 0),
            u64::MAX as nat,
            d.adb_wait_timeout_secs as nat,
        ) as u64,
        journal_lines: number_or(
            lookup(vars, "CFCTL_JOURNAL_LINES"@, 0),
            usize::MAX as nat,
            d.journal_lines as nat,
        ) as usize,
        adb_host: text_or(lookup(vars, "CFCTL_ADB_HOST"@, 0), d.adb_host),
        base_adb_port: number_or(
            lookup(vars, "CFCTL_BASE_ADB_PORT"@, 0),
            u16::MAX as nat,
            d.base_adb_port as nat,
        ) as u16,
        cuttlefish_fhs: text_or(lookup(vars, "CFCTL_CUTTLEFISH_FHS"@, 0), d.cuttlefish_fhs),
        cuttlefish_instances_dir: text_or(
            lookup(vars, "CFCTL_CUTTLEFISH_INSTANCES_DIR"@, 0),
            d.cuttlefish_instances_dir,
        ),
        cuttlefish_assembly_dir: text_or(
            lookup(vars, "CFCTL_CUTTLEFISH_ASSEMBLY_DIR"@, 0),
            d.cuttlefish_assembly_dir,
        ),
        cuttlefish_system_image_dir: text_or(
            lookup(vars, "CFCTL_CUTTLEFISH_SYSTEM_IMAGE_DIR"@, 0),
            d.cuttlefish_system_image_dir,
        ),
        disable_host_gpu: switch_or(
            lookup(vars, "CFCTL_DISABLE_HOST_GPU"@, 0),
            d.disable_host_gpu,
        ),
        guest_user: text_or(lookup(vars, "CFCTL_GUEST_USER"@, 0), d.guest_user),
        guest_primary_group: text_or(
            lookup(vars, "CFCTL_GUEST_PRIMARY_GROUP"@, 0),
            d.guest_primary_group,
        ),
        guest_capabilities: match lookup(vars, "CFCTL_GUEST_CAPABILITIES"@, 0) {
            Some(v) => list_items(v, 0),
            None => d.guest_capabilities,
        },
    }
}

fn set_text(slot: &mut String, vars: &Vec<(String, String)>, name: &str)
    ensures
        final(slot)@ == text_or(lookup(vars@, name@, 0), old(slot)@),
{
    match env_lookup(vars, name) {
        Some(v) => {
            *slot = v;
        },
        None => {},
    }
}

fn set_u64(slot: &mut u64, vars: &Vec<(String, String)>, name: &str)
    ensures
        *final(slot) == number_or(lookup(vars@, name@, 0), u64::MAX as nat, *old(slot) as nat),
{
    match env_lookup(vars, name) {
        Some(v) => {
            let chars = chars_of(v.as_str());
            match parse_u64(&chars) {
                Some(n) => {
                    *slot = n;
                },
                None => {},
            }
        },
        None => {},
    }
}

/// Reads the settings of a daemon from a snapshot of the environment.
pub fn config_from_env(vars: &Vec<(String, String)>) -> (config: CfctlDaemonConfig)
    ensures
        config@ == configured(vars@),
{
    let mut cfg = CfctlDaemonConfig::default();
    set_text(&mut cfg.state_dir, vars, "CFCTL_STATE_DIR");
    set_text(&mut cfg.etc_instances_dir, vars, "CFCTL_ETC_DIR");
    set_text(&mut cfg.default_boot_image, vars, "CFCTL_DEFAULT_BOOT");
    set_text(&mut cfg.default_init_boot_image, vars, "CFCTL_DEFAULT_INIT_BOOT");
    set_u64(&mut cfg.start_timeout_secs, vars, "CFCTL_START_TIMEOUT_SECS");
    set_u64(&mut cfg.adb_wait_timeout_secs, vars, "CFCTL_ADB_TIMEOUT_SECS");
    match env_lookup(vars, "CFCTL_JOURNAL_LINES") {
        Some(v) => {
            let chars = chars_of(v.as_str());
            match parse_u64(&chars) {
                Some(n) => {
                    if n <= usize::MAX as u64 {
                        cfg.journal_lines = n as usize;
                    }
                },
                None => {},
            }
        },
        None => {},
    }
    set_text(&mut cfg.adb_host, vars, "CFCTL_ADB_HOST");
    match env_lookup(vars, "CFCTL_BASE_ADB_PORT") {
        Some(v) => {
            let chars = chars_of(v.as_str());
            match parse_u16(&chars) {
                Some(n) => {
                    cfg.base_adb_port = n;
                },
                None => {},
            }
        },
        None => {},
    }
    set_text(&mut cfg.cuttlefish_fhs, vars, "CFCTL_CUTTLEFISH_FHS");
    set_text(&mut cfg.cuttlefish_instances_dir, vars, "CFCTL_CUTTLEFISH_INSTANCES_DIR");
    set_text(&mut cfg.cuttlefish_assembly_dir, vars, "CFCTL_CUTTLEFISH_ASSEMBLY_DIR");
    set_text(&mut cfg.cuttlefish_system_image_dir, vars, "CFCTL_CUTTLEFISH_SYSTEM_IMAGE_DIR");
    match env_lookup(vars, "CFCTL_DISABLE_HOST_GPU") {
        Some(v) => {
            if v == String::from_str("true") {
                cfg.disable_host_gpu = true;
            } else if v == String::from_str("false") {
                cfg.disable_host_gpu = false;
            }
        },
        None => {},
    }
    set_text(&mut cfg.guest_user, vars, "CFCTL_GUEST_USER");
    set_text(&mut cfg.guest_primary_group, vars, "CFCTL_GUEST_PRIMARY_GROUP");
    match env_lookup(vars, "CFCTL_GUEST_CAPABILITIES") {
        Some(v) => {
            cfg.guest_capabilities = split_list(v.as_str());
        },
        None => {},
    }
    cfg
}

/// What a single run is asked to do.
#[derive(Clone, Debug)]
pub struct RunConfig {
    pub boot_image: Option<String>,
    pub init_boot_image: Option<String>,
    pub logs_dir: Option<String>,
    pub disable_webrtc: bool,
    pub verify_boot: bool,
    pub skip_adb_wait: bool,
    pub timeout_secs: Option<u64>,
    pub keep_state: bool,
    pub track: Option<String>,
    pub run_as_root: bool,
    pub state_dir: Option<String>,
    pub instances_dir: Option<String>,
    pub assembly_dir: Option<String>,
    pub system_image_dir: Option<String>,
    pub guest_user: Option<String>,
    pub guest_group: Option<String>,
    pub cuttlefish_fhs: Option<String>,
    pub adb_host: Option<String>,
    pub base_adb_port: Option<u16>,
}

/// What a single run left behind.
#[derive(Clone, Debug)]
pub struct RunSummary {
    pub logs_dir: String,
    pub run_log: String,
    pub console_log: Option<String>,
    pub logcat_log: Option<String>,
    pub adb_serial: Option<String>,
    pub verification: Option<BootVerificationResult>,
    pub kept_state_dir: Option<String>,
}

/// The base of the bridge ports of single runs, unless configured.
pub const LITE_BASE_ADB_PORT: u16 = 7200;

/// The plan of a single run: where its logs go and the settings it runs with.
#[derive(Debug)]
pub struct RunPlan {
    pub logs_dir: String,
    pub run_log: String,
    pub config: CfctlDaemonConfig,
}

/// The message for options that exclude each other.
pub open spec fn conflicting_options() -> Seq<char> {
    "cannot combine --verify-boot with --skip-adb-wait"@
}

/// The settings of a single run: those of the environment, with the state
/// and configuration directories under the logs directory unless they are
/// given, and with every setting that the run names replaced.
pub open spec fn run_settings(cfg: RunConfig, vars: Seq<(String, String)>,
    logs_dir: Seq<char>) -> ConfigView {
    let e = configured(vars);
    ConfigView {
        state_dir: match cfg.state_dir {
            Some(dir) => dir@,
            None => text_or(lookup(vars, "CFCTL_STATE_DIR"@, 0), joined(logs_dir, "state"@)),
        },
        etc_instances_dir: if cfg.state_dir is None && lookup(vars, "CFCTL_ETC_DIR"@, 0) is None {
            joined(logs_dir, "etc"@)
        } else {
            e.etc_instances_dir
        },
        cuttlefish_instances_dir: text_or(cfg.instances_dir.deep_view(),
            e.cuttlefish_instances_dir),
        cuttlefish_assembly_dir: text_or(cfg.assembly_dir.deep_view(), e.cuttlefish_assembly_dir),
        cuttlefish_system_image_dir: text_or(
            cfg.system_image_dir.deep_view(),
            e.cuttlefish_system_image_dir,
        ),
        guest_user: text_or(cfg.guest_user.deep_view(), e.guest_user),
        guest_primary_group: text_or(cfg.guest_group.deep_view(), e.guest_primary_group),
        cuttlefish_fhs: text_or(cfg.cuttlefish_fhs.deep_view(), e.cuttlefish_fhs),
        adb_host: text_or(cfg.adb_host.deep_view(), e.adb_host),
        base_adb_port: match cfg.base_adb_port {
            Some(port) => port,
            None => LITE_BASE_ADB_PORT,
        },
        ..e
    }
}

fn replace_text(slot: &mut String, value: &Option<String>)
    ensures
        final(slot)@ == text_or(value.deep_view(), old(slot)@),
{
    match value {
        Some(v) => {
            *slot = v.clone();
        },
        None => {},
    }
}

/// Plans a single run.
///
/// Asking to verify the boot while skipping the wait for the bridge is
/// rejected before anything else. `default_logs_dir` is used if the run
/// names no logs directory.
pub fn run_once(cfg: &RunConfig, vars: &Vec<(String, String)>, default_logs_dir: &str) -> (out:
    Result<RunPlan, String>)
    ensures
        cfg.verify_boot && cfg.skip_adb_wait ==> (out matches Err(e) && e@
            == conflicting_options()),
        !(cfg.verify_boot && cfg.skip_adb_wait) ==> (out matches Ok(plan) && plan.logs_dir@
            == text_or(cfg.logs_dir.deep_view(), default_logs_dir@) && plan.run_log@ == joined(
            plan.logs_dir@,
            "cfctl-run.log"@,
        ) && plan.config@ == run_settings(*cfg, vars@, plan.logs_dir@)),
{
    if cfg.verify_boot && cfg.skip_adb_wait {
        return Err(String::from_str("cannot combine --verify-boot with --skip-adb-wait"));
    }
    let logs_dir = match &cfg.logs_dir {
        Some(dir) => dir.clone(),
        None => String::from_str(default_logs_dir),
    };
    let run_log = join_path(logs_dir.as_str(), "cfctl-run.log");
    let mut config = config_from_env(vars);
    let etc_given = env_lookup(vars, "CFCTL_ETC_DIR");
    match &cfg.state_dir {
        Some(dir) => {
            config.state_dir = dir.clone();
        },
        None => {
            match env_lookup(vars, "CFCTL_STATE_DIR") {
                Some(dir) => {
                    config.state_dir = dir;
                },
                None => {
                    config.state_dir = join_path(logs_dir.as_str(), "state");
                },
            }
            if etc_given.is_none() {
                config.etc_instances_dir = join_path(logs_dir.as_str(), "etc");
            }
        },
    }
    replace_text(&mut config.cuttlefish_instances_dir, &cfg.instances_dir);
    replace_text(&mut config.cuttlefish_assembly_dir, &cfg.assembly_dir);
    replace_text(&mut config.cuttlefish_system_image_dir, &cfg.system_image_dir);
    replace_text(&mut config.guest_user, &cfg.guest_user);
    replace_text(&mut config.guest_primary_group, &cfg.guest_group);
    replace_text(&mut config.cuttlefish_fhs, &cfg.cuttlefish_fhs);
    replace_text(&mut config.adb_host, &cfg.adb_host);
    config.base_adb_port = match cfg.base_adb_port {
        Some(port) => port,
        None => LITE_BASE_ADB_PORT,
    };
    Ok(RunPlan { logs_dir, run_log, config })
}

/// The instance number tried at `offset`: between 10 and 99, starting from
/// a number that depends on the time and the process.
pub open spec fn slot_number(seed: u64, pid: u64, offset: u64) -> u64 {
    (10 + (seed as int + pid as int + offset as int) % 90) as u64
}

/// The bridge port of an instance number: the base port for number one,
/// wrapping at the end of the port range.
pub open spec fn slot_port(base_port: u16, number: u64) -> u16 {
    ((base_port as int + number as int + 0xffff) % 0x1_0000) as u16
}

/// A slot for a single run: the name of the instance and its bridge port.
#[derive(Debug)]
pub struct Slot {
    pub name: String,
    pub port: u16,
}

/// The message for a run that found no free port.
pub open spec fn no_free_port() -> Seq<char> {
    "unable to allocate free adb port after 90 attempts"@
}

/// Lists the bridge ports of the instance numbers from 10 to 99, in order.
pub fn candidate_ports(base_port: u16) -> (out: Vec<u16>)
    ensures
        out@.len() == 90,
        forall|i: int| 0 <= i < 90 ==> out@[i] == slot_port(base_port, (10 + i) as u64),
{
    let mut out: Vec<u16> = Vec::new();
    let mut number: u64 = 10;
    while number < 100
        invariant
            10 <= number <= 100,
            out@.len() == number - 10,
            forall|i: int| 0 <= i < out@.len() ==> out@[i] == slot_port(base_port, (10 + i) as u64),
        decreases 100 - number,
    {
        out.push(((base_port as u64 + number + 0xffff) % 0x1_0000) as u16);
        number += 1;
    }
    out
}

fn port_busy(busy: &Vec<u16>, port: u16) -> (yes: bool)
    ensures
        yes == busy@.contains(port),
{
    let mut i: usize = 0;
    while i < busy.len()
        invariant
            i <= busy.len(),
            forall|j: int| 0 <= j < i ==> busy@[j] != port,
        decreases busy.len() - i,
    {
        if busy[i] == port {
            return true;
        }
        i += 1;
    }
    false
}

/// Chooses the slot of a single run.
///
/// Ninety instance numbers are tried in turn, from the one that `seed`
/// and `pid` select; the first whose bridge port is not among the `busy`
/// ones is taken. The name of the instance is its number in two digits.
pub fn allocate_instance_slot(base_port: u16, seed: u64, pid: u64, busy: &Vec<u16>) -> (out: Result<
    Slot,
    String,
>)
    ensures
        match out {
            Ok(slot) => exists|offset: u64|
                offset < 90 && slot.port == #[trigger] slot_port(
                    base_port,
                    slot_number(seed, pid, offset),
                ) && slot.name@ == decimal_padded2(slot_number(seed, pid, offset) as nat)
                    && !busy@.contains(slot.port) && forall|earlier: u64|
                    earlier < offset ==> busy@.contains(
                        #[trigger] slot_port(base_port, slot_number(seed, pid, earlier)),
                    ),
            Err(e) => e@ == no_free_port() && forall|offset: u64|
                offset < 90 ==> busy@.contains(
                    #[trigger] slot_port(base_port, slot_number(seed, pid, offset)),
                ),
        },
{
    let mut offset: u64 = 0;
    while offset < 90
        invariant
            offset <= 90,
            forall|earlier: u64|
                earlier < offset ==> busy@.contains(
                    #[trigger] slot_port(base_port, slot_number(seed, pid, earlier)),
                ),
        decreases 90 - offset,
    {
        let sum: u128 = seed as u128 + pid as u128 + offset as u128;
        let number: u64 = 10 + (sum % 90) as u64;
        let port: u16 = ((base_port as u64 + number + 0xffff) % 0x1_0000) as u16;
        assert(number == slot_number(seed, pid, offset));
        assert(port == slot_port(base_port, number));
        if !port_busy(busy, port) {
            return Ok(Slot { name: decimal_padded2_string(number), port });
        }
        offset += 1;
    }
    Err(String::from_str("unable to allocate free adb port after 90 attempts"))
}

/// The console log of a single run.
pub fn console_log_path(instance_dir: &str, instance_name: &str) -> (out: String)
    ensures
        out@ == joined(
            joined(joined(instance_dir@, "instances"@), "cvd-"@ + instance_name@),
            "console_log"@,
        ),
{
    let instances = join_path(instance_dir, "instances");
    let name = join2("cvd-", instance_name);
    let cvd = join_path(instances.as_str(), name.as_str());
    join_path(cvd.as_str(), "console_log")
}

/// A failure followed by the end of the run log, if the log could be read.
pub open spec fn with_run_log(message: Seq<char>, tail: Option<Seq<char>>) -> Seq<char> {
    match tail {
        Some(t) => enriched(message, t),
        None => message,
    }
}

/// Attaches the end of the run log to a failure.
pub fn append_run_log(message: String, tail: &Option<String>) -> (out: String)
    ensures
        out@ == with_run_log(message@, tail.deep_view()),
{
    match tail {
        Some(t) => {
            let mut out = join3("cfctl-run.log tail", ":\n", t.as_str());
            out.append(": ");
            out.append(message.as_str());
            out
        },
        None => message,
    }
}

/// Seconds allowed for the verification of a boot where no timeout is
/// asked for.
pub const VERIFY_TIMEOUT_SECS: u64 = 120;

/// The timeout in force: the one asked for, or the default where none or
/// zero is asked for.
pub open spec fn timeout_or(asked: Option<u64>, default: u64) -> u64 {
    match asked {
        Some(secs) => if secs > 0 {
            secs
        } else {
            default
        },
        None => default,
    }
}

/// The timeout in force for a wait or a verification.
pub fn effective_timeout(timeout_secs: Option<u64>, default: u64) -> (out: u64)
    ensures
        out == timeout_or(timeout_secs, default),
{
    match timeout_secs {
        Some(secs) => if secs > 0 {
            secs
        } else {
            default
        },
        None => default,
    }
}

/// The message for a boot verification without a bridge to verify over.
pub open spec fn bridge_missing() -> Seq<char> {
    "boot verification requires adb to be ready"@
}

/// The serial over which a boot is verified: that of the bridge that came
/// up. Without one the boot cannot be verified.
pub fn verification_serial(active: &Option<String>) -> (out: Result<String, String>)
    ensures
        match active {
            Some(serial) => out matches Ok(s) && s@ == serial@,
            None => out matches Err(e) && e@ == bridge_missing(),
        },
{
    match active {
        Some(serial) => Ok(serial.clone()),
        None => Err(String::from_str("boot verification requires adb to be ready")),
    }
}

/// What one round of the wait for the bridge observed.
#[derive(Debug)]
pub enum WaitObservation {
    /// The launcher has exited; its status in the host's words.
    Exited(String),
    /// The bridge did not connect.
    ConnectFailed(String),
    /// The device list could not be read.
    DevicesFailed(String),
    /// The device list.
    Devices(String),
}

/// What a polling loop does after one round.
#[derive(Debug)]
pub enum Verdict<T> {
    /// The loop ends with this result.
    Ready(T),
    /// Sleep for this many milliseconds, then go round again.
    Retry(u64),
    /// The loop ends with this failure.
    Failed(String),
}

/// The failure of a round of the wait, before the run log is attached.
pub open spec fn wait_failure(
    seen: WaitObservation,
    host_serial: Seq<char>,
    connect_serial: Seq<char>,
) -> Seq<char> {
    match seen {
        WaitObservation::Exited(status) => "launch_cvd exited prematurely with "@ + status@,
        WaitObservation::ConnectFailed(cause) => "timeout waiting for adb on "@ + host_serial
            + ": "@ + cause@,
        WaitObservation::DevicesFailed(cause) => "adb devices failed repeatedly: "@ + cause@,
        WaitObservation::Devices(_) => "adb device "@ + connect_serial + " never appeared"@,
    }
}

/// Judges one round of the wait for the bridge of a single run.
///
/// A launcher that has exited fails the wait at once. A device list that
/// shows the instance as ready ends it with the address shown. Anything
/// else is tried again after a second, until the deadline: then the wait
/// fails. Every failure carries the end of the run log.
pub fn wait_for_adb(
    seen: WaitObservation,
    host_serial: &str,
    connect_serial: &str,
    deadline_reached: bool,
    run_log_tail: &Option<String>,
) -> (out: Verdict<String>)
    ensures
        ({
            let found = match seen {
                WaitObservation::Devices(list) => active_serial(
                    list@,
                    host_serial@,
                    connect_serial@,
                ),
                _ => None,
            };
            let failure = with_run_log(
                wait_failure(seen, host_serial@, connect_serial@),
                run_log_tail.deep_view(),
            );
            if seen is Exited {
                out matches Verdict::Failed(e) && e@ == failure
            } else if found is Some {
                out matches Verdict::Ready(serial) && Some(serial@) == found
            } else if deadline_reached {
                out matches Verdict::Failed(e) && e@ == failure
            } else {
                out matches Verdict::Retry(pause) && pause == 1000
            }
        }),
{
    let message = match seen {
        WaitObservation::Exited(status) => {
            return Verdict::Failed(
                append_run_log(
                    join2("launch_cvd exited prematurely with ", status.as_str()),
                    run_log_tail,
                ),
            );
        },
        WaitObservation::ConnectFailed(cause) => {
            let mut m = join3("timeout waiting for adb on ", host_serial, ": ");
            m.append(cause.as_str());
            m
        },
        WaitObservation::DevicesFailed(cause) => join2(
            "adb devices failed repeatedly: ",
            cause.as_str(),
        ),
        WaitObservation::Devices(list) => {
            match resolve_active_adb_serial(list.as_str(), host_serial, connect_serial) {
                Some(serial) => {
                    return Verdict::Ready(serial);
                },
                None => join3("adb device ", connect_serial, " never appeared"),
            }
        },
    };
    if deadline_reached {
        Verdict::Failed(append_run_log(message, run_log_tail))
    } else {
        Verdict::Retry(1000)
    }
}

/// What one round of the boot verification observed.
#[derive(Debug)]
pub enum BootObservation {
    /// The bridge did not connect.
    ConnectFailed(String),
    /// The device list could not be read.
    DevicesFailed(String),
    /// The device list does not show the instance.
    DeviceAbsent,
    /// The boot property could not be read; whether a log shows the marker.
    PropertyFailed { cause: String, marker_in_logs: bool },
    /// The boot property as read, trimmed; whether a log shows the marker.
    Property { value: String, marker_in_logs: bool },
}

/// The failure of a round of the boot verification, and whether the end
/// of the run log is attached to it.
pub open spec fn verify_failure(
    seen: BootObservation,
    serial: Seq<char>,
    connect_serial: Seq<char>,
) -> (Seq<char>, bool) {
    match seen {
        BootObservation::ConnectFailed(cause) => (
            "adb connect never succeeded for "@ + serial + ": "@ + cause@,
            true,
        ),
        BootObservation::DevicesFailed(cause) => ("adb devices never succeeded: "@ + cause@, true),
        BootObservation::DeviceAbsent => (
            "adb serial "@ + connect_serial + " did not appear during verify"@,
            true,
        ),
        BootObservation::PropertyFailed { cause, .. } => (
            "adb getprop never succeeded: "@ + cause@,
            true,
        ),
        BootObservation::Property { value, .. } => (
            "VIRTUAL_DEVICE_BOOT_COMPLETED not observed (last value "@ + value@ + ")"@,
            false,
        ),
    }
}

/// Whether a round of the boot verification confirms the boot: by the
/// value of the property, or by the marker in a log.
pub open spec fn round_confirms(seen: BootObservation) -> bool {
    match seen {
        BootObservation::Property { value, marker_in_logs } => confirms_boot(value@)
            || marker_in_logs,
        BootObservation::PropertyFailed { marker_in_logs, .. } => marker_in_logs,
        _ => false,
    }
}

/// Judges one round of the boot verification of a single run.
///
/// A round that confirms the boot ends the verification. Any other is
/// tried again, after a second if the property was read and after half a
/// second otherwise, until the deadline: then the verification fails.
pub fn verify_boot_completed(
    seen: BootObservation,
    serial: &str,
    connect_serial: &str,
    deadline_reached: bool,
    run_log_tail: &Option<String>,
) -> (out: Verdict<BootVerificationResult>)
    ensures
        ({
            let failure = verify_failure(seen, serial@, connect_serial@);
            if round_confirms(seen) {
                out matches Verdict::Ready(r) && r@ == (BootVerificationView {
                    adb_ready: true,
                    boot_marker_observed: true,
                    failure_reason: None,
                })
            } else if deadline_reached {
                out matches Verdict::Failed(e) && e@ == (if failure.1 {
                    with_run_log(failure.0, run_log_tail.deep_view())
                } else {
                    failure.0
                })
            } else {
                out matches Verdict::Retry(pause) && pause == (if seen is Property {
                    1000u64
                } else {
                    500u64
                })
            }
        }),
{
    let (message, pause, attach) = match seen {
        BootObservation::ConnectFailed(cause) => {
            let mut m = join3("adb connect never succeeded for ", serial, ": ");
            m.append(cause.as_str());
            (m, 500u64, true)
        },
        BootObservation::DevicesFailed(cause) => (
            join2("adb devices never succeeded: ", cause.as_str()),
            500u64,
            true,
        ),
        BootObservation::DeviceAbsent => (
            join3("adb serial ", connect_serial, " did not appear during verify"),
            500u64,
            true,
        ),
        BootObservation::PropertyFailed { cause, marker_in_logs } => {
            if marker_in_logs {
                return Verdict::Ready(BootVerificationResult::observed());
            }
            (join2("adb getprop never succeeded: ", cause.as_str()), 500u64, true)
        },
        BootObservation::Property { value, marker_in_logs } => {
            if boot_value_confirms(value.as_str()) || marker_in_logs {
                return Verdict::Ready(BootVerificationResult::observed());
            }
            (
                join3(
                    "VIRTUAL_DEVICE_BOOT_COMPLETED not observed (last value ",
                    value.as_str(),
                    ")",
                ),
                1000u64,
                false,
            )
        },
    };
    if deadline_reached {
        if attach {
            Verdict::Failed(append_run_log(message, run_log_tail))
        } else {
            Verdict::Failed(message)
        }
    } else {
        Verdict::Retry(pause)
    }
}

/// The patterns by which the processes of a single run are found.
pub open spec fn run_patterns(instance_dir: Seq<char>, assembly_dir: Seq<char>) -> Seq<Seq<char>> {
    seq![
        "--instance_dir="@ + instance_dir,
        "--assembly_dir="@ + assembly_dir,
        instance_dir,
        assembly_dir,
    ]
}

/// Builds the patterns by which the processes of a single run are found.
pub fn kill_guest_processes(instance_dir: &str, assembly_dir: &str) -> (out: Vec<String>)
    ensures
        out.deep_view() == run_patterns(instance_dir@, assembly_dir@),
{
    let mut out: Vec<String> = Vec::new();
    out.push(join2("--instance_dir=", instance_dir));
    out.push(join2("--assembly_dir=", assembly_dir));
    out.push(String::from_str(instance_dir));
    out.push(String::from_str(assembly_dir));
    assert(out.deep_view() =~= run_patterns(instance_dir@, assembly_dir@));
    out
}

/// The removal of the network device of a single run: nothing unless the
/// name of the instance is a number.
pub fn cleanup_network(instance_name: &str) -> (out: Option<Command>)
    ensures
        match parse_unsigned(instance_name@, u32::MAX as nat) {
            Some(n) => out matches Some(c) && c@ == (CommandView {
                program: "ip"@,
                args: seq!["link"@, "del"@, "cvd-eth-"@ + decimal_padded2(n)],
            }),
            None => out is None,
        },
{
    let chars = chars_of(instance_name);
    match parse_u64(&chars) {
        Some(n) => {
            if n <= 0xffff_ffff {
                let padded = decimal_padded2_string(n);
                let device = join2("cvd-eth-", padded.as_str());
                Some(command3("ip", "link", "del", device.as_str()))
            } else {
                None
            }
        },
        None => None,
    }
}

/// What precedes the launcher when a guest is run for another user: the
/// switch of user and group, the environment to keep, and, if
/// capabilities are configured, the tool that grants them.
pub open spec fn sudo_prefix(user: Seq<char>, group: Seq<char>, caps: Seq<char>) -> Seq<Seq<char>> {
    let head = seq![
        "sudo"@,
        "-u"@,
        user,
        "-g"@,
        group,
        "--preserve-env=CUTTLEFISH_INSTANCE"@,
        "--preserve-env=CUTTLEFISH_INSTANCE_NUM"@,
        "--preserve-env=CUTTLEFISH_ADB_TCP_PORT"@,
        "--preserve-env=CUTTLEFISH_DISABLE_HOST_GPU"@,
        "--preserve-env=GFXSTREAM_DISABLE_GRAPHICS_DETECTOR"@,
        "--preserve-env=GFXSTREAM_HEADLESS"@,
        "--"@,
    ];
    if caps.len() > 0 {
        head + seq!["setpriv"@, "--ambient-caps"@, caps, "--"@]
    } else {
        head
    }
}

/// A capability as the granting tool takes it: with a sign in front.
pub open spec fn signed_cap(cap: Seq<char>) -> Seq<char> {
    if cap.len() > 0 && (cap[0] == '+' || cap[0] == '-') {
        cap
    } else {
        "+"@ + cap
    }
}

/// The first `upto` capabilities, signed and separated by commas.
pub open spec fn caps_arg(caps: Seq<Seq<char>>, upto: int) -> Seq<char>
    decreases upto,
{
    if upto <= 0 || upto > caps.len() {
        Seq::empty()
    } else if upto == 1 {
        signed_cap(caps[0])
    } else {
        caps_arg(caps, upto - 1) + ","@ + signed_cap(caps[upto - 1])
    }
}

/// Renders the capabilities for the granting tool.
pub fn render_caps(caps: &Vec<String>) -> (out: String)
    ensures
        out@ == caps_arg(caps.deep_view(), caps.len() as int),
{
    let mut out = String::new();
    let mut i: usize = 0;
    assert(out@ =~= caps_arg(caps.deep_view(), 0));
    while i < caps.len()
        invariant
            i <= caps.len(),
            out@ == caps_arg(caps.deep_view(), i as int),
        decreases caps.len() - i,
    {
        let chars = chars_of(caps[i].as_str());
        assert(caps.deep_view()[i as int] == caps@[i as int]@);
        let signed = if chars.len() > 0 && (chars[0] == '+' || chars[0] == '-') {
            caps[i].clone()
        } else {
            join2("+", caps[i].as_str())
        };
        assert(signed@ == signed_cap(caps@[i as int]@));
        if i > 0 {
            out.append(",");
            out.append(signed.as_str());
        } else {
            out.append(signed.as_str());
            assert(out@ =~= signed@);
        }
        i += 1;
    }
    out
}

/// The command line of a guest that is launched for another user.
pub open spec fn sudo_launch_args(
    config: ConfigView,
    params: LaunchParams,
    boot_exists: bool,
    init_exists: bool,
) -> Seq<Seq<char>> {
    sudo_prefix(
        config.guest_user,
        config.guest_primary_group,
        caps_arg(config.guest_capabilities, config.guest_capabilities.len() as int),
    ) + crate::launcher::wrapper_args(config.cuttlefish_fhs, params.track.deep_view())
        + launch_flags(
        config.cuttlefish_system_image_dir,
        params.instance_dir@,
        params.assembly_dir@,
        params.enable_webrtc,
        present(params.boot_image@, boot_exists),
        present(params.init_boot_image@, init_exists),
    )
}

/// Plans the launch of the guest of a single run for the configured user.
///
/// The command switches to the guest user and group, keeps the variables
/// that the launcher reads, grants the configured capabilities, and then
/// runs the launcher as the daemon would. The guest's working directory is
/// the directory above its instance directory.
pub fn spawn_guest_process(
    config: &CfctlDaemonConfig,
    params: &LaunchParams,
    instances_root: &str,
    run_log: &str,
    boot_exists: bool,
    init_exists: bool,
) -> (plan: crate::host::LaunchPlan)
    ensures
        seq![plan.command.program@] + plan.command.args.deep_view() == sudo_launch_args(
            config@,
            *params,
            boot_exists,
            init_exists,
        ),
        crate::launcher::pairs_view(plan.env@) == crate::launcher::launch_env(
            config.disable_host_gpu,
            params.instance_name@,
            params.adb_port,
        ),
        plan.dir matches Some(d) && d@ == instances_root@,
        plan.log_path@ == run_log@,
        plan.spawning@ == crate::launcher::spawn_context(
            params.instance_name@,
            config.cuttlefish_fhs@,
        ),
{
    let mut args: Vec<String> = Vec::new();
    args.push(String::from_str("-u"));
    args.push(config.guest_user.clone());
    args.push(String::from_str("-g"));
    args.push(config.guest_primary_group.clone());
    args.push(String::from_str("--preserve-env=CUTTLEFISH_INSTANCE"));
    args.push(String::from_str("--preserve-env=CUTTLEFISH_INSTANCE_NUM"));
    args.push(String::from_str("--preserve-env=CUTTLEFISH_ADB_TCP_PORT"));
    args.push(String::from_str("--preserve-env=CUTTLEFISH_DISABLE_HOST_GPU"));
    args.push(String::from_str("--preserve-env=GFXSTREAM_DISABLE_GRAPHICS_DETECTOR"));
    args.push(String::from_str("--preserve-env=GFXSTREAM_HEADLESS"));
    args.push(String::from_str("--"));
    let caps = render_caps(&config.guest_capabilities);
    let caps_chars = chars_of(caps.as_str());
    if caps_chars.len() > 0 {
        args.push(String::from_str("setpriv"));
        args.push(String::from_str("--ambient-caps"));
        args.push(caps);
        args.push(String::from_str("--"));
    }
    let ghost prefix = sudo_prefix(
        config.guest_user@,
        config.guest_primary_group@,
        caps_arg(config.guest_capabilities.deep_view(), config.guest_capabilities.len() as int),
    );
    assert(seq!["sudo"@] + args.deep_view() =~= prefix);
    match &params.track {
        Some(t) => {
            args.push(String::from_str("cfenv"));
            args.push(String::from_str("-t"));
            args.push(t.clone());
            args.push(String::from_str("--"));
        },
        None => {
            args.push(config.cuttlefish_fhs.clone());
            args.push(String::from_str("--"));
        },
    }
    let ghost wrapped = prefix + crate::launcher::wrapper_args(
        config.cuttlefish_fhs@,
        params.track.deep_view(),
    );
    assert(seq!["sudo"@] + args.deep_view() =~= wrapped);
    let boot = if boot_exists {
        Some(params.boot_image.as_str())
    } else {
        None
    };
    let init = if init_exists {
        Some(params.init_boot_image.as_str())
    } else {
        None
    };
    let ghost before = args.deep_view();
    crate::launcher::push_flags(
        &mut args,
        config.cuttlefish_system_image_dir.as_str(),
        params.instance_dir.as_str(),
        params.assembly_dir.as_str(),
        params.enable_webrtc,
        boot,
        init,
    );
    proof {
        let flags = launch_flags(
            config.cuttlefish_system_image_dir@,
            params.instance_dir@,
            params.assembly_dir@,
            params.enable_webrtc,
            present(params.boot_image@, boot_exists),
            present(params.init_boot_image@, init_exists),
        );
        assert(seq!["sudo"@] + (before + flags) =~= (seq!["sudo"@] + before) + flags);
    }
    crate::host::LaunchPlan {
        command: Command { program: String::from_str("sudo"), args },
        env: crate::launcher::environment(
            config.disable_host_gpu,
            params.instance_name.as_str(),
            params.adb_port,
        ),
        dir: Some(String::from_str(instances_root)),
        log_path: String::from_str(run_log),
        spawning: crate::launcher::spawn_context_text(
            params.instance_name.as_str(),
            config.cuttlefish_fhs.as_str(),
        ),
    }
}

} // verus!
