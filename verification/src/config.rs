//! Daemon configuration and the path layout derived from it.

use vstd::prelude::*;
use crate::protocol::InstanceId;
use crate::text::{chars_of, decimal, decimal_string, join2, join3};

verus! {

/// Settings of one daemon.
#[derive(Clone, Debug)]
pub struct CfctlDaemonConfig {
    pub socket_path: String,
    pub state_dir: String,
    pub etc_instances_dir: String,
    pub default_boot_image: String,
    pub default_init_boot_image: String,
    pub start_timeout_secs: u64,
    pub adb_wait_timeout_secs: u64,
    pub journal_lines: usize,
    pub adb_host: String,
    pub base_adb_port: u16,
    pub cuttlefish_fhs: String,
    pub cuttlefish_instances_dir: String,
    pub cuttlefish_assembly_dir: String,
    pub cuttlefish_system_image_dir: String,
    pub disable_host_gpu: bool,
    pub guest_user: String,
    pub guest_primary_group: String,
    pub guest_capabilities: Vec<String>,
}

/// The settings with every text as its character sequence.
pub struct ConfigView {
    pub socket_path: Seq<char>,
    pub state_dir: Seq<char>,
    pub etc_instances_dir: Seq<char>,
    pub default_boot_image: Seq<char>,
    pub default_init_boot_image: Seq<char>,
    pub start_timeout_secs: u64,
    pub adb_wait_timeout_secs: u64,
    pub journal_lines: usize,
    pub adb_host: Seq<char>,
    pub base_adb_port: u16,
    pub cuttlefish_fhs: Seq<char>,
    pub cuttlefish_instances_dir: Seq<char>,
    pub cuttlefish_assembly_dir: Seq<char>,
    pub cuttlefish_system_image_dir: Seq<char>,
    pub disable_host_gpu: bool,
    pub guest_user: Seq<char>,
    pub guest_primary_group: Seq<char>,
    pub guest_capabilities: Seq<Seq<char>>,
}

impl View for CfctlDaemonConfig {
    type V = ConfigView;

    open spec fn view(&self) -> ConfigView {
        ConfigView {
            socket_path: self.socket_path@,
            state_dir: self.state_dir@,
            etc_instances_dir: self.etc_instances_dir@,
            default_boot_image: self.default_boot_image@,
            default_init_boot_image: self.default_init_boot_image@,
            start_timeout_secs: self.start_timeout_secs,
            adb_wait_timeout_secs: self.adb_wait_timeout_secs,
            journal_lines: self.journal_lines,
            adb_host: self.adb_host@,
            base_adb_port: self.base_adb_port,
            cuttlefish_fhs: self.cuttlefish_fhs@,
            cuttlefish_instances_dir: self.cuttlefish_instances_dir@,
            cuttlefish_assembly_dir: self.cuttlefish_assembly_dir@,
            cuttlefish_system_image_dir: self.cuttlefish_system_image_dir@,
            disable_host_gpu: self.disable_host_gpu,
            guest_user: self.guest_user@,
            guest_primary_group: self.guest_primary_group@,
            guest_capabilities: self.guest_capabilities.deep_view(),
        }
    }
}

/// The settings a daemon runs with when nothing overrides them.
pub open spec fn default_config() -> ConfigView {
    ConfigView {
        socket_path: "/run/cfctl.sock"@,
        state_dir: "/var/lib/cfctl"@,
        etc_instances_dir: "/etc/cuttlefish/instances"@,
        default_boot_image: "/var/lib/cuttlefish/images/boot.img"@,
        default_init_boot_image: "/var/lib/cuttlefish/images/init_boot.img"@,
        start_timeout_secs: 120,
        adb_wait_timeout_secs: 90,
        journal_lines: 200,
        adb_host: "127.0.0.1"@,
        base_adb_port: 6520,
        cuttlefish_fhs: "/run/current-system/sw/bin/cuttlefish-fhs"@,
        cuttlefish_instances_dir: "/var/lib/cuttlefish/instances"@,
        cuttlefish_assembly_dir: "/var/lib/cuttlefish/assembly"@,
        cuttlefish_system_image_dir: "/var/lib/cuttlefish/images"@,
        disable_host_gpu: true,
        guest_user: "justin"@,
        guest_primary_group: "cvdnetwork"@,
        guest_capabilities: seq!["net_admin"@],
    }
}

impl Default for CfctlDaemonConfig {
    fn default() -> (config: CfctlDaemonConfig)
        ensures
            config@ == default_config(),
    {
        let mut caps: Vec<String> = Vec::new();
        caps.push(String::from_str("net_admin"));
        let config = CfctlDaemonConfig {
            socket_path: String::from_str("/run/cfctl.sock"),
            state_dir: String::from_str("/var/lib/cfctl"),
            etc_instances_dir: String::from_str("/etc/cuttlefish/instances"),
            default_boot_image: String::from_str("/var/lib/cuttlefish/images/boot.img"),
            default_init_boot_image: String::from_str("/var/lib/cuttlefish/images/init_boot.img"),
            start_timeout_secs: 120,
            adb_wait_timeout_secs: 90,
            journal_lines: 200,
            adb_host: String::from_str("127.0.0.1"),
            base_adb_port: 6520,
            cuttlefish_fhs: String::from_str("/run/current-system/sw/bin/cuttlefish-fhs"),
            cuttlefish_instances_dir: String::from_str("/var/lib/cuttlefish/instances"),
            cuttlefish_assembly_dir: String::from_str("/var/lib/cuttlefish/assembly"),
            cuttlefish_system_image_dir: String::from_str("/var/lib/cuttlefish/images"),
            disable_host_gpu: true,
            guest_user: String::from_str("justin"),
            guest_primary_group: String::from_str("cvdnetwork"),
            guest_capabilities: caps,
        };
        assert(config.guest_capabilities.deep_view() =~= seq!["net_admin"@]);
        config
    }
}

/// `leaf` placed under the directory `base`: a separator is put between the
/// two unless `base` is empty or already ends with one.
pub open spec fn joined(base: Seq<char>, leaf: Seq<char>) -> Seq<char> {
    if base.len() == 0 {
        leaf
    } else if base.last() == '/' {
        base + leaf
    } else {
        base + seq!['/'] + leaf
    }
}

/// Places the relative name `leaf` under the directory `base`.
pub fn join_path(base: &str, leaf: &str) -> (out: String)
    ensures
        out@ == joined(base@, leaf@),
{
    let b = chars_of(base);
    if b.len() == 0 {
        String::from_str(leaf)
    } else if b[b.len() - 1] == '/' {
        join2(base, leaf)
    } else {
        proof {
            reveal_strlit("/");
            assert("/"@ == seq!['/']);
        }
        join3(base, "/", leaf)
    }
}

/// The port on which the bridge of instance `id` listens: the base port for
/// instance one, the next for instance two, and so on, wrapping at the end
/// of the port range.
pub open spec fn adb_port_of(base: u16, id: InstanceId) -> u16 {
    ((base as int + (id % 0x1_0000) as int + 0xffff) % 0x1_0000) as u16
}

/// Computes the bridge port of instance `id`.
pub fn adb_port_for(base: u16, id: InstanceId) -> (port: u16)
    ensures
        port == adb_port_of(base, id),
        1 <= id && base as int + id as int - 1 <= 0xffff ==> port as int == base as int
            + id as int - 1,
{
    let low: u64 = id % 0x1_0000;
    let sum: u64 = base as u64 + low + 0xffff;
    (sum % 0x1_0000) as u16
}

/// The directory of instance `id` under the guest launcher's instance root.
pub open spec fn host_instance_dir_of(config: ConfigView, id: InstanceId) -> Seq<char> {
    joined(config.cuttlefish_instances_dir, decimal(id as nat))
}

/// The directory of instance `id` under the guest launcher's assembly root.
pub open spec fn host_assembly_dir_of(config: ConfigView, id: InstanceId) -> Seq<char> {
    joined(config.cuttlefish_assembly_dir, decimal(id as nat))
}

/// The console log that the guest of instance `id` writes.
pub open spec fn console_log_of(config: ConfigView, id: InstanceId) -> Seq<char> {
    joined(
        joined(joined(host_instance_dir_of(config, id), "instances"@), "cvd-"@
            + decimal(id as nat)),
        "console_log"@,
    )
}

impl CfctlDaemonConfig {
    /// The directory of instance `id` under the guest launcher's instance root.
    pub fn host_instance_dir(&self, id: InstanceId) -> (out: String)
        ensures
            out@ == host_instance_dir_of(self@, id),
    {
        let digits = decimal_string(id);
        join_path(self.cuttlefish_instances_dir.as_str(), digits.as_str())
    }

    /// The directory of instance `id` under the guest launcher's assembly root.
    pub fn host_assembly_dir(&self, id: InstanceId) -> (out: String)
        ensures
            out@ == host_assembly_dir_of(self@, id),
    {
        let digits = decimal_string(id);
        join_path(self.cuttlefish_assembly_dir.as_str(), digits.as_str())
    }

    /// The console log that the guest of instance `id` writes.
    pub fn console_log_path(&self, id: InstanceId) -> (out: String)
        ensures
            out@ == console_log_of(self@, id),
    {
        let digits = decimal_string(id);
        let dir = self.host_instance_dir(id);
        let instances = join_path(dir.as_str(), "instances");
        let name = join2("cvd-", digits.as_str());
        let cvd = join_path(instances.as_str(), name.as_str());
        join_path(cvd.as_str(), "console_log")
    }
}

} // verus!
