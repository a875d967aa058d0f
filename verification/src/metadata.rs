//! The durable record of one instance, where it is kept, and the cache
//! that mirrors it in memory.

use vstd::prelude::*;
use std::collections::HashMap;
use crate::config::{join_path, joined, CfctlDaemonConfig, ConfigView};
use crate::protocol::{
    make_serial, serial_of, AdbInfo, AdbInfoView, InstanceId, InstanceState, InstanceSummary,
    InstanceSummaryView,
};
use crate::text::{decimal, decimal_string, join2, join3};

verus! {

/// What is recorded about one instance.
#[derive(Debug)]
pub struct InstanceMetadata {
    pub id: InstanceId,
    pub purpose: Option<String>,
    pub adb_port: u16,
    pub state: InstanceState,
    pub boot_image: String,
    pub init_boot_image: String,
    pub created_at: u64,
    pub updated_at: u64,
    pub held: bool,
}

/// A record with its texts as character sequences.
pub struct MetadataView {
    pub id: InstanceId,
    pub purpose: Option<Seq<char>>,
    pub adb_port: u16,
    pub state: InstanceState,
    pub boot_image: Seq<char>,
    pub init_boot_image: Seq<char>,
    pub created_at: u64,
    pub updated_at: u64,
    pub held: bool,
}

impl View for InstanceMetadata {
    type V = MetadataView;

    open spec fn view(&self) -> MetadataView {
        MetadataView {
            id: self.id,
            purpose: self.purpose.deep_view(),
            adb_port: self.adb_port,
            state: self.state,
            boot_image: self.boot_image@,
            init_boot_image: self.init_boot_image@,
            created_at: self.created_at,
            updated_at: self.updated_at,
            held: self.held,
        }
    }
}

impl MetadataView {
    /// The summary of this record as seen through bridge host `host`.
    pub open spec fn summary(self, host: Seq<char>) -> InstanceSummaryView {
        InstanceSummaryView {
            id: self.id,
            adb: Some(
                AdbInfoView { host, port: self.adb_port, serial: serial_of(host, self.adb_port) },
            ),
            state: self.state,
        }
    }

    /// The same record in another state, touched at `now`.
    pub open spec fn moved_to(self, state: InstanceState, now: u64) -> MetadataView {
        MetadataView { state, updated_at: now, ..self }
    }
}

/// A copy of an optional string.
pub fn copy_opt(text: &Option<String>) -> (out: Option<String>)
    ensures
        out.deep_view() == text.deep_view(),
{
    match text {
        Some(s) => Some(s.clone()),
        None => None,
    }
}

impl Clone for InstanceMetadata {
    fn clone(&self) -> (out: InstanceMetadata)
        ensures
            out@ == self@,
    {
        InstanceMetadata {
            id: self.id,
            purpose: copy_opt(&self.purpose),
            adb_port: self.adb_port,
            state: self.state,
            boot_image: self.boot_image.clone(),
            init_boot_image: self.init_boot_image.clone(),
            created_at: self.created_at,
            updated_at: self.updated_at,
            held: self.held,
        }
    }
}

impl InstanceMetadata {
    /// The summary handed to clients: id, state and the bridge address on `host`.
    pub fn summary(&self, host: &str) -> (out: InstanceSummary)
        ensures
            out@ == self@.summary(host@),
    {
        InstanceSummary {
            id: self.id,
            adb: Some(
                AdbInfo {
                    host: String::from_str(host),
                    port: self.adb_port,
                    serial: make_serial(host, self.adb_port),
                },
            ),
            state: self.state,
        }
    }
}

/// Where the files of one instance live under the state root.
#[derive(Debug)]
pub struct InstancePaths {
    pub id: InstanceId,
    pub root: String,
    pub artifacts: String,
    pub metadata: String,
    pub run_log: String,
}

/// The directory of instance `id` under the state root.
pub open spec fn instance_root_of(config: ConfigView, id: InstanceId) -> Seq<char> {
    joined(joined(config.state_dir, "instances"@), decimal(id as nat))
}

/// The metadata file of instance `id`.
pub open spec fn metadata_path_of(config: ConfigView, id: InstanceId) -> Seq<char> {
    joined(instance_root_of(config, id), "metadata.json"@)
}

/// The captured output of the guest of instance `id`.
pub open spec fn run_log_of(config: ConfigView, id: InstanceId) -> Seq<char> {
    joined(instance_root_of(config, id), "cfctl-run.log"@)
}

/// The environment file that the guest launcher reads for instance `id`.
pub open spec fn env_file_of(config: ConfigView, id: InstanceId) -> Seq<char> {
    joined(config.etc_instances_dir, decimal(id as nat) + ".env"@)
}

impl InstancePaths {
    /// The paths of instance `id` under the state root of `config`.
    pub fn new(config: &CfctlDaemonConfig, id: InstanceId) -> (paths: InstancePaths)
        ensures
            paths.id == id,
            paths.root@ == instance_root_of(config@, id),
            paths.artifacts@ == joined(instance_root_of(config@, id), "artifacts"@),
            paths.metadata@ == metadata_path_of(config@, id),
            paths.run_log@ == run_log_of(config@, id),
    {
        let digits = decimal_string(id);
        let instances = join_path(config.state_dir.as_str(), "instances");
        let root = join_path(instances.as_str(), digits.as_str());
        InstancePaths {
            id,
            artifacts: join_path(root.as_str(), "artifacts"),
            metadata: join_path(root.as_str(), "metadata.json"),
            run_log: join_path(root.as_str(), "cfctl-run.log"),
            root,
        }
    }

    /// The decimal name of the instance, as used for its directory.
    pub fn id_string(&self) -> (out: String)
        ensures
            out@ == decimal(self.id as nat),
    {
        decimal_string(self.id)
    }

    /// The environment file that the guest launcher reads for the instance.
    pub fn env_file(&self, config: &CfctlDaemonConfig) -> (out: String)
        ensures
            out@ == env_file_of(config@, self.id),
    {
        let digits = self.id_string();
        let name = join2(digits.as_str(), ".env");
        join_path(config.etc_instances_dir.as_str(), name.as_str())
    }

    /// The file that captures the output of the guest.
    pub fn run_log_path(&self) -> (out: &String)
        ensures
            out == self.run_log,
    {
        &self.run_log
    }
}

/// The text of the environment file for a record, stamped with `now`.
pub open spec fn env_file_text(m: MetadataView, now: u64) -> Seq<char> {
    "# Autogenerated by cfctl at "@ + decimal(now as nat) + "\nCUTTLEFISH_BOOT_IMAGE="@
        + m.boot_image + "\nCUTTLEFISH_INIT_BOOT_IMAGE="@ + m.init_boot_image
        + "\nCUTTLEFISH_BASE_INSTANCE_NUM="@ + decimal(m.id as nat) + "\nCUTTLEFISH_ADB_TCP_PORT="@
        + decimal(m.adb_port as nat) + "\n"@
}

/// Renders the environment file that the guest launcher consumes.
pub fn render_env_file(metadata: &InstanceMetadata, now: u64) -> (out: String)
    ensures
        out@ == env_file_text(metadata@, now),
{
    let stamp = decimal_string(now);
    let id = decimal_string(metadata.id);
    let port = decimal_string(metadata.adb_port as u64);
    let mut out = join3("# Autogenerated by cfctl at ", stamp.as_str(), "\nCUTTLEFISH_BOOT_IMAGE=");
    out.append(metadata.boot_image.as_str());
    out.append("\nCUTTLEFISH_INIT_BOOT_IMAGE=");
    out.append(metadata.init_boot_image.as_str());
    out.append("\nCUTTLEFISH_BASE_INSTANCE_NUM=");
    out.append(id.as_str());
    out.append("\nCUTTLEFISH_ADB_TCP_PORT=");
    out.append(port.as_str());
    out.append("\n");
    out
}

/// The records currently mirrored in memory, by instance id.
pub struct MetadataCache {
    entries: HashMap<InstanceId, InstanceMetadata>,
}

impl View for MetadataCache {
    type V = Map<InstanceId, MetadataView>;

    closed spec fn view(&self) -> Map<InstanceId, MetadataView> {
        self.entries@.map_values(|m: InstanceMetadata| m@)
    }
}

impl MetadataCache {
    /// An empty cache.
    pub fn new() -> (cache: MetadataCache)
        ensures
            cache@ == Map::<InstanceId, MetadataView>::empty(),
    {
        let cache = MetadataCache { entries: HashMap::new() };
        assert(cache@ =~= Map::<InstanceId, MetadataView>::empty());
        cache
    }

    /// A copy of the record cached for `id`.
    pub fn get(&self, id: InstanceId) -> (found: Option<InstanceMetadata>)
        ensures
            match found {
                Some(m) => self@.contains_key(id) && m@ == self@[id],
                None => !self@.contains_key(id),
            },
    {
        broadcast use vstd::std_specs::hash::group_hash_axioms;

        match self.entries.get(&id) {
            Some(m) => Some(m.clone()),
            None => None,
        }
    }

    /// Caches `metadata` for `id`, replacing what was cached before.
    pub fn insert(&mut self, id: InstanceId, metadata: InstanceMetadata)
        ensures
            final(self)@ == old(self)@.insert(id, metadata@),
    {
        broadcast use vstd::std_specs::hash::group_hash_axioms;

        self.entries.insert(id, metadata);
        assert(self@ =~= old(self)@.insert(id, metadata@));
    }

    /// Forgets what is cached for `id`.
    pub fn remove(&mut self, id: InstanceId)
        ensures
            final(self)@ == old(self)@.remove(id),
    {
        broadcast use vstd::std_specs::hash::group_hash_axioms;

        self.entries.remove(&id);
        assert(self@ =~= old(self)@.remove(id));
    }
}

} // verus!
