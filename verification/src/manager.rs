//! The state that every lifecycle operation works on: the configuration,
//! the metadata cache and the registry of live guest handles.

use vstd::prelude::*;
use crate::config::{join_path, joined, CfctlDaemonConfig, ConfigView};
use crate::guest::GuestRegistry;
use crate::host::{Directive, Effect, HostCall};
use crate::metadata::{
    env_file_of, env_file_text, instance_root_of, metadata_path_of, render_env_file,
    InstanceMetadata, InstancePaths, MetadataCache, MetadataView,
};
use crate::protocol::InstanceId;
use crate::text::{decimal, decimal_string, join2};

verus! {

/// The permission bits of an environment file: owner read and write, group read.
pub const ENV_FILE_MODE: u32 = 0o640;

/// The lifecycle manager of one daemon.
pub struct InstanceManager {
    pub config: CfctlDaemonConfig,
    pub metadata_cache: MetadataCache,
    pub guest_registry: GuestRegistry,
    /// The process id of the daemon, used to name directories on their way out.
    pub daemon_pid: u32,
}

/// The temporary file through which the metadata of `id` is replaced.
pub open spec fn metadata_tmp_of(config: ConfigView, id: InstanceId) -> Seq<char> {
    joined(instance_root_of(config, id), "metadata.json.tmp"@)
}

/// The temporary file through which the environment file of `id` is replaced.
pub open spec fn env_tmp_of(config: ConfigView, id: InstanceId) -> Seq<char> {
    joined(config.etc_instances_dir, decimal(id as nat) + ".tmp"@)
}

/// A record is written through a temporary file that is not the file from
/// which it is read: a reader sees the file as it was before the write or
/// as it is after it, never a part of the write.
pub proof fn lemma_record_is_replaced_not_rewritten(config: ConfigView, id: InstanceId)
    ensures
        metadata_tmp_of(config, id) != metadata_path_of(config, id),
        env_tmp_of(config, id) != crate::metadata::env_file_of(config, id),
{
    reveal_strlit("metadata.json.tmp");
    reveal_strlit("metadata.json");
    reveal_strlit(".tmp");
    reveal_strlit(".env");
    let root = instance_root_of(config, id);
    assert(metadata_tmp_of(config, id).len() == metadata_path_of(config, id).len() + 4);
    let a = env_tmp_of(config, id);
    let b = crate::metadata::env_file_of(config, id);
    assert(a.len() == b.len());
    assert(a[a.len() - 1] == 'p');
    assert(b[b.len() - 1] == 'v');
}

/// Whether `call` asks for the metadata file of `id` to be read.
pub open spec fn asks_read(call: HostCall, config: ConfigView, id: InstanceId) -> bool {
    call matches HostCall::ReadMetadata { id: i, path } && i == id && path@ == metadata_path_of(
        config,
        id,
    )
}

/// Whether `call` asks for the record `m` to be written to the metadata file of `id`.
pub open spec fn asks_write(
    call: HostCall,
    config: ConfigView,
    id: InstanceId,
    m: MetadataView,
) -> bool {
    call matches HostCall::WriteMetadata { path, tmp, metadata } && path@ == metadata_path_of(
        config,
        id,
    ) && tmp@ == metadata_tmp_of(config, id) && metadata@ == m
}

/// Whether `call` asks for the environment file of `id` to be written for
/// the record `m` with the stamp `now`.
pub open spec fn asks_env(
    call: HostCall,
    config: ConfigView,
    id: InstanceId,
    m: MetadataView,
    now: u64,
) -> bool {
    call matches HostCall::WriteText { path, tmp, content, mode } && path@ == env_file_of(
        config,
        id,
    ) && tmp@ == env_tmp_of(config, id) && content@ == env_file_text(m, now) && mode
        == ENV_FILE_MODE
}

/// A directive that asks one question and has no side effects.
pub fn ask(call: HostCall) -> (out: Directive)
    ensures
        out.effects@.len() == 0,
        out.call == call,
{
    Directive { effects: Vec::new(), call }
}

/// A directive that asks one question after the given side effects.
pub fn ask_after(effects: Vec<Effect>, call: HostCall) -> (out: Directive)
    ensures
        out.effects == effects,
        out.call == call,
{
    Directive { effects, call }
}

impl InstanceManager {
    /// A manager with an empty cache over the given registry.
    pub fn new(config: CfctlDaemonConfig, guest_registry: GuestRegistry, daemon_pid: u32) -> (out:
        InstanceManager)
        ensures
            out.config == config,
            out.guest_registry == guest_registry,
            out.daemon_pid == daemon_pid,
            out.metadata_cache@ == Map::<InstanceId, MetadataView>::empty(),
    {
        InstanceManager { config, metadata_cache: MetadataCache::new(), guest_registry, daemon_pid }
    }

    /// The records mirrored in memory.
    pub open spec fn cache(&self) -> Map<InstanceId, MetadataView> {
        self.metadata_cache@
    }

    /// The live handles: instance id to handle token.
    pub open spec fn registry(&self) -> Map<InstanceId, u64> {
        self.guest_registry@
    }

    /// Whether `other` differs from `self` at most in its cache and registry.
    pub open spec fn same_setup(&self, other: &InstanceManager) -> bool {
        self.config == other.config && self.daemon_pid == other.daemon_pid
    }

    /// Where the files of instance `id` live.
    pub fn paths(&self, id: InstanceId) -> (paths: InstancePaths)
        ensures
            paths.id == id,
            paths.root@ == instance_root_of(self.config@, id),
            paths.artifacts@ == joined(instance_root_of(self.config@, id), "artifacts"@),
            paths.metadata@ == metadata_path_of(self.config@, id),
            paths.run_log@ == crate::metadata::run_log_of(self.config@, id),
    {
        InstancePaths::new(&self.config, id)
    }

    /// The question that reads the metadata file of `id`.
    pub fn read_call(&self, id: InstanceId) -> (call: HostCall)
        ensures
            asks_read(call, self.config@, id),
    {
        let paths = self.paths(id);
        HostCall::ReadMetadata { id, path: paths.metadata }
    }

    /// The question that replaces the metadata file of `id` with a record.
    pub fn write_call(&self, id: InstanceId, metadata: &InstanceMetadata) -> (call: HostCall)
        ensures
            asks_write(call, self.config@, id, metadata@),
    {
        let paths = self.paths(id);
        let tmp = join_path(paths.root.as_str(), "metadata.json.tmp");
        HostCall::WriteMetadata { path: paths.metadata, tmp, metadata: metadata.clone() }
    }

    /// The question that replaces the environment file of `id` for a record.
    pub fn env_call(&self, id: InstanceId, metadata: &InstanceMetadata, now: u64) -> (call:
        HostCall)
        ensures
            asks_env(call, self.config@, id, metadata@, now),
    {
        let paths = self.paths(id);
        let digits = decimal_string(id);
        let name = join2(digits.as_str(), ".tmp");
        HostCall::WriteText {
            path: paths.env_file(&self.config),
            tmp: join_path(self.config.etc_instances_dir.as_str(), name.as_str()),
            content: render_env_file(metadata, now),
            mode: ENV_FILE_MODE,
        }
    }

    /// Mirrors a record in the cache as the record of `id`.
    pub fn remember(&mut self, id: InstanceId, metadata: &InstanceMetadata)
        ensures
            final(self).cache() == old(self).cache().insert(id, metadata@),
            final(self).registry() == old(self).registry(),
            final(self).same_setup(old(self)),
    {
        self.metadata_cache.insert(id, metadata.clone());
    }

    /// Drops the record of `id` from the cache.
    pub fn forget(&mut self, id: InstanceId)
        ensures
            final(self).cache() == old(self).cache().remove(id),
            final(self).registry() == old(self).registry(),
            final(self).same_setup(old(self)),
    {
        self.metadata_cache.remove(id);
    }
}

} // verus!
