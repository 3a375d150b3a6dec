//! Consumer side of the pipeline: the process-lineage state, namespace-aware
//! enrichment, and the dispatch that turns decoded records into the emitted
//! stream. I/O — reading procfs, probing files inside a mount namespace,
//! running the rules engine, writing output — happens outside the library
//! and arrives here as plain values.

use vstd::prelude::*;

use crate::cache::{
    cache_step, fresh_digests, hashes_eqv, key_eqv, probe_outcome, CacheKey, FileProbe, HashCache,
    Hashes,
    NsCache,
};
use crate::config::Config;
use crate::containers::Container;
use crate::digests::{spec_uuid_hyphenated, uuid_hyphenated};
use crate::dns::ResolvedMap;
use crate::events::{
    opt_str_eqv, CorrelationData, DnsAnswer, DnsResponse, Event, EventData, EventInfo, EventType,
    Ip, TaskKey, PF_KTHREAD,
};
use crate::output::StdEventInfo;
use crate::task::{Task, TaskTable};
use crate::text::{clone_opt_string, clone_strings, join_strings, spec_join};

verus! {

/// Host identity the consumer stamps into every record.
#[derive(Debug)]
pub struct SystemInfo {
    pub host_uuid: u128,
    pub hostname: String,
    /// The daemon's own mount namespace.
    pub mount_ns: u32,
}

impl SystemInfo {
    /// The same identity under the given host uuid.
    pub fn with_host_uuid(self, uuid: u128) -> (r: SystemInfo)
        ensures
            r.host_uuid == uuid,
            r.hostname == self.hostname,
            r.mount_ns == self.mount_ns,
    {
        SystemInfo { host_uuid: uuid, ..self }
    }
}

/// Startup failures of the consumer.
#[derive(Debug, PartialEq, Eq, Structural, Clone, Copy)]
pub enum ConsumerError {
    /// The configuration carries no host uuid; startup must fail.
    MissingHostUuid,
}

impl ConsumerError {
    pub fn message(&self) -> (r: String)
        ensures
            r@ == "failed to read host_uuid"@,
    {
        String::from_str("failed to read host_uuid")
    }
}

/// One process as enumerated from procfs at startup, as plain values.
#[derive(Debug)]
pub struct ProcSnap {
    pub pid: i32,
    pub uuid: u128,
    pub parent: Option<TaskKey>,
    pub flags: u32,
    pub exe: Option<String>,
    pub cmdline: Option<Vec<String>>,
    pub cgroups: Vec<String>,
}

impl ProcSnap {
    pub open spec fn spec_key(self) -> TaskKey {
        TaskKey { tgid: self.pid, uuid: self.uuid }
    }

    pub fn key(&self) -> (r: TaskKey)
        ensures
            r == self.spec_key(),
    {
        TaskKey { tgid: self.pid, uuid: self.uuid }
    }
}

/// Consumer state: lineage table, digest cache, resolution maps, loaded
/// indicators, and host identity.
#[derive(Debug)]
pub struct EventConsumer {
    pub system_info: SystemInfo,
    /// Whether the rules engine, run outside the library, holds no rules.
    pub engine_empty: bool,
    /// Loaded indicators of compromise.
    pub iocs: Vec<String>,
    /// Per-run nonce salted into record uuids.
    pub random: u32,
    /// The daemon's own pid; its events are skipped.
    pub self_pid: u32,
    pub ns_cache: NsCache,
    pub cache: HashCache,
    pub tasks: TaskTable,
    /// Global resolution map; tasks carry their own local one.
    pub resolved: ResolvedMap,
}

impl EventConsumer {
    pub open spec fn wf(self) -> bool {
        self.tasks.wf() && self.resolved.wf() && self.cache.wf()
    }

    /// Builds the consumer. The host uuid is required: a configuration
    /// without one is rejected.
    pub fn with_config(config: &Config, system_info: SystemInfo, random: u32, self_pid: u32) -> (r:
        Result<EventConsumer, ConsumerError>)
        ensures
            r is Ok <==> config.host_uuid is Some,
            r matches Err(e) ==> e == ConsumerError::MissingHostUuid,
            r matches Ok(c) ==> {
                &&& c.wf()
                &&& config.host_uuid matches Some(u) && c.system_info.host_uuid == u
                &&& c.system_info.hostname == system_info.hostname
                &&& c.system_info.mount_ns == system_info.mount_ns
                &&& c.engine_empty
                &&& c.iocs@.len() == 0
                &&& c.random == random
                &&& c.self_pid == self_pid
                &&& c.cache.spec_capacity() == 10000
                &&& c.cache.spec_len() == 0
                &&& c.tasks.spec_len() == 0
                &&& forall|k: TaskKey| c.tasks.spec_get(k) is None
                &&& forall|ip: Ip| c.resolved.spec_get(ip) is None
            },
    {
        match config.host_uuid {
            None => Err(ConsumerError::MissingHostUuid),
            Some(u) => Ok(
                EventConsumer {
                    system_info: system_info.with_host_uuid(u),
                    engine_empty: true,
                    iocs: Vec::new(),
                    random,
                    self_pid,
                    ns_cache: NsCache::new(),
                    cache: HashCache::with_max_entries(10000),
                    tasks: TaskTable::new(),
                    resolved: ResolvedMap::new(),
                },
            ),
        }
    }

    /// Records that the rules engine was loaded with at least one rule.
    pub fn set_engine_loaded(&mut self)
        ensures
            !final(self).engine_empty,
            final(self).system_info == old(self).system_info,
            final(self).iocs == old(self).iocs,
            final(self).tasks == old(self).tasks,
            final(self).resolved == old(self).resolved,
            final(self).cache == old(self).cache,
    {
        self.engine_empty = false;
    }

    /// Adds indicator values read from an indicator file.
    pub fn load_iocs(&mut self, values: Vec<String>)
        ensures
            final(self).iocs@ == old(self).iocs@ + values@,
            final(self).system_info == old(self).system_info,
            final(self).engine_empty == old(self).engine_empty,
            final(self).tasks == old(self).tasks,
            final(self).resolved == old(self).resolved,
            final(self).cache == old(self).cache,
    {
        let mut values = values;
        let ghost target = self.iocs@ + values@;
        while values.len() > 0
            invariant
                self.iocs@ + values@ == target,
                self.system_info == old(self).system_info,
                self.engine_empty == old(self).engine_empty,
                self.tasks == old(self).tasks,
                self.resolved == old(self).resolved,
                self.cache == old(self).cache,
            decreases values@.len(),
        {
            let ghost i0 = self.iocs@;
            let ghost v0 = values@;
            let v = values.remove(0);
            self.iocs.push(v);
            proof {
                assert(self.iocs@ + values@ =~= i0 + v0);
            }
        }
        proof {
            assert(self.iocs@ =~= self.iocs@ + values@);
        }
    }

    /// Inserts a lineage record for one enumerated process, unless one
    /// already exists. Kernel threads are recorded under the image `kernel`;
    /// a missing executable or command line becomes `?`.
    pub fn set_task_from_procfs(&mut self, p: &ProcSnap)
        requires
            old(self).wf(),
        ensures
            final(self).wf(),
            final(self).system_info == old(self).system_info,
            final(self).iocs == old(self).iocs,
            final(self).engine_empty == old(self).engine_empty,
            final(self).cache == old(self).cache,
            final(self).resolved == old(self).resolved,
            old(self).tasks.spec_get(p.spec_key()) is Some ==> final(self).tasks == old(
                self,
            ).tasks,
            old(self).tasks.spec_get(p.spec_key()) is None ==> (final(self).tasks.spec_get(
                p.spec_key(),
            ) matches Some(t) && {
                &&& t.image@ == (if p.flags & PF_KTHREAD == PF_KTHREAD {
                    "kernel"@
                } else {
                    match p.exe {
                        Some(e) => e@,
                        None => "?"@,
                    }
                })
                &&& t.command_line@.map_values(|s: String| s@) == (match p.cmdline {
                    Some(c) => c@.map_values(|s: String| s@),
                    None => seq!["?"@],
                })
                &&& t.pid == p.pid
                &&& t.flags == p.flags
                &&& t.container is None
                &&& t.cgroups@.map_values(|s: String| s@) == p.cgroups@.map_values(|s: String| s@)
                &&& t.nodename is None
                &&& t.parent_key == p.parent
                &&& forall|ip: Ip| t.resolved.spec_get(ip) is None
            }),
            forall|k2: TaskKey|
                k2 != p.spec_key() ==> final(self).tasks.spec_get(k2) == old(self).tasks.spec_get(
                    k2,
                ),
    {
        let tk = p.key();
        if self.tasks.contains(tk) {
            return ;
        }
        let image = if p.flags & PF_KTHREAD == PF_KTHREAD {
            String::from_str("kernel")
        } else {
            match &p.exe {
                Some(e) => e.clone(),
                None => String::from_str("?"),
            }
        };
        let command_line = match &p.cmdline {
            Some(c) => clone_strings(c),
            None => {
                let mut v: Vec<String> = Vec::new();
                v.push(String::from_str("?"));
                proof {
                    assert(v@.map_values(|s: String| s@) =~= seq!["?"@]);
                }
                v
            },
        };
        let task = Task {
            image,
            command_line,
            pid: p.pid,
            flags: p.flags,
            resolved: ResolvedMap::new(),
            container: None,
            cgroups: clone_strings(&p.cgroups),
            nodename: None,
            parent_key: p.parent,
        };
        self.tasks.insert_if_absent(tk, task);
    }

    /// Seeds the lineage table from a procfs enumeration and then resolves
    /// container identity, from each task's cgroups first and from its
    /// ancestors' images second.
    pub fn init_tasks_from_procfs(&mut self, snapshot: &Vec<ProcSnap>)
        requires
            old(self).wf(),
        ensures
            final(self).wf(),
            final(self).system_info == old(self).system_info,
            final(self).iocs == old(self).iocs,
            final(self).engine_empty == old(self).engine_empty,
            forall|i: int|
                0 <= i < snapshot@.len() ==> final(self).tasks.spec_get(
                    (#[trigger] snapshot@[i]).spec_key(),
                ) is Some,
            // a task whose own cgroups name a runtime carries that runtime
            forall|i: int|
                0 <= i < snapshot@.len() && (#[trigger] snapshot@[i]).parent is Some
                    ==> match final(self).tasks.spec_get(snapshot@[i].spec_key()) {
                    Some(t) => Container::spec_from_cgroups(
                        t.cgroups@.map_values(|s: String| s@),
                    ) matches Some(c) ==> t.container == Some(c),
                    None => false,
                },
    {
        let n = snapshot.len();
        for i in 0..n
            invariant
                n == snapshot@.len(),
                self.wf(),
                self.system_info == old(self).system_info,
                self.iocs == old(self).iocs,
                self.engine_empty == old(self).engine_empty,
                forall|j: int|
                    0 <= j < i ==> self.tasks.spec_get(
                        (#[trigger] snapshot@[j]).spec_key(),
                    ) is Some,
        {
            self.set_task_from_procfs(&snapshot[i]);
        }
        for i in 0..n
            invariant
                n == snapshot@.len(),
                self.wf(),
                self.system_info == old(self).system_info,
                self.iocs == old(self).iocs,
                self.engine_empty == old(self).engine_empty,
                forall|j: int|
                    0 <= j < n ==> self.tasks.spec_get(
                        (#[trigger] snapshot@[j]).spec_key(),
                    ) is Some,
                forall|j: int|
                    0 <= j < i && (#[trigger] snapshot@[j]).parent is Some
                        ==> match self.tasks.spec_get(snapshot@[j].spec_key()) {
                        Some(t) => Container::spec_from_cgroups(
                            t.cgroups@.map_values(|s: String| s@),
                        ) matches Some(c) ==> t.container == Some(c),
                        None => false,
                    },
        {
            let tk = snapshot[i].key();
            match snapshot[i].parent {
                Some(parent) => {
                    let from_cg = match self.tasks.cgroups_of(tk) {
                        Some(cgroups) => Container::from_cgroups(&cgroups),
                        None => None,
                    };
                    match from_cg {
                        Some(c) => {
                            self.tasks.set_container(tk, Some(c));
                        },
                        None => {
                            let ancestors = self.tasks.get_ancestors(parent);
                            match Container::from_ancestors(&ancestors) {
                                Some(c) => {
                                    self.tasks.set_container(tk, Some(c));
                                },
                                None => {},
                            }
                        },
                    }
                },
                None => {},
            }
        }
    }

    /// The image of the task, or `?` when it is unknown.
    pub open spec fn spec_exe(self, k: TaskKey) -> Seq<char> {
        match self.tasks.spec_get(k) {
            Some(t) => t.image@,
            None => "?"@,
        }
    }

    /// See [`Self::spec_exe`].
    pub fn get_exe(&self, key: TaskKey) -> (r: String)
        requires
            self.wf(),
        ensures
            r@ == self.spec_exe(key),
    {
        match self.tasks.image_of(key) {
            Some(s) => s,
            None => String::from_str("?"),
        }
    }

    /// The command line of the task, or `?` when it is unknown.
    pub open spec fn spec_command_line(self, k: TaskKey) -> Seq<char> {
        match self.tasks.spec_get(k) {
            Some(t) => t.spec_command_line(),
            None => "?"@,
        }
    }

    /// See [`Self::spec_command_line`].
    pub fn get_command_line(&self, key: TaskKey) -> (r: String)
        requires
            self.wf(),
        ensures
            r@ == self.spec_command_line(key),
    {
        match self.tasks.cmdline_of(key) {
            Some(s) => s,
            None => String::from_str("?"),
        }
    }

    /// Image and command line of the record's own task.
    pub fn get_exe_and_command_line(&self, i: &StdEventInfo) -> (r: (String, String))
        requires
            self.wf(),
        ensures
            r.0@ == self.spec_exe(i.spec_task_key()),
            r.1@ == self.spec_command_line(i.spec_task_key()),
    {
        let ck = i.task_key();
        (self.get_exe(ck), self.get_command_line(ck))
    }

    /// The ancestor images joined by `|`, root first.
    pub open spec fn spec_ancestors_string(self, k: TaskKey) -> Seq<char> {
        spec_join(self.tasks.spec_ancestors(k, 128), "|"@)
    }

    /// See [`Self::spec_ancestors_string`].
    pub fn get_ancestors_string(&self, i: &StdEventInfo) -> (r: String)
        requires
            self.wf(),
        ensures
            r@ == self.spec_ancestors_string(i.spec_parent_key()),
    {
        let ancestors = self.tasks.get_ancestors(i.parent_key());
        join_strings(&ancestors, "|")
    }

    /// The parent task's image, or `?` when it is unknown.
    pub fn get_parent_image(&self, i: &StdEventInfo) -> (r: String)
        requires
            self.wf(),
        ensures
            r@ == self.spec_exe(i.spec_parent_key()),
    {
        self.get_exe(i.parent_key())
    }

    /// Records a resolution in the task's own map and in the global map;
    /// last write wins in both.
    pub fn update_resolved(&mut self, ip: Ip, resolved: &str, i: &StdEventInfo)
        requires
            old(self).wf(),
        ensures
            final(self).wf(),
            final(self).system_info == old(self).system_info,
            final(self).iocs == old(self).iocs,
            final(self).engine_empty == old(self).engine_empty,
            final(self).cache == old(self).cache,
            final(self).random == old(self).random,
            final(self).self_pid == old(self).self_pid,
            final(self).ns_cache == old(self).ns_cache,
            final(self).resolved.spec_get(ip) matches Some(v) && v@ == resolved@,
            forall|ip2: Ip|
                ip2 != ip ==> final(self).resolved.spec_get(ip2) == old(self).resolved.spec_get(
                    ip2,
                ),
            ({
                let ck = i.spec_task_key();
                match old(self).tasks.spec_get(ck) {
                    None => final(self).tasks.spec_get(ck) is None,
                    Some(t) => final(self).tasks.spec_get(ck) matches Some(t2) && t2.image
                        == t.image && t2.command_line == t.command_line && t2.pid == t.pid
                        && t2.flags == t.flags && t2.container == t.container && t2.cgroups
                        == t.cgroups && t2.nodename == t.nodename && t2.parent_key
                        == t.parent_key && (t2.resolved.spec_get(ip) matches Some(v) && v@
                        == resolved@) && forall|ip2: Ip|
                        ip2 != ip ==> t2.resolved.spec_get(ip2) == t.resolved.spec_get(ip2),
                }
            }),
            forall|k2: TaskKey|
                k2 != i.spec_task_key() ==> final(self).tasks.spec_get(k2) == old(
                    self,
                ).tasks.spec_get(k2),
    {
        let ck = i.task_key();
        let local = resolved.to_owned();
        self.tasks.update_resolved(ck, ip, local);
        let global = resolved.to_owned();
        self.resolved.update(ip, global);
    }

    /// The name the task itself resolved for the address, else the globally
    /// resolved name, else `?`.
    pub open spec fn spec_resolved(self, ip: Ip, ck: TaskKey) -> Seq<char> {
        match self.tasks.spec_get(ck) {
            Some(t) if t.resolved.spec_get(ip) is Some => t.resolved.spec_get(ip)->Some_0@,
            _ => match self.resolved.spec_get(ip) {
                Some(v) => v@,
                None => "?"@,
            },
        }
    }

    /// See [`Self::spec_resolved`].
    pub fn get_resolved(&self, ip: Ip, i: &StdEventInfo) -> (r: String)
        requires
            self.wf(),
        ensures
            r@ == self.spec_resolved(ip, i.spec_task_key()),
    {
        let ck = i.task_key();
        match self.tasks.resolved_of(ck, ip) {
            Some(v) => v,
            None => match self.resolved.get(ip) {
                Some(v) => v.clone(),
                None => String::from_str("?"),
            },
        }
    }

    /// The mount namespace recorded in a record's header, if any.
    pub fn task_mnt_ns(ei: &EventInfo) -> (r: Option<u32>)
        ensures
            r == ei.process.mnt_ns,
    {
        ei.process.mnt_ns
    }

    /// Digests of a file in the task's mount namespace: an unknown namespace
    /// yields an error record; otherwise the cache answers, computing from
    /// the probe on a miss.
    pub fn get_hashes_with_ns(&mut self, ns: Option<u32>, path: &String, probe: &FileProbe) -> (r:
        Hashes)
        requires
            old(self).wf(),
        ensures
            final(self).wf(),
            final(self).system_info == old(self).system_info,
            final(self).iocs == old(self).iocs,
            final(self).engine_empty == old(self).engine_empty,
            final(self).tasks == old(self).tasks,
            final(self).resolved == old(self).resolved,
            final(self).random == old(self).random,
            final(self).self_pid == old(self).self_pid,
            final(self).ns_cache == old(self).ns_cache,
            final(self).cache.spec_capacity() == old(self).cache.spec_capacity(),
            match ns {
                None => r.file@ == path@ && (r.error matches Some(e) && e@
                    == "unknown namespace"@) && final(self).cache == old(self).cache,
                Some(n) => cache_step(old(self).cache, final(self).cache, n, *path, *probe, r),
            },
    {
        match ns {
            Some(n) => self.cache.get_or_cache_in_ns(n, path, probe),
            None => Hashes {
                file: path.clone(),
                md5: String::new(),
                sha1: String::new(),
                sha256: String::new(),
                sha512: String::new(),
                size: 0,
                error: Some(String::from_str("unknown namespace")),
            },
        }
    }
}

impl EventConsumer {
    /// Builds the header of an emitted record: host identity, the salted
    /// record uuid, and container identity when the record's mount namespace
    /// differs from the daemon's own.
    pub fn build_std_event_info(&self, i: EventInfo) -> (r: StdEventInfo)
        requires
            self.wf(),
        ensures
            r.info == i,
            r.host_name@ == self.system_info.hostname@,
            r.host_uuid@ == spec_uuid_hyphenated(self.system_info.host_uuid),
            r.event_uuid@ == spec_uuid_hyphenated(spec_salted_uuid(i.process.tg_uuid, self.random)),
            ({
                let ck = i.process.spec_task_key();
                match i.process.mnt_ns {
                    Some(ns) if ns != self.system_info.mount_ns => {
                        &&& r.container_name matches Some(n) && n@ == (
                        match self.tasks.spec_get(ck) {
                            Some(t) => match t.nodename {
                                Some(nn) => nn@,
                                None => "?"@,
                            },
                            None => "?"@,
                        })
                        &&& r.container_type == (match self.tasks.spec_get(ck) {
                            Some(t) => t.container,
                            None => None,
                        })
                    },
                    _ => r.container_name is None && r.container_type is None,
                }
            }),
    {
        let ck = i.process.task_key();
        let mut container_name: Option<String> = None;
        let mut container_type: Option<Container> = None;
        match i.process.mnt_ns {
            Some(ns) => {
                if ns != self.system_info.mount_ns {
                    container_name = match self.tasks.nodename_of(ck) {
                        Some(n) => Some(n),
                        None => Some(String::from_str("?")),
                    };
                    container_type = self.tasks.container_of(ck);
                }
            },
            None => {},
        }
        StdEventInfo {
            info: i,
            host_name: self.system_info.hostname.clone(),
            host_uuid: uuid_hyphenated(self.system_info.host_uuid),
            event_uuid: uuid_hyphenated(salted_uuid(i.process.tg_uuid, self.random)),
            container_name,
            container_type,
        }
    }

    /// Applies a correlation record to the lineage table. An execve-origin
    /// correlation replaces any prior record for the task. A known task only
    /// has its nodename filled when missing. A new task is recorded with its
    /// cgroups (falling back to the procfs-read ones when the probe-side
    /// parse failed), its container identity, and the image `kernel` for
    /// kernel threads.
    pub fn handle_correlation_event(&mut self, info: &StdEventInfo, cd: &CorrelationData,
        procfs_cgroups: Option<&Vec<String>>)
        requires
            old(self).wf(),
        ensures
            final(self).wf(),
            final(self).system_info == old(self).system_info,
            final(self).iocs == old(self).iocs,
            final(self).engine_empty == old(self).engine_empty,
            final(self).cache == old(self).cache,
            final(self).resolved == old(self).resolved,
            final(self).random == old(self).random,
            final(self).self_pid == old(self).self_pid,
            final(self).ns_cache == old(self).ns_cache,
            forall|k2: TaskKey|
                k2 != info.spec_task_key() ==> final(self).tasks.spec_get(k2) == old(
                    self,
                ).tasks.spec_get(k2),
            ({
                let ck = info.spec_task_key();
                let exec_origin = cd.origin is Execve || cd.origin is ExecveScript;
                let prior = old(self).tasks.spec_get(ck);
                if !exec_origin && prior is Some {
                    final(self).tasks.spec_get(ck) matches Some(t2) && prior matches Some(t) && {
                        &&& t2.image == t.image
                        &&& t2.command_line == t.command_line
                        &&& t2.pid == t.pid
                        &&& t2.flags == t.flags
                        &&& t2.resolved == t.resolved
                        &&& t2.container == t.container
                        &&& t2.cgroups == t.cgroups
                        &&& t2.parent_key == t.parent_key
                        &&& (if t.nodename is Some {
                            t2.nodename == t.nodename
                        } else {
                            opt_str_eqv(t2.nodename, cd.nodename)
                        })
                    }
                } else {
                    final(self).tasks.spec_get(ck) matches Some(t) && {
                        &&& t.image@ == (if info.info.process.spec_is_kernel_thread() {
                            "kernel"@
                        } else {
                            cd.exe@
                        })
                        &&& t.command_line@.map_values(|s: String| s@) == cd.argv@.map_values(
                            |s: String| s@,
                        )
                        &&& t.pid == info.info.process.tgid
                        &&& t.flags == info.info.process.flags
                        &&& forall|ip: Ip| t.resolved.spec_get(ip) is None
                        &&& t.cgroups@.map_values(|s: String| s@) == (if cd.cgroup.error is None {
                            seq![cd.cgroup.path@]
                        } else {
                            match procfs_cgroups {
                                Some(v) => v@.map_values(|s: String| s@),
                                None => seq![cd.cgroup.path@],
                            }
                        })
                        &&& opt_str_eqv(t.nodename, cd.nodename)
                        &&& t.parent_key == Some(info.spec_parent_key())
                    }
                }
            }),
    {
        let ck = info.task_key();
        if matches!(cd.origin, EventType::Execve | EventType::ExecveScript) {
            self.tasks.remove(ck);
        }
        if self.tasks.contains(ck) {
            self.tasks.set_nodename_if_missing(ck, clone_opt_string(&cd.nodename));
            return ;
        }
        let cgroups: Vec<String> = if cd.cgroup.error.is_none() {
            let mut v: Vec<String> = Vec::new();
            v.push(cd.cgroup.path.clone());
            proof {
                assert(v@.map_values(|s: String| s@) =~= seq![cd.cgroup.path@]);
            }
            v
        } else {
            match procfs_cgroups {
                Some(v) => clone_strings(v),
                None => {
                    let mut v: Vec<String> = Vec::new();
                    v.push(cd.cgroup.path.clone());
                    proof {
                        assert(v@.map_values(|s: String| s@) =~= seq![cd.cgroup.path@]);
                    }
                    v
                },
            }
        };
        let mut container_type = Container::from_cgroups(&cgroups);
        if container_type.is_none() {
            let ancestors = self.tasks.get_ancestors(info.parent_key());
            container_type = Container::from_ancestors(&ancestors);
        }
        let image = if info.info.process.is_kernel_thread() {
            String::from_str("kernel")
        } else {
            cd.exe.clone()
        };
        let task = Task {
            image,
            command_line: clone_strings(&cd.argv),
            pid: info.info.process.tgid,
            flags: info.info.process.flags,
            resolved: ResolvedMap::new(),
            container: container_type,
            cgroups,
            nodename: clone_opt_string(&cd.nodename),
            parent_key: Some(info.parent_key()),
        };
        self.tasks.insert_if_absent(ck, task);
    }
}

/// The resolutions one answer section contributes, in answer order: one
/// `(address, question)` pair per address literal among the first `j`
/// answers.
pub open spec fn spec_answer_updates_upto(answers: Seq<DnsAnswer>, q: Seq<char>) -> Seq<
    (Ip, Seq<char>),
>
    decreases answers.len(),
{
    if answers.len() == 0 {
        Seq::empty()
    } else {
        spec_answer_updates_upto(answers.drop_last(), q) + (match answers.last().ip {
            Some(a) => seq![(a, q)],
            None => Seq::empty(),
        })
    }
}

/// The resolutions a DNS event contributes, in answer order.
pub open spec fn spec_dns_updates(responses: Seq<DnsResponse>) -> Seq<(Ip, Seq<char>)>
    decreases responses.len(),
{
    if responses.len() == 0 {
        Seq::empty()
    } else {
        spec_dns_updates(responses.drop_last()) + spec_answer_updates_upto(
            responses.last().answers@,
            responses.last().question@,
        )
    }
}

/// The last name written for an address, if any: later writes win.
pub open spec fn spec_last_update(us: Seq<(Ip, Seq<char>)>, ip: Ip) -> Option<Seq<char>>
    decreases us.len(),
{
    if us.len() == 0 {
        None
    } else if us.last().0 == ip {
        Some(us.last().1)
    } else {
        spec_last_update(us.drop_last(), ip)
    }
}

impl EventConsumer {
    /// Everything but the lineage table, the resolution maps and the digest
    /// cache is untouched.
    pub open spec fn frame(pre: EventConsumer, post: EventConsumer) -> bool {
        &&& post.system_info == pre.system_info
        &&& post.engine_empty == pre.engine_empty
        &&& post.iocs == pre.iocs
        &&& post.random == pre.random
        &&& post.self_pid == pre.self_pid
        &&& post.cache.spec_capacity() == pre.cache.spec_capacity()
    }

    /// Builds an execve record: lineage context, parent image, command line,
    /// and the digests of the executable, plus those of the interpreter when
    /// it differs.
    pub fn execve_event(&mut self, info: &StdEventInfo, executable: &String, interpreter: &String,
        argv: &Vec<String>, exe_probe: &FileProbe, interp_probe: &FileProbe) -> (d:
        crate::output::ExecveData)
        requires
            old(self).wf(),
        ensures
            final(self).wf(),
            Self::frame(*old(self), *final(self)),
            final(self).tasks == old(self).tasks,
            final(self).resolved == old(self).resolved,
            d.ancestors@ == old(self).spec_ancestors_string(info.spec_parent_key()),
            d.parent_exe@ == old(self).spec_exe(info.spec_parent_key()),
            d.command_line@ == spec_join(argv@.map_values(|s: String| s@), " "@),
            match info.info.process.mnt_ns {
                None => d.exe.file@ == executable@ && (d.exe.error matches Some(e) && e@
                    == "unknown namespace"@),
                Some(n) => probe_outcome(old(self).cache, n, *executable, *exe_probe, d.exe),
            },
            (interpreter@ != executable@) <==> d.interpreter is Some,
            d.interpreter matches Some(h) ==> match info.info.process.mnt_ns {
                None => h.file@ == interpreter@ && (h.error matches Some(e) && e@
                    == "unknown namespace"@),
                Some(n) => match *interp_probe {
                    FileProbe::Failed { error } => h.file@ == interpreter@ && (h.error
                        matches Some(e) && e@ == error@),
                    FileProbe::Found { inode, size, mtime, content } => {
                        let key = CacheKey { mnt_ns: n, path: *interpreter, inode, size, mtime };
                        match old(self).cache.spec_get(key) {
                            // the stored digests come back, unless caching the
                            // executable evicted this entry and they were
                            // recomputed from the probed content
                            Some(h0) => hashes_eqv(h, h0) || fresh_digests(
                                *interpreter,
                                size,
                                content,
                                h,
                            ),
                            None => fresh_digests(*interpreter, size, content, h),
                        }
                    },
                },
            },
    {
        let ancestors = self.get_ancestors_string(info);
        let parent_exe = self.get_parent_image(info);
        let command_line = join_strings(argv, " ");
        let opt_mnt_ns = Self::task_mnt_ns(&info.info);
        let exe = self.get_hashes_with_ns(opt_mnt_ns, executable, exe_probe);
        let ghost mid = self.cache;
        let interpreter_hashes = if !crate::text::str_eq(
            interpreter.as_str(),
            executable.as_str(),
        ) {
            let h = self.get_hashes_with_ns(opt_mnt_ns, interpreter, interp_probe);
            proof {
                // the executable's own cache step can at most have evicted the
                // interpreter's entry: their keys differ by path
                match info.info.process.mnt_ns {
                    Some(n) => {
                        match *interp_probe {
                            FileProbe::Found { inode, size, mtime, .. } => {
                                let ikey = CacheKey {
                                    mnt_ns: n,
                                    path: *interpreter,
                                    inode,
                                    size,
                                    mtime,
                                };
                                match *exe_probe {
                                    FileProbe::Found {
                                        inode: ei,
                                        size: es,
                                        mtime: em,
                                        ..
                                    } => {
                                        let ekey = CacheKey {
                                            mnt_ns: n,
                                            path: *executable,
                                            inode: ei,
                                            size: es,
                                            mtime: em,
                                        };
                                        assert(!key_eqv(ekey, ikey));
                                        old(self).cache.lemma_wf_len();
                                        assert(mid.spec_get(ikey) == old(self).cache.spec_get(
                                            ikey,
                                        ) || mid.spec_get(ikey) is None);
                                    },
                                    FileProbe::Failed { .. } => {
                                        assert(mid == old(self).cache);
                                    },
                                }
                            },
                            FileProbe::Failed { .. } => {},
                        }
                    },
                    None => {},
                }
            }
            Some(h)
        } else {
            None
        };
        crate::output::ExecveData {
            ancestors,
            parent_exe,
            command_line,
            exe,
            interpreter: interpreter_hashes,
        }
    }

    /// Builds a clone record.
    pub fn clone_event(&self, info: &StdEventInfo, executable: &String, argv: &Vec<String>,
        flags: u64) -> (d: crate::output::CloneData)
        requires
            self.wf(),
        ensures
            d.ancestors@ == self.spec_ancestors_string(info.spec_parent_key()),
            d.exe@ == executable@,
            d.command_line@ == spec_join(argv@.map_values(|s: String| s@), " "@),
            d.flags == flags,
    {
        crate::output::CloneData {
            ancestors: self.get_ancestors_string(info),
            exe: executable.clone(),
            command_line: join_strings(argv, " "),
            flags,
        }
    }

    /// Builds a prctl record; the option number is named where known.
    pub fn prctl_event(&self, info: &StdEventInfo, option: u64, arg2: u64, arg3: u64, arg4: u64,
        arg5: u64, success: bool) -> (d: crate::output::PrctlData)
        requires
            self.wf(),
        ensures
            d.ancestors@ == self.spec_ancestors_string(info.spec_parent_key()),
            d.exe@ == self.spec_exe(info.spec_task_key()),
            d.command_line@ == self.spec_command_line(info.spec_task_key()),
            d.option@ == spec_prctl_option_name(option),
            d.arg2 == arg2 && d.arg3 == arg3 && d.arg4 == arg4 && d.arg5 == arg5,
            d.success == success,
    {
        let (exe, command_line) = self.get_exe_and_command_line(info);
        crate::output::PrctlData {
            ancestors: self.get_ancestors_string(info),
            exe,
            command_line,
            option: prctl_option_name(option),
            arg2,
            arg3,
            arg4,
            arg5,
            success,
        }
    }

    /// Builds an executable-mapping record with the digests of the mapped
    /// file.
    pub fn mmap_exec_event(&mut self, info: &StdEventInfo, filename: &String, probe: &FileProbe)
        -> (d: crate::output::MmapExecData)
        requires
            old(self).wf(),
        ensures
            final(self).wf(),
            Self::frame(*old(self), *final(self)),
            final(self).tasks == old(self).tasks,
            final(self).resolved == old(self).resolved,
            d.ancestors@ == old(self).spec_ancestors_string(info.spec_parent_key()),
            d.exe@ == old(self).spec_exe(info.spec_task_key()),
            d.command_line@ == old(self).spec_command_line(info.spec_task_key()),
            match info.info.process.mnt_ns {
                None => d.mapped.file@ == filename@ && (d.mapped.error matches Some(e) && e@
                    == "unknown namespace"@),
                Some(n) => cache_step(
                    old(self).cache,
                    final(self).cache,
                    n,
                    *filename,
                    *probe,
                    d.mapped,
                ),
            },
    {
        let opt_mnt_ns = Self::task_mnt_ns(&info.info);
        let mapped = self.get_hashes_with_ns(opt_mnt_ns, filename, probe);
        let ck = info.task_key();
        crate::output::MmapExecData {
            ancestors: self.get_ancestors_string(info),
            command_line: self.get_command_line(ck),
            exe: self.get_exe(ck),
            mapped,
        }
    }

    /// Builds a read/write record.
    pub fn rw_event(&self, info: &StdEventInfo, path: &String) -> (d: crate::output::RWData)
        requires
            self.wf(),
        ensures
            d.ancestors@ == self.spec_ancestors_string(info.spec_parent_key()),
            d.exe@ == self.spec_exe(info.spec_task_key()),
            d.command_line@ == self.spec_command_line(info.spec_task_key()),
            d.path@ == path@,
    {
        let (exe, command_line) = self.get_exe_and_command_line(info);
        crate::output::RWData {
            ancestors: self.get_ancestors_string(info),
            command_line,
            exe,
            path: path.clone(),
        }
    }

    /// Builds an unlink record.
    pub fn unlink_event(&self, info: &StdEventInfo, path: &String, success: bool) -> (d:
        crate::output::UnlinkData)
        requires
            self.wf(),
        ensures
            d.ancestors@ == self.spec_ancestors_string(info.spec_parent_key()),
            d.exe@ == self.spec_exe(info.spec_task_key()),
            d.command_line@ == self.spec_command_line(info.spec_task_key()),
            d.path@ == path@,
            d.success == success,
    {
        let (exe, command_line) = self.get_exe_and_command_line(info);
        crate::output::UnlinkData {
            ancestors: self.get_ancestors_string(info),
            command_line,
            exe,
            path: path.clone(),
            success,
        }
    }

    /// Builds a program-load record: the program tag in hex, the digests the
    /// producer computed from the dumped instructions, `?` where the dump was
    /// unavailable.
    pub fn bpf_prog_load_event(&self, info: &StdEventInfo, id: u32, prog_type: u32, tag: &Vec<u8>,
        attached_func: &String, name: &String, ksym: &String, verified_insns: u32, loaded: bool,
        hashes: &Option<crate::events::ProgHashes>) -> (d: crate::output::BpfProgLoadData)
        requires
            self.wf(),
        ensures
            d.ancestors@ == self.spec_ancestors_string(info.spec_parent_key()),
            d.exe@ == self.spec_exe(info.spec_task_key()),
            d.command_line@ == self.spec_command_line(info.spec_task_key()),
            d.id == id,
            d.prog_type.id == prog_type,
            d.prog_type.name@ == spec_bpf_type_name(prog_type),
            d.tag@ == crate::digests::spec_hex_lower(tag@),
            d.attached_func@ == attached_func@,
            d.name@ == name@,
            d.ksym@ == ksym@,
            match hashes {
                Some(h) => d.bpf_prog.md5@ == h.md5@ && d.bpf_prog.sha1@ == h.sha1@
                    && d.bpf_prog.sha256@ == h.sha256@ && d.bpf_prog.sha512@ == h.sha512@
                    && d.bpf_prog.size == h.size,
                None => d.bpf_prog.md5@ == "?"@ && d.bpf_prog.sha1@ == "?"@ && d.bpf_prog.sha256@
                    == "?"@ && d.bpf_prog.sha512@ == "?"@ && d.bpf_prog.size == 0,
            },
            d.verified_insns == verified_insns,
            d.loaded == loaded,
    {
        let (exe, command_line) = self.get_exe_and_command_line(info);
        let bpf_prog = match hashes {
            Some(h) => crate::output::BpfProgInfo {
                md5: h.md5.clone(),
                sha1: h.sha1.clone(),
                sha256: h.sha256.clone(),
                sha512: h.sha512.clone(),
                size: h.size,
            },
            None => crate::output::BpfProgInfo {
                md5: String::from_str("?"),
                sha1: String::from_str("?"),
                sha256: String::from_str("?"),
                sha512: String::from_str("?"),
                size: 0,
            },
        };
        crate::output::BpfProgLoadData {
            ancestors: self.get_ancestors_string(info),
            command_line,
            exe,
            id,
            prog_type: crate::output::BpfProgTypeInfo {
                id: prog_type,
                name: bpf_type_name(prog_type),
            },
            tag: crate::digests::hex_encode(tag.as_slice()),
            attached_func: attached_func.clone(),
            name: name.clone(),
            ksym: ksym.clone(),
            bpf_prog,
            verified_insns,
            loaded,
        }
    }

    /// Builds a socket-filter record with the digests of the filter program
    /// bytes.
    pub fn bpf_socket_filter_event(&self, info: &StdEventInfo, domain: u32, ty: u32, filter: &Vec<
        u8,
    >, filter_len: u32, attached: bool) -> (d: crate::output::BpfSocketFilterData)
        requires
            self.wf(),
        ensures
            d.ancestors@ == self.spec_ancestors_string(info.spec_parent_key()),
            d.exe@ == self.spec_exe(info.spec_task_key()),
            d.command_line@ == self.spec_command_line(info.spec_task_key()),
            d.socket.domain@ == spec_socket_domain_name(domain),
            d.socket.ty@ == spec_socket_type_name(ty),
            d.filter.md5@ == crate::digests::spec_hex_lower(crate::digests::md5_of(filter@)),
            d.filter.sha1@ == crate::digests::spec_hex_lower(crate::digests::sha1_of(filter@)),
            d.filter.sha256@ == crate::digests::spec_hex_lower(crate::digests::sha256_of(filter@)),
            d.filter.sha512@ == crate::digests::spec_hex_lower(crate::digests::sha512_of(filter@)),
            d.filter.len == filter_len,
            d.filter.size == filter@.len(),
            d.attached == attached,
    {
        let (exe, command_line) = self.get_exe_and_command_line(info);
        crate::output::BpfSocketFilterData {
            ancestors: self.get_ancestors_string(info),
            command_line,
            exe,
            socket: crate::output::SocketInfo {
                domain: socket_domain_name(domain),
                ty: socket_type_name(ty),
            },
            filter: crate::output::FilterInfo {
                md5: crate::digests::md5_hex(filter.as_slice()),
                sha1: crate::digests::sha1_hex(filter.as_slice()),
                sha256: crate::digests::sha256_hex(filter.as_slice()),
                sha512: crate::digests::sha512_hex(filter.as_slice()),
                len: filter_len,
                size: filter.len() as u64,
            },
            attached,
        }
    }

    /// Builds a memory-protection record.
    pub fn mprotect_event(&self, info: &StdEventInfo, start: u64, prot: u64) -> (d:
        crate::output::MprotectData)
        requires
            self.wf(),
        ensures
            d.ancestors@ == self.spec_ancestors_string(info.spec_parent_key()),
            d.exe@ == self.spec_exe(info.spec_task_key()),
            d.command_line@ == self.spec_command_line(info.spec_task_key()),
            d.addr == start,
            d.prot == prot,
    {
        let (exe, command_line) = self.get_exe_and_command_line(info);
        crate::output::MprotectData {
            ancestors: self.get_ancestors_string(info),
            command_line,
            exe,
            addr: start,
            prot,
        }
    }

    /// Builds a connect record; the destination hostname comes from the
    /// task-local resolution map, with the global map as fallback.
    pub fn connect_event(&self, info: &StdEventInfo, ip: Ip, port: u16, connected: bool) -> (d:
        crate::output::ConnectData)
        requires
            self.wf(),
        ensures
            d.ancestors@ == self.spec_ancestors_string(info.spec_parent_key()),
            d.exe@ == self.spec_exe(info.spec_task_key()),
            d.command_line@ == self.spec_command_line(info.spec_task_key()),
            d.dst.hostname matches Some(h) && h@ == self.spec_resolved(ip, info.spec_task_key()),
            d.dst.ip == ip,
            d.dst.port == port,
            d.dst.public == ip.spec_is_public(),
            d.dst.is_v6 == ip.spec_is_v6(),
            d.connected == connected,
    {
        let (exe, command_line) = self.get_exe_and_command_line(info);
        crate::output::ConnectData {
            ancestors: self.get_ancestors_string(info),
            command_line,
            exe,
            dst: crate::output::NetworkInfo {
                hostname: Some(self.get_resolved(ip, info)),
                ip,
                port,
                public: ip.is_public(),
                is_v6: ip.is_v6(),
            },
            connected,
        }
    }

    /// Builds a data-send record.
    pub fn send_data_event(&self, info: &StdEventInfo, ip: Ip, port: u16, data_size: u64) -> (d:
        crate::output::SendDataData)
        requires
            self.wf(),
        ensures
            d.ancestors@ == self.spec_ancestors_string(info.spec_parent_key()),
            d.exe@ == self.spec_exe(info.spec_task_key()),
            d.command_line@ == self.spec_command_line(info.spec_task_key()),
            d.dst.hostname matches Some(h) && h@ == self.spec_resolved(ip, info.spec_task_key()),
            d.dst.ip == ip,
            d.dst.port == port,
            d.dst.public == ip.spec_is_public(),
            d.dst.is_v6 == ip.spec_is_v6(),
            d.data_size == data_size,
    {
        let (exe, command_line) = self.get_exe_and_command_line(info);
        crate::output::SendDataData {
            ancestors: self.get_ancestors_string(info),
            exe,
            command_line,
            dst: crate::output::NetworkInfo {
                hostname: Some(self.get_resolved(ip, info)),
                ip,
                port,
                public: ip.is_public(),
                is_v6: ip.is_v6(),
            },
            data_size,
        }
    }

    /// Builds a module-load record.
    pub fn init_module_event(&self, info: &StdEventInfo, name: &String, uargs: &String,
        syscall: &String, loaded: bool) -> (d: crate::output::InitModuleData)
        requires
            self.wf(),
        ensures
            d.ancestors@ == self.spec_ancestors_string(info.spec_parent_key()),
            d.exe@ == self.spec_exe(info.spec_task_key()),
            d.command_line@ == self.spec_command_line(info.spec_task_key()),
            d.syscall@ == syscall@,
            d.module_name@ == name@,
            d.args@ == uargs@,
            d.loaded == loaded,
    {
        let (exe, command_line) = self.get_exe_and_command_line(info);
        crate::output::InitModuleData {
            ancestors: self.get_ancestors_string(info),
            command_line,
            exe,
            syscall: syscall.clone(),
            module_name: name.clone(),
            args: uargs.clone(),
            loaded,
        }
    }

    /// Builds a rename record.
    pub fn file_rename_event(&self, info: &StdEventInfo, old_name: &String, new_name: &String)
        -> (d: crate::output::FileRenameData)
        requires
            self.wf(),
        ensures
            d.ancestors@ == self.spec_ancestors_string(info.spec_parent_key()),
            d.exe@ == self.spec_exe(info.spec_task_key()),
            d.command_line@ == self.spec_command_line(info.spec_task_key()),
            d.old@ == old_name@,
            d.new@ == new_name@,
    {
        let (exe, command_line) = self.get_exe_and_command_line(info);
        crate::output::FileRenameData {
            ancestors: self.get_ancestors_string(info),
            command_line,
            exe,
            old: old_name.clone(),
            new: new_name.clone(),
        }
    }

    /// Builds an exit record. A thread-group exit empties the task's
    /// resolution map but keeps the record: children may still walk through
    /// it.
    pub fn exit_event(&mut self, info: &StdEventInfo, etype: EventType, error_code: u64) -> (d:
        crate::output::ExitData)
        requires
            old(self).wf(),
            etype is Exit || etype is ExitGroup,
        ensures
            final(self).wf(),
            Self::frame(*old(self), *final(self)),
            final(self).cache == old(self).cache,
            final(self).resolved == old(self).resolved,
            d.ancestors@ == old(self).spec_ancestors_string(info.spec_parent_key()),
            d.exe@ == old(self).spec_exe(info.spec_task_key()),
            d.command_line@ == old(self).spec_command_line(info.spec_task_key()),
            d.error_code == error_code,
            ({
                let ck = info.spec_task_key();
                let cleanup = (etype is Exit && info.info.process.pid == info.info.process.tgid)
                    || etype is ExitGroup;
                if cleanup {
                    match old(self).tasks.spec_get(ck) {
                        None => final(self).tasks.spec_get(ck) is None,
                        Some(t) => final(self).tasks.spec_get(ck) matches Some(t2) && t2.image
                            == t.image && t2.command_line == t.command_line && t2.pid == t.pid
                            && t2.flags == t.flags && t2.container == t.container && t2.cgroups
                            == t.cgroups && t2.parent_key == t.parent_key && t2.nodename
                            == t.nodename && forall|ip: Ip| t2.resolved.spec_get(ip) is None,
                    }
                } else {
                    final(self).tasks == old(self).tasks
                }
            }),
            forall|k2: TaskKey|
                k2 != info.spec_task_key() ==> final(self).tasks.spec_get(k2) == old(
                    self,
                ).tasks.spec_get(k2),
    {
        let (exe, command_line) = self.get_exe_and_command_line(info);
        let d = crate::output::ExitData {
            ancestors: self.get_ancestors_string(info),
            command_line,
            exe,
            error_code,
        };
        let cleanup = (matches!(etype, EventType::Exit) && info.info.process.pid
            == info.info.process.tgid) || matches!(etype, EventType::ExitGroup);
        if cleanup {
            self.tasks.free_resolved(info.task_key());
        }
        d
    }

    /// Builds the DNS query records of one event, one per answer section,
    /// and records every address literal among the answers in the resolution
    /// maps, later answers winning.
    pub fn dns_query_events(&mut self, info: &StdEventInfo, ip: Ip, port: u16, proto: u8,
        responses: &Vec<DnsResponse>) -> (out: Vec<crate::output::DnsQueryData>)
        requires
            old(self).wf(),
        ensures
            final(self).wf(),
            Self::frame(*old(self), *final(self)),
            final(self).cache == old(self).cache,
            out@.len() == responses@.len(),
            forall|i: int|
                0 <= i < out@.len() ==> {
                    let d = #[trigger] out@[i];
                    &&& d.query@ == responses@[i].question@
                    &&& d.proto@ == spec_proto_name(proto)
                    &&& d.ancestors@ == old(self).spec_ancestors_string(info.spec_parent_key())
                    &&& d.exe@ == old(self).spec_exe(info.spec_task_key())
                    &&& d.command_line@ == old(self).spec_command_line(info.spec_task_key())
                    &&& d.responses@.map_values(|s: String| s@) == responses@[i].answers@
                        .map_values(|a: DnsAnswer| a.value@)
                    &&& d.dns_server.ip == ip
                    &&& d.dns_server.port == port
                    &&& d.dns_server.public == ip.spec_is_public()
                    &&& d.dns_server.is_v6 == ip.spec_is_v6()
                    &&& d.dns_server.hostname is None
                },
            forall|ip2: Ip|
                final(self).spec_resolved(ip2, info.spec_task_key()) == (
                match spec_last_update(spec_dns_updates(responses@), ip2) {
                    Some(q) => q,
                    None => old(self).spec_resolved(ip2, info.spec_task_key()),
                }),
            forall|k2: TaskKey|
                k2 != info.spec_task_key() ==> final(self).tasks.spec_get(k2) == old(
                    self,
                ).tasks.spec_get(k2),
    {
        let ck = info.task_key();
        let exe = self.get_exe(ck);
        let command_line = self.get_command_line(ck);
        let ancestors = self.get_ancestors_string(info);
        let protos = proto_name(proto);

        // collect the address literals among the answers, in order
        let mut updates: Vec<(Ip, String)> = Vec::new();
        let n = responses.len();
        for i in 0..n
            invariant
                n == responses@.len(),
                updates@.map_values(|p: (Ip, String)| (p.0, p.1@)) == spec_dns_updates(
                    responses@.take(i as int),
                ),
        {
            let m = responses[i].answers.len();
            for j in 0..m
                invariant
                    n == responses@.len(),
                    i < n,
                    m == responses@[i as int].answers@.len(),
                    updates@.map_values(|p: (Ip, String)| (p.0, p.1@)) == spec_dns_updates(
                        responses@.take(i as int),
                    ) + spec_answer_updates_upto(
                        responses@[i as int].answers@.take(j as int),
                        responses@[i as int].question@,
                    ),
            {
                let ghost u0 = updates@;
                match responses[i].answers[j].ip {
                    Some(a) => {
                        updates.push((a, responses[i].question.clone()));
                        proof {
                            let ans = responses@[i as int].answers@;
                            let q = responses@[i as int].question@;
                            assert(updates@ =~= u0.push(updates@.last()));
                            assert(updates@.last().0 == a && updates@.last().1@ == q);
                            assert(updates@.map_values(|p: (Ip, String)| (p.0, p.1@)) =~= u0
                                .map_values(|p: (Ip, String)| (p.0, p.1@)).push((a, q)));
                            assert(ans.take(j + 1).drop_last() =~= ans.take(j as int));
                            assert(ans.take(j + 1).last() == ans[j as int]);
                            assert(spec_answer_updates_upto(ans.take(j + 1), q)
                                =~= spec_answer_updates_upto(ans.take(j as int), q) + seq![
                                (a, q),
                            ]);
                            assert(updates@.map_values(|p: (Ip, String)| (p.0, p.1@))
                                =~= spec_dns_updates(responses@.take(i as int))
                                + spec_answer_updates_upto(ans.take(j + 1), q));
                        }
                    },
                    None => {
                        proof {
                            let ans = responses@[i as int].answers@;
                            let q = responses@[i as int].question@;
                            assert(ans.take(j + 1).drop_last() =~= ans.take(j as int));
                            assert(ans.take(j + 1).last() == ans[j as int]);
                            assert(spec_answer_updates_upto(ans.take(j + 1), q)
                                =~= spec_answer_updates_upto(ans.take(j as int), q));
                            assert(updates@.map_values(|p: (Ip, String)| (p.0, p.1@))
                                =~= spec_dns_updates(responses@.take(i as int))
                                + spec_answer_updates_upto(ans.take(j + 1), q));
                        }
                    },
                }
            }
            proof {
                let ans = responses@[i as int].answers@;
                let q = responses@[i as int].question@;
                assert(ans.take(m as int) =~= ans);
                assert(responses@.take(i + 1).drop_last() =~= responses@.take(i as int));
                assert(responses@.take(i + 1).last() == responses@[i as int]);
                assert(updates@.map_values(|p: (Ip, String)| (p.0, p.1@)) =~= spec_dns_updates(
                    responses@.take(i + 1),
                ));
            }
        }
        proof {
            assert(responses@.take(n as int) =~= responses@);
        }

        // apply them: later answers win in both maps
        let ghost us = updates@.map_values(|p: (Ip, String)| (p.0, p.1@));
        let nu = updates.len();
        for k in 0..nu
            invariant
                nu == updates@.len(),
                us == updates@.map_values(|p: (Ip, String)| (p.0, p.1@)),
                self.wf(),
                Self::frame(*old(self), *self),
                self.cache == old(self).cache,
                forall|ip2: Ip|
                    self.spec_resolved(ip2, info.spec_task_key()) == (
                    match spec_last_update(us.take(k as int), ip2) {
                        Some(q) => q,
                        None => old(self).spec_resolved(ip2, info.spec_task_key()),
                    }),
                forall|k2: TaskKey|
                    k2 != info.spec_task_key() ==> self.tasks.spec_get(k2) == old(
                        self,
                    ).tasks.spec_get(k2),
        {
            let u_ip = updates[k].0;
            let ghost ck_ = info.spec_task_key();
            let ghost pre = *self;
            self.update_resolved(u_ip, updates[k].1.as_str(), info);
            proof {
                assert(us.take(k + 1).drop_last() =~= us.take(k as int));
                assert(us.take(k + 1).last() == us[k as int]);
                assert(us[k as int] == (updates@[k as int].0, updates@[k as int].1@));
                assert forall|ip2: Ip|
                    self.spec_resolved(ip2, ck_) == (
                    match spec_last_update(us.take(k + 1), ip2) {
                        Some(q) => q,
                        None => old(self).spec_resolved(ip2, ck_),
                    }) by {
                    if ip2 == u_ip {
                        assert(spec_last_update(us.take(k + 1), ip2) == Some(
                            updates@[k as int].1@,
                        ));
                    } else {
                        assert(spec_last_update(us.take(k + 1), ip2) == spec_last_update(
                            us.take(k as int),
                            ip2,
                        ));
                        assert(self.spec_resolved(ip2, ck_) == pre.spec_resolved(ip2, ck_));
                    }
                }
            }
        }
        proof {
            assert(us.take(nu as int) =~= us);
        }

        // build one record per answer section
        let mut out: Vec<crate::output::DnsQueryData> = Vec::new();
        for i in 0..n
            invariant
                n == responses@.len(),
                out@.len() == i,
                ancestors@ == old(self).spec_ancestors_string(info.spec_parent_key()),
                exe@ == old(self).spec_exe(info.spec_task_key()),
                command_line@ == old(self).spec_command_line(info.spec_task_key()),
                protos@ == spec_proto_name(proto),
                self.wf(),
                Self::frame(*old(self), *self),
                self.cache == old(self).cache,
                forall|ip2: Ip|
                    self.spec_resolved(ip2, info.spec_task_key()) == (
                    match spec_last_update(spec_dns_updates(responses@), ip2) {
                        Some(q) => q,
                        None => old(self).spec_resolved(ip2, info.spec_task_key()),
                    }),
                forall|k2: TaskKey|
                    k2 != info.spec_task_key() ==> self.tasks.spec_get(k2) == old(
                        self,
                    ).tasks.spec_get(k2),
                forall|p: int|
                    0 <= p < i ==> {
                        let d = #[trigger] out@[p];
                        &&& d.query@ == responses@[p].question@
                        &&& d.proto@ == spec_proto_name(proto)
                        &&& d.ancestors@ == old(self).spec_ancestors_string(
                            info.spec_parent_key(),
                        )
                        &&& d.exe@ == old(self).spec_exe(info.spec_task_key())
                        &&& d.command_line@ == old(self).spec_command_line(info.spec_task_key())
                        &&& d.responses@.map_values(|s: String| s@) == responses@[p].answers@
                            .map_values(|a: DnsAnswer| a.value@)
                        &&& d.dns_server.ip == ip
                        &&& d.dns_server.port == port
                        &&& d.dns_server.public == ip.spec_is_public()
                        &&& d.dns_server.is_v6 == ip.spec_is_v6()
                        &&& d.dns_server.hostname is None
                    },
        {
            let mut answers: Vec<String> = Vec::new();
            let m = responses[i].answers.len();
            for j in 0..m
                invariant
                    n == responses@.len(),
                    i < n,
                    m == responses@[i as int].answers@.len(),
                    answers@.len() == j,
                    forall|q: int|
                        0 <= q < j ==> (#[trigger] answers@[q])@ == responses@[i as int].answers@[
                            q
                        ].value@,
            {
                answers.push(responses[i].answers[j].value.clone());
            }
            proof {
                assert(answers@.map_values(|s: String| s@) =~= responses@[i as int].answers@
                    .map_values(|a: DnsAnswer| a.value@));
            }
            out.push(
                crate::output::DnsQueryData {
                    ancestors: ancestors.clone(),
                    command_line: command_line.clone(),
                    exe: exe.clone(),
                    query: responses[i].question.clone(),
                    proto: protos.clone(),
                    responses: answers,
                    dns_server: crate::output::NetworkInfo {
                        hostname: None,
                        ip,
                        port,
                        public: ip.is_public(),
                        is_v6: ip.is_v6(),
                    },
                },
            );
        }
        out
    }

    /// Primes the digest cache for a pass-through digest request.
    pub fn handle_hash_event(&mut self, info: &StdEventInfo, path: &String, probe: &FileProbe)
        requires
            old(self).wf(),
        ensures
            final(self).wf(),
            Self::frame(*old(self), *final(self)),
            final(self).tasks == old(self).tasks,
            final(self).resolved == old(self).resolved,
    {
        let opt_mnt_ns = Self::task_mnt_ns(&info.info);
        let _ = self.get_hashes_with_ns(opt_mnt_ns, path, probe);
    }
}

/// Resolution-precedence law: after one task records `a` for an address and
/// a different task records `b` for the same address, each task still sees
/// its own name — the task-local map takes precedence over the global one.
/// The premises on the two steps are exactly what
/// [`EventConsumer::update_resolved`] ensures.
pub proof fn lemma_dns_precedence(c2: EventConsumer, ip: Ip, k1: TaskKey, k2: TaskKey, a: Seq<
    char,
>, b: Seq<char>)
    requires
        k1 != k2,
        c2.tasks.spec_get(k1) matches Some(t1) && t1.resolved.spec_get(ip) matches Some(v) && v@
            == a,
        c2.tasks.spec_get(k2) matches Some(t2) && t2.resolved.spec_get(ip) matches Some(v) && v@
            == b,
    ensures
        c2.spec_resolved(ip, k1) == a,
        c2.spec_resolved(ip, k2) == b,
{
}

/// What only the surrounding process can supply for one record: probes of
/// the files the record references, taken inside the record's mount
/// namespace, and the procfs cgroups fallback for correlation.
#[derive(Debug)]
pub struct EventAux {
    /// Probe of the record's primary file: the executable, the mapped file,
    /// or the file a digest request names.
    pub exe_probe: FileProbe,
    /// Probe of the interpreter, for execve records.
    pub interpreter_probe: FileProbe,
    /// Cgroups read from procfs when the probe-side cgroup parse failed.
    pub procfs_cgroups: Option<Vec<String>>,
}

impl EventConsumer {
    /// Runs the indicator overlay over the record's extracted values and the
    /// engine's findings: any match forces a result with maximum severity
    /// and exactly the matching indicators.
    pub fn scan(&self, data: &crate::output::UserEventData, rule_scan: Option<
        crate::scanner::RuleScan,
    >) -> (r: Option<crate::scanner::ScanResult>)
        ensures
            ({
                let inter = crate::scanner::spec_matching_iocs(
                    data.spec_iocs(),
                    self.iocs@.map_values(|p: String| p@),
                );
                if inter.len() > 0 {
                    r matches Some(sr) && sr.iocs@.map_values(|p: String| p@) == inter
                        && sr.severity == crate::scanner::MAX_SEVERITY
                } else {
                    match rule_scan {
                        Some(rs) => r matches Some(sr) && sr.rules == rs.rules && sr.severity
                            == rs.severity && sr.only_filter == rs.only_filter && sr.iocs@.len()
                            == 0,
                        None => r is None,
                    }
                }
            }),
    {
        let values = data.iocs();
        crate::scanner::scan_overlay(&values, &self.iocs, rule_scan)
    }

    /// Scans a built record and applies the emission decision: with nothing
    /// loaded everything is emitted bare; a detection is emitted with its
    /// findings, severity forced to the maximum on any indicator match; a
    /// filter-only match is emitted bare; anything else is dropped.
    pub fn scan_and_finalize(&self, ev: crate::output::EmittedEvent, rule_scan: Option<
        crate::scanner::RuleScan,
    >) -> (r: Option<crate::output::EmittedEvent>)
        ensures
            ({
                let inter = crate::scanner::spec_matching_iocs(
                    ev.data.spec_iocs(),
                    self.iocs@.map_values(|p: String| p@),
                );
                if self.engine_empty && self.iocs@.len() == 0 {
                    r matches Some(out) && out.name == ev.name && out.info == ev.info && out.data
                        == ev.data && out.detection is None
                } else if inter.len() > 0 {
                    r matches Some(out) && out.name == ev.name && out.info == ev.info && out.data
                        == ev.data && (out.detection matches Some(sr)
                        && sr.iocs@.map_values(|p: String| p@) == inter && sr.severity
                        == crate::scanner::MAX_SEVERITY)
                } else {
                    match rule_scan {
                        Some(rs) => {
                            if rs.rules@.len() > 0 && !rs.only_filter {
                                r matches Some(out) && out.name == ev.name && out.info == ev.info
                                    && out.data == ev.data && (out.detection matches Some(sr)
                                    && sr.rules == rs.rules && sr.severity == rs.severity)
                            } else if rs.only_filter {
                                r matches Some(out) && out.name == ev.name && out.info == ev.info
                                    && out.data == ev.data && out.detection is None
                            } else {
                                r is None
                            }
                        },
                        None => r is None,
                    }
                }
            }),
    {
        if self.engine_empty && self.iocs.len() == 0 {
            let mut ev = ev;
            ev.detection = None;
            return Some(ev);
        }
        let scanned = self.scan(&ev.data, rule_scan);
        match crate::scanner::emission_decision(
            self.engine_empty,
            self.iocs.len() == 0,
            scanned,
        ) {
            crate::scanner::Emission::Emit(d) => {
                let mut ev = ev;
                ev.detection = d;
                Some(ev)
            },
            crate::scanner::Emission::Suppress => None,
        }
    }

    /// Handles one record from the channel: records of the daemon's own
    /// process are skipped outright; correlation-origin records update the
    /// lineage table first (execve replacing the prior record); the typed
    /// builders then fill the user-facing record. Correlation and digest
    /// records prime state and emit nothing.
    pub fn handle_event(&mut self, e: &Event, aux: &EventAux) -> (out: Vec<
        crate::output::EmittedEvent,
    >)
        requires
            old(self).wf(),
            e.wf(),
            !(e.info.etype is Error),
        ensures
            final(self).wf(),
            e.info.process.tgid as u32 == old(self).self_pid ==> out@.len() == 0 && *final(self)
                == *old(self),
            Self::frame(*old(self), *final(self)),
            forall|i: int|
                0 <= i < out@.len() ==> (#[trigger] out@[i]).name@ == e.info.etype.spec_name(),
            forall|i: int| 0 <= i < out@.len() ==> (#[trigger] out@[i]).detection is None,
            e.info.process.tgid as u32 != old(self).self_pid ==> match e.info.etype {
                EventType::Execve | EventType::ExecveScript => out@.len() == 1 && (match e.data {
                    EventData::Execve { ref executable, ref argv, .. } => {
                        // the correlation is applied first; the emitted record
                        // is built from the rebuilt, post-correlation table
                        &&& final(self).tasks.spec_get(e.info.process.spec_task_key())
                            matches Some(t) && t.image@ == (
                        if e.info.process.spec_is_kernel_thread() {
                            "kernel"@
                        } else {
                            executable@
                        }) && t.command_line@.map_values(|s: String| s@) == argv@.map_values(
                            |s: String| s@,
                        )
                        &&& out@[0].data matches crate::output::UserEventData::Execve(d)
                            && d.ancestors@ == final(self).spec_ancestors_string(
                            e.info.process.spec_parent_key(),
                        ) && d.parent_exe@ == final(self).spec_exe(
                            e.info.process.spec_parent_key(),
                        ) && d.command_line@ == spec_join(
                            argv@.map_values(|s: String| s@),
                            " "@,
                        )
                        &&& out@[0].info.info == e.info
                        &&& (e.info.process.mnt_ns matches Some(ns) && ns != old(
                            self,
                        ).system_info.mount_ns) ==> out@[0].info.container_type == (
                        match final(self).tasks.spec_get(e.info.process.spec_task_key()) {
                            Some(t) => t.container,
                            None => None,
                        })
                    },
                    _ => false,
                }),
                EventType::Clone => out@.len() == 1 && (match e.data {
                    EventData::Clone { ref executable, ref argv, .. } => {
                        &&& out@[0].data matches crate::output::UserEventData::Clone(d)
                            && d.ancestors@ == final(self).spec_ancestors_string(
                            e.info.process.spec_parent_key(),
                        ) && d.exe@ == executable@ && d.command_line@ == spec_join(
                            argv@.map_values(|s: String| s@),
                            " "@,
                        )
                        &&& out@[0].info.info == e.info
                        &&& (e.info.process.mnt_ns matches Some(ns) && ns != old(
                            self,
                        ).system_info.mount_ns) ==> out@[0].info.container_type == (
                        match final(self).tasks.spec_get(e.info.process.spec_task_key()) {
                            Some(t) => t.container,
                            None => None,
                        })
                    },
                    _ => false,
                }),
                EventType::Prctl => out@.len() == 1 && (out@[0].data
                    matches crate::output::UserEventData::Prctl(_)),
                EventType::MmapExec => out@.len() == 1 && (out@[0].data
                    matches crate::output::UserEventData::MmapExec(_)),
                EventType::MprotectExec => out@.len() == 1 && (out@[0].data
                    matches crate::output::UserEventData::Mprotect(_)),
                EventType::Connect => out@.len() == 1 && (out@[0].data
                    matches crate::output::UserEventData::Connect(_)),
                EventType::DnsQuery => (match e.data {
                    EventData::DnsQuery { ref responses, .. } => out@.len() == responses@.len()
                        && forall|i: int|
                        0 <= i < out@.len() ==> (#[trigger] out@[i]).data
                            matches crate::output::UserEventData::DnsQuery(_),
                    _ => false,
                }),
                EventType::SendData => out@.len() == 1 && (out@[0].data
                    matches crate::output::UserEventData::SendData(_)),
                EventType::InitModule => out@.len() == 1 && (out@[0].data
                    matches crate::output::UserEventData::InitModule(_)),
                EventType::Read | EventType::ReadConfig | EventType::Write
                    | EventType::WriteConfig => out@.len() == 1 && (out@[0].data
                    matches crate::output::UserEventData::Rw(_)),
                EventType::FileUnlink => out@.len() == 1 && (out@[0].data
                    matches crate::output::UserEventData::Unlink(_)),
                EventType::FileRename => out@.len() == 1 && (out@[0].data
                    matches crate::output::UserEventData::FileRename(_)),
                EventType::BpfProgLoad => out@.len() == 1 && (out@[0].data
                    matches crate::output::UserEventData::BpfProgLoad(_)),
                EventType::BpfSocketFilter => out@.len() == 1 && (out@[0].data
                    matches crate::output::UserEventData::BpfSocketFilter(_)),
                EventType::Exit | EventType::ExitGroup => out@.len() == 1 && (out@[0].data
                    matches crate::output::UserEventData::Exit(_)) && ({
                    let ck = e.info.process.spec_task_key();
                    let cleanup = (e.info.etype is Exit && e.info.process.pid
                        == e.info.process.tgid) || e.info.etype is ExitGroup;
                    cleanup ==> match final(self).tasks.spec_get(ck) {
                        Some(t) => forall|ip: Ip| t.resolved.spec_get(ip) is None,
                        None => true,
                    }
                }),
                _ => out@.len() == 0,
            },
    {
        let mut out: Vec<crate::output::EmittedEvent> = Vec::new();
        if e.info.process.tgid as u32 == self.self_pid {
            return out;
        }
        match e.info.process.mnt_ns {
            Some(mnt) => {
                self.ns_cache.cache_ns(e.info.process.pid, mnt);
            },
            None => {},
        }
        let std_info = self.build_std_event_info(e.info);
        let name = String::from_str(e.info.etype.name());
        match &e.data {
            EventData::Execve { executable, interpreter, argv, cgroup, nodename } => {
                let cd = CorrelationData {
                    origin: e.info.etype,
                    exe: executable.clone(),
                    argv: clone_strings(argv),
                    cgroup: cgroup.duplicate(),
                    nodename: clone_opt_string(nodename),
                };
                self.handle_correlation_event(
                    &std_info,
                    &cd,
                    match &aux.procfs_cgroups {
                        Some(v) => Some(v),
                        None => None,
                    },
                );
                let std_info = self.build_std_event_info(e.info);
                let d = self.execve_event(
                    &std_info,
                    executable,
                    interpreter,
                    argv,
                    &aux.exe_probe,
                    &aux.interpreter_probe,
                );
                out.push(
                    crate::output::EmittedEvent {
                        name,
                        info: std_info,
                        data: crate::output::UserEventData::Execve(d),
                        detection: None,
                    },
                );
            },
            EventData::Clone { executable, argv, flags, cgroup, nodename } => {
                let cd = CorrelationData {
                    origin: EventType::Clone,
                    exe: executable.clone(),
                    argv: clone_strings(argv),
                    cgroup: cgroup.duplicate(),
                    nodename: clone_opt_string(nodename),
                };
                self.handle_correlation_event(
                    &std_info,
                    &cd,
                    match &aux.procfs_cgroups {
                        Some(v) => Some(v),
                        None => None,
                    },
                );
                let std_info = self.build_std_event_info(e.info);
                let d = self.clone_event(&std_info, executable, argv, *flags);
                out.push(
                    crate::output::EmittedEvent {
                        name,
                        info: std_info,
                        data: crate::output::UserEventData::Clone(d),
                        detection: None,
                    },
                );
            },
            EventData::Prctl { option, arg2, arg3, arg4, arg5, success } => {
                let d = self.prctl_event(
                    &std_info,
                    *option,
                    *arg2,
                    *arg3,
                    *arg4,
                    *arg5,
                    *success,
                );
                out.push(
                    crate::output::EmittedEvent {
                        name,
                        info: std_info,
                        data: crate::output::UserEventData::Prctl(d),
                        detection: None,
                    },
                );
            },
            EventData::MmapExec { filename } => {
                let d = self.mmap_exec_event(&std_info, filename, &aux.exe_probe);
                out.push(
                    crate::output::EmittedEvent {
                        name,
                        info: std_info,
                        data: crate::output::UserEventData::MmapExec(d),
                        detection: None,
                    },
                );
            },
            EventData::MprotectExec { start, prot } => {
                let d = self.mprotect_event(&std_info, *start, *prot);
                out.push(
                    crate::output::EmittedEvent {
                        name,
                        info: std_info,
                        data: crate::output::UserEventData::Mprotect(d),
                        detection: None,
                    },
                );
            },
            EventData::Connect { ip, port, connected } => {
                let d = self.connect_event(&std_info, *ip, *port, *connected);
                out.push(
                    crate::output::EmittedEvent {
                        name,
                        info: std_info,
                        data: crate::output::UserEventData::Connect(d),
                        detection: None,
                    },
                );
            },
            EventData::DnsQuery { ip, port, proto, responses } => {
                let mut datas = self.dns_query_events(&std_info, *ip, *port, *proto, responses);
                let ghost n0 = datas@.len();
                while datas.len() > 0
                    invariant
                        self.wf(),
                        Self::frame(*old(self), *self),
                        out@.len() + datas@.len() == n0,
                        n0 == responses@.len(),
                        name@ == e.info.etype.spec_name(),
                        forall|i: int|
                            0 <= i < out@.len() ==> (#[trigger] out@[i]).data
                                matches crate::output::UserEventData::DnsQuery(_),
                        forall|i: int|
                            0 <= i < out@.len() ==> (#[trigger] out@[i]).name@
                                == e.info.etype.spec_name(),
                        forall|i: int|
                            0 <= i < out@.len() ==> (#[trigger] out@[i]).detection is None,
                    decreases datas@.len(),
                {
                    let d = datas.remove(0);
                    let info_i = self.build_std_event_info(e.info);
                    out.push(
                        crate::output::EmittedEvent {
                            name: name.clone(),
                            info: info_i,
                            data: crate::output::UserEventData::DnsQuery(d),
                            detection: None,
                        },
                    );
                }
            },
            EventData::SendData { ip, port, data_size } => {
                let d = self.send_data_event(&std_info, *ip, *port, *data_size);
                out.push(
                    crate::output::EmittedEvent {
                        name,
                        info: std_info,
                        data: crate::output::UserEventData::SendData(d),
                        detection: None,
                    },
                );
            },
            EventData::InitModule { name: mod_name, uargs, syscall, loaded } => {
                let d = self.init_module_event(&std_info, mod_name, uargs, syscall, *loaded);
                out.push(
                    crate::output::EmittedEvent {
                        name,
                        info: std_info,
                        data: crate::output::UserEventData::InitModule(d),
                        detection: None,
                    },
                );
            },
            EventData::Rw { path } => {
                let d = self.rw_event(&std_info, path);
                out.push(
                    crate::output::EmittedEvent {
                        name,
                        info: std_info,
                        data: crate::output::UserEventData::Rw(d),
                        detection: None,
                    },
                );
            },
            EventData::FileUnlink { path, success } => {
                let d = self.unlink_event(&std_info, path, *success);
                out.push(
                    crate::output::EmittedEvent {
                        name,
                        info: std_info,
                        data: crate::output::UserEventData::Unlink(d),
                        detection: None,
                    },
                );
            },
            EventData::FileRename { old_name, new_name } => {
                let d = self.file_rename_event(&std_info, old_name, new_name);
                out.push(
                    crate::output::EmittedEvent {
                        name,
                        info: std_info,
                        data: crate::output::UserEventData::FileRename(d),
                        detection: None,
                    },
                );
            },
            EventData::BpfProgLoad {
                id,
                prog_type,
                tag,
                attached_func,
                name: prog_name,
                ksym,
                verified_insns,
                loaded,
                insns: _,
                hashes,
            } => {
                let d = self.bpf_prog_load_event(
                    &std_info,
                    *id,
                    *prog_type,
                    tag,
                    attached_func,
                    prog_name,
                    ksym,
                    *verified_insns,
                    *loaded,
                    hashes,
                );
                out.push(
                    crate::output::EmittedEvent {
                        name,
                        info: std_info,
                        data: crate::output::UserEventData::BpfProgLoad(d),
                        detection: None,
                    },
                );
            },
            EventData::BpfSocketFilter { domain, ty, filter, filter_len, attached } => {
                let d = self.bpf_socket_filter_event(
                    &std_info,
                    *domain,
                    *ty,
                    filter,
                    *filter_len,
                    *attached,
                );
                out.push(
                    crate::output::EmittedEvent {
                        name,
                        info: std_info,
                        data: crate::output::UserEventData::BpfSocketFilter(d),
                        detection: None,
                    },
                );
            },
            EventData::Exit { error_code } => {
                let d = self.exit_event(&std_info, e.info.etype, *error_code);
                out.push(
                    crate::output::EmittedEvent {
                        name,
                        info: std_info,
                        data: crate::output::UserEventData::Exit(d),
                        detection: None,
                    },
                );
            },
            EventData::Correlation(cd) => {
                self.handle_correlation_event(
                    &std_info,
                    cd,
                    match &aux.procfs_cgroups {
                        Some(v) => Some(v),
                        None => None,
                    },
                );
            },
            EventData::Hash { path } => {
                self.handle_hash_event(&std_info, path, &aux.exe_probe);
            },
            EventData::TaskSched { .. } => {},
            EventData::Error { .. } => {},
            EventData::SyscoreResume => {},
            EventData::Other => {},
        }
        out
    }
}

/// The record uuid value: the task uuid salted with the per-run nonce.
pub open spec fn spec_salted_uuid(u: u128, random: u32) -> u128 {
    u ^ ((random as u128) << 96)
}

/// See [`spec_salted_uuid`].
pub fn salted_uuid(u: u128, random: u32) -> (r: u128)
    ensures
        r == spec_salted_uuid(u, random),
{
    u ^ ((random as u128) << 96)
}

/// The textual name of a prctl option, or `unknown(n)`.
pub open spec fn spec_prctl_option_name(o: u64) -> Seq<char> {
    if o == 1 {
        "PR_SET_PDEATHSIG"@
    } else if o == 2 {
        "PR_GET_PDEATHSIG"@
    } else if o == 3 {
        "PR_GET_DUMPABLE"@
    } else if o == 4 {
        "PR_SET_DUMPABLE"@
    } else if o == 15 {
        "PR_SET_NAME"@
    } else if o == 16 {
        "PR_GET_NAME"@
    } else if o == 22 {
        "PR_SET_SECCOMP"@
    } else if o == 38 {
        "PR_SET_NO_NEW_PRIVS"@
    } else {
        "unknown("@ + crate::text::spec_dec(o as nat) + ")"@
    }
}

/// See [`spec_prctl_option_name`].
pub fn prctl_option_name(o: u64) -> (r: String)
    ensures
        r@ == spec_prctl_option_name(o),
{
    if o == 1 {
        String::from_str("PR_SET_PDEATHSIG")
    } else if o == 2 {
        String::from_str("PR_GET_PDEATHSIG")
    } else if o == 3 {
        String::from_str("PR_GET_DUMPABLE")
    } else if o == 4 {
        String::from_str("PR_SET_DUMPABLE")
    } else if o == 15 {
        String::from_str("PR_SET_NAME")
    } else if o == 16 {
        String::from_str("PR_GET_NAME")
    } else if o == 22 {
        String::from_str("PR_SET_SECCOMP")
    } else if o == 38 {
        String::from_str("PR_SET_NO_NEW_PRIVS")
    } else {
        let mut r = String::from_str("unknown(");
        let d = crate::text::u64_to_dec(o);
        r.append(d.as_str());
        r.append(")");
        proof {
            assert(r@ =~= spec_prctl_option_name(o));
        }
        r
    }
}

/// The textual name of a BPF program type, or `unknown(n)`.
pub open spec fn spec_bpf_type_name(t: u32) -> Seq<char> {
    if t == 1 {
        "socket_filter"@
    } else if t == 2 {
        "kprobe"@
    } else if t == 3 {
        "sched_cls"@
    } else if t == 4 {
        "sched_act"@
    } else if t == 5 {
        "tracepoint"@
    } else if t == 6 {
        "xdp"@
    } else if t == 7 {
        "perf_event"@
    } else if t == 8 {
        "cgroup_skb"@
    } else if t == 9 {
        "cgroup_sock"@
    } else if t == 26 {
        "tracing"@
    } else {
        "unknown("@ + crate::text::spec_dec(t as nat) + ")"@
    }
}

/// See [`spec_bpf_type_name`].
pub fn bpf_type_name(t: u32) -> (r: String)
    ensures
        r@ == spec_bpf_type_name(t),
{
    if t == 1 {
        String::from_str("socket_filter")
    } else if t == 2 {
        String::from_str("kprobe")
    } else if t == 3 {
        String::from_str("sched_cls")
    } else if t == 4 {
        String::from_str("sched_act")
    } else if t == 5 {
        String::from_str("tracepoint")
    } else if t == 6 {
        String::from_str("xdp")
    } else if t == 7 {
        String::from_str("perf_event")
    } else if t == 8 {
        String::from_str("cgroup_skb")
    } else if t == 9 {
        String::from_str("cgroup_sock")
    } else if t == 26 {
        String::from_str("tracing")
    } else {
        let mut r = String::from_str("unknown(");
        let d = crate::text::u64_to_dec(t as u64);
        r.append(d.as_str());
        r.append(")");
        proof {
            assert(r@ =~= spec_bpf_type_name(t));
        }
        r
    }
}

/// The textual name of a socket domain, or `unknown(n)`.
pub open spec fn spec_socket_domain_name(d: u32) -> Seq<char> {
    if d == 1 {
        "unix"@
    } else if d == 2 {
        "inet"@
    } else if d == 10 {
        "inet6"@
    } else if d == 16 {
        "netlink"@
    } else if d == 17 {
        "packet"@
    } else {
        "unknown("@ + crate::text::spec_dec(d as nat) + ")"@
    }
}

/// See [`spec_socket_domain_name`].
pub fn socket_domain_name(d: u32) -> (r: String)
    ensures
        r@ == spec_socket_domain_name(d),
{
    if d == 1 {
        String::from_str("unix")
    } else if d == 2 {
        String::from_str("inet")
    } else if d == 10 {
        String::from_str("inet6")
    } else if d == 16 {
        String::from_str("netlink")
    } else if d == 17 {
        String::from_str("packet")
    } else {
        let mut r = String::from_str("unknown(");
        let x = crate::text::u64_to_dec(d as u64);
        r.append(x.as_str());
        r.append(")");
        proof {
            assert(r@ =~= spec_socket_domain_name(d));
        }
        r
    }
}

/// The textual name of a socket type, or `unknown(n)`.
pub open spec fn spec_socket_type_name(t: u32) -> Seq<char> {
    if t == 1 {
        "stream"@
    } else if t == 2 {
        "dgram"@
    } else if t == 3 {
        "raw"@
    } else {
        "unknown("@ + crate::text::spec_dec(t as nat) + ")"@
    }
}

/// See [`spec_socket_type_name`].
pub fn socket_type_name(t: u32) -> (r: String)
    ensures
        r@ == spec_socket_type_name(t),
{
    if t == 1 {
        String::from_str("stream")
    } else if t == 2 {
        String::from_str("dgram")
    } else if t == 3 {
        String::from_str("raw")
    } else {
        let mut r = String::from_str("unknown(");
        let x = crate::text::u64_to_dec(t as u64);
        r.append(x.as_str());
        r.append(")");
        proof {
            assert(r@ =~= spec_socket_type_name(t));
        }
        r
    }
}

/// The textual name of a DNS transport, or `unknown(n)`.
pub open spec fn spec_proto_name(p: u8) -> Seq<char> {
    if p == 1 {
        "tcp"@
    } else if p == 2 {
        "udp"@
    } else {
        "unknown("@ + crate::text::spec_dec(p as nat) + ")"@
    }
}

/// See [`spec_proto_name`].
pub fn proto_name(p: u8) -> (r: String)
    ensures
        r@ == spec_proto_name(p),
{
    if p == 1 {
        String::from_str("tcp")
    } else if p == 2 {
        String::from_str("udp")
    } else {
        let mut r = String::from_str("unknown(");
        let x = crate::text::u64_to_dec(p as u64);
        r.append(x.as_str());
        r.append(")");
        proof {
            assert(r@ =~= spec_proto_name(p));
        }
        r
    }
}

} // verus!
