//! Event model: the typed records that the kernel probes deliver, with the
//! header fields the pipeline orders and correlates on.

use vstd::prelude::*;

verus! {

/// Kernel process flag marking kernel threads (`PF_KTHREAD` in sched.h).
pub const PF_KTHREAD: u32 = 0x00200000;

/// Discriminant of an event record.
#[derive(Clone, Copy, Debug, PartialEq, Eq, Structural)]
pub enum EventType {
    Unknown,
    Execve,
    ExecveScript,
    TaskSched,
    Exit,
    ExitGroup,
    Clone,
    Prctl,
    InitModule,
    BpfProgLoad,
    BpfSocketFilter,
    MprotectExec,
    MmapExec,
    Connect,
    DnsQuery,
    SendData,
    Read,
    ReadConfig,
    Write,
    WriteConfig,
    FileRename,
    FileUnlink,
    CacheHash,
    Correlation,
    Error,
    SyscoreResume,
    EndEvents,
    Max,
}

impl EventType {
    /// The name under which the type appears in output and configuration.
    pub open spec fn spec_name(self) -> Seq<char> {
        match self {
            EventType::Unknown => "unknown"@,
            EventType::Execve => "execve"@,
            EventType::ExecveScript => "execve_script"@,
            EventType::TaskSched => "task_sched"@,
            EventType::Exit => "exit"@,
            EventType::ExitGroup => "exit_group"@,
            EventType::Clone => "clone"@,
            EventType::Prctl => "prctl"@,
            EventType::InitModule => "init_module"@,
            EventType::BpfProgLoad => "bpf_prog_load"@,
            EventType::BpfSocketFilter => "bpf_socket_filter"@,
            EventType::MprotectExec => "mprotect_exec"@,
            EventType::MmapExec => "mmap_exec"@,
            EventType::Connect => "connect"@,
            EventType::DnsQuery => "dns_query"@,
            EventType::SendData => "send_data"@,
            EventType::Read => "read"@,
            EventType::ReadConfig => "read_config"@,
            EventType::Write => "write"@,
            EventType::WriteConfig => "write_config"@,
            EventType::FileRename => "file_rename"@,
            EventType::FileUnlink => "file_unlink"@,
            EventType::CacheHash => "cache_hash"@,
            EventType::Correlation => "correlation"@,
            EventType::Error => "error"@,
            EventType::SyscoreResume => "syscore_resume"@,
            EventType::EndEvents => "end_events"@,
            EventType::Max => "max"@,
        }
    }

    /// See [`Self::spec_name`].
    pub fn name(&self) -> (r: &'static str)
        ensures
            r@ == self.spec_name(),
    {
        match self {
            EventType::Unknown => "unknown",
            EventType::Execve => "execve",
            EventType::ExecveScript => "execve_script",
            EventType::TaskSched => "task_sched",
            EventType::Exit => "exit",
            EventType::ExitGroup => "exit_group",
            EventType::Clone => "clone",
            EventType::Prctl => "prctl",
            EventType::InitModule => "init_module",
            EventType::BpfProgLoad => "bpf_prog_load",
            EventType::BpfSocketFilter => "bpf_socket_filter",
            EventType::MprotectExec => "mprotect_exec",
            EventType::MmapExec => "mmap_exec",
            EventType::Connect => "connect",
            EventType::DnsQuery => "dns_query",
            EventType::SendData => "send_data",
            EventType::Read => "read",
            EventType::ReadConfig => "read_config",
            EventType::Write => "write",
            EventType::WriteConfig => "write_config",
            EventType::FileRename => "file_rename",
            EventType::FileUnlink => "file_unlink",
            EventType::CacheHash => "cache_hash",
            EventType::Correlation => "correlation",
            EventType::Error => "error",
            EventType::SyscoreResume => "syscore_resume",
            EventType::EndEvents => "end_events",
            EventType::Max => "max",
        }
    }

    /// Internal types never appear on the include/exclude configuration
    /// surface; all others are configurable.
    pub open spec fn spec_is_configurable(self) -> bool {
        !matches!(
            self,
            EventType::Unknown | EventType::CacheHash | EventType::Correlation | EventType::Error
                | EventType::TaskSched | EventType::SyscoreResume | EventType::EndEvents
                | EventType::Max,
        )
    }

    /// See [`Self::spec_is_configurable`].
    pub fn is_configurable(&self) -> (r: bool)
        ensures
            r == self.spec_is_configurable(),
    {
        !matches!(
            self,
            EventType::Unknown | EventType::CacheHash | EventType::Correlation | EventType::Error
                | EventType::TaskSched | EventType::SyscoreResume | EventType::EndEvents
                | EventType::Max,
        )
    }

    /// The type whose name is `s`, if any.
    pub open spec fn spec_from_name(s: Seq<char>) -> Option<EventType> {
        if s == "unknown"@ {
            Some(EventType::Unknown)
        } else if s == "execve"@ {
            Some(EventType::Execve)
        } else if s == "execve_script"@ {
            Some(EventType::ExecveScript)
        } else if s == "task_sched"@ {
            Some(EventType::TaskSched)
        } else if s == "exit"@ {
            Some(EventType::Exit)
        } else if s == "exit_group"@ {
            Some(EventType::ExitGroup)
        } else if s == "clone"@ {
            Some(EventType::Clone)
        } else if s == "prctl"@ {
            Some(EventType::Prctl)
        } else if s == "init_module"@ {
            Some(EventType::InitModule)
        } else if s == "bpf_prog_load"@ {
            Some(EventType::BpfProgLoad)
        } else if s == "bpf_socket_filter"@ {
            Some(EventType::BpfSocketFilter)
        } else if s == "mprotect_exec"@ {
            Some(EventType::MprotectExec)
        } else if s == "mmap_exec"@ {
            Some(EventType::MmapExec)
        } else if s == "connect"@ {
            Some(EventType::Connect)
        } else if s == "dns_query"@ {
            Some(EventType::DnsQuery)
        } else if s == "send_data"@ {
            Some(EventType::SendData)
        } else if s == "read"@ {
            Some(EventType::Read)
        } else if s == "read_config"@ {
            Some(EventType::ReadConfig)
        } else if s == "write"@ {
            Some(EventType::Write)
        } else if s == "write_config"@ {
            Some(EventType::WriteConfig)
        } else if s == "file_rename"@ {
            Some(EventType::FileRename)
        } else if s == "file_unlink"@ {
            Some(EventType::FileUnlink)
        } else if s == "cache_hash"@ {
            Some(EventType::CacheHash)
        } else if s == "correlation"@ {
            Some(EventType::Correlation)
        } else if s == "error"@ {
            Some(EventType::Error)
        } else if s == "syscore_resume"@ {
            Some(EventType::SyscoreResume)
        } else if s == "end_events"@ {
            Some(EventType::EndEvents)
        } else if s == "max"@ {
            Some(EventType::Max)
        } else {
            None
        }
    }

    /// See [`Self::spec_from_name`].
    pub fn from_name(s: &str) -> (r: Option<EventType>)
        ensures
            r == Self::spec_from_name(s@),
    {
        if crate::text::str_eq(s, "unknown") {
            Some(EventType::Unknown)
        } else if crate::text::str_eq(s, "execve") {
            Some(EventType::Execve)
        } else if crate::text::str_eq(s, "execve_script") {
            Some(EventType::ExecveScript)
        } else if crate::text::str_eq(s, "task_sched") {
            Some(EventType::TaskSched)
        } else if crate::text::str_eq(s, "exit") {
            Some(EventType::Exit)
        } else if crate::text::str_eq(s, "exit_group") {
            Some(EventType::ExitGroup)
        } else if crate::text::str_eq(s, "clone") {
            Some(EventType::Clone)
        } else if crate::text::str_eq(s, "prctl") {
            Some(EventType::Prctl)
        } else if crate::text::str_eq(s, "init_module") {
            Some(EventType::InitModule)
        } else if crate::text::str_eq(s, "bpf_prog_load") {
            Some(EventType::BpfProgLoad)
        } else if crate::text::str_eq(s, "bpf_socket_filter") {
            Some(EventType::BpfSocketFilter)
        } else if crate::text::str_eq(s, "mprotect_exec") {
            Some(EventType::MprotectExec)
        } else if crate::text::str_eq(s, "mmap_exec") {
            Some(EventType::MmapExec)
        } else if crate::text::str_eq(s, "connect") {
            Some(EventType::Connect)
        } else if crate::text::str_eq(s, "dns_query") {
            Some(EventType::DnsQuery)
        } else if crate::text::str_eq(s, "send_data") {
            Some(EventType::SendData)
        } else if crate::text::str_eq(s, "read") {
            Some(EventType::Read)
        } else if crate::text::str_eq(s, "read_config") {
            Some(EventType::ReadConfig)
        } else if crate::text::str_eq(s, "write") {
            Some(EventType::Write)
        } else if crate::text::str_eq(s, "write_config") {
            Some(EventType::WriteConfig)
        } else if crate::text::str_eq(s, "file_rename") {
            Some(EventType::FileRename)
        } else if crate::text::str_eq(s, "file_unlink") {
            Some(EventType::FileUnlink)
        } else if crate::text::str_eq(s, "cache_hash") {
            Some(EventType::CacheHash)
        } else if crate::text::str_eq(s, "correlation") {
            Some(EventType::Correlation)
        } else if crate::text::str_eq(s, "error") {
            Some(EventType::Error)
        } else if crate::text::str_eq(s, "syscore_resume") {
            Some(EventType::SyscoreResume)
        } else if crate::text::str_eq(s, "end_events") {
            Some(EventType::EndEvents)
        } else if crate::text::str_eq(s, "max") {
            Some(EventType::Max)
        } else {
            None
        }
    }

    /// The configurable types, in a fixed order.
    pub fn variants() -> (r: Vec<EventType>)
        ensures
            forall|i: int| 0 <= i < r@.len() ==> #[trigger] r@[i].spec_is_configurable(),
    {
        let mut r: Vec<EventType> = Vec::new();
        r.push(EventType::Execve);
        r.push(EventType::ExecveScript);
        r.push(EventType::Exit);
        r.push(EventType::ExitGroup);
        r.push(EventType::Clone);
        r.push(EventType::Prctl);
        r.push(EventType::InitModule);
        r.push(EventType::BpfProgLoad);
        r.push(EventType::BpfSocketFilter);
        r.push(EventType::MprotectExec);
        r.push(EventType::MmapExec);
        r.push(EventType::Connect);
        r.push(EventType::DnsQuery);
        r.push(EventType::SendData);
        r.push(EventType::Read);
        r.push(EventType::ReadConfig);
        r.push(EventType::Write);
        r.push(EventType::WriteConfig);
        r.push(EventType::FileRename);
        r.push(EventType::FileUnlink);
        r
    }
}

/// Identifies a process across its lifetime: tgid plus the kernel-assigned
/// 128-bit task uuid.
#[derive(Clone, Copy, Debug, PartialEq, Eq, Structural)]
pub struct TaskKey {
    pub tgid: i32,
    pub uuid: u128,
}

/// Process identity fields of an event header.
#[derive(Clone, Copy, Debug, PartialEq, Eq, Structural)]
pub struct ProcessInfo {
    pub pid: i32,
    pub tgid: i32,
    pub ppid: i32,
    pub flags: u32,
    pub tg_uuid: u128,
    pub parent_uuid: u128,
    /// Mount namespace id, where the probe could record it.
    pub mnt_ns: Option<u32>,
}

impl ProcessInfo {
    pub open spec fn spec_task_key(self) -> TaskKey {
        TaskKey { tgid: self.tgid, uuid: self.tg_uuid }
    }

    pub open spec fn spec_parent_key(self) -> TaskKey {
        TaskKey { tgid: self.ppid, uuid: self.parent_uuid }
    }

    pub fn task_key(&self) -> (r: TaskKey)
        ensures
            r == self.spec_task_key(),
    {
        TaskKey { tgid: self.tgid, uuid: self.tg_uuid }
    }

    pub fn parent_key(&self) -> (r: TaskKey)
        ensures
            r == self.spec_parent_key(),
    {
        TaskKey { tgid: self.ppid, uuid: self.parent_uuid }
    }

    pub open spec fn spec_is_kernel_thread(self) -> bool {
        self.flags & PF_KTHREAD == PF_KTHREAD
    }

    pub fn is_kernel_thread(&self) -> (r: bool)
        ensures
            r == self.spec_is_kernel_thread(),
    {
        self.flags & PF_KTHREAD == PF_KTHREAD
    }
}

/// Event header: discriminant, monotonic timestamp, userland batch number and
/// process identity.
#[derive(Clone, Copy, Debug)]
pub struct EventInfo {
    pub etype: EventType,
    pub timestamp: u64,
    pub batch: u64,
    pub process: ProcessInfo,
}

/// An IP address as plain values.
#[derive(Clone, Copy, Debug, PartialEq, Eq, Structural)]
pub enum Ip {
    V4(u32),
    V6(u128),
}

impl Ip {
    pub open spec fn spec_is_v6(self) -> bool {
        matches!(self, Ip::V6(_))
    }

    pub fn is_v6(&self) -> (r: bool)
        ensures
            r == self.spec_is_v6(),
    {
        matches!(self, Ip::V6(_))
    }

    /// Textual form: dotted decimal octets for v4; eight colon-separated
    /// four-digit hex groups for v6, never compressed.
    pub open spec fn spec_text(self) -> Seq<char> {
        match self {
            Ip::V4(a) => crate::text::spec_dec(((a >> 24) & 0xff) as nat) + "."@
                + crate::text::spec_dec(((a >> 16) & 0xff) as nat) + "."@ + crate::text::spec_dec(
                ((a >> 8) & 0xff) as nat,
            ) + "."@ + crate::text::spec_dec((a & 0xff) as nat),
            Ip::V6(a) => crate::text::spec_hex4(((a >> 112) & 0xffff) as u16) + ":"@
                + crate::text::spec_hex4(((a >> 96) & 0xffff) as u16) + ":"@
                + crate::text::spec_hex4(((a >> 80) & 0xffff) as u16) + ":"@
                + crate::text::spec_hex4(((a >> 64) & 0xffff) as u16) + ":"@
                + crate::text::spec_hex4(((a >> 48) & 0xffff) as u16) + ":"@
                + crate::text::spec_hex4(((a >> 32) & 0xffff) as u16) + ":"@
                + crate::text::spec_hex4(((a >> 16) & 0xffff) as u16) + ":"@
                + crate::text::spec_hex4((a & 0xffff) as u16),
        }
    }

    /// See [`Self::spec_text`].
    pub fn text(&self) -> (r: String)
        ensures
            r@ == self.spec_text(),
    {
        match self {
            Ip::V4(a) => {
                let a = *a;
                proof {
                    assert(((a >> 24) & 0xff) <= 0xff && ((a >> 16) & 0xff) <= 0xff && ((a >> 8)
                        & 0xff) <= 0xff && (a & 0xff) <= 0xff) by (bit_vector);
                }
                let mut r = crate::text::u64_to_dec(((a >> 24) & 0xff) as u64);
                r.append(".");
                let d = crate::text::u64_to_dec(((a >> 16) & 0xff) as u64);
                r.append(d.as_str());
                r.append(".");
                let d = crate::text::u64_to_dec(((a >> 8) & 0xff) as u64);
                r.append(d.as_str());
                r.append(".");
                let d = crate::text::u64_to_dec((a & 0xff) as u64);
                r.append(d.as_str());
                proof {
                    assert(r@ =~= self.spec_text());
                }
                r
            },
            Ip::V6(a) => {
                let a = *a;
                let mut r = crate::text::hex4(((a >> 112) & 0xffff) as u16);
                r.append(":");
                let g = crate::text::hex4(((a >> 96) & 0xffff) as u16);
                r.append(g.as_str());
                r.append(":");
                let g = crate::text::hex4(((a >> 80) & 0xffff) as u16);
                r.append(g.as_str());
                r.append(":");
                let g = crate::text::hex4(((a >> 64) & 0xffff) as u16);
                r.append(g.as_str());
                r.append(":");
                let g = crate::text::hex4(((a >> 48) & 0xffff) as u16);
                r.append(g.as_str());
                r.append(":");
                let g = crate::text::hex4(((a >> 32) & 0xffff) as u16);
                r.append(g.as_str());
                r.append(":");
                let g = crate::text::hex4(((a >> 16) & 0xffff) as u16);
                r.append(g.as_str());
                r.append(":");
                let g = crate::text::hex4((a & 0xffff) as u16);
                r.append(g.as_str());
                proof {
                    assert(r@ =~= self.spec_text());
                }
                r
            },
        }
    }

    /// Whether the address is public: neither loopback, private, link-local,
    /// carrier-grade NAT, multicast, unspecified nor broadcast for v4;
    /// neither loopback, unspecified, link-local, unique-local nor multicast
    /// for v6.
    pub open spec fn spec_is_public(self) -> bool {
        match self {
            Ip::V4(a) => {
                &&& !((a >> 24) == 10)  // 10.0.0.0/8
                &&& !((a >> 20) == 0xac1)  // 172.16.0.0/12
                &&& !((a >> 16) == 0xc0a8)  // 192.168.0.0/16
                &&& !((a >> 24) == 127)  // loopback
                &&& !((a >> 16) == 0xa9fe)  // 169.254.0.0/16
                &&& !((a >> 22) == 0x191)  // 100.64.0.0/10
                &&& !((a >> 28) == 0xe)  // multicast
                &&& !((a >> 24) == 0)  // 0.0.0.0/8
                &&& !(a == 0xffffffff)  // broadcast
            },
            Ip::V6(a) => {
                &&& !(a == 1)  // loopback
                &&& !(a == 0)  // unspecified
                &&& !((a >> 118) == 0x3fa)  // fe80::/10 link-local
                &&& !((a >> 121) == 0x7e)  // fc00::/7 unique-local
                &&& !((a >> 120) == 0xff)  // multicast
            },
        }
    }

    /// See [`Self::spec_is_public`].
    pub fn is_public(&self) -> (r: bool)
        ensures
            r == self.spec_is_public(),
    {
        match self {
            Ip::V4(a) => {
                let a = *a;
                !((a >> 24) == 10) && !((a >> 20) == 0xac1) && !((a >> 16) == 0xc0a8) && !((a
                    >> 24) == 127) && !((a >> 16) == 0xa9fe) && !((a >> 22) == 0x191) && !((a
                    >> 28) == 0xe) && !((a >> 24) == 0) && !(a == 0xffffffff)
            },
            Ip::V6(a) => {
                let a = *a;
                !(a == 1) && !(a == 0) && !((a >> 118) == 0x3fa) && !((a >> 121) == 0x7e) && !((a
                    >> 120) == 0xff)
            },
        }
    }
}

/// Cgroup path recorded by the probe, with an error marker when the probe
/// could not parse it.
#[derive(Clone, Debug)]
pub struct CgroupInfo {
    pub path: String,
    pub error: Option<String>,
}

/// One answer of a DNS response: its textual value, and the address it
/// parses to when it is an address literal.
#[derive(Clone, Debug)]
pub struct DnsAnswer {
    pub value: String,
    pub ip: Option<Ip>,
}

/// One parsed DNS answer section: the queried name and its answers.
#[derive(Clone, Debug)]
pub struct DnsResponse {
    pub question: String,
    pub answers: Vec<DnsAnswer>,
}

/// Digest set of a loaded program, hex-encoded.
#[derive(Clone, Debug)]
pub struct ProgHashes {
    pub md5: String,
    pub sha1: String,
    pub sha256: String,
    pub sha512: String,
    pub size: u64,
}

/// Severity of a probe-side error report.
#[derive(Clone, Copy, Debug, PartialEq, Eq, Structural)]
pub enum ErrorLevel {
    Warn,
    Error,
}

/// Fields common to correlation-origin payloads.
#[derive(Clone, Debug)]
pub struct CorrelationData {
    /// Type of the record the correlation was derived from.
    pub origin: EventType,
    pub exe: String,
    pub argv: Vec<String>,
    pub cgroup: CgroupInfo,
    pub nodename: Option<String>,
}

/// Type-specific payload of an event record.
#[derive(Clone, Debug)]
pub enum EventData {
    Execve {
        executable: String,
        interpreter: String,
        argv: Vec<String>,
        cgroup: CgroupInfo,
        nodename: Option<String>,
    },
    Clone {
        executable: String,
        argv: Vec<String>,
        flags: u64,
        cgroup: CgroupInfo,
        nodename: Option<String>,
    },
    Prctl { option: u64, arg2: u64, arg3: u64, arg4: u64, arg5: u64, success: bool },
    InitModule { name: String, uargs: String, syscall: String, loaded: bool },
    BpfProgLoad {
        id: u32,
        prog_type: u32,
        tag: Vec<u8>,
        attached_func: String,
        name: String,
        ksym: String,
        verified_insns: u32,
        loaded: bool,
        /// Translated instructions dumped by the loader, when they could be
        /// retrieved before the program was unloaded.
        insns: Option<Vec<u8>>,
        hashes: Option<ProgHashes>,
    },
    BpfSocketFilter { domain: u32, ty: u32, filter: Vec<u8>, filter_len: u32, attached: bool },
    MprotectExec { start: u64, prot: u64 },
    MmapExec { filename: String },
    Connect { ip: Ip, port: u16, connected: bool },
    DnsQuery { ip: Ip, port: u16, proto: u8, responses: Vec<DnsResponse> },
    SendData { ip: Ip, port: u16, data_size: u64 },
    Rw { path: String },
    FileUnlink { path: String, success: bool },
    FileRename { old_name: String, new_name: String },
    Exit { error_code: u64 },
    Correlation(CorrelationData),
    TaskSched { exe: String, argv: Vec<String>, cgroup: CgroupInfo, nodename: Option<String> },
    Hash { path: String },
    Error { level: ErrorLevel, message: String },
    SyscoreResume,
    Other,
}

/// The two string lists agree character for character.
pub open spec fn strs_eqv(a: Seq<String>, b: Seq<String>) -> bool {
    a.map_values(|p: String| p@) == b.map_values(|p: String| p@)
}

/// The two optional strings agree character for character.
pub open spec fn opt_str_eqv(a: Option<String>, b: Option<String>) -> bool {
    match (a, b) {
        (Some(x), Some(y)) => x@ == y@,
        (None, None) => true,
        _ => false,
    }
}

/// The two cgroup records agree character for character.
pub open spec fn cgroup_eqv(a: CgroupInfo, b: CgroupInfo) -> bool {
    a.path@ == b.path@ && opt_str_eqv(a.error, b.error)
}

impl CgroupInfo {
    /// A copy, character for character.
    pub fn duplicate(&self) -> (r: CgroupInfo)
        ensures
            cgroup_eqv(r, *self),
    {
        CgroupInfo {
            path: self.path.clone(),
            error: match &self.error {
                Some(e) => Some(e.clone()),
                None => None,
            },
        }
    }
}

/// A decoded event record. Only records whose header decoded enter the
/// pipeline, so the header is always present here.
#[derive(Clone, Debug)]
pub struct Event {
    pub info: EventInfo,
    pub data: EventData,
}

impl Event {
    /// The payload variant agrees with the header discriminant.
    pub open spec fn wf(self) -> bool {
        match self.info.etype {
            EventType::Execve | EventType::ExecveScript => matches!(
                self.data,
                EventData::Execve { .. },
            ),
            EventType::Clone => matches!(self.data, EventData::Clone { .. }),
            EventType::Prctl => matches!(self.data, EventData::Prctl { .. }),
            EventType::InitModule => matches!(self.data, EventData::InitModule { .. }),
            EventType::BpfProgLoad => matches!(self.data, EventData::BpfProgLoad { .. }),
            EventType::BpfSocketFilter => matches!(self.data, EventData::BpfSocketFilter { .. }),
            EventType::MprotectExec => matches!(self.data, EventData::MprotectExec { .. }),
            EventType::MmapExec => matches!(self.data, EventData::MmapExec { .. }),
            EventType::Connect => matches!(self.data, EventData::Connect { .. }),
            EventType::DnsQuery => matches!(self.data, EventData::DnsQuery { .. }),
            EventType::SendData => matches!(self.data, EventData::SendData { .. }),
            EventType::Read | EventType::ReadConfig | EventType::Write
                | EventType::WriteConfig => matches!(self.data, EventData::Rw { .. }),
            EventType::FileUnlink => matches!(self.data, EventData::FileUnlink { .. }),
            EventType::FileRename => matches!(self.data, EventData::FileRename { .. }),
            EventType::Exit | EventType::ExitGroup => matches!(self.data, EventData::Exit { .. }),
            EventType::Correlation => matches!(self.data, EventData::Correlation(_)),
            EventType::TaskSched => matches!(self.data, EventData::TaskSched { .. }),
            EventType::CacheHash => matches!(self.data, EventData::Hash { .. }),
            EventType::Error => matches!(self.data, EventData::Error { .. }),
            EventType::SyscoreResume => matches!(self.data, EventData::SyscoreResume),
            EventType::Unknown | EventType::EndEvents | EventType::Max => matches!(
                self.data,
                EventData::Other,
            ),
        }
    }
}

} // verus!
