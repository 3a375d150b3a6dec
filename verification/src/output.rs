//! The user-facing event records the consumer builds, and the indicator
//! strings extracted from them for scanning.

use vstd::prelude::*;

use crate::cache::Hashes;
use crate::containers::Container;
use crate::events::{EventInfo, Ip, TaskKey};
use crate::scanner::ScanResult;

verus! {

/// Peer of a network event.
#[derive(Debug)]
pub struct NetworkInfo {
    pub hostname: Option<String>,
    pub ip: Ip,
    pub port: u16,
    pub public: bool,
    pub is_v6: bool,
}

/// Header of an emitted record: the kernel header plus host and container
/// identity and the salted record uuid.
#[derive(Debug)]
pub struct StdEventInfo {
    pub info: EventInfo,
    pub host_name: String,
    /// Hyphenated host uuid.
    pub host_uuid: String,
    /// Hyphenated per-record uuid, salted with the run nonce.
    pub event_uuid: String,
    /// Set only when the record's mount namespace differs from the daemon's.
    pub container_name: Option<String>,
    pub container_type: Option<Container>,
}

impl StdEventInfo {
    pub open spec fn spec_task_key(self) -> TaskKey {
        self.info.process.spec_task_key()
    }

    pub open spec fn spec_parent_key(self) -> TaskKey {
        self.info.process.spec_parent_key()
    }

    pub fn task_key(&self) -> (r: TaskKey)
        ensures
            r == self.spec_task_key(),
    {
        self.info.process.task_key()
    }

    pub fn parent_key(&self) -> (r: TaskKey)
        ensures
            r == self.spec_parent_key(),
    {
        self.info.process.parent_key()
    }
}

#[derive(Debug)]
pub struct ExecveData {
    pub ancestors: String,
    pub parent_exe: String,
    pub command_line: String,
    pub exe: Hashes,
    pub interpreter: Option<Hashes>,
}

#[derive(Debug)]
pub struct CloneData {
    pub ancestors: String,
    pub exe: String,
    pub command_line: String,
    pub flags: u64,
}

#[derive(Debug)]
pub struct PrctlData {
    pub ancestors: String,
    pub exe: String,
    pub command_line: String,
    pub option: String,
    pub arg2: u64,
    pub arg3: u64,
    pub arg4: u64,
    pub arg5: u64,
    pub success: bool,
}

#[derive(Debug)]
pub struct MmapExecData {
    pub ancestors: String,
    pub command_line: String,
    pub exe: String,
    pub mapped: Hashes,
}

#[derive(Debug)]
pub struct DnsQueryData {
    pub ancestors: String,
    pub command_line: String,
    pub exe: String,
    pub query: String,
    pub proto: String,
    pub responses: Vec<String>,
    pub dns_server: NetworkInfo,
}

#[derive(Debug)]
pub struct RWData {
    pub ancestors: String,
    pub command_line: String,
    pub exe: String,
    pub path: String,
}

#[derive(Debug)]
pub struct UnlinkData {
    pub ancestors: String,
    pub command_line: String,
    pub exe: String,
    pub path: String,
    pub success: bool,
}

#[derive(Debug)]
pub struct BpfProgTypeInfo {
    pub id: u32,
    pub name: String,
}

#[derive(Debug)]
pub struct BpfProgInfo {
    pub md5: String,
    pub sha1: String,
    pub sha256: String,
    pub sha512: String,
    pub size: u64,
}

#[derive(Debug)]
pub struct BpfProgLoadData {
    pub ancestors: String,
    pub command_line: String,
    pub exe: String,
    pub id: u32,
    pub prog_type: BpfProgTypeInfo,
    pub tag: String,
    pub attached_func: String,
    pub name: String,
    pub ksym: String,
    pub bpf_prog: BpfProgInfo,
    pub verified_insns: u32,
    pub loaded: bool,
}

#[derive(Debug)]
pub struct SocketInfo {
    pub domain: String,
    pub ty: String,
}

#[derive(Debug)]
pub struct FilterInfo {
    pub md5: String,
    pub sha1: String,
    pub sha256: String,
    pub sha512: String,
    /// Length in socket-filter blocks.
    pub len: u32,
    /// Size in bytes.
    pub size: u64,
}

#[derive(Debug)]
pub struct BpfSocketFilterData {
    pub ancestors: String,
    pub command_line: String,
    pub exe: String,
    pub socket: SocketInfo,
    pub filter: FilterInfo,
    pub attached: bool,
}

#[derive(Debug)]
pub struct MprotectData {
    pub ancestors: String,
    pub command_line: String,
    pub exe: String,
    pub addr: u64,
    pub prot: u64,
}

#[derive(Debug)]
pub struct ConnectData {
    pub ancestors: String,
    pub command_line: String,
    pub exe: String,
    pub dst: NetworkInfo,
    pub connected: bool,
}

#[derive(Debug)]
pub struct SendDataData {
    pub ancestors: String,
    pub exe: String,
    pub command_line: String,
    pub dst: NetworkInfo,
    pub data_size: u64,
}

#[derive(Debug)]
pub struct InitModuleData {
    pub ancestors: String,
    pub command_line: String,
    pub exe: String,
    pub syscall: String,
    pub module_name: String,
    pub args: String,
    pub loaded: bool,
}

#[derive(Debug)]
pub struct FileRenameData {
    pub ancestors: String,
    pub command_line: String,
    pub exe: String,
    pub old: String,
    pub new: String,
}

#[derive(Debug)]
pub struct ExitData {
    pub ancestors: String,
    pub command_line: String,
    pub exe: String,
    pub error_code: u64,
}

/// Payload of an emitted record.
#[derive(Debug)]
pub enum UserEventData {
    Execve(ExecveData),
    Clone(CloneData),
    Prctl(PrctlData),
    MmapExec(MmapExecData),
    DnsQuery(DnsQueryData),
    Rw(RWData),
    Unlink(UnlinkData),
    BpfProgLoad(BpfProgLoadData),
    BpfSocketFilter(BpfSocketFilterData),
    Mprotect(MprotectData),
    Connect(ConnectData),
    SendData(SendDataData),
    InitModule(InitModuleData),
    FileRename(FileRenameData),
    Exit(ExitData),
}

/// One record of the output stream. `detection` is present only when the
/// scan found a detection.
#[derive(Debug)]
pub struct EmittedEvent {
    pub name: String,
    pub info: StdEventInfo,
    pub data: UserEventData,
    pub detection: Option<ScanResult>,
}

/// The indicator candidates of a digest record.
pub open spec fn spec_hashes_iocs(h: Hashes) -> Seq<Seq<char>> {
    seq![h.md5@, h.sha1@, h.sha256@, h.sha512@, h.file@]
}

fn push_hashes_iocs(out: &mut Vec<String>, h: &Hashes)
    ensures
        final(out)@.map_values(|p: String| p@) == old(out)@.map_values(|p: String| p@)
            + spec_hashes_iocs(*h),
{
    out.push(h.md5.clone());
    out.push(h.sha1.clone());
    out.push(h.sha256.clone());
    out.push(h.sha512.clone());
    out.push(h.file.clone());
    proof {
        assert(final(out)@.map_values(|p: String| p@) =~= old(out)@.map_values(|p: String| p@)
            + spec_hashes_iocs(*h));
    }
}

impl UserEventData {
    /// The indicator candidates of a record: file digests and paths of what
    /// ran or was mapped, queried names and answers, and peer addresses.
    pub open spec fn spec_iocs(self) -> Seq<Seq<char>> {
        match self {
            UserEventData::Execve(d) => spec_hashes_iocs(d.exe) + (match d.interpreter {
                Some(h) => spec_hashes_iocs(h),
                None => Seq::empty(),
            }),
            UserEventData::MmapExec(d) => spec_hashes_iocs(d.mapped),
            UserEventData::BpfSocketFilter(d) => seq![
                d.filter.md5@,
                d.filter.sha1@,
                d.filter.sha256@,
                d.filter.sha512@,
            ],
            UserEventData::BpfProgLoad(d) => seq![
                d.bpf_prog.md5@,
                d.bpf_prog.sha1@,
                d.bpf_prog.sha256@,
                d.bpf_prog.sha512@,
            ],
            UserEventData::DnsQuery(d) => seq![d.query@] + d.responses@.map_values(
                |p: String| p@,
            ) + seq![d.dns_server.ip.spec_text()],
            UserEventData::Connect(d) => (match d.dst.hostname {
                Some(h) => seq![h@],
                None => Seq::empty(),
            }) + seq![d.dst.ip.spec_text()],
            UserEventData::SendData(d) => (match d.dst.hostname {
                Some(h) => seq![h@],
                None => Seq::empty(),
            }) + seq![d.dst.ip.spec_text()],
            _ => Seq::empty(),
        }
    }

    /// See [`Self::spec_iocs`].
    pub fn iocs(&self) -> (r: Vec<String>)
        ensures
            r@.map_values(|p: String| p@) == self.spec_iocs(),
    {
        let mut out: Vec<String> = Vec::new();
        match self {
            UserEventData::Execve(d) => {
                push_hashes_iocs(&mut out, &d.exe);
                match &d.interpreter {
                    Some(h) => {
                        push_hashes_iocs(&mut out, h);
                    },
                    None => {},
                }
                proof {
                    assert(out@.map_values(|p: String| p@) =~= self.spec_iocs());
                }
            },
            UserEventData::MmapExec(d) => {
                push_hashes_iocs(&mut out, &d.mapped);
                proof {
                    assert(out@.map_values(|p: String| p@) =~= self.spec_iocs());
                }
            },
            UserEventData::BpfSocketFilter(d) => {
                out.push(d.filter.md5.clone());
                out.push(d.filter.sha1.clone());
                out.push(d.filter.sha256.clone());
                out.push(d.filter.sha512.clone());
                proof {
                    assert(out@.map_values(|p: String| p@) =~= self.spec_iocs());
                }
            },
            UserEventData::BpfProgLoad(d) => {
                out.push(d.bpf_prog.md5.clone());
                out.push(d.bpf_prog.sha1.clone());
                out.push(d.bpf_prog.sha256.clone());
                out.push(d.bpf_prog.sha512.clone());
                proof {
                    assert(out@.map_values(|p: String| p@) =~= self.spec_iocs());
                }
            },
            UserEventData::DnsQuery(d) => {
                out.push(d.query.clone());
                let n = d.responses.len();
                for i in 0..n
                    invariant
                        n == d.responses@.len(),
                        out@.len() == i + 1,
                        out@.map_values(|p: String| p@) == seq![d.query@]
                            + d.responses@.map_values(|p: String| p@).take(i as int),
                {
                    let c = d.responses[i].clone();
                    let ghost out0 = out@;
                    out.push(c);
                    proof {
                        let m = d.responses@.map_values(|p: String| p@);
                        assert(m.take(i + 1) =~= m.take(i as int).push(m[i as int]));
                        assert(m[i as int] == d.responses@[i as int]@);
                        assert(out@ =~= out0.push(c));
                        assert(out@.map_values(|p: String| p@) =~= out0.map_values(
                            |p: String| p@,
                        ).push(c@));
                        assert(out@.map_values(|p: String| p@) =~= seq![d.query@] + m.take(i + 1));
                    }
                }
                out.push(d.dns_server.ip.text());
                proof {
                    let m = d.responses@.map_values(|p: String| p@);
                    assert(m.take(n as int) =~= m);
                    assert(out@.map_values(|p: String| p@) =~= self.spec_iocs());
                }
            },
            UserEventData::Connect(d) => {
                match &d.dst.hostname {
                    Some(h) => {
                        out.push(h.clone());
                    },
                    None => {},
                }
                out.push(d.dst.ip.text());
                proof {
                    assert(out@.map_values(|p: String| p@) =~= self.spec_iocs());
                }
            },
            UserEventData::SendData(d) => {
                match &d.dst.hostname {
                    Some(h) => {
                        out.push(h.clone());
                    },
                    None => {},
                }
                out.push(d.dst.ip.text());
                proof {
                    assert(out@.map_values(|p: String| p@) =~= self.spec_iocs());
                }
            },
            _ => {
                proof {
                    assert(out@.map_values(|p: String| p@) =~= self.spec_iocs());
                }
            },
        }
        out
    }
}

} // verus!
