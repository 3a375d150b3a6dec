//! End-to-end scenarios over the producer and consumer.

use kunai::cache::FileProbe;
use kunai::config::Config;
use kunai::consumer::{EventAux, EventConsumer, SystemInfo};
use kunai::events::{
    CgroupInfo, DnsAnswer, DnsResponse, Event, EventData, EventInfo, EventType, Ip, ProcessInfo,
};
use kunai::output::UserEventData;
use kunai::producer::{EventProducer, Filter};

fn process(pid: i32, tgid: i32, flags: u32, uuid: u128, parent_uuid: u128) -> ProcessInfo {
    ProcessInfo {
        pid,
        tgid,
        ppid: 1,
        flags,
        tg_uuid: uuid,
        parent_uuid,
        mnt_ns: Some(4026531840),
    }
}

fn info(etype: EventType, timestamp: u64, proc_info: ProcessInfo) -> EventInfo {
    EventInfo {
        etype,
        timestamp,
        batch: 0,
        process: proc_info,
    }
}

fn connect_event(timestamp: u64, ip: Ip, port: u16) -> Event {
    Event {
        info: info(EventType::Connect, timestamp, process(100, 100, 0, 7, 1)),
        data: EventData::Connect {
            ip,
            port,
            connected: true,
        },
    }
}

fn no_cgroup() -> CgroupInfo {
    CgroupInfo {
        path: String::from("/system.slice/x.service"),
        error: None,
    }
}

fn execve_data(exe: &str, interp: &str, argv: &[&str]) -> EventData {
    EventData::Execve {
        executable: String::from(exe),
        interpreter: String::from(interp),
        argv: argv.iter().map(|s| String::from(*s)).collect(),
        cgroup: no_cgroup(),
        nodename: None,
    }
}

fn aux_with_content(content: &[u8]) -> EventAux {
    EventAux {
        exe_probe: FileProbe::Found {
            inode: 42,
            size: content.len() as u64,
            mtime: 1000,
            content: content.to_vec(),
        },
        interpreter_probe: FileProbe::Found {
            inode: 43,
            size: 3,
            mtime: 1000,
            content: vec![1, 2, 3],
        },
        procfs_cgroups: None,
    }
}

fn consumer() -> EventConsumer {
    let config = Config {
        host_uuid: Some(0xabcdef),
        output: String::from("stdout"),
        max_buffered_events: 64,
        send_data_min_len: None,
        rules: vec![],
        iocs: vec![],
        events: Config::default_events(),
    };
    let system_info = SystemInfo {
        host_uuid: 0,
        hostname: String::from("testhost"),
        mount_ns: 4026531840,
    };
    EventConsumer::with_config(&config, system_info, 0x1234, 999999).unwrap()
}

fn producer() -> EventProducer {
    let config_events = Config::default_events();
    EventProducer::with_params(Filter::from_events(&config_events))
}

#[test]
fn lost_batch_ordering() {
    // Three CPUs feed timestamps [10,30], [20,40], [15,25] in one cycle:
    // nothing may be drained, because every record is of the current batch.
    let mut p = producer();
    let reads = vec![
        vec![connect_event(10, Ip::V4(1), 1), connect_event(30, Ip::V4(1), 1)],
        vec![connect_event(20, Ip::V4(1), 1), connect_event(40, Ip::V4(1), 1)],
        vec![connect_event(15, Ip::V4(1), 1), connect_event(25, Ip::V4(1), 1)],
    ];
    let (passed, drained) = p.produce_cycle(reads);
    assert!(passed.is_empty());
    assert!(drained.is_empty());
    assert_eq!(p.batch, 1);

    // The next batch delivers one record; exactly the six older-batch
    // records leave, in timestamp order.
    let reads2 = vec![vec![connect_event(50, Ip::V4(1), 1)], vec![], vec![]];
    let (passed2, drained2) = p.produce_cycle(reads2);
    assert!(passed2.is_empty());
    let ts: Vec<u64> = drained2.iter().map(|e| e.info.timestamp).collect();
    assert_eq!(ts, vec![10, 15, 20, 25, 30, 40]);
    assert!(drained2.iter().all(|e| e.info.batch == 0));
    assert!(p.has_pending_events());
}

#[test]
fn current_batch_records_never_drain() {
    // Even a current-batch record whose timestamp sorts before an older
    // record stays in the pipe until a newer batch begins.
    let mut p = producer();
    let (_, d1) = p.produce_cycle(vec![vec![connect_event(10, Ip::V4(1), 1)]]);
    assert!(d1.is_empty());
    assert_eq!(p.batch, 1);
    // ts 5 arrives in batch 1, older than the queued batch-0 record
    let (_, d2) = p.produce_cycle(vec![vec![connect_event(5, Ip::V4(1), 1)]]);
    let ts: Vec<u64> = d2.iter().map(|e| e.info.timestamp).collect();
    assert_eq!(ts, vec![10]);
    assert!(d2.iter().all(|e| e.info.batch == 0));
    assert!(p.has_pending_events());
}

#[test]
fn drain_is_sorted_for_shuffled_input() {
    let mut p = producer();
    let reads = vec![vec![
        connect_event(9, Ip::V4(1), 1),
        connect_event(3, Ip::V4(1), 1),
        connect_event(7, Ip::V4(1), 1),
    ]];
    let (_, drained) = p.produce_cycle(reads);
    assert!(drained.is_empty());
    let reads2 = vec![vec![connect_event(100, Ip::V4(1), 1)]];
    let (_, drained2) = p.produce_cycle(reads2);
    let ts: Vec<u64> = drained2.iter().map(|e| e.info.timestamp).collect();
    assert_eq!(ts, vec![3, 7, 9]);
}

#[test]
fn execve_script_relabel() {
    // An execve whose interpreter differs from its executable becomes a
    // script execution in the reader, before ordering.
    let mut p = producer();
    let e = Event {
        info: info(EventType::Execve, 5, process(100, 100, 0, 7, 1)),
        data: execve_data("/tmp/x.py", "/usr/bin/python3", &["python3", "/tmp/x.py"]),
    };
    let (e2, consumed) = p.process_time_critical(e);
    assert!(!consumed);
    assert_eq!(e2.info.etype, EventType::ExecveScript);

    let plain = Event {
        info: info(EventType::Execve, 5, process(100, 100, 0, 7, 1)),
        data: execve_data("/usr/bin/python3", "/usr/bin/python3", &["python3"]),
    };
    let (p2, consumed2) = p.process_time_critical(plain);
    assert!(!consumed2);
    assert_eq!(p2.info.etype, EventType::Execve);
}

#[test]
fn syscore_resume_sets_reload() {
    let mut p = producer();
    assert!(!p.reload);
    let e = Event {
        info: info(EventType::SyscoreResume, 5, process(1, 1, 0, 1, 0)),
        data: EventData::SyscoreResume,
    };
    let (_, consumed) = p.process_time_critical(e);
    assert!(consumed);
    assert!(p.reload);
}

#[test]
fn pass_through_fans_out_hash_and_correlation() {
    let p = producer();
    let e = Event {
        info: info(EventType::ExecveScript, 5, process(100, 100, 0, 7, 1)),
        data: execve_data("/tmp/x.py", "/usr/bin/python3", &["/tmp/x.py"]),
    };
    let out = p.pass_through_events(&e);
    // executable, differing interpreter, and absolute argv[0]
    assert_eq!(out.len(), 3);
    assert!(out.iter().all(|d| d.info.etype == EventType::CacheHash));

    let sched = Event {
        info: info(EventType::TaskSched, 6, process(100, 100, 0, 7, 1)),
        data: EventData::TaskSched {
            exe: String::from("/bin/task"),
            argv: vec![String::from("task")],
            cgroup: no_cgroup(),
            nodename: None,
        },
    };
    let out2 = p.pass_through_events(&sched);
    assert_eq!(out2.len(), 1);
    assert_eq!(out2[0].info.etype, EventType::Correlation);
}

#[test]
fn execve_script_scenario() {
    // S1: a plain execve, then a script execution; the second emitted record
    // is named execve_script and carries the interpreter digests.
    let mut c = consumer();
    let mut p = producer();
    let aux = aux_with_content(b"#!x");

    let first = Event {
        info: info(EventType::Execve, 10, process(100, 100, 0, 7, 1)),
        data: execve_data("/usr/bin/python3", "/usr/bin/python3", &["python3", "/tmp/x.py"]),
    };
    let (first, _) = p.process_time_critical(first);
    assert_eq!(first.info.etype, EventType::Execve);
    let out1 = c.handle_event(&first, &aux);
    assert_eq!(out1.len(), 1);

    let second = Event {
        info: info(EventType::Execve, 20, process(100, 100, 0, 7, 1)),
        data: execve_data("/tmp/x.py", "/usr/bin/python3", &["python3", "/tmp/x.py"]),
    };
    let (second, _) = p.process_time_critical(second);
    assert_eq!(second.info.etype, EventType::ExecveScript);
    let out2 = c.handle_event(&second, &aux);
    assert_eq!(out2.len(), 1);

    let emitted1 = c.scan_and_finalize(out1.into_iter().next().unwrap(), None).unwrap();
    assert_eq!(emitted1.name, "execve");
    let emitted2 = c.scan_and_finalize(out2.into_iter().next().unwrap(), None).unwrap();
    assert_eq!(emitted2.name, "execve_script");
    match &emitted2.data {
        UserEventData::Execve(d) => {
            let interp = d.interpreter.as_ref().expect("interpreter digests expected");
            assert!(interp.error.is_none());
            assert_eq!(d.exe.file, "/tmp/x.py");
        }
        _ => panic!("expected an execve record"),
    }
    match &emitted1.data {
        UserEventData::Execve(d) => assert!(d.interpreter.is_none()),
        _ => panic!("expected an execve record"),
    }

    // execve replacement: the lineage record now carries the new image
    let key = second.info.process.task_key();
    assert_eq!(c.get_exe(key), "/tmp/x.py");
    assert_eq!(c.get_command_line(key), "python3 /tmp/x.py");
}

#[test]
fn dns_then_connect_scenario() {
    // S2: a DNS answer resolving example.com, then a connect to the same
    // address: the connect record names the destination.
    let mut c = consumer();
    let aux = aux_with_content(b"");
    let addr = Ip::V4(0x5DB8_D822); // 93.184.216.34

    let dns = Event {
        info: info(EventType::DnsQuery, 10, process(100, 100, 0, 7, 1)),
        data: EventData::DnsQuery {
            ip: Ip::V4(0x0A00_0001),
            port: 53,
            proto: 2,
            responses: vec![DnsResponse {
                question: String::from("example.com"),
                answers: vec![DnsAnswer {
                    value: String::from("93.184.216.34"),
                    ip: Some(addr),
                }],
            }],
        },
    };
    let out = c.handle_event(&dns, &aux);
    assert_eq!(out.len(), 1);
    match &out[0].data {
        UserEventData::DnsQuery(d) => {
            assert_eq!(d.query, "example.com");
            assert_eq!(d.proto, "udp");
        }
        _ => panic!("expected a dns record"),
    }

    let connect = Event {
        info: info(EventType::Connect, 20, process(100, 100, 0, 7, 1)),
        data: EventData::Connect {
            ip: addr,
            port: 443,
            connected: true,
        },
    };
    let out2 = c.handle_event(&connect, &aux);
    assert_eq!(out2.len(), 1);
    match &out2[0].data {
        UserEventData::Connect(d) => {
            assert_eq!(d.dst.hostname.as_deref(), Some("example.com"));
            assert_eq!(d.dst.port, 443);
            assert!(d.dst.public);
            assert!(!d.dst.is_v6);
        }
        _ => panic!("expected a connect record"),
    }
}

#[test]
fn ioc_override_scenario() {
    // S4: a loaded indicator matching the DNS question forces an emitted
    // detection with maximum severity and exactly the matching indicator.
    let mut c = consumer();
    c.load_iocs(vec![String::from("badhost.example")]);
    let aux = aux_with_content(b"");

    let dns = Event {
        info: info(EventType::DnsQuery, 10, process(100, 100, 0, 7, 1)),
        data: EventData::DnsQuery {
            ip: Ip::V4(0x0A00_0001),
            port: 53,
            proto: 2,
            responses: vec![DnsResponse {
                question: String::from("badhost.example"),
                answers: vec![],
            }],
        },
    };
    let out = c.handle_event(&dns, &aux);
    assert_eq!(out.len(), 1);
    let emitted = c
        .scan_and_finalize(out.into_iter().next().unwrap(), None)
        .expect("an indicator match must be emitted");
    let detection = emitted.detection.expect("detection expected");
    assert_eq!(detection.severity, 10);
    assert_eq!(detection.iocs, vec![String::from("badhost.example")]);
}

#[test]
fn no_match_is_dropped_when_iocs_loaded() {
    let mut c = consumer();
    c.load_iocs(vec![String::from("badhost.example")]);
    let aux = aux_with_content(b"");
    let connect = connect_event(10, Ip::V4(0x0A00_0001), 80);
    let out = c.handle_event(&connect, &aux);
    assert_eq!(out.len(), 1);
    assert!(c.scan_and_finalize(out.into_iter().next().unwrap(), None).is_none());
}

#[test]
fn exit_cleanup_scenario() {
    // S5: after a thread-group exit the task's own resolution map is empty,
    // but the record remains and ancestor walks still reach it.
    let mut c = consumer();
    let aux = aux_with_content(b"");
    let proc_info = process(100, 100, 0, 7, 1);

    let execve = Event {
        info: info(EventType::Execve, 10, proc_info),
        data: execve_data("/bin/sh", "/bin/sh", &["sh"]),
    };
    c.handle_event(&execve, &aux);

    let addr = Ip::V4(0x01020304);
    let dns = Event {
        info: info(EventType::DnsQuery, 20, proc_info),
        data: EventData::DnsQuery {
            ip: Ip::V4(0x0A00_0001),
            port: 53,
            proto: 2,
            responses: vec![DnsResponse {
                question: String::from("one.example"),
                answers: vec![DnsAnswer {
                    value: String::from("1.2.3.4"),
                    ip: Some(addr),
                }],
            }],
        },
    };
    c.handle_event(&dns, &aux);
    let key = proc_info.task_key();
    assert!(c.tasks.resolved_of(key, addr).is_some());

    let exit = Event {
        info: info(EventType::ExitGroup, 30, proc_info),
        data: EventData::Exit { error_code: 0 },
    };
    let out = c.handle_event(&exit, &aux);
    assert_eq!(out.len(), 1);

    // the task-local map was freed, the record itself survives
    assert!(c.tasks.resolved_of(key, addr).is_none());
    assert_eq!(c.get_exe(key), "/bin/sh");
    assert!(!c.tasks.get_ancestors(key).is_empty());
}

#[test]
fn kernel_thread_image_scenario() {
    // S6: a correlation for a kernel thread reports the image `kernel`,
    // whatever the record's exe field says.
    let mut c = consumer();
    let aux = aux_with_content(b"");
    let proc_info = process(200, 200, 0x0020_0000, 9, 1);
    let corr = Event {
        info: info(EventType::Correlation, 10, proc_info),
        data: EventData::Correlation(kunai::events::CorrelationData {
            origin: EventType::TaskSched,
            exe: String::from("/bin/ignored"),
            argv: vec![],
            cgroup: no_cgroup(),
            nodename: None,
        }),
    };
    let out = c.handle_event(&corr, &aux);
    assert!(out.is_empty());
    assert_eq!(c.get_exe(proc_info.task_key()), "kernel");
}

#[test]
fn self_events_are_skipped() {
    // Records of the daemon's own process are never emitted.
    let mut c = consumer();
    let aux = aux_with_content(b"");
    let mut proc_info = process(999999, 999999, 0, 7, 1);
    proc_info.tgid = 999999;
    let e = Event {
        info: info(EventType::Connect, 10, proc_info),
        data: EventData::Connect {
            ip: Ip::V4(1),
            port: 80,
            connected: true,
        },
    };
    let out = c.handle_event(&e, &aux);
    assert!(out.is_empty());
}

#[test]
fn late_correlation_yields_placeholders() {
    // A record whose task was never correlated still emits, with `?` in the
    // lineage fields.
    let mut c = consumer();
    let aux = aux_with_content(b"");
    let out = c.handle_event(&connect_event(10, Ip::V4(1), 80), &aux);
    assert_eq!(out.len(), 1);
    match &out[0].data {
        UserEventData::Connect(d) => {
            assert_eq!(d.exe, "?");
            assert_eq!(d.command_line, "?");
            assert_eq!(d.dst.hostname.as_deref(), Some("?"));
        }
        _ => panic!("expected a connect record"),
    }
}

#[test]
fn missing_host_uuid_fails_startup() {
    let config = Config {
        host_uuid: None,
        output: String::from("stdout"),
        max_buffered_events: 64,
        send_data_min_len: None,
        rules: vec![],
        iocs: vec![],
        events: Config::default_events(),
    };
    let system_info = SystemInfo {
        host_uuid: 0,
        hostname: String::from("h"),
        mount_ns: 1,
    };
    let r = EventConsumer::with_config(&config, system_info, 1, 1);
    assert!(r.is_err());
    assert_eq!(r.err().unwrap().message(), "failed to read host_uuid");
}
