//! Unit tests of the state components and helpers.

use kunai::cache::{FileProbe, HashCache, NsCache};
use kunai::config::Config;
use kunai::consumer::{prctl_option_name, proto_name, salted_uuid};
use kunai::dns::ResolvedMap;
use kunai::events::{EventType, Ip};
use kunai::output::UserEventData;
use kunai::probes::{KernelVersion, ProbeAction, ProbeDesc};
use kunai::producer::{optimal_page_count, Filter};
use kunai::scanner::{scan_overlay, RuleScan};
use kunai::containers::Container;
use kunai::text::{contains_sub, join_strings, str_eq, u64_to_dec};

fn found(content: &[u8], inode: u64, mtime: u64) -> FileProbe {
    FileProbe::Found {
        inode,
        size: content.len() as u64,
        mtime,
        content: content.to_vec(),
    }
}

#[test]
fn cache_hit_returns_same_record() {
    // A second lookup with the identical key answers from the cache, byte
    // for byte; a changed identity field forces recomputation.
    let mut cache = HashCache::with_max_entries(10);
    let path = String::from("/bin/true");
    let first = cache.get_or_cache_in_ns(1, &path, &found(b"hello", 7, 100));
    assert!(first.error.is_none());
    assert_eq!(first.md5, "5d41402abc4b2a76b9719d911017c592");

    // same identity: the stored digests come back even for other content
    let second = cache.get_or_cache_in_ns(1, &path, &found(b"hello", 7, 100));
    assert_eq!(second.md5, first.md5);
    assert_eq!(second.sha1, first.sha1);
    assert_eq!(second.sha256, first.sha256);
    assert_eq!(second.sha512, first.sha512);
    assert_eq!(second.size, first.size);
    assert_eq!(second.file, first.file);

    // changed mtime: stale entry, the digests are recomputed
    let third = cache.get_or_cache_in_ns(1, &path, &found(b"changed", 7, 101));
    assert_ne!(third.md5, first.md5);
}

#[test]
fn cache_error_not_inserted() {
    let mut cache = HashCache::with_max_entries(10);
    let path = String::from("/gone");
    let e = cache.get_or_cache_in_ns(
        1,
        &path,
        &FileProbe::Failed {
            error: String::from("no such file"),
        },
    );
    assert_eq!(e.error.as_deref(), Some("no such file"));
    // the error was not cached: a later successful probe computes digests
    let ok = cache.get_or_cache_in_ns(1, &path, &found(b"x", 1, 1));
    assert!(ok.error.is_none());
}

#[test]
fn lru_bound_evicts_least_recently_accessed() {
    // capacity + 1 distinct inserts: exactly one entry is gone, the least
    // recently accessed one.
    let mut cache = HashCache::with_max_entries(2);
    let a = String::from("/a");
    let b = String::from("/b");
    let c = String::from("/c");
    let ha = cache.get_or_cache_in_ns(1, &a, &found(b"aa", 1, 1));
    let hb = cache.get_or_cache_in_ns(1, &b, &found(b"bb", 2, 1));
    // touch /a so /b becomes the least recently accessed
    let ha2 = cache.get_or_cache_in_ns(1, &a, &found(b"aa", 1, 1));
    assert_eq!(ha2.md5, ha.md5);
    // inserting /c evicts /b
    let _hc = cache.get_or_cache_in_ns(1, &c, &found(b"cc", 3, 1));
    // same keys, different content of the same size: a hit answers with the
    // stored digests, a recomputation would answer with the new content's
    let ha3 = cache.get_or_cache_in_ns(1, &a, &found(b"zz", 1, 1));
    assert_eq!(ha3.md5, ha.md5, "/a must still be cached");
    let hb2 = cache.get_or_cache_in_ns(1, &b, &found(b"qq", 2, 1));
    assert_ne!(hb2.md5, hb.md5, "/b must have been evicted");
}

#[test]
fn dns_precedence() {
    // Two tasks resolving the same address each keep their own name.
    let mut local1 = ResolvedMap::new();
    let mut local2 = ResolvedMap::new();
    let ip = Ip::V4(0x01010101);
    local1.update(ip, String::from("a"));
    local2.update(ip, String::from("b"));
    assert_eq!(local1.get(ip).map(|s| s.as_str()), Some("a"));
    assert_eq!(local2.get(ip).map(|s| s.as_str()), Some("b"));
    // last write wins within one map
    local1.update(ip, String::from("c"));
    assert_eq!(local1.get(ip).map(|s| s.as_str()), Some("c"));
}

#[test]
fn ns_cache_last_write_wins() {
    let mut ns = NsCache::new();
    assert_eq!(ns.get_ns(5), None);
    ns.cache_ns(5, 100);
    ns.cache_ns(5, 200);
    ns.cache_ns(6, 300);
    assert_eq!(ns.get_ns(5), Some(200));
    assert_eq!(ns.get_ns(6), Some(300));
}

#[test]
fn ioc_overlay_sets_max_severity() {
    let values = vec![String::from("evil.example"), String::from("benign")];
    let loaded = vec![String::from("evil.example")];
    let r = scan_overlay(&values, &loaded, None).unwrap();
    assert_eq!(r.severity, 10);
    assert_eq!(r.iocs, vec![String::from("evil.example")]);
    assert!(r.is_detection());
}

#[test]
fn ioc_overlay_keeps_rule_severity_without_match() {
    let values = vec![String::from("benign")];
    let loaded = vec![String::from("evil.example")];
    let rs = RuleScan {
        rules: vec![String::from("r1")],
        severity: 4,
        only_filter: false,
    };
    let r = scan_overlay(&values, &loaded, Some(rs)).unwrap();
    assert_eq!(r.severity, 4);
    assert!(r.iocs.is_empty());
    assert!(r.is_detection());
}

#[test]
fn filter_disables_configured_types() {
    let mut config = Config {
        host_uuid: Some(1),
        output: String::from("stdout"),
        max_buffered_events: 64,
        send_data_min_len: None,
        rules: vec![],
        iocs: vec![],
        events: Config::default_events(),
    };
    config.apply_exclude(&vec![String::from("connect")]);
    let f = Filter::from_events(&config.events);
    assert!(!f.is_enabled(EventType::Connect));
    assert!(f.is_enabled(EventType::Execve));

    // include supersedes exclude
    config.apply_include(&vec![String::from("connect")]);
    let f2 = Filter::from_events(&config.events);
    assert!(f2.is_enabled(EventType::Connect));

    config.apply_exclude(&vec![String::from("all")]);
    let f3 = Filter::from_events(&config.events);
    assert!(!f3.is_enabled(EventType::Execve));
    assert!(!f3.is_enabled(EventType::DnsQuery));
}

#[test]
fn output_path_mapping() {
    let mut config = Config {
        host_uuid: Some(1),
        output: String::from("stdout"),
        max_buffered_events: 64,
        send_data_min_len: None,
        rules: vec![],
        iocs: vec![],
        events: vec![],
    };
    assert_eq!(config.output_path(), "/dev/stdout");
    config.output = String::from("stderr");
    assert_eq!(config.output_path(), "/dev/stderr");
    config.output = String::from("/var/log/events.json");
    assert_eq!(config.output_path(), "/var/log/events.json");
}

#[test]
fn page_count_is_doubled_power_of_two() {
    // 1024-byte records, 512 slots over 4096-byte pages: 128 pages needed,
    // next power of two at or above that doubled is 256.
    assert_eq!(optimal_page_count(4096, 1024, 512), 256);
    assert_eq!(optimal_page_count(4096, 4096, 1), 2);
    // 3 pages needed: the least power of two at or above 3 is 4, doubled 8
    assert_eq!(optimal_page_count(4096, 4096, 3), 8);
}

#[test]
fn event_type_names_round_trip() {
    assert_eq!(EventType::Execve.name(), "execve");
    assert_eq!(EventType::ExecveScript.name(), "execve_script");
    assert_eq!(EventType::from_name("dns_query"), Some(EventType::DnsQuery));
    assert_eq!(EventType::from_name("nope"), None);
    assert!(!EventType::Correlation.is_configurable());
    assert!(!EventType::TaskSched.is_configurable());
    assert!(EventType::Connect.is_configurable());
}

#[test]
fn text_helpers() {
    assert_eq!(u64_to_dec(0), "0");
    assert_eq!(u64_to_dec(90210), "90210");
    assert_eq!(
        join_strings(&vec![String::from("a"), String::from("bb"), String::from("c")], "|"),
        "a|bb|c"
    );
    assert_eq!(join_strings(&vec![], "|"), "");
    assert!(contains_sub("containerd-shim-runc", "containerd-shim"));
    assert!(!contains_sub("short", "longer-needle"));
    assert!(str_eq("same", "same"));
    assert!(!str_eq("same", "other"));
}

#[test]
fn ip_rendering_and_visibility() {
    assert_eq!(Ip::V4(0x7F000001).text(), "127.0.0.1");
    assert_eq!(Ip::V4(0x5DB8D822).text(), "93.184.216.34");
    assert!(!Ip::V4(0x7F000001).is_public());
    assert!(!Ip::V4(0x0A010203).is_public());
    assert!(!Ip::V4(0xC0A80101).is_public());
    assert!(Ip::V4(0x5DB8D822).is_public());
    assert_eq!(Ip::V6(1).text(), "0000:0000:0000:0000:0000:0000:0000:0001");
    assert!(!Ip::V6(1).is_public());
    assert!(Ip::V6(0x2001_0db8 << 96).is_public());
}

#[test]
fn naming_tables() {
    assert_eq!(prctl_option_name(15), "PR_SET_NAME");
    assert_eq!(prctl_option_name(77), "unknown(77)");
    assert_eq!(proto_name(1), "tcp");
    assert_eq!(proto_name(2), "udp");
    assert_eq!(proto_name(9), "unknown(9)");
}

#[test]
fn salted_uuid_depends_on_nonce() {
    assert_ne!(salted_uuid(7, 1), salted_uuid(7, 2));
    assert_eq!(salted_uuid(7, 1), salted_uuid(7, 1));
}

#[test]
fn probe_selection() {
    let k = |major, minor, patch| KernelVersion { major, minor, patch };
    let probes = vec![
        ProbeDesc {
            name: String::from("enter_execve"),
            enable: true,
            prio: 10,
            compat_min: k(4, 4, 0),
            compat_max: k(255, 255, 255),
        },
        ProbeDesc {
            name: String::from("old_probe"),
            enable: true,
            prio: 20,
            compat_min: k(6, 0, 0),
            compat_max: k(255, 255, 255),
        },
        ProbeDesc {
            name: String::from("debug_probe"),
            enable: false,
            prio: 30,
            compat_min: k(4, 4, 0),
            compat_max: k(255, 255, 255),
        },
    ];
    let actions = kunai::probes::select_probes(&probes, &vec![], k(5, 15, 0));
    assert_eq!(
        actions,
        vec![ProbeAction::Load, ProbeAction::SkipIncompatible, ProbeAction::SkipDisabled]
    );
    // a debug filter restricts and force-enables the named probes
    let actions2 =
        kunai::probes::select_probes(&probes, &vec![String::from("debug")], k(5, 15, 0));
    assert_eq!(
        actions2,
        vec![ProbeAction::SkipFiltered, ProbeAction::SkipFiltered, ProbeAction::Load]
    );
}

#[test]
fn digest_and_hex_wrappers_reach_outside_code() {
    // Digests of the empty byte string, through the socket-filter builder:
    // wrong results here would mean the digest wrappers did not call out.
    let config = Config {
        host_uuid: Some(1),
        output: String::from("stdout"),
        max_buffered_events: 64,
        send_data_min_len: None,
        rules: vec![],
        iocs: vec![],
        events: Config::default_events(),
    };
    let system_info = kunai::consumer::SystemInfo {
        host_uuid: 0,
        hostname: String::from("h"),
        mount_ns: 1,
    };
    let c = kunai::consumer::EventConsumer::with_config(&config, system_info, 0, 1).unwrap();
    let info = kunai::output::StdEventInfo {
        info: kunai::events::EventInfo {
            etype: EventType::BpfSocketFilter,
            timestamp: 0,
            batch: 0,
            process: kunai::events::ProcessInfo {
                pid: 2,
                tgid: 2,
                ppid: 1,
                flags: 0,
                tg_uuid: 0,
                parent_uuid: 0,
                mnt_ns: Some(1),
            },
        },
        host_name: String::from("h"),
        host_uuid: String::from(""),
        event_uuid: String::from(""),
        container_name: None,
        container_type: None,
    };
    let d = c.bpf_socket_filter_event(&info, 2, 1, &vec![], 0, true);
    assert_eq!(d.filter.md5, "d41d8cd98f00b204e9800998ecf8427e");
    assert_eq!(d.filter.sha1, "da39a3ee5e6b4b0d3255bfef95601890afd80709");
    assert_eq!(
        d.filter.sha256,
        "e3b0c44298fc1c149afbf4c8996fb92427ae41e4649b934ca495991b7852b855"
    );
    assert_eq!(
        d.filter.sha512,
        "cf83e1357eefb8bdf1542850d66d8007d620e4050b5715dc83f4a921d36ce9ce\
         47d0d13c5d85f2b0ff8318d2877eec2f63b931bd47417a81a538327af927da3e"
    );
    assert_eq!(d.socket.domain, "inet");
    assert_eq!(d.socket.ty, "stream");

    // hex of the program tag through the program-load builder
    let d2 = c.bpf_prog_load_event(
        &info,
        1,
        2,
        &vec![0xbe, 0xef],
        &String::from("f"),
        &String::from("n"),
        &String::from("k"),
        0,
        true,
        &None,
    );
    assert_eq!(d2.tag, "beef");
    assert_eq!(d2.prog_type.name, "kprobe");
    assert_eq!(d2.bpf_prog.md5, "?");

    // the hyphenated uuid rendering through the header builder
    let h = c.build_std_event_info(info.info);
    assert_eq!(h.host_uuid.len(), 36);
    assert!(h.host_uuid.contains('-'));

    // an indicator record extracts the digests for scanning
    let iocs = UserEventData::BpfSocketFilter(d).iocs();
    assert!(iocs.contains(&String::from("d41d8cd98f00b204e9800998ecf8427e")));
}

#[test]
fn ancestor_tagging() {
    // A lineage whose root is neither pid 1 nor a kernel thread starts with
    // a truncation marker.
    let mut c = {
        let config = Config {
            host_uuid: Some(1),
            output: String::from("stdout"),
            max_buffered_events: 64,
            send_data_min_len: None,
            rules: vec![],
            iocs: vec![],
            events: Config::default_events(),
        };
        let system_info = kunai::consumer::SystemInfo {
            host_uuid: 0,
            hostname: String::from("h"),
            mount_ns: 1,
        };
        kunai::consumer::EventConsumer::with_config(&config, system_info, 0, 1).unwrap()
    };
    let root = kunai::consumer::ProcSnap {
        pid: 50,
        uuid: 50,
        parent: None,
        flags: 0,
        exe: Some(String::from("/bin/root")),
        cmdline: None,
        cgroups: vec![],
    };
    let child = kunai::consumer::ProcSnap {
        pid: 51,
        uuid: 51,
        parent: Some(kunai::events::TaskKey { tgid: 50, uuid: 50 }),
        flags: 0,
        exe: Some(String::from("/bin/child")),
        cmdline: None,
        cgroups: vec![],
    };
    c.init_tasks_from_procfs(&vec![root, child]);
    let ancestors = c.tasks.get_ancestors(kunai::events::TaskKey { tgid: 51, uuid: 51 });
    assert_eq!(
        ancestors,
        vec![String::from("?"), String::from("/bin/root"), String::from("/bin/child")]
    );

    // a pid-1 root is not marked
    let init = kunai::consumer::ProcSnap {
        pid: 1,
        uuid: 1,
        parent: None,
        flags: 0,
        exe: Some(String::from("/sbin/init")),
        cmdline: None,
        cgroups: vec![],
    };
    let child2 = kunai::consumer::ProcSnap {
        pid: 52,
        uuid: 52,
        parent: Some(kunai::events::TaskKey { tgid: 1, uuid: 1 }),
        flags: 0,
        exe: Some(String::from("/bin/other")),
        cmdline: None,
        cgroups: vec![],
    };
    c.init_tasks_from_procfs(&vec![init, child2]);
    let ancestors2 = c.tasks.get_ancestors(kunai::events::TaskKey { tgid: 52, uuid: 52 });
    assert_eq!(ancestors2, vec![String::from("/sbin/init"), String::from("/bin/other")]);
}

#[test]
fn container_detection() {
    assert_eq!(
        Container::from_cgroups(&vec![String::from("/docker/abc123")]),
        Some(Container::Docker)
    );
    assert_eq!(
        Container::from_cgroups(&vec![String::from("/machine.slice/libpod-x.scope")]),
        Some(Container::Podman)
    );
    assert_eq!(Container::from_cgroups(&vec![String::from("/system.slice")]), None);
    assert_eq!(
        Container::from_ancestors(&vec![String::from("/usr/bin/containerd-shim-runc-v2")]),
        Some(Container::Containerd)
    );
    assert_eq!(Container::Docker.name(), "docker");
}
