//! Producer side of the pipeline: ring-buffer sizing, the per-type filter,
//! time-critical pre-processing, pass-through fan-out of correlation records,
//! and the timestamp-ordered batch drain.

use vstd::prelude::*;
use vstd::multiset::Multiset;

use crate::config::EventConfig;
use crate::digests::{
    md5_hex, md5_of, sha1_hex, sha1_of, sha256_hex, sha256_of, sha512_hex, sha512_of,
    spec_hex_lower,
};
use crate::events::{
    cgroup_eqv, strs_eqv, opt_str_eqv, CorrelationData, Event, EventData, EventInfo, EventType,
    ProgHashes,
};
use crate::text::{clone_opt_string, clone_strings};

verus! {

/// Memory page size the ring buffers are sized against.
pub const PAGE_SIZE: usize = 4096;

/// Two to the given power.
pub open spec fn pow2(e: nat) -> nat
    decreases e,
{
    if e == 0 {
        1nat
    } else {
        2 * pow2((e - 1) as nat)
    }
}

/// A power of two.
pub open spec fn is_pow2(n: nat) -> bool
    decreases n,
{
    if n == 1 {
        true
    } else if n < 2 || n % 2 != 0 {
        false
    } else {
        is_pow2(n / 2)
    }
}

/// The ring page count for one CPU: the least power of two at or above the
/// pages the buffered events need, then doubled, guaranteeing spare headroom.
pub fn optimal_page_count(page_size: usize, max_event_size: usize, n_events: usize) -> (r: usize)
    requires
        page_size > 0,
        max_event_size * n_events >= page_size,
        max_event_size * n_events <= usize::MAX / 4,
    ensures
        is_pow2(r as nat),
        r >= 2,
        // half the result is the least power of two covering the needed pages
        r / 2 >= max_event_size * n_events / page_size as int,
        r == 2 || r / 4 < max_event_size * n_events / page_size as int,
{
    let c = max_event_size * n_events / page_size;
    proof {
        assert(c >= 1) by (nonlinear_arith)
            requires
                max_event_size * n_events >= page_size,
                page_size > 0,
                c == max_event_size * n_events / page_size as int,
        ;
        assert(is_pow2(1nat));
    }
    let mut p: usize = 1;
    while p < c
        invariant
            1 <= p,
            1 <= c,
            c <= usize::MAX / 4,
            p <= 2 * c,
            is_pow2(p as nat),
            p == 1 || p / 2 < c,
        decreases 2 * c - p,
    {
        proof {
            assert((2 * p) as nat % 2 == 0 && (2 * p) as nat / 2 == p as nat)
                by (nonlinear_arith)
                requires
                    p >= 1,
            ;
            assert(is_pow2((2 * p) as nat));
        }
        p = p * 2;
    }
    let r = p * 2;
    proof {
        assert((2 * p) as nat % 2 == 0 && (2 * p) as nat / 2 == p as nat) by (nonlinear_arith)
            requires
                p >= 1,
        ;
        assert(is_pow2((2 * p) as nat));
        assert(r / 2 == p);
        if p >= 2 {
            // a power of two above one is even, so halving it is exact
            assert(p as nat % 2 == 0);
            assert(r / 4 == p / 2) by (nonlinear_arith)
                requires
                    p as nat % 2 == 0,
                    r == 2 * p,
            ;
        }
    }
    r
}

/// Which event types the kernel-side filter lets into the ordered stream.
#[derive(Debug)]
pub struct Filter {
    disabled: Vec<EventType>,
}

/// The types switched off by the configuration, in configuration order.
pub open spec fn spec_disabled_from(events: Seq<EventConfig>) -> Seq<EventType>
    decreases events.len(),
{
    if events.len() == 0 {
        Seq::empty()
    } else {
        spec_disabled_from(events.drop_last()) + (if !events.last().enable
            && EventType::spec_from_name(events.last().name@) is Some {
            seq![EventType::spec_from_name(events.last().name@)->Some_0]
        } else {
            Seq::empty()
        })
    }
}

impl Filter {
    pub closed spec fn spec_disabled(self) -> Seq<EventType> {
        self.disabled@
    }

    /// A type is enabled unless the configuration switched it off.
    pub open spec fn spec_is_enabled(self, t: EventType) -> bool {
        !self.spec_disabled().contains(t)
    }

    /// Builds the filter from the configuration's event switches.
    pub fn from_events(events: &Vec<EventConfig>) -> (r: Filter)
        ensures
            r.spec_disabled() == spec_disabled_from(events@),
    {
        let mut disabled: Vec<EventType> = Vec::new();
        let n = events.len();
        for i in 0..n
            invariant
                n == events@.len(),
                disabled@ == spec_disabled_from(events@.take(i as int)),
        {
            if !events[i].enable {
                match EventType::from_name(events[i].name.as_str()) {
                    Some(t) => disabled.push(t),
                    None => {},
                }
            }
            proof {
                assert(events@.take(i + 1).drop_last() =~= events@.take(i as int));
                assert(events@.take(i + 1).last() == events@[i as int]);
            }
        }
        proof {
            assert(events@.take(n as int) =~= events@);
        }
        Filter { disabled }
    }

    /// See [`Self::spec_is_enabled`].
    pub fn is_enabled(&self, t: EventType) -> (r: bool)
        ensures
            r == self.spec_is_enabled(t),
    {
        let n = self.disabled.len();
        for i in 0..n
            invariant
                n == self.disabled@.len(),
                forall|j: int| 0 <= j < i ==> self.disabled@[j] != t,
        {
            if self.disabled[i] == t {
                return false;
            }
        }
        true
    }
}

/// Producer state shared by the per-CPU readers: the ordered pipe, the batch
/// counter, the filter and the control flags.
#[derive(Debug)]
pub struct EventProducer {
    /// Monotonic batch counter, stamped into each record.
    pub batch: u64,
    /// Ordered deque buffering records until their batch may be drained.
    pub pipe: Vec<Event>,
    pub filter: Filter,
    pub stop: bool,
    /// Set when a resume from suspend asks for a full reload.
    pub reload: bool,
}

/// Ordering law: what one drain hands out, followed by the current-batch
/// records that stay behind and are handed out later, is one
/// timestamp-ordered stream — provided every record left behind is at least
/// as young as every drained one, which is the timing assumption the read
/// pace enforces. Sortedness of both halves is what
/// [`EventProducer::process_piped_events`] ensures.
pub proof fn lemma_drain_ordering(drained: Seq<Event>, remaining: Seq<Event>)
    requires
        sorted_ts(drained),
        sorted_ts(remaining),
        forall|i: int, j: int|
            0 <= i < drained.len() && 0 <= j < remaining.len() ==> (
            #[trigger] drained[i]).info.timestamp <= (#[trigger] remaining[j]).info.timestamp,
    ensures
        sorted_ts(drained + remaining),
{
    let c = drained + remaining;
    assert forall|i: int, j: int|
        0 <= i < j < c.len() implies (#[trigger] c[i]).info.timestamp <= (
    #[trigger] c[j]).info.timestamp by {
        if j < drained.len() {
            assert(c[i] == drained[i] && c[j] == drained[j]);
        } else if i >= drained.len() {
            assert(c[i] == remaining[i - drained.len()] && c[j] == remaining[j - drained.len()]);
        } else {
            assert(c[i] == drained[i] && c[j] == remaining[j - drained.len()]);
        }
    }
}

impl EventProducer {
    /// Every queued record belongs to the current batch or an older one.
    pub open spec fn pipe_wf(self) -> bool {
        forall|j: int|
            0 <= j < self.pipe@.len() ==> (#[trigger] self.pipe@[j]).info.batch <= self.batch
    }

    /// Fresh producer over the given filter: empty pipe, batch zero, running.
    pub fn with_params(filter: Filter) -> (r: EventProducer)
        ensures
            r.batch == 0,
            r.pipe@.len() == 0,
            r.filter == filter,
            !r.stop,
            !r.reload,
    {
        EventProducer { batch: 0, pipe: Vec::new(), filter, stop: false, reload: false }
    }

    /// Whether the pipe holds records awaiting a drain.
    pub fn has_pending_events(&self) -> (r: bool)
        ensures
            r == (self.pipe@.len() > 0),
    {
        self.pipe.len() > 0
    }

    /// Asks the reader tasks to wind down at the end of their iteration.
    pub fn stop(&mut self)
        ensures
            final(self).stop,
            final(self).batch == old(self).batch,
            final(self).pipe == old(self).pipe,
            final(self).filter == old(self).filter,
            final(self).reload == old(self).reload,
    {
        self.stop = true;
    }

    /// Pre-processes records whose handling cannot wait for the ordered
    /// stream. Relabels an execve whose interpreter differs from its
    /// executable as a script execution, fills the digests of a dumped
    /// program, consumes error reports, and turns a resume from suspend into
    /// the reload flag. Returns the record and whether it was consumed.
    pub fn process_time_critical(&mut self, e: Event) -> (r: (Event, bool))
        requires
            e.wf(),
        ensures
            final(self).batch == old(self).batch,
            final(self).pipe == old(self).pipe,
            final(self).filter == old(self).filter,
            final(self).stop == old(self).stop,
            final(self).reload == (old(self).reload || e.info.etype is SyscoreResume),
            r.1 == matches!(e.info.etype, EventType::Error | EventType::SyscoreResume),
            r.0.wf(),
            match e.info.etype {
                EventType::Execve => match e.data {
                    EventData::Execve { ref executable, ref interpreter, .. } => {
                        if interpreter@ != executable@ {
                            r.0 == Event {
                                info: EventInfo { etype: EventType::ExecveScript, ..e.info },
                                data: e.data,
                            }
                        } else {
                            r.0 == e
                        }
                    },
                    _ => r.0 == e,
                },
                EventType::BpfProgLoad => match e.data {
                    EventData::BpfProgLoad {
                        id,
                        prog_type,
                        ref tag,
                        ref attached_func,
                        ref name,
                        ref ksym,
                        verified_insns,
                        loaded,
                        ref insns,
                        ref hashes,
                    } => {
                        &&& r.0.info == e.info
                        &&& match r.0.data {
                            EventData::BpfProgLoad {
                                id: id2,
                                prog_type: pt2,
                                tag: ref tag2,
                                attached_func: ref af2,
                                name: ref name2,
                                ksym: ref ksym2,
                                verified_insns: vi2,
                                loaded: l2,
                                insns: ref insns2,
                                hashes: ref hashes2,
                            } => {
                                &&& id2 == id
                                &&& pt2 == prog_type
                                &&& tag2 == tag
                                &&& af2 == attached_func
                                &&& name2 == name
                                &&& ksym2 == ksym
                                &&& vi2 == verified_insns
                                &&& l2 == loaded
                                &&& insns2 == insns
                                &&& match insns {
                                    Some(ref b) => hashes2 matches Some(h) && h.md5@
                                        == spec_hex_lower(md5_of(b@)) && h.sha1@
                                        == spec_hex_lower(sha1_of(b@)) && h.sha256@
                                        == spec_hex_lower(sha256_of(b@)) && h.sha512@
                                        == spec_hex_lower(sha512_of(b@)) && h.size == b@.len(),
                                    None => hashes2 == hashes,
                                }
                            },
                            _ => false,
                        }
                    },
                    _ => r.0 == e,
                },
                _ => r.0 == e,
            },
    {
        let Event { mut info, data } = e;
        match info.etype {
            EventType::Execve => match data {
                EventData::Execve { executable, interpreter, argv, cgroup, nodename } => {
                    if !(interpreter == executable) {
                        info.etype = EventType::ExecveScript;
                    }
                    (
                        Event {
                            info,
                            data: EventData::Execve {
                                executable,
                                interpreter,
                                argv,
                                cgroup,
                                nodename,
                            },
                        },
                        false,
                    )
                },
                other => (Event { info, data: other }, false),
            },
            EventType::BpfProgLoad => match data {
                EventData::BpfProgLoad {
                    id,
                    prog_type,
                    tag,
                    attached_func,
                    name,
                    ksym,
                    verified_insns,
                    loaded,
                    insns,
                    hashes,
                } => {
                    let new_hashes = match &insns {
                        Some(b) => Some(
                            ProgHashes {
                                md5: md5_hex(b.as_slice()),
                                sha1: sha1_hex(b.as_slice()),
                                sha256: sha256_hex(b.as_slice()),
                                sha512: sha512_hex(b.as_slice()),
                                size: b.len() as u64,
                            },
                        ),
                        None => hashes,
                    };
                    (
                        Event {
                            info,
                            data: EventData::BpfProgLoad {
                                id,
                                prog_type,
                                tag,
                                attached_func,
                                name,
                                ksym,
                                verified_insns,
                                loaded,
                                insns,
                                hashes: new_hashes,
                            },
                        },
                        false,
                    )
                },
                other => (Event { info, data: other }, false),
            },
            EventType::Error => (Event { info, data }, true),
            EventType::SyscoreResume => {
                self.reload = true;
                (Event { info, data }, true)
            },
            _ => (Event { info, data }, false),
        }
    }

    /// Fans correlation and digest-priming records out to the consumer,
    /// bypassing the ordered pipe: digest requests for the files an execve or
    /// executable mapping references, and a correlation record for every
    /// scheduling record.
    pub fn pass_through_events(&self, e: &Event) -> (out: Vec<Event>)
        requires
            e.wf(),
        ensures
            pass_rel(*e, e.info.batch, out@),
            out@.len() == spec_pass_len(*e),
    {
        let mut out: Vec<Event> = Vec::new();
        match &e.data {
            EventData::Execve { executable, interpreter, argv, .. } => {
                let base = EventInfo { etype: EventType::CacheHash, ..e.info };
                out.push(
                    Event { info: base, data: EventData::Hash { path: executable.clone() } },
                );
                if !crate::text::str_eq(interpreter.as_str(), executable.as_str()) {
                    out.push(
                        Event { info: base, data: EventData::Hash { path: interpreter.clone() } },
                    );
                }
                if argv.len() > 0 {
                    let a0 = &argv[0];
                    if a0.as_str().unicode_len() > 0 && a0.as_str().get_char(0) == '/' {
                        out.push(
                            Event { info: base, data: EventData::Hash { path: a0.clone() } },
                        );
                    }
                }
                out
            },
            EventData::MmapExec { filename } => {
                let base = EventInfo { etype: EventType::CacheHash, ..e.info };
                out.push(Event { info: base, data: EventData::Hash { path: filename.clone() } });
                out
            },
            EventData::TaskSched { exe, argv, cgroup, nodename } => {
                let base = EventInfo { etype: EventType::Correlation, ..e.info };
                out.push(
                    Event {
                        info: base,
                        data: EventData::Correlation(
                            CorrelationData {
                                origin: EventType::TaskSched,
                                exe: exe.clone(),
                                argv: clone_strings(argv),
                                cgroup: cgroup.duplicate(),
                                nodename: clone_opt_string(nodename),
                            },
                        ),
                    },
                );
                out
            },
            _ => out,
        }
    }
}

/// Records ordered by timestamp, ascending.
pub open spec fn sorted_ts(s: Seq<Event>) -> bool {
    forall|i: int, j: int|
        0 <= i < j < s.len() ==> (#[trigger] s[i]).info.timestamp <= (
        #[trigger] s[j]).info.timestamp
}

/// Insertion sort by timestamp; keeps exactly the input records.
fn sort_by_ts(v: Vec<Event>) -> (r: Vec<Event>)
    ensures
        sorted_ts(r@),
        r@.to_multiset() == v@.to_multiset(),
        r@.len() == v@.len(),
{
    broadcast use vstd::seq_lib::group_to_multiset_ensures;

    let mut src = v;
    let mut r: Vec<Event> = Vec::new();
    while src.len() > 0
        invariant
            sorted_ts(r@),
            r@.to_multiset().add(src@.to_multiset()) == v@.to_multiset(),
            r@.len() + src@.len() == v@.len(),
        decreases src@.len(),
    {
        let ghost src0 = src@;
        let ghost r0 = r@;
        let e = src.remove(0);
        let mut j: usize = 0;
        let n = r.len();
        while j < n && r[j].info.timestamp <= e.info.timestamp
            invariant
                j <= n,
                n == r@.len(),
                forall|q: int|
                    0 <= q < j ==> (#[trigger] r@[q]).info.timestamp <= e.info.timestamp,
            decreases n - j,
        {
            j = j + 1;
        }
        r.insert(j, e);
        proof {
            broadcast use vstd::multiset::group_multiset_axioms;
            broadcast use vstd::seq_lib::group_to_multiset_ensures;

            assert(src@ =~= src0.remove(0));
            assert(src0.remove(0).to_multiset() == src0.to_multiset().remove(src0[0]));
            assert(src0[0] == e);
            assert(src0.contains(e));
            assert(src0.to_multiset().count(e) > 0);
            assert(src0.to_multiset() =~= src@.to_multiset().insert(e));
            assert(r@ =~= r0.insert(j as int, e));
            assert(r0.insert(j as int, e).to_multiset() == r0.to_multiset().insert(e));
            assert(r@.to_multiset() =~= r0.to_multiset().insert(e));
            assert(r@.to_multiset().add(src@.to_multiset()) =~= r0.to_multiset().add(
                src0.to_multiset(),
            ));
            assert forall|a: int, b: int|
                0 <= a < b < r@.len() implies (#[trigger] r@[a]).info.timestamp <= (
            #[trigger] r@[b]).info.timestamp by {
                if b < j as int {
                    assert(r@[a] == r0[a] && r@[b] == r0[b]);
                } else if a > j as int {
                    assert(r@[a] == r0[a - 1] && r@[b] == r0[b - 1]);
                } else if a == j as int {
                    assert(r@[a] == e && r@[b] == r0[b - 1]);
                    assert(r0[j as int].info.timestamp > e.info.timestamp || j as int >= r0.len());
                } else if b == j as int {
                    assert(r@[a] == r0[a] && r@[b] == e);
                } else {
                    // a < j < b
                    assert(r@[a] == r0[a] && r@[b] == r0[b - 1]);
                }
            }
        }
    }
    proof {
        broadcast use vstd::multiset::group_multiset_axioms;

        assert(src@.to_multiset() =~= Multiset::<Event>::empty());
        assert(r@.to_multiset() =~= v@.to_multiset());
    }
    r
}

/// The discriminant a record carries after time-critical pre-processing: an
/// execve whose interpreter differs from its executable becomes a script
/// execution; everything else keeps its type.
pub open spec fn spec_post_etype(e: Event) -> EventType {
    if e.info.etype is Execve && (e.data matches EventData::Execve {
        ref executable,
        ref interpreter,
        ..
    } && interpreter@ != executable@) {
        EventType::ExecveScript
    } else {
        e.info.etype
    }
}

/// Records the readers consume on the spot: error reports and resume
/// notifications.
pub open spec fn spec_consumed(e: Event) -> bool {
    e.info.etype is Error || e.info.etype is SyscoreResume
}

/// A record enters the pipe when it is not consumed, its (possibly
/// rewritten) type passes the filter, and it is not a scheduling record.
pub open spec fn spec_kept(f: Filter, e: Event) -> bool {
    !spec_consumed(e) && f.spec_is_enabled(spec_post_etype(e)) && !(spec_post_etype(
        e,
    ) is TaskSched)
}

/// The records of `reads` that enter the pipe, in order.
pub open spec fn spec_kept_seq(f: Filter, reads: Seq<Event>) -> Seq<Event>
    decreases reads.len(),
{
    if reads.len() == 0 {
        Seq::empty()
    } else {
        spec_kept_seq(f, reads.drop_last()) + (if spec_kept(f, reads.last()) {
            seq![reads.last()]
        } else {
            Seq::empty()
        })
    }
}

/// How a queued record relates to the read record it came from: stamped with
/// the batch, possibly relabeled as a script execution, and, for a program
/// load whose instructions were dumped, the digests filled in.
pub open spec fn tc_rel(src: Event, batch: u64, post: Event) -> bool {
    &&& post.info.etype == spec_post_etype(src)
    &&& post.info.timestamp == src.info.timestamp
    &&& post.info.batch == batch
    &&& post.info.process == src.info.process
    &&& match src.data {
        EventData::BpfProgLoad {
            id,
            prog_type,
            ref tag,
            ref attached_func,
            ref name,
            ref ksym,
            verified_insns,
            loaded,
            ref insns,
            ref hashes,
        } => match post.data {
            EventData::BpfProgLoad {
                id: id2,
                prog_type: pt2,
                tag: ref tag2,
                attached_func: ref af2,
                name: ref name2,
                ksym: ref ksym2,
                verified_insns: vi2,
                loaded: l2,
                insns: ref insns2,
                hashes: ref hashes2,
            } => {
                &&& id2 == id
                &&& pt2 == prog_type
                &&& tag2 == tag
                &&& af2 == attached_func
                &&& name2 == name
                &&& ksym2 == ksym
                &&& vi2 == verified_insns
                &&& l2 == loaded
                &&& insns2 == insns
                &&& match insns {
                    Some(ref b) => hashes2 matches Some(h) && h.md5@ == spec_hex_lower(
                        md5_of(b@),
                    ) && h.sha1@ == spec_hex_lower(sha1_of(b@)) && h.sha256@ == spec_hex_lower(
                        sha256_of(b@),
                    ) && h.sha512@ == spec_hex_lower(sha512_of(b@)) && h.size == b@.len(),
                    None => hashes2 == hashes,
                }
            },
            _ => false,
        },
        _ => post.data == src.data,
    }
}

/// How many records the pass-through fan-out of one record emits.
pub open spec fn spec_pass_len(e: Event) -> int {
    match e.data {
        EventData::Execve { ref executable, ref interpreter, ref argv, .. } => 1 + (
        if interpreter@ != executable@ {
            1int
        } else {
            0int
        }) + (if argv@.len() > 0 && argv@[0]@.len() > 0 && argv@[0]@[0] == '/' {
            1int
        } else {
            0int
        }),
        EventData::MmapExec { .. } => 1,
        EventData::TaskSched { .. } => 1,
        _ => 0,
    }
}

/// The pass-through block one record contributes, under the given batch
/// stamp: digest requests for the files an execve or executable mapping
/// references, and a correlation record for a scheduling record.
pub open spec fn pass_rel(e: Event, batch: u64, out: Seq<Event>) -> bool {
    let base = EventInfo {
        etype: EventType::CacheHash,
        timestamp: e.info.timestamp,
        batch,
        process: e.info.process,
    };
    match e.data {
        EventData::Execve { ref executable, ref interpreter, ref argv, .. } => {
            let di: int = if interpreter@ != executable@ {
                1int
            } else {
                0int
            };
            let da: int = if argv@.len() > 0 && argv@[0]@.len() > 0 && argv@[0]@[0] == '/' {
                1int
            } else {
                0int
            };
            &&& out.len() == 1 + di + da
            &&& forall|i: int| 0 <= i < out.len() ==> (#[trigger] out[i]).info == base
            &&& out[0].data matches EventData::Hash { path } && path@ == executable@
            &&& di == 1 ==> (out[1].data matches EventData::Hash { path } && path@
                == interpreter@)
            &&& da == 1 ==> (out[di + 1].data matches EventData::Hash { path } && path@
                == argv@[0]@)
        },
        EventData::MmapExec { ref filename } => {
            &&& out.len() == 1
            &&& out[0].info == base
            &&& out[0].data matches EventData::Hash { path } && path@ == filename@
        },
        EventData::TaskSched { ref exe, ref argv, ref cgroup, ref nodename } => {
            &&& out.len() == 1
            &&& out[0].info == EventInfo { etype: EventType::Correlation, ..base }
            &&& out[0].data matches EventData::Correlation(cd) && cd.origin
                == EventType::TaskSched && cd.exe@ == exe@ && strs_eqv(cd.argv@, argv@)
                && cgroup_eqv(cd.cgroup, *cgroup) && opt_str_eqv(cd.nodename, *nodename)
        },
        _ => out.len() == 0,
    }
}

/// A record rewritten by time-critical pre-processing fans out the same
/// block as its source: the rewriting never touches the fields the fan-out
/// reads.
proof fn lemma_pass_rel_tc(src: Event, batch: u64, post: Event, out: Seq<Event>)
    requires
        tc_rel(src, batch, post),
        pass_rel(post, post.info.batch, out),
    ensures
        pass_rel(src, batch, out),
        spec_pass_len(post) == spec_pass_len(src),
{
}

/// The pass-through records of `reads` laid end to end: how many the
/// non-consumed records up to the end contribute.
pub open spec fn spec_out_len(reads: Seq<Event>) -> int
    decreases reads.len(),
{
    if reads.len() == 0 {
        0
    } else {
        spec_out_len(reads.drop_last()) + (if !spec_consumed(reads.last()) {
            spec_pass_len(reads.last())
        } else {
            0
        })
    }
}

proof fn lemma_out_len_nonneg(reads: Seq<Event>)
    ensures
        spec_out_len(reads) >= 0,
        forall|e: Event| spec_pass_len(e) >= 0,
    decreases reads.len(),
{
    if reads.len() > 0 {
        lemma_out_len_nonneg(reads.drop_last());
    }
}

proof fn lemma_out_len_step(reads: Seq<Event>, i: int)
    requires
        0 <= i < reads.len(),
    ensures
        spec_out_len(reads.take(i + 1)) == spec_out_len(reads.take(i)) + (if !spec_consumed(
            reads[i],
        ) {
            spec_pass_len(reads[i])
        } else {
            0int
        }),
{
    assert(reads.take(i + 1).drop_last() =~= reads.take(i));
    assert(reads.take(i + 1).last() == reads[i]);
}

proof fn lemma_out_len_prefix(reads: Seq<Event>, a: int, b: int)
    requires
        0 <= a <= b <= reads.len(),
    ensures
        spec_out_len(reads.take(a)) <= spec_out_len(reads.take(b)),
    decreases b - a,
{
    if a < b {
        lemma_out_len_prefix(reads, a, b - 1);
        lemma_out_len_step(reads, b - 1);
        lemma_out_len_nonneg(reads.take(b - 1));
    }
}

/// The number of records the reads of every CPU contribute to the pipe.
pub open spec fn spec_kept_all_len(f: Filter, reads: Seq<Vec<Event>>) -> int
    decreases reads.len(),
{
    if reads.len() == 0 {
        0
    } else {
        spec_kept_all_len(f, reads.drop_last()) + spec_kept_seq(f, reads.last()@).len()
    }
}

/// The number of pass-through records the reads of every CPU fan out.
pub open spec fn spec_out_len_all(reads: Seq<Vec<Event>>) -> int
    decreases reads.len(),
{
    if reads.len() == 0 {
        0
    } else {
        spec_out_len_all(reads.drop_last()) + spec_out_len(reads.last()@)
    }
}

proof fn spec_kept_all_nonneg(f: Filter, reads: Seq<Vec<Event>>)
    ensures
        spec_kept_all_len(f, reads) >= 0,
        spec_out_len_all(reads) >= 0,
    decreases reads.len(),
{
    if reads.len() > 0 {
        spec_kept_all_nonneg(f, reads.drop_last());
        lemma_out_len_nonneg(reads.last()@);
    }
}

proof fn spec_kept_all_lemmas(f: Filter, reads: Seq<Vec<Event>>, i: int)
    requires
        0 <= i < reads.len(),
    ensures
        spec_kept_all_len(f, reads.take(i + 1)) == spec_kept_all_len(f, reads.take(i))
            + spec_kept_seq(f, reads[i]@).len(),
        spec_out_len_all(reads.take(i + 1)) == spec_out_len_all(reads.take(i)) + spec_out_len(
            reads[i]@,
        ),
{
    assert(reads.take(i + 1).drop_last() =~= reads.take(i));
    assert(reads.take(i + 1).last() == reads[i]);
}

impl EventProducer {
    /// Drains the pipe one batch behind: sorts the pipe by timestamp and
    /// hands out exactly the records of older batches, in timestamp order.
    /// Records of the current batch always stay behind: a slower CPU may
    /// still deliver older-timestamp records for that batch.
    #[verifier::rlimit(80)]
    pub fn process_piped_events(&mut self) -> (drained: Vec<Event>)
        ensures
            final(self).batch == old(self).batch,
            final(self).filter == old(self).filter,
            final(self).stop == old(self).stop,
            final(self).reload == old(self).reload,
            drained@.to_multiset().add(final(self).pipe@.to_multiset()) == old(
                self,
            ).pipe@.to_multiset(),
            sorted_ts(drained@),
            sorted_ts(final(self).pipe@),
            forall|i: int|
                0 <= i < drained@.len() ==> (#[trigger] drained@[i]).info.batch != old(
                    self,
                ).batch,
            forall|j: int|
                0 <= j < final(self).pipe@.len() ==> (#[trigger] final(self).pipe@[j]).info.batch
                    == old(self).batch,
    {
        broadcast use vstd::seq_lib::group_to_multiset_ensures;
        broadcast use vstd::multiset::group_multiset_axioms;

        let ghost pipe0 = self.pipe@;
        let mut p: Vec<Event> = Vec::new();
        core::mem::swap(&mut p, &mut self.pipe);
        let sorted = sort_by_ts(p);
        let ghost sg = sorted@;
        let mut src = sorted;
        let mut drained: Vec<Event> = Vec::new();
        let mut rest: Vec<Event> = Vec::new();
        while src.len() > 0
            invariant
                self.batch == old(self).batch,
                self.filter == old(self).filter,
                self.stop == old(self).stop,
                self.reload == old(self).reload,
                sorted_ts(src@),
                sorted_ts(drained@),
                sorted_ts(rest@),
                forall|a: int|
                    0 <= a < drained@.len() ==> (#[trigger] drained@[a]).info.batch != old(
                        self,
                    ).batch,
                forall|a: int|
                    0 <= a < rest@.len() ==> (#[trigger] rest@[a]).info.batch == old(self).batch,
                forall|a: int, q: int|
                    0 <= a < drained@.len() && 0 <= q < src@.len() ==> (
                    #[trigger] drained@[a]).info.timestamp <= (
                    #[trigger] src@[q]).info.timestamp,
                forall|a: int, q: int|
                    0 <= a < rest@.len() && 0 <= q < src@.len() ==> (
                    #[trigger] rest@[a]).info.timestamp <= (#[trigger] src@[q]).info.timestamp,
                drained@.to_multiset().add(rest@.to_multiset()).add(src@.to_multiset())
                    == sg.to_multiset(),
            decreases src@.len(),
        {
            let ghost src0 = src@;
            let ghost d0 = drained@;
            let ghost r0 = rest@;
            let e = src.remove(0);
            if e.info.batch == self.batch {
                rest.push(e);
            } else {
                drained.push(e);
            }
            proof {
                broadcast use vstd::seq_lib::group_to_multiset_ensures;
                broadcast use vstd::multiset::group_multiset_axioms;

                assert(src0[0] == e);
                assert(src@ =~= src0.drop_first());
                assert(src@.to_multiset() == src0.to_multiset().remove(e)) by {
                    assert(src@ =~= src0.remove(0));
                }
                assert(src0.contains(e));
                assert(src0.to_multiset().count(e) > 0);
                if e.info.batch == old(self).batch {
                    assert(rest@ =~= r0.push(e));
                } else {
                    assert(drained@ =~= d0.push(e));
                }
                assert(drained@.to_multiset().add(rest@.to_multiset()).add(src@.to_multiset())
                    =~= sg.to_multiset());
            }
        }
        self.pipe = rest;
        proof {
            assert(src@.to_multiset() =~= Multiset::<Event>::empty());
            assert(drained@.to_multiset().add(final(self).pipe@.to_multiset())
                =~= sg.to_multiset());
            assert(sg.to_multiset() == pipe0.to_multiset());
        }
        drained
    }

    /// One reader pass over the records one CPU delivered: each record is
    /// stamped with the current batch, pre-processed, fanned out, and, when
    /// its (possibly re-read) type passes the filter and is not a scheduling
    /// record, pushed into the pipe. The pipe gains exactly the kept records,
    /// rewritten per [`tc_rel`], and the returned vector is exactly their
    /// pass-through fan-out, block by block.
    pub fn handle_reader_events(&mut self, reads: Vec<Event>) -> (out: Vec<Event>)
        requires
            forall|i: int| 0 <= i < reads@.len() ==> (#[trigger] reads@[i]).wf(),
        ensures
            final(self).batch == old(self).batch,
            final(self).filter == old(self).filter,
            final(self).stop == old(self).stop,
            final(self).reload == (old(self).reload || exists|i: int|
                0 <= i < reads@.len() && (#[trigger] reads@[i]).info.etype is SyscoreResume),
            forall|j: int|
                0 <= j < old(self).pipe@.len() ==> (#[trigger] final(self).pipe@[j]) == old(
                    self,
                ).pipe@[j],
            final(self).pipe@.len() == old(self).pipe@.len() + spec_kept_seq(
                old(self).filter,
                reads@,
            ).len(),
            forall|j: int|
                0 <= j < spec_kept_seq(old(self).filter, reads@).len() ==> tc_rel(
                    spec_kept_seq(old(self).filter, reads@)[j],
                    old(self).batch,
                    #[trigger] final(self).pipe@[old(self).pipe@.len() + j],
                ),
            forall|j: int|
                old(self).pipe@.len() <= j < final(self).pipe@.len() ==> (
                #[trigger] final(self).pipe@[j]).info.batch == old(self).batch,
            forall|j: int|
                old(self).pipe@.len() <= j < final(self).pipe@.len() ==> (
                #[trigger] final(self).pipe@[j]).wf(),
            forall|j: int|
                old(self).pipe@.len() <= j < final(self).pipe@.len()
                    ==> final(self).filter.spec_is_enabled(
                    (#[trigger] final(self).pipe@[j]).info.etype,
                ),
            forall|j: int|
                old(self).pipe@.len() <= j < final(self).pipe@.len() ==> !((
                #[trigger] final(self).pipe@[j]).info.etype is TaskSched),
            out@.len() == spec_out_len(reads@),
            forall|i: int|
                0 <= i < reads@.len() && !spec_consumed(#[trigger] reads@[i]) ==> pass_rel(
                    reads@[i],
                    old(self).batch,
                    out@.subrange(
                        spec_out_len(reads@.take(i)),
                        spec_out_len(reads@.take(i)) + spec_pass_len(reads@[i]),
                    ),
                ),
            forall|j: int|
                0 <= j < out@.len() ==> ((#[trigger] out@[j]).info.etype is CacheHash
                        || out@[j].info.etype is Correlation),
    {
        let ghost rds = reads@;
        let mut out: Vec<Event> = Vec::new();
        let mut src = reads;
        let ghost mut idx: int = 0;
        proof {
            assert(src@ =~= rds.skip(0));
            assert(rds.take(0) =~= Seq::<Event>::empty());
        }
        while src.len() > 0
            invariant
                0 <= idx <= rds.len(),
                src@ == rds.skip(idx),
                forall|i: int| 0 <= i < rds.len() ==> (#[trigger] rds[i]).wf(),
                self.batch == old(self).batch,
                self.filter == old(self).filter,
                self.stop == old(self).stop,
                self.reload == (old(self).reload || exists|i: int|
                    0 <= i < idx && (#[trigger] rds[i]).info.etype is SyscoreResume),
                forall|j: int|
                    0 <= j < old(self).pipe@.len() ==> (#[trigger] self.pipe@[j]) == old(
                        self,
                    ).pipe@[j],
                self.pipe@.len() == old(self).pipe@.len() + spec_kept_seq(
                    old(self).filter,
                    rds.take(idx),
                ).len(),
                forall|j: int|
                    0 <= j < spec_kept_seq(old(self).filter, rds.take(idx)).len() ==> tc_rel(
                        spec_kept_seq(old(self).filter, rds.take(idx))[j],
                        old(self).batch,
                        #[trigger] self.pipe@[old(self).pipe@.len() + j],
                    ),
                forall|j: int|
                    old(self).pipe@.len() <= j < self.pipe@.len() ==> (
                    #[trigger] self.pipe@[j]).info.batch == old(self).batch,
                forall|j: int|
                    old(self).pipe@.len() <= j < self.pipe@.len() ==> (
                    #[trigger] self.pipe@[j]).wf(),
                forall|j: int|
                    old(self).pipe@.len() <= j < self.pipe@.len()
                        ==> self.filter.spec_is_enabled((#[trigger] self.pipe@[j]).info.etype),
                forall|j: int|
                    old(self).pipe@.len() <= j < self.pipe@.len() ==> !((
                    #[trigger] self.pipe@[j]).info.etype is TaskSched),
                out@.len() == spec_out_len(rds.take(idx)),
                forall|i: int|
                    0 <= i < idx && !spec_consumed(#[trigger] rds[i]) ==> pass_rel(
                        rds[i],
                        old(self).batch,
                        out@.subrange(
                            spec_out_len(rds.take(i)),
                            spec_out_len(rds.take(i)) + spec_pass_len(rds[i]),
                        ),
                    ),
                forall|j: int|
                    0 <= j < out@.len() ==> ((#[trigger] out@[j]).info.etype is CacheHash
                            || out@[j].info.etype is Correlation),
            decreases src@.len(),
        {
            let ghost src0 = src@;
            let mut e = src.remove(0);
            proof {
                assert(src0 =~= rds.skip(idx));
                assert(src0[0] == rds[idx]);
                assert(src@ =~= src0.drop_first());
                assert(src0.drop_first() =~= rds.skip(idx + 1));
            }
            let ghost src_e = rds[idx];
            e.info.batch = self.batch;
            let (e, consumed) = self.process_time_critical(e);
            proof {
                assert(tc_rel(src_e, old(self).batch, e));
                assert(consumed == spec_consumed(src_e));
                assert(rds.take(idx + 1).drop_last() =~= rds.take(idx));
                assert(rds.take(idx + 1).last() == rds[idx]);
            }
            if !consumed {
                let mut derived = self.pass_through_events(&e);
                proof {
                    lemma_pass_rel_tc(src_e, old(self).batch, e, derived@);
                    lemma_out_len_nonneg(rds.take(idx));
                }
                let ghost out0 = out@;
                let ghost derived0 = derived@;
                while derived.len() > 0
                    invariant
                        derived@.len() <= derived0.len(),
                        out@ == out0 + derived0.take(derived0.len() - derived@.len()),
                        derived@ == derived0.skip(derived0.len() - derived@.len()),
                    decreases derived@.len(),
                {
                    let ghost moved = derived0.len() - derived@.len();
                    let d = derived.remove(0);
                    out.push(d);
                    proof {
                        assert(d == derived0[moved]);
                        assert(out@ =~= out0 + derived0.take(moved + 1));
                        assert(derived@ =~= derived0.skip(moved + 1));
                    }
                }
                proof {
                    assert(derived0.take(derived0.len() as int) =~= derived0);
                    assert(out@ =~= out0 + derived0);
                }
                let etype = e.info.etype;
                if self.filter.is_enabled(etype) && !matches!(etype, EventType::TaskSched) {
                    self.pipe.push(e);
                }
                proof {
                    let ks0 = spec_kept_seq(old(self).filter, rds.take(idx));
                    let ks1 = spec_kept_seq(old(self).filter, rds.take(idx + 1));
                    if spec_kept(old(self).filter, src_e) {
                        assert(ks1 =~= ks0 + seq![src_e]);
                    } else {
                        assert(ks1 =~= ks0);
                    }
                    assert(spec_out_len(rds.take(idx + 1)) == spec_out_len(rds.take(idx))
                        + spec_pass_len(src_e));
                    assert(out@.subrange(out0.len() as int, out0.len() + derived0.len() as int)
                        =~= derived0);
                    assert forall|i: int|
                        0 <= i < idx && !spec_consumed(#[trigger] rds[i]) implies pass_rel(
                        rds[i],
                        old(self).batch,
                        out@.subrange(
                            spec_out_len(rds.take(i)),
                            spec_out_len(rds.take(i)) + spec_pass_len(rds[i]),
                        ),
                    ) by {
                        lemma_out_len_prefix(rds, i + 1, idx);
                        lemma_out_len_step(rds, i);
                        lemma_out_len_nonneg(rds.take(i));
                        assert(out@.subrange(
                            spec_out_len(rds.take(i)),
                            spec_out_len(rds.take(i)) + spec_pass_len(rds[i]),
                        ) =~= out0.subrange(
                            spec_out_len(rds.take(i)),
                            spec_out_len(rds.take(i)) + spec_pass_len(rds[i]),
                        ));
                    }
                    idx = idx + 1;
                }
            } else {
                proof {
                    let ks0 = spec_kept_seq(old(self).filter, rds.take(idx));
                    let ks1 = spec_kept_seq(old(self).filter, rds.take(idx + 1));
                    assert(ks1 =~= ks0);
                    assert(spec_out_len(rds.take(idx + 1)) == spec_out_len(rds.take(idx)));
                    idx = idx + 1;
                }
            }
        }
        proof {
            assert(rds.take(rds.len() as int) =~= rds);
        }
        out
    }

    /// One full producer cycle over what every CPU read this round: each
    /// CPU's records pass the reader step under the per-record guarantees of
    /// [`Self::handle_reader_events`]; then, when anything is pending, the
    /// reducer drains the pipe per [`Self::process_piped_events`] and a new
    /// batch begins. Nothing is lost: the queue gains exactly the kept
    /// records, and what leaves it is exactly what is drained. Returns the
    /// pass-through records and the drained ordered records, in channel
    /// order.
    #[verifier::rlimit(80)]
    pub fn produce_cycle(&mut self, reads: Vec<Vec<Event>>) -> (r: (Vec<Event>, Vec<Event>))
        requires
            old(self).batch < u64::MAX,
            old(self).pipe_wf(),
            forall|c: int, i: int|
                0 <= c < reads@.len() && 0 <= i < reads@[c]@.len() ==> (
                #[trigger] reads@[c]@[i]).wf(),
        ensures
            final(self).filter == old(self).filter,
            final(self).stop == old(self).stop,
            final(self).pipe_wf(),
            sorted_ts(r.1@),
            // conservation: every queued or kept record is either drained now
            // or still queued
            old(self).pipe@.len() + spec_kept_all_len(old(self).filter, reads@) == r.1@.len()
                + final(self).pipe@.len(),
            // batch separation: the reducer never hands out a record of the
            // batch it read under
            forall|i: int|
                0 <= i < r.1@.len() ==> (#[trigger] r.1@[i]).info.batch != old(self).batch,
            forall|j: int|
                0 <= j < final(self).pipe@.len() ==> (#[trigger] final(self).pipe@[j]).info.batch
                    == old(self).batch,
            // a new batch begins exactly when the round had anything pending
            if old(self).pipe@.len() + spec_kept_all_len(old(self).filter, reads@) > 0 {
                final(self).batch == old(self).batch + 1
            } else {
                final(self).batch == old(self).batch
            },
            // the pass-through stream carries exactly the fan-out of the reads
            r.0@.len() == spec_out_len_all(reads@),
            forall|j: int|
                0 <= j < r.0@.len() ==> ((#[trigger] r.0@[j]).info.etype is CacheHash
                        || r.0@[j].info.etype is Correlation),
    {
        let ghost rds = reads@;
        let mut passed: Vec<Event> = Vec::new();
        let mut src = reads;
        let ghost mut idx: int = 0;
        proof {
            assert(src@ =~= rds.skip(0));
            assert(rds.take(0) =~= Seq::<Vec<Event>>::empty());
        }
        while src.len() > 0
            invariant
                0 <= idx <= rds.len(),
                src@ == rds.skip(idx),
                forall|c: int, i: int|
                    0 <= c < rds.len() && 0 <= i < rds[c]@.len() ==> (
                    #[trigger] rds[c]@[i]).wf(),
                self.batch == old(self).batch,
                self.filter == old(self).filter,
                self.stop == old(self).stop,
                self.pipe_wf(),
                self.pipe@.len() == old(self).pipe@.len() + spec_kept_all_len(
                    old(self).filter,
                    rds.take(idx),
                ),
                forall|j: int|
                    old(self).pipe@.len() <= j < self.pipe@.len() ==> (
                    #[trigger] self.pipe@[j]).info.batch == old(self).batch,
                passed@.len() == spec_out_len_all(rds.take(idx)),
                forall|j: int|
                    0 <= j < passed@.len() ==> ((#[trigger] passed@[j]).info.etype is CacheHash
                            || passed@[j].info.etype is Correlation),
            decreases src@.len(),
        {
            let ghost src0 = src@;
            let one_cpu = src.remove(0);
            proof {
                assert(src0 =~= rds.skip(idx));
                assert(src0[0] == rds[idx]);
                assert(src@ =~= src0.drop_first());
                assert(src0.drop_first() =~= rds.skip(idx + 1));
                assert(forall|i: int| 0 <= i < one_cpu@.len() ==> (#[trigger] one_cpu@[i]).wf())
                    by {
                    assert(one_cpu@ == rds[idx]@);
                }
            }
            let ghost cpu = rds[idx];
            let mut derived = self.handle_reader_events(one_cpu);
            proof {
                spec_kept_all_lemmas(old(self).filter, rds, idx);
            }
            let ghost passed0 = passed@;
            let ghost derived0 = derived@;
            while derived.len() > 0
                invariant
                    derived@.len() <= derived0.len(),
                    passed@ == passed0 + derived0.take(derived0.len() - derived@.len()),
                    derived@ == derived0.skip(derived0.len() - derived@.len()),
                    forall|j: int|
                        0 <= j < passed@.len() ==> ((
                        #[trigger] passed@[j]).info.etype is CacheHash
                                || passed@[j].info.etype is Correlation),
                    forall|j: int|
                        0 <= j < derived@.len() ==> ((
                        #[trigger] derived@[j]).info.etype is CacheHash
                                || derived@[j].info.etype is Correlation),
                decreases derived@.len(),
            {
                let ghost moved = derived0.len() - derived@.len();
                let d = derived.remove(0);
                passed.push(d);
                proof {
                    assert(d == derived0[moved]);
                    assert(passed@ =~= passed0 + derived0.take(moved + 1));
                    assert(derived@ =~= derived0.skip(moved + 1));
                }
            }
            proof {
                assert(derived0.take(derived0.len() as int) =~= derived0);
                assert(passed@ =~= passed0 + derived0);
                idx = idx + 1;
            }
        }
        proof {
            assert(rds.take(rds.len() as int) =~= rds);
        }
        if self.has_pending_events() {
            let ghost before = self.pipe@;
            let drained = self.process_piped_events();
            proof {
                broadcast use vstd::seq_lib::group_to_multiset_ensures;
                broadcast use vstd::multiset::group_multiset_axioms;

                assert(drained@.to_multiset().add(self.pipe@.to_multiset()).len()
                    == drained@.to_multiset().len() + self.pipe@.to_multiset().len());
                assert(drained@.len() + self.pipe@.len() == before.len());
            }
            self.batch = self.batch + 1;
            (passed, drained)
        } else {
            proof {
                spec_kept_all_nonneg(old(self).filter, rds);
            }
            (passed, Vec::new())
        }
    }
}

} // verus!
