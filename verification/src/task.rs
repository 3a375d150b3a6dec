//! Process lineage: the task record, the task table keyed by
//! [`TaskKey`], and the bounded ancestor walk.

use vstd::prelude::*;

use crate::containers::Container;
use crate::dns::ResolvedMap;
use crate::events::{Ip, TaskKey, PF_KTHREAD};
use crate::text::{join_strings, spec_join};

verus! {

/// Lineage record of one task.
#[derive(Debug)]
pub struct Task {
    pub image: String,
    pub command_line: Vec<String>,
    pub pid: i32,
    /// Kernel PF_* bits.
    pub flags: u32,
    /// Per-task resolution map, filled by DNS answers.
    pub resolved: ResolvedMap,
    pub container: Option<Container>,
    pub cgroups: Vec<String>,
    /// uts nodename inside the task's namespace, set by correlation.
    pub nodename: Option<String>,
    pub parent_key: Option<TaskKey>,
}

impl Task {
    pub open spec fn wf(self) -> bool {
        self.resolved.wf()
    }

    /// The flags carry `PF_KTHREAD`.
    pub open spec fn spec_is_kthread(self) -> bool {
        self.flags & PF_KTHREAD == PF_KTHREAD
    }

    /// See [`Self::spec_is_kthread`].
    pub fn is_kthread(&self) -> (r: bool)
        ensures
            r == self.spec_is_kthread(),
    {
        self.flags & PF_KTHREAD == PF_KTHREAD
    }

    /// argv joined by single spaces.
    pub open spec fn spec_command_line(self) -> Seq<char> {
        spec_join(self.command_line@.map_values(|p: String| p@), " "@)
    }

    /// See [`Self::spec_command_line`].
    pub fn command_line_string(&self) -> (r: String)
        ensures
            r@ == self.spec_command_line(),
    {
        join_strings(&self.command_line, " ")
    }
}

/// First entry with the given key, if any.
pub open spec fn tt_lookup(s: Seq<(TaskKey, Task)>, k: TaskKey) -> Option<Task>
    decreases s.len(),
{
    if s.len() == 0 {
        None
    } else if s[0].0 == k {
        Some(s[0].1)
    } else {
        tt_lookup(s.drop_first(), k)
    }
}

/// No key occurs twice.
pub open spec fn tt_unique(s: Seq<(TaskKey, Task)>) -> bool {
    forall|i: int, j: int| 0 <= i < j < s.len() ==> (#[trigger] s[i]).0 != (#[trigger] s[j]).0
}

/// Every stored record is well-formed.
pub open spec fn tt_all_wf(s: Seq<(TaskKey, Task)>) -> bool {
    forall|i: int| 0 <= i < s.len() ==> (#[trigger] s[i]).1.wf()
}

proof fn lemma_tt_lookup_index(s: Seq<(TaskKey, Task)>, k: TaskKey, i: int)
    requires
        tt_unique(s),
        0 <= i < s.len(),
        s[i].0 == k,
    ensures
        tt_lookup(s, k) == Some(s[i].1),
    decreases s.len(),
{
    if i == 0 {
    } else {
        assert(s[0].0 != k);
        lemma_tt_lookup_index(s.drop_first(), k, i - 1);
    }
}

proof fn lemma_tt_lookup_none(s: Seq<(TaskKey, Task)>, k: TaskKey)
    requires
        forall|i: int| 0 <= i < s.len() ==> (#[trigger] s[i]).0 != k,
    ensures
        tt_lookup(s, k) == None::<Task>,
    decreases s.len(),
{
    if s.len() > 0 {
        lemma_tt_lookup_none(s.drop_first(), k);
    }
}

proof fn lemma_tt_lookup_push(s: Seq<(TaskKey, Task)>, k: TaskKey, v: Task)
    requires
        forall|i: int| 0 <= i < s.len() ==> (#[trigger] s[i]).0 != k,
    ensures
        tt_lookup(s.push((k, v)), k) == Some(v),
        forall|k2: TaskKey| k2 != k ==> tt_lookup(s.push((k, v)), k2) == tt_lookup(s, k2),
    decreases s.len(),
{
    if s.len() == 0 {
        assert forall|k2: TaskKey| k2 != k implies tt_lookup(s.push((k, v)), k2) == tt_lookup(
            s,
            k2,
        ) by {
            let t = s.push((k, v));
            assert(t.drop_first() =~= Seq::<(TaskKey, Task)>::empty());
            assert(tt_lookup(t.drop_first(), k2) == None::<Task>);
        }
    } else {
        lemma_tt_lookup_push(s.drop_first(), k, v);
        let t = s.push((k, v));
        assert(t.drop_first() =~= s.drop_first().push((k, v)));
        assert forall|k2: TaskKey| k2 != k implies tt_lookup(t, k2) == tt_lookup(s, k2) by {
            assert(t[0] == s[0]);
            assert(tt_lookup(t.drop_first(), k2) == tt_lookup(s.drop_first().push((k, v)), k2));
            assert(tt_lookup(s.drop_first().push((k, v)), k2) == tt_lookup(s.drop_first(), k2));
        }
        assert(tt_lookup(t, k) == Some(v)) by {
            assert(s[0].0 != k);
            assert(tt_lookup(t.drop_first(), k) == tt_lookup(s.drop_first().push((k, v)), k));
        }
    }
}

proof fn lemma_tt_lookup_remove(s: Seq<(TaskKey, Task)>, i: int)
    requires
        tt_unique(s),
        0 <= i < s.len(),
    ensures
        tt_unique(s.remove(i)),
        tt_lookup(s.remove(i), s[i].0) == None::<Task>,
        forall|k: TaskKey| k != s[i].0 ==> tt_lookup(s.remove(i), k) == tt_lookup(s, k),
    decreases s.len(),
{
    let r = s.remove(i);
    assert forall|a: int, b: int| 0 <= a < b < r.len() implies (#[trigger] r[a]).0 != (
    #[trigger] r[b]).0 by {
        let a0 = if a < i { a } else { a + 1 };
        let b0 = if b < i { b } else { b + 1 };
        assert(r[a] == s[a0] && r[b] == s[b0]);
    }
    assert forall|j: int| 0 <= j < r.len() implies (#[trigger] r[j]).0 != s[i].0 by {
        let j0 = if j < i { j } else { j + 1 };
        assert(r[j] == s[j0]);
    }
    lemma_tt_lookup_none(r, s[i].0);
    if i == 0 {
        assert(s.remove(0) =~= s.drop_first());
        assert forall|k: TaskKey| k != s[0].0 implies tt_lookup(s.remove(0), k) == tt_lookup(
            s,
            k,
        ) by {
            assert(tt_lookup(s, k) == tt_lookup(s.drop_first(), k));
        }
    } else {
        lemma_tt_lookup_remove(s.drop_first(), i - 1);
        assert(s.remove(i).drop_first() =~= s.drop_first().remove(i - 1));
        assert(s.remove(i)[0] == s[0]);
        assert forall|k: TaskKey| k != s[i].0 implies tt_lookup(s.remove(i), k) == tt_lookup(
            s,
            k,
        ) by {
            assert(s.drop_first()[i - 1] == s[i]);
            assert(tt_lookup(s.remove(i).drop_first(), k) == tt_lookup(
                s.drop_first().remove(i - 1),
                k,
            ));
            assert(tt_lookup(s.drop_first().remove(i - 1), k) == tt_lookup(s.drop_first(), k));
        }
    }
}

/// The process-lineage table: task records addressed by task key.
#[derive(Debug)]
pub struct TaskTable {
    entries: Vec<(TaskKey, Task)>,
}

impl TaskTable {
    pub closed spec fn wf(self) -> bool {
        tt_unique(self.entries@) && tt_all_wf(self.entries@)
    }

    /// The record stored for `k`.
    pub closed spec fn spec_get(self, k: TaskKey) -> Option<Task> {
        tt_lookup(self.entries@, k)
    }

    pub closed spec fn spec_len(self) -> nat {
        self.entries@.len()
    }

    pub fn new() -> (r: TaskTable)
        ensures
            r.wf(),
            forall|k: TaskKey| r.spec_get(k) == None::<Task>,
            r.spec_len() == 0,
    {
        TaskTable { entries: Vec::new() }
    }

    fn find_index(&self, k: TaskKey) -> (r: Option<usize>)
        requires
            self.wf(),
        ensures
            match r {
                Some(i) => i < self.entries@.len() && self.entries@[i as int].0 == k
                    && self.spec_get(k) == Some(self.entries@[i as int].1),
                None => self.spec_get(k) == None::<Task> && forall|i: int|
                    0 <= i < self.entries@.len() ==> (#[trigger] self.entries@[i]).0 != k,
            },
    {
        let n = self.entries.len();
        for i in 0..n
            invariant
                self.wf(),
                n == self.entries@.len(),
                forall|j: int| 0 <= j < i ==> (#[trigger] self.entries@[j]).0 != k,
        {
            if self.entries[i].0 == k {
                proof {
                    lemma_tt_lookup_index(self.entries@, k, i as int);
                }
                return Some(i);
            }
        }
        proof {
            lemma_tt_lookup_none(self.entries@, k);
        }
        None
    }

    /// Whether a record exists for `k`.
    pub fn contains(&self, k: TaskKey) -> (r: bool)
        requires
            self.wf(),
        ensures
            r == self.spec_get(k).is_some(),
    {
        self.find_index(k).is_some()
    }

    /// Inserts a record for `k` unless one exists; an existing record is
    /// never overwritten.
    pub fn insert_if_absent(&mut self, k: TaskKey, t: Task)
        requires
            old(self).wf(),
            t.wf(),
        ensures
            final(self).wf(),
            old(self).spec_get(k) == None::<Task> ==> final(self).spec_get(k) == Some(t),
            old(self).spec_get(k).is_some() ==> final(self).spec_get(k) == old(self).spec_get(k),
            forall|k2: TaskKey| k2 != k ==> final(self).spec_get(k2) == old(self).spec_get(k2),
    {
        if self.find_index(k).is_none() {
            proof {
                lemma_tt_lookup_push(self.entries@, k, t);
            }
            let ghost s0 = self.entries@;
            self.entries.push((k, t));
            proof {
                assert forall|i: int, j: int|
                    0 <= i < j < self.entries@.len() implies (#[trigger] self.entries@[i]).0 != (
                #[trigger] self.entries@[j]).0 by {
                    if j < s0.len() as int {
                        assert(self.entries@[i] == s0[i] && self.entries@[j] == s0[j]);
                    } else {
                        assert(self.entries@[i] == s0[i]);
                    }
                }
                assert forall|i: int| 0 <= i < self.entries@.len() implies (
                #[trigger] self.entries@[i]).1.wf() by {
                    if i < s0.len() as int {
                        assert(self.entries@[i] == s0[i]);
                    }
                }
            }
        }
    }

    /// The image of `k`'s record.
    pub fn image_of(&self, k: TaskKey) -> (r: Option<String>)
        requires
            self.wf(),
        ensures
            match r {
                Some(s) => self.spec_get(k) matches Some(t) && s@ == t.image@,
                None => self.spec_get(k) == None::<Task>,
            },
    {
        match self.find_index(k) {
            Some(i) => Some(self.entries[i].1.image.clone()),
            None => None,
        }
    }

    /// The command line of `k`'s record, argv joined by spaces.
    pub fn cmdline_of(&self, k: TaskKey) -> (r: Option<String>)
        requires
            self.wf(),
        ensures
            match r {
                Some(s) => self.spec_get(k) matches Some(t) && s@ == t.spec_command_line(),
                None => self.spec_get(k) == None::<Task>,
            },
    {
        match self.find_index(k) {
            Some(i) => Some(join_strings(&self.entries[i].1.command_line, " ")),
            None => None,
        }
    }

    /// The nodename of `k`'s record, when both exist.
    pub fn nodename_of(&self, k: TaskKey) -> (r: Option<String>)
        requires
            self.wf(),
        ensures
            match r {
                Some(s) => self.spec_get(k) matches Some(t) && t.nodename matches Some(n) && s@
                    == n@,
                None => match self.spec_get(k) {
                    Some(t) => t.nodename == None::<String>,
                    None => true,
                },
            },
    {
        match self.find_index(k) {
            Some(i) => match &self.entries[i].1.nodename {
                Some(s) => Some(s.clone()),
                None => None,
            },
            None => None,
        }
    }

    /// The container of `k`'s record, when both exist.
    pub fn container_of(&self, k: TaskKey) -> (r: Option<Container>)
        requires
            self.wf(),
        ensures
            match r {
                Some(c) => self.spec_get(k) matches Some(t) && t.container == Some(c),
                None => match self.spec_get(k) {
                    Some(t) => t.container == None::<Container>,
                    None => true,
                },
            },
    {
        match self.find_index(k) {
            Some(i) => self.entries[i].1.container,
            None => None,
        }
    }

    /// The cgroups of `k`'s record.
    pub fn cgroups_of(&self, k: TaskKey) -> (r: Option<Vec<String>>)
        requires
            self.wf(),
        ensures
            match r {
                Some(v) => self.spec_get(k) matches Some(t) && v@.map_values(|p: String| p@)
                    == t.cgroups@.map_values(|p: String| p@),
                None => self.spec_get(k) == None::<Task>,
            },
    {
        match self.find_index(k) {
            Some(i) => {
                let src = &self.entries[i].1.cgroups;
                let mut v: Vec<String> = Vec::new();
                let n = src.len();
                for j in 0..n
                    invariant
                        n == src@.len(),
                        v@.len() == j,
                        forall|q: int| 0 <= q < j ==> (#[trigger] v@[q])@ == src@[q]@,
                {
                    v.push(src[j].clone());
                }
                proof {
                    assert(v@.map_values(|p: String| p@) =~= src@.map_values(|p: String| p@));
                }
                Some(v)
            },
            None => None,
        }
    }

    /// The name `k`'s record itself resolved for `ip`, when both exist.
    pub fn resolved_of(&self, k: TaskKey, ip: Ip) -> (r: Option<String>)
        requires
            self.wf(),
        ensures
            match r {
                Some(s) => self.spec_get(k) matches Some(t) && t.resolved.spec_get(ip) matches Some(
                    n,
                ) && s@ == n@,
                None => match self.spec_get(k) {
                    Some(t) => t.resolved.spec_get(ip) == None::<String>,
                    None => true,
                },
            },
    {
        match self.find_index(k) {
            Some(i) => {
                proof {
                    assert(self.entries@[i as int].1.wf());
                }
                match self.entries[i].1.resolved.get(ip) {
                    Some(s) => Some(s.clone()),
                    None => None,
                }
            },
            None => None,
        }
    }

    /// Pid and flags of `k`'s record.
    pub fn pid_flags_of(&self, k: TaskKey) -> (r: Option<(i32, u32)>)
        requires
            self.wf(),
        ensures
            match r {
                Some(pf) => self.spec_get(k) matches Some(t) && pf.0 == t.pid && pf.1 == t.flags,
                None => self.spec_get(k) == None::<Task>,
            },
    {
        match self.find_index(k) {
            Some(i) => Some((self.entries[i].1.pid, self.entries[i].1.flags)),
            None => None,
        }
    }

    /// Removes the record for `k`, if any.
    pub fn remove(&mut self, k: TaskKey)
        requires
            old(self).wf(),
        ensures
            final(self).wf(),
            final(self).spec_get(k) == None::<Task>,
            forall|k2: TaskKey| k2 != k ==> final(self).spec_get(k2) == old(self).spec_get(k2),
    {
        match self.find_index(k) {
            Some(i) => {
                proof {
                    lemma_tt_lookup_remove(self.entries@, i as int);
                }
                let ghost s0 = self.entries@;
                self.entries.remove(i);
                proof {
                    assert forall|j: int| 0 <= j < self.entries@.len() implies (
                    #[trigger] self.entries@[j]).1.wf() by {
                        let j0 = if j < i as int { j } else { j + 1 };
                        assert(self.entries@[j] == s0[j0]);
                    }
                }
            },
            None => {},
        }
    }

    /// Takes the record for `k` out of the table, leaving the rest unchanged.
    fn take(&mut self, k: TaskKey) -> (r: Option<Task>)
        requires
            old(self).wf(),
        ensures
            final(self).wf(),
            r == old(self).spec_get(k),
            r.is_some() ==> (r matches Some(t) && t.wf()),
            final(self).spec_get(k) == None::<Task>,
            forall|k2: TaskKey| k2 != k ==> final(self).spec_get(k2) == old(self).spec_get(k2),
    {
        match self.find_index(k) {
            Some(i) => {
                proof {
                    lemma_tt_lookup_remove(self.entries@, i as int);
                    lemma_tt_lookup_index(self.entries@, k, i as int);
                }
                let ghost s0 = self.entries@;
                let (_, t) = self.entries.remove(i);
                proof {
                    assert forall|j: int| 0 <= j < self.entries@.len() implies (
                    #[trigger] self.entries@[j]).1.wf() by {
                        let j0 = if j < i as int { j } else { j + 1 };
                        assert(self.entries@[j] == s0[j0]);
                    }
                    assert(s0[i as int].1.wf());
                }
                Some(t)
            },
            None => None,
        }
    }

    /// Puts a record for `k` into the table; `k` must be absent.
    fn put(&mut self, k: TaskKey, t: Task)
        requires
            old(self).wf(),
            t.wf(),
            old(self).spec_get(k) == None::<Task>,
        ensures
            final(self).wf(),
            final(self).spec_get(k) == Some(t),
            forall|k2: TaskKey| k2 != k ==> final(self).spec_get(k2) == old(self).spec_get(k2),
    {
        proof {
            if exists|i: int| 0 <= i < self.entries@.len() && (#[trigger] self.entries@[i]).0
                == k {
                let i = choose|i: int|
                    0 <= i < self.entries@.len() && (#[trigger] self.entries@[i]).0 == k;
                lemma_tt_lookup_index(self.entries@, k, i);
            }
            lemma_tt_lookup_push(self.entries@, k, t);
        }
        let ghost s0 = self.entries@;
        self.entries.push((k, t));
        proof {
            assert forall|i: int, j: int|
                0 <= i < j < self.entries@.len() implies (#[trigger] self.entries@[i]).0 != (
            #[trigger] self.entries@[j]).0 by {
                if j < s0.len() as int {
                    assert(self.entries@[i] == s0[i] && self.entries@[j] == s0[j]);
                } else {
                    assert(self.entries@[i] == s0[i]);
                }
            }
            assert forall|i: int| 0 <= i < self.entries@.len() implies (
            #[trigger] self.entries@[i]).1.wf() by {
                if i < s0.len() as int {
                    assert(self.entries@[i] == s0[i]);
                }
            }
        }
    }

    /// Sets the nodename of `k`'s record when the record exists and has none.
    pub fn set_nodename_if_missing(&mut self, k: TaskKey, n: Option<String>)
        requires
            old(self).wf(),
        ensures
            final(self).wf(),
            match old(self).spec_get(k) {
                None => final(self).spec_get(k) == None::<Task>,
                Some(t) => final(self).spec_get(k) == Some(
                    Task { nodename: if t.nodename is None { n } else { t.nodename }, ..t },
                ),
            },
            forall|k2: TaskKey| k2 != k ==> final(self).spec_get(k2) == old(self).spec_get(k2),
    {
        match self.take(k) {
            Some(mut t) => {
                if t.nodename.is_none() {
                    t.nodename = n;
                }
                self.put(k, t);
            },
            None => {},
        }
    }

    /// Empties the resolved map of `k`'s record, keeping everything else.
    pub fn free_resolved(&mut self, k: TaskKey)
        requires
            old(self).wf(),
        ensures
            final(self).wf(),
            match old(self).spec_get(k) {
                None => final(self).spec_get(k) == None::<Task>,
                Some(t) => final(self).spec_get(k) matches Some(t2) && t2.image == t.image
                    && t2.command_line == t.command_line && t2.pid == t.pid && t2.flags == t.flags
                    && t2.container == t.container && t2.cgroups == t.cgroups && t2.nodename
                    == t.nodename && t2.parent_key == t.parent_key && t2.resolved.wf() && forall|
                    ip: Ip,
                |
                    t2.resolved.spec_get(ip) == None::<String>,
            },
            forall|k2: TaskKey| k2 != k ==> final(self).spec_get(k2) == old(self).spec_get(k2),
    {
        match self.take(k) {
            Some(mut t) => {
                t.resolved.clear();
                self.put(k, t);
            },
            None => {},
        }
    }

    /// Sets the container of `k`'s record, when it exists.
    pub fn set_container(&mut self, k: TaskKey, c: Option<Container>)
        requires
            old(self).wf(),
        ensures
            final(self).wf(),
            match old(self).spec_get(k) {
                None => final(self).spec_get(k) == None::<Task>,
                Some(t) => final(self).spec_get(k) == Some(Task { container: c, ..t }),
            },
            forall|k2: TaskKey| k2 != k ==> final(self).spec_get(k2) == old(self).spec_get(k2),
    {
        match self.take(k) {
            Some(mut t) => {
                t.container = c;
                self.put(k, t);
            },
            None => {},
        }
    }

    /// Records, in `k`'s own record, that `ip` resolved to `name`.
    pub fn update_resolved(&mut self, k: TaskKey, ip: Ip, name: String)
        requires
            old(self).wf(),
        ensures
            final(self).wf(),
            match old(self).spec_get(k) {
                None => final(self).spec_get(k) == None::<Task>,
                Some(t) => final(self).spec_get(k) matches Some(t2) && t2.image == t.image
                    && t2.command_line == t.command_line && t2.pid == t.pid && t2.flags == t.flags
                    && t2.container == t.container && t2.cgroups == t.cgroups && t2.nodename
                    == t.nodename && t2.parent_key == t.parent_key && t2.resolved.wf() && (
                    t2.resolved.spec_get(ip) matches Some(v) && v@ == name@) && forall|ip2: Ip|
                    ip2 != ip ==> t2.resolved.spec_get(ip2) == t.resolved.spec_get(ip2),
            },
            forall|k2: TaskKey| k2 != k ==> final(self).spec_get(k2) == old(self).spec_get(k2),
    {
        match self.take(k) {
            Some(mut t) => {
                t.resolved.update(ip, name);
                self.put(k, t);
            },
            None => {},
        }
    }

    /// The chain of records reached by following parent links from `k`,
    /// bounded by `fuel`, ordered root first.
    pub open spec fn spec_chain(self, k: TaskKey, fuel: nat) -> Seq<Task>
        decreases fuel,
    {
        if fuel == 0 {
            Seq::empty()
        } else {
            match self.spec_get(k) {
                None => Seq::empty(),
                Some(t) => (match t.parent_key {
                    Some(p) => self.spec_chain(p, (fuel - 1) as nat),
                    None => Seq::empty(),
                }) + seq![t],
            }
        }
    }

    fn ancestors_rec(&self, k: TaskKey, fuel: u32) -> (r: (Vec<String>, Option<(i32, u32)>))
        requires
            self.wf(),
        ensures
            ({
                let c = self.spec_chain(k, fuel as nat);
                &&& r.0@.map_values(|p: String| p@) == c.map_values(|t: Task| t.image@)
                &&& match r.1 {
                    Some(pf) => c.len() > 0 && pf.0 == c[0].pid && pf.1 == c[0].flags,
                    None => c.len() == 0,
                }
            }),
        decreases fuel,
    {
        if fuel == 0 {
            return (Vec::new(), None);
        }
        match self.find_index(k) {
            None => (Vec::new(), None),
            Some(i) => {
                let pk = self.entries[i].1.parent_key;
                let pid = self.entries[i].1.pid;
                let flags = self.entries[i].1.flags;
                let img = self.entries[i].1.image.clone();
                let ghost t = self.entries@[i as int].1;
                let (mut v, root) = match pk {
                    Some(p) => self.ancestors_rec(p, fuel - 1),
                    None => (Vec::new(), None),
                };
                let ghost cp = match t.parent_key {
                    Some(p) => self.spec_chain(p, (fuel - 1) as nat),
                    None => Seq::<Task>::empty(),
                };
                let root2 = if v.len() == 0 {
                    Some((pid, flags))
                } else {
                    root
                };
                let ghost v0 = v@;
                v.push(img);
                proof {
                    let c = self.spec_chain(k, fuel as nat);
                    assert(c =~= cp + seq![t]);
                    assert(v0.map_values(|p: String| p@) == cp.map_values(|t2: Task| t2.image@));
                    assert(v@ =~= v0.push(img));
                    assert(v@.map_values(|p: String| p@) =~= v0.map_values(|p: String| p@).push(
                        img@,
                    ));
                    assert(c.map_values(|t2: Task| t2.image@) =~= cp.map_values(
                        |t2: Task| t2.image@,
                    ).push(t.image@));
                    assert(cp.len() == v0.map_values(|p: String| p@).len());
                    if cp.len() > 0 {
                        assert(c[0] == cp[0]);
                    } else {
                        assert(c[0] == t);
                    }
                }
                (v, root2)
            },
        }
    }

    /// Images along the ancestor chain of `k`, root first, bounded by `fuel`;
    /// when the walk's root is neither pid 1 nor a kernel thread the list is
    /// preceded by `?`, marking a truncated lineage.
    pub open spec fn spec_ancestors(self, k: TaskKey, fuel: nat) -> Seq<Seq<char>> {
        let c = self.spec_chain(k, fuel);
        let images = c.map_values(|t: Task| t.image@);
        if c.len() > 0 && c[0].pid != 1 && !c[0].spec_is_kthread() {
            seq!["?"@] + images
        } else {
            images
        }
    }

    /// Ancestor-tagging law: when the oldest ancestor the walk reached is
    /// neither pid 1 nor a kernel thread, the returned list starts with `?`,
    /// marking a truncated lineage.
    pub proof fn lemma_ancestor_tagging(self, k: TaskKey, fuel: nat)
        requires
            self.spec_chain(k, fuel).len() > 0,
            self.spec_chain(k, fuel)[0].pid != 1,
            !self.spec_chain(k, fuel)[0].spec_is_kthread(),
        ensures
            self.spec_ancestors(k, fuel).len() > 0,
            self.spec_ancestors(k, fuel)[0] == "?"@,
    {
    }

    /// See [`Self::spec_ancestors`]; the walk depth is bounded at 128.
    pub fn get_ancestors(&self, k: TaskKey) -> (r: Vec<String>)
        requires
            self.wf(),
        ensures
            r@.map_values(|p: String| p@) == self.spec_ancestors(k, 128),
    {
        let (mut v, root) = self.ancestors_rec(k, 128);
        let ghost c = self.spec_chain(k, 128);
        match root {
            Some((pid, flags)) => {
                if pid != 1 && flags & PF_KTHREAD != PF_KTHREAD {
                    let ghost v0 = v@;
                    v.insert(0, String::from_str("?"));
                    proof {
                        assert(v@ =~= seq![v@[0]] + v0);
                        assert(v@.map_values(|p: String| p@) =~= seq!["?"@] + v0.map_values(
                            |p: String| p@,
                        ));
                    }
                }
            },
            None => {},
        }
        v
    }
}

} // verus!
