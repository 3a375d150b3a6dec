//! Map from IP address to the hostname a DNS answer resolved it to.
//! Last write wins; one such map is kept per task and one globally.

use vstd::prelude::*;

use crate::events::Ip;

verus! {

/// First entry with the given key, if any.
pub open spec fn rm_lookup(s: Seq<(Ip, String)>, ip: Ip) -> Option<String>
    decreases s.len(),
{
    if s.len() == 0 {
        None
    } else if s[0].0 == ip {
        Some(s[0].1)
    } else {
        rm_lookup(s.drop_first(), ip)
    }
}

/// No key occurs twice.
pub open spec fn rm_unique(s: Seq<(Ip, String)>) -> bool {
    forall|i: int, j: int| 0 <= i < j < s.len() ==> (#[trigger] s[i]).0 != (#[trigger] s[j]).0
}

proof fn lemma_lookup_index(s: Seq<(Ip, String)>, ip: Ip, i: int)
    requires
        rm_unique(s),
        0 <= i < s.len(),
        s[i].0 == ip,
    ensures
        rm_lookup(s, ip) == Some(s[i].1),
    decreases s.len(),
{
    if i == 0 {
    } else {
        assert(s[0].0 != ip);
        lemma_lookup_index(s.drop_first(), ip, i - 1);
    }
}

proof fn lemma_lookup_none(s: Seq<(Ip, String)>, ip: Ip)
    requires
        forall|i: int| 0 <= i < s.len() ==> (#[trigger] s[i]).0 != ip,
    ensures
        rm_lookup(s, ip) == None::<String>,
    decreases s.len(),
{
    if s.len() > 0 {
        lemma_lookup_none(s.drop_first(), ip);
    }
}

proof fn lemma_lookup_push(s: Seq<(Ip, String)>, ip: Ip, v: String)
    requires
        forall|i: int| 0 <= i < s.len() ==> (#[trigger] s[i]).0 != ip,
    ensures
        rm_lookup(s.push((ip, v)), ip) == Some(v),
        forall|k: Ip| k != ip ==> rm_lookup(s.push((ip, v)), k) == rm_lookup(s, k),
    decreases s.len(),
{
    if s.len() == 0 {
        assert forall|k: Ip| k != ip implies rm_lookup(s.push((ip, v)), k) == rm_lookup(
            s,
            k,
        ) by {
            let t = s.push((ip, v));
            assert(t.drop_first() =~= Seq::<(Ip, String)>::empty());
            assert(rm_lookup(t.drop_first(), k) == None::<String>);
        }
    } else {
        lemma_lookup_push(s.drop_first(), ip, v);
        let t = s.push((ip, v));
        assert(t.drop_first() =~= s.drop_first().push((ip, v)));
        assert forall|k: Ip| k != ip implies rm_lookup(t, k) == rm_lookup(s, k) by {
            assert(t[0] == s[0]);
            assert(rm_lookup(t.drop_first(), k) == rm_lookup(s.drop_first().push((ip, v)), k));
            assert(rm_lookup(s.drop_first().push((ip, v)), k) == rm_lookup(s.drop_first(), k));
        }
        assert(rm_lookup(t, ip) == Some(v)) by {
            assert(s[0].0 != ip);
            assert(rm_lookup(t.drop_first(), ip) == rm_lookup(s.drop_first().push((ip, v)), ip));
        }
    }
}

proof fn lemma_lookup_remove(s: Seq<(Ip, String)>, i: int)
    requires
        rm_unique(s),
        0 <= i < s.len(),
    ensures
        rm_unique(s.remove(i)),
        rm_lookup(s.remove(i), s[i].0) == None::<String>,
        forall|k: Ip| k != s[i].0 ==> rm_lookup(s.remove(i), k) == rm_lookup(s, k),
    decreases s.len(),
{
    let r = s.remove(i);
    assert forall|a: int, b: int| 0 <= a < b < r.len() implies (#[trigger] r[a]).0 != (
    #[trigger] r[b]).0 by {
        let a0 = if a < i { a } else { a + 1 };
        let b0 = if b < i { b } else { b + 1 };
        assert(r[a] == s[a0] && r[b] == s[b0]);
    }
    assert forall|j: int| 0 <= j < r.len() implies (#[trigger] r[j]).0 != s[i].0 by {
        let j0 = if j < i { j } else { j + 1 };
        assert(r[j] == s[j0]);
    }
    lemma_lookup_none(r, s[i].0);
    if i == 0 {
        assert(s.remove(0) =~= s.drop_first());
        assert forall|k: Ip| k != s[0].0 implies rm_lookup(s.remove(0), k) == rm_lookup(
            s,
            k,
        ) by {
            assert(rm_lookup(s, k) == rm_lookup(s.drop_first(), k));
        }
    } else {
        lemma_lookup_remove(s.drop_first(), i - 1);
        assert(s.remove(i).drop_first() =~= s.drop_first().remove(i - 1));
        assert(s.remove(i)[0] == s[0]);
        assert forall|k: Ip| k != s[i].0 implies rm_lookup(s.remove(i), k) == rm_lookup(
            s,
            k,
        ) by {
            assert(s.drop_first()[i - 1] == s[i]);
            assert(rm_lookup(s.remove(i).drop_first(), k) == rm_lookup(
                s.drop_first().remove(i - 1),
                k,
            ));
            assert(rm_lookup(s.drop_first().remove(i - 1), k) == rm_lookup(s.drop_first(), k));
        }
    }
}

/// IP-to-hostname map with unique keys; last write wins.
#[derive(Clone, Debug)]
pub struct ResolvedMap {
    entries: Vec<(Ip, String)>,
}

impl ResolvedMap {
    pub closed spec fn wf(self) -> bool {
        rm_unique(self.entries@)
    }

    /// The hostname currently recorded for `ip`.
    pub closed spec fn spec_get(self, ip: Ip) -> Option<String> {
        rm_lookup(self.entries@, ip)
    }

    pub closed spec fn spec_len(self) -> nat {
        self.entries@.len()
    }

    pub fn new() -> (r: ResolvedMap)
        ensures
            r.wf(),
            forall|ip: Ip| r.spec_get(ip) == None::<String>,
            r.spec_len() == 0,
    {
        ResolvedMap { entries: Vec::new() }
    }

    fn find_index(&self, ip: Ip) -> (r: Option<usize>)
        requires
            self.wf(),
        ensures
            match r {
                Some(i) => i < self.entries@.len() && self.entries@[i as int].0 == ip,
                None => forall|i: int|
                    0 <= i < self.entries@.len() ==> (#[trigger] self.entries@[i]).0 != ip,
            },
    {
        let n = self.entries.len();
        for i in 0..n
            invariant
                n == self.entries@.len(),
                forall|j: int| 0 <= j < i ==> (#[trigger] self.entries@[j]).0 != ip,
        {
            if self.entries[i].0 == ip {
                return Some(i);
            }
        }
        None
    }

    /// Records `name` for `ip`, replacing any earlier entry (last write wins).
    pub fn update(&mut self, ip: Ip, name: String)
        requires
            old(self).wf(),
        ensures
            final(self).wf(),
            final(self).spec_get(ip) matches Some(v) && v@ == name@,
            forall|k: Ip| k != ip ==> final(self).spec_get(k) == old(self).spec_get(k),
    {
        match self.find_index(ip) {
            Some(i) => {
                proof {
                    lemma_lookup_remove(self.entries@, i as int);
                }
                self.entries.remove(i);
                proof {
                    lemma_lookup_none(self.entries@, ip);
                    lemma_lookup_push(self.entries@, ip, name);
                }
                self.entries.push((ip, name));
            },
            None => {
                proof {
                    lemma_lookup_push(self.entries@, ip, name);
                }
                self.entries.push((ip, name));
            },
        }
    }

    /// The hostname recorded for `ip`, if any.
    pub fn get(&self, ip: Ip) -> (r: Option<&String>)
        requires
            self.wf(),
        ensures
            match r {
                Some(v) => self.spec_get(ip) matches Some(w) && w == v,
                None => self.spec_get(ip) == None::<String>,
            },
    {
        match self.find_index(ip) {
            Some(i) => {
                proof {
                    lemma_lookup_index(self.entries@, ip, i as int);
                }
                Some(&self.entries[i].1)
            },
            None => {
                proof {
                    lemma_lookup_none(self.entries@, ip);
                }
                None
            },
        }
    }

    /// Drops every entry.
    pub fn clear(&mut self)
        ensures
            final(self).wf(),
            forall|ip: Ip| final(self).spec_get(ip) == None::<String>,
            final(self).spec_len() == 0,
    {
        self.entries = Vec::new();
    }
}

} // verus!
