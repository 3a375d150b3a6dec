//! Plain configuration values the pipeline runs under, and the include /
//! exclude surface for configurable event types. Reading the configuration
//! file and the command line happens outside the library; the rules applied
//! to the parsed values live here.

use vstd::prelude::*;

use crate::events::EventType;
use crate::text::str_eq;

verus! {

/// One name occurs in the list.
pub open spec fn seq_contains_str(ss: Seq<Seq<char>>, x: Seq<char>) -> bool {
    exists|j: int| 0 <= j < ss.len() && ss[j] == x
}

fn names_contain(names: &Vec<String>, x: &str) -> (r: bool)
    ensures
        r == seq_contains_str(names@.map_values(|p: String| p@), x@),
{
    let n = names.len();
    for i in 0..n
        invariant
            n == names@.len(),
            forall|j: int| 0 <= j < i ==> (#[trigger] names@[j])@ != x@,
    {
        if str_eq(names[i].as_str(), x) {
            proof {
                let m = names@.map_values(|p: String| p@);
                assert(m[i as int] == names@[i as int]@);
            }
            return true;
        }
    }
    proof {
        let m = names@.map_values(|p: String| p@);
        assert forall|j: int| 0 <= j < m.len() implies #[trigger] m[j] != x@ by {
            assert(m[j] == names@[j]@);
        }
    }
    false
}

/// Per-type switch of the configuration surface.
#[derive(Debug)]
pub struct EventConfig {
    pub name: String,
    pub enable: bool,
}

/// The configuration the pipeline runs under, as plain values.
#[derive(Debug)]
pub struct Config {
    /// Required host identity; startup must fail when missing.
    pub host_uuid: Option<u128>,
    pub output: String,
    pub max_buffered_events: u16,
    pub send_data_min_len: Option<u64>,
    /// Paths of rule files, read outside the library.
    pub rules: Vec<String>,
    /// Paths of IoC files, read outside the library.
    pub iocs: Vec<String>,
    pub events: Vec<EventConfig>,
}

impl Config {
    /// One switch per configurable type, all enabled.
    pub fn default_events() -> (r: Vec<EventConfig>)
        ensures
            forall|i: int| 0 <= i < r@.len() ==> (#[trigger] r@[i]).enable,
    {
        let types = EventType::variants();
        let mut r: Vec<EventConfig> = Vec::new();
        let n = types.len();
        for i in 0..n
            invariant
                n == types@.len(),
                forall|j: int| 0 <= j < r@.len() ==> (#[trigger] r@[j]).enable,
        {
            r.push(EventConfig { name: String::from_str(types[i].name()), enable: true });
        }
        r
    }

    /// The names of the event switches, unchanged by the operations below.
    pub open spec fn spec_event_names(self) -> Seq<Seq<char>> {
        self.events@.map_values(|ec: EventConfig| ec.name@)
    }

    /// Sets every event switch to `enable`.
    fn set_all(&mut self, enable: bool)
        ensures
            final(self).spec_event_names() == old(self).spec_event_names(),
            final(self).events@.len() == old(self).events@.len(),
            forall|i: int|
                0 <= i < final(self).events@.len() ==> (#[trigger] final(self).events@[i]).enable
                    == enable,
            final(self).host_uuid == old(self).host_uuid,
            final(self).output == old(self).output,
            final(self).max_buffered_events == old(self).max_buffered_events,
            final(self).send_data_min_len == old(self).send_data_min_len,
            final(self).rules == old(self).rules,
            final(self).iocs == old(self).iocs,
    {
        let n = self.events.len();
        let mut updated: Vec<EventConfig> = Vec::new();
        for i in 0..n
            invariant
                n == self.events@.len(),
                updated@.len() == i,
                forall|j: int|
                    0 <= j < i ==> (#[trigger] updated@[j]).name@ == self.events@[j].name@,
                forall|j: int| 0 <= j < i ==> (#[trigger] updated@[j]).enable == enable,
        {
            updated.push(EventConfig { name: self.events[i].name.clone(), enable });
        }
        self.events = updated;
        proof {
            assert(final(self).spec_event_names() =~= old(self).spec_event_names());
        }
    }

    /// Disables every event switch.
    pub fn disable_all(&mut self)
        ensures
            final(self).spec_event_names() == old(self).spec_event_names(),
            final(self).events@.len() == old(self).events@.len(),
            forall|i: int|
                0 <= i < final(self).events@.len() ==> !(#[trigger] final(self).events@[i]).enable,
            final(self).host_uuid == old(self).host_uuid,
            final(self).output == old(self).output,
    {
        self.set_all(false);
    }

    /// Enables every event switch.
    pub fn enable_all(&mut self)
        ensures
            final(self).spec_event_names() == old(self).spec_event_names(),
            final(self).events@.len() == old(self).events@.len(),
            forall|i: int|
                0 <= i < final(self).events@.len() ==> (#[trigger] final(self).events@[i]).enable,
            final(self).host_uuid == old(self).host_uuid,
            final(self).output == old(self).output,
    {
        self.set_all(true);
    }

    /// Applies a comma-split exclude list: the name `all` disables every
    /// switch, otherwise every named switch is disabled.
    pub fn apply_exclude(&mut self, names: &Vec<String>)
        ensures
            final(self).spec_event_names() == old(self).spec_event_names(),
            final(self).events@.len() == old(self).events@.len(),
            forall|i: int|
                0 <= i < final(self).events@.len() ==> (#[trigger] final(self).events@[i]).enable
                    == (if seq_contains_str(names@.map_values(|p: String| p@), "all"@) {
                    false
                } else {
                    old(self).events@[i].enable && !seq_contains_str(
                        names@.map_values(|p: String| p@),
                        old(self).events@[i].name@,
                    )
                }),
            final(self).host_uuid == old(self).host_uuid,
            final(self).output == old(self).output,
    {
        if names_contain(names, "all") {
            self.disable_all();
        } else {
            let n = self.events.len();
            let mut updated: Vec<EventConfig> = Vec::new();
            for i in 0..n
                invariant
                    n == self.events@.len(),
                    updated@.len() == i,
                    !seq_contains_str(names@.map_values(|p: String| p@), "all"@),
                    forall|j: int|
                        0 <= j < i ==> (#[trigger] updated@[j]).name@ == self.events@[j].name@,
                    forall|j: int|
                        0 <= j < i ==> (#[trigger] updated@[j]).enable == (self.events@[j].enable
                            && !seq_contains_str(
                            names@.map_values(|p: String| p@),
                            self.events@[j].name@,
                        )),
            {
                let keep = !names_contain(names, self.events[i].name.as_str());
                let enable = self.events[i].enable && keep;
                updated.push(EventConfig { name: self.events[i].name.clone(), enable });
            }
            self.events = updated;
            proof {
                assert(final(self).spec_event_names() =~= old(self).spec_event_names());
            }
        }
    }

    /// Applies a comma-split include list: the name `all` enables every
    /// switch, otherwise every named switch is enabled. Include supersedes
    /// exclude by being applied after it.
    pub fn apply_include(&mut self, names: &Vec<String>)
        ensures
            final(self).spec_event_names() == old(self).spec_event_names(),
            final(self).events@.len() == old(self).events@.len(),
            forall|i: int|
                0 <= i < final(self).events@.len() ==> (#[trigger] final(self).events@[i]).enable
                    == (if seq_contains_str(names@.map_values(|p: String| p@), "all"@) {
                    true
                } else {
                    old(self).events@[i].enable || seq_contains_str(
                        names@.map_values(|p: String| p@),
                        old(self).events@[i].name@,
                    )
                }),
            final(self).host_uuid == old(self).host_uuid,
            final(self).output == old(self).output,
    {
        if names_contain(names, "all") {
            self.enable_all();
        } else {
            let n = self.events.len();
            let mut updated: Vec<EventConfig> = Vec::new();
            for i in 0..n
                invariant
                    n == self.events@.len(),
                    updated@.len() == i,
                    !seq_contains_str(names@.map_values(|p: String| p@), "all"@),
                    forall|j: int|
                        0 <= j < i ==> (#[trigger] updated@[j]).name@ == self.events@[j].name@,
                    forall|j: int|
                        0 <= j < i ==> (#[trigger] updated@[j]).enable == (self.events@[j].enable
                            || seq_contains_str(
                            names@.map_values(|p: String| p@),
                            self.events@[j].name@,
                        )),
            {
                let hit = names_contain(names, self.events[i].name.as_str());
                let enable = self.events[i].enable || hit;
                updated.push(EventConfig { name: self.events[i].name.clone(), enable });
            }
            self.events = updated;
            proof {
                assert(final(self).spec_event_names() =~= old(self).spec_event_names());
            }
        }
    }

    /// The path the output sink opens: the literal names `stdout` and
    /// `stderr` stand for the matching device files.
    pub fn output_path(&self) -> (r: String)
        ensures
            r@ == (if self.output@ == "stdout"@ {
                "/dev/stdout"@
            } else if self.output@ == "stderr"@ {
                "/dev/stderr"@
            } else {
                self.output@
            }),
    {
        if str_eq(self.output.as_str(), "stdout") {
            String::from_str("/dev/stdout")
        } else if str_eq(self.output.as_str(), "stderr") {
            String::from_str("/dev/stderr")
        } else {
            self.output.clone()
        }
    }
}

} // verus!
