//! Probe selection: which kernel probes are loaded this run, given their
//! priorities, their own switches, a debug name filter, and the running
//! kernel version. Loading itself happens outside the library.

use vstd::prelude::*;

use crate::text::{contains_sub, spec_contains_sub};

verus! {

/// A kernel version as plain numbers.
#[derive(Clone, Copy, Debug, PartialEq, Eq, Structural)]
pub struct KernelVersion {
    pub major: u16,
    pub minor: u16,
    pub patch: u16,
}

impl KernelVersion {
    /// Lexicographic order on (major, minor, patch).
    pub open spec fn spec_le(self, other: KernelVersion) -> bool {
        self.major < other.major || (self.major == other.major && (self.minor < other.minor || (
        self.minor == other.minor && self.patch <= other.patch)))
    }

    /// See [`Self::spec_le`].
    pub fn le(&self, other: &KernelVersion) -> (r: bool)
        ensures
            r == self.spec_le(*other),
    {
        self.major < other.major || (self.major == other.major && (self.minor < other.minor || (
        self.minor == other.minor && self.patch <= other.patch)))
    }
}

/// One loadable probe program: name, its own switch, load priority, and the
/// kernel range it supports.
#[derive(Debug)]
pub struct ProbeDesc {
    pub name: String,
    pub enable: bool,
    pub prio: u8,
    pub compat_min: KernelVersion,
    pub compat_max: KernelVersion,
}

/// What becomes of one probe this run.
#[derive(Clone, Copy, Debug, PartialEq, Eq, Structural)]
pub enum ProbeAction {
    Load,
    /// A debug name filter is active and no filter name occurs in the
    /// probe's name.
    SkipFiltered,
    SkipDisabled,
    SkipIncompatible,
}

/// Whether some filter name occurs in the probe name.
pub open spec fn spec_name_selected(name: Seq<char>, filters: Seq<Seq<char>>) -> bool {
    exists|i: int| 0 <= i < filters.len() && spec_contains_sub(name, #[trigger] filters[i])
}

fn name_selected(name: &String, filters: &Vec<String>) -> (r: bool)
    ensures
        r == spec_name_selected(name@, filters@.map_values(|p: String| p@)),
{
    let n = filters.len();
    for i in 0..n
        invariant
            n == filters@.len(),
            forall|j: int| 0 <= j < i ==> !spec_contains_sub(name@, (#[trigger] filters@[j])@),
    {
        if contains_sub(name.as_str(), filters[i].as_str()) {
            proof {
                let m = filters@.map_values(|p: String| p@);
                assert(m[i as int] == filters@[i as int]@);
            }
            return true;
        }
    }
    proof {
        let m = filters@.map_values(|p: String| p@);
        assert forall|j: int| 0 <= j < m.len() implies !spec_contains_sub(
            name@,
            #[trigger] m[j],
        ) by {
            assert(m[j] == filters@[j]@);
        }
    }
    false
}

/// The decision for one probe. With a non-empty debug filter, only probes
/// whose name carries a filter name are considered, and those are forced on.
/// A disabled probe and one incompatible with the running kernel are
/// skipped; everything else is loaded.
pub open spec fn spec_probe_action(p: ProbeDesc, filters: Seq<Seq<char>>, kernel: KernelVersion)
    -> ProbeAction {
    if filters.len() > 0 && !spec_name_selected(p.name@, filters) {
        ProbeAction::SkipFiltered
    } else {
        let enable = p.enable || filters.len() > 0;
        if !enable {
            ProbeAction::SkipDisabled
        } else if !(p.compat_min.spec_le(kernel) && kernel.spec_le(p.compat_max)) {
            ProbeAction::SkipIncompatible
        } else {
            ProbeAction::Load
        }
    }
}

/// Decides, probe by probe in the given priority order, what is loaded.
pub fn select_probes(probes: &Vec<ProbeDesc>, filters: &Vec<String>, kernel: KernelVersion) -> (r:
    Vec<ProbeAction>)
    ensures
        r@.len() == probes@.len(),
        forall|i: int|
            0 <= i < r@.len() ==> r@[i] == spec_probe_action(
                #[trigger] probes@[i],
                filters@.map_values(|p: String| p@),
                kernel,
            ),
{
    let mut r: Vec<ProbeAction> = Vec::new();
    let n = probes.len();
    for i in 0..n
        invariant
            n == probes@.len(),
            r@.len() == i,
            forall|j: int|
                0 <= j < i ==> r@[j] == spec_probe_action(
                    #[trigger] probes@[j],
                    filters@.map_values(|p: String| p@),
                    kernel,
                ),
    {
        let p = &probes[i];
        let action = if filters.len() > 0 && !name_selected(&p.name, filters) {
            ProbeAction::SkipFiltered
        } else {
            let enable = p.enable || filters.len() > 0;
            if !enable {
                ProbeAction::SkipDisabled
            } else if !(p.compat_min.le(&kernel) && kernel.le(&p.compat_max)) {
                ProbeAction::SkipIncompatible
            } else {
                ProbeAction::Load
            }
        };
        r.push(action);
    }
    r
}

} // verus!
