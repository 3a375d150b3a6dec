//! Scanner adapter: overlays indicator-of-compromise matches on what the
//! rules engine reported, and decides whether a record is emitted. The rules
//! engine itself is a black box run outside the library; its findings arrive
//! here as plain values.

use vstd::prelude::*;

use crate::config::seq_contains_str;
use crate::text::str_eq;

verus! {

/// Severity given to any record with an indicator-of-compromise match.
pub const MAX_SEVERITY: u8 = 10;

/// What the rules engine reported for one record.
#[derive(Debug)]
pub struct RuleScan {
    /// Names of the matched rules.
    pub rules: Vec<String>,
    pub severity: u8,
    /// Every matched rule is filter-kind.
    pub only_filter: bool,
}

/// Findings attached to an emitted record.
#[derive(Debug)]
pub struct ScanResult {
    pub rules: Vec<String>,
    pub severity: u8,
    /// Every matched rule is filter-kind.
    pub only_filter: bool,
    /// Matched indicators.
    pub iocs: Vec<String>,
}

impl ScanResult {
    /// A non-filter rule or an indicator matched.
    pub open spec fn spec_is_detection(self) -> bool {
        (self.rules@.len() > 0 && !self.only_filter) || self.iocs@.len() > 0
    }

    /// See [`Self::spec_is_detection`].
    pub fn is_detection(&self) -> (r: bool)
        ensures
            r == self.spec_is_detection(),
    {
        (self.rules.len() > 0 && !self.only_filter) || self.iocs.len() > 0
    }

    /// Every matched rule is filter-kind and no indicator matched.
    pub open spec fn spec_is_only_filter(self) -> bool {
        self.only_filter && self.iocs@.len() == 0
    }

    /// See [`Self::spec_is_only_filter`].
    pub fn is_only_filter(&self) -> (r: bool)
        ensures
            r == self.spec_is_only_filter(),
    {
        self.only_filter && self.iocs.len() == 0
    }
}

/// The indicators of `values` that are loaded in `iocs`, in order of first
/// appearance, without repetition.
pub open spec fn spec_matching_iocs(values: Seq<Seq<char>>, iocs: Seq<Seq<char>>) -> Seq<
    Seq<char>,
>
    decreases values.len(),
{
    if values.len() == 0 {
        Seq::empty()
    } else {
        let pre = spec_matching_iocs(values.drop_last(), iocs);
        if seq_contains_str(iocs, values.last()) && !seq_contains_str(pre, values.last()) {
            pre.push(values.last())
        } else {
            pre
        }
    }
}

fn vec_contains_str(v: &Vec<String>, x: &str) -> (r: bool)
    ensures
        r == seq_contains_str(v@.map_values(|p: String| p@), x@),
{
    let n = v.len();
    for i in 0..n
        invariant
            n == v@.len(),
            forall|j: int| 0 <= j < i ==> (#[trigger] v@[j])@ != x@,
    {
        if str_eq(v[i].as_str(), x) {
            proof {
                let m = v@.map_values(|p: String| p@);
                assert(m[i as int] == v@[i as int]@);
            }
            return true;
        }
    }
    proof {
        let m = v@.map_values(|p: String| p@);
        assert forall|j: int| 0 <= j < m.len() implies #[trigger] m[j] != x@ by {
            assert(m[j] == v@[j]@);
        }
    }
    false
}

/// Collects the matching indicators; see [`spec_matching_iocs`].
pub fn matching_iocs(values: &Vec<String>, iocs: &Vec<String>) -> (r: Vec<String>)
    ensures
        r@.map_values(|p: String| p@) == spec_matching_iocs(
            values@.map_values(|p: String| p@),
            iocs@.map_values(|p: String| p@),
        ),
{
    let mut r: Vec<String> = Vec::new();
    let n = values.len();
    for i in 0..n
        invariant
            n == values@.len(),
            r@.map_values(|p: String| p@) == spec_matching_iocs(
                values@.map_values(|p: String| p@).take(i as int),
                iocs@.map_values(|p: String| p@),
            ),
    {
        let ghost vm = values@.map_values(|p: String| p@);
        let ghost im = iocs@.map_values(|p: String| p@);
        if vec_contains_str(iocs, values[i].as_str()) && !vec_contains_str(
            &r,
            values[i].as_str(),
        ) {
            r.push(values[i].clone());
        }
        proof {
            assert(vm.take(i + 1).drop_last() =~= vm.take(i as int));
            assert(vm.take(i + 1).last() == vm[i as int]);
            assert(vm[i as int] == values@[i as int]@);
            assert(r@.map_values(|p: String| p@) =~= spec_matching_iocs(vm.take(i + 1), im));
        }
    }
    proof {
        let vm = values@.map_values(|p: String| p@);
        assert(vm.take(n as int) =~= vm);
    }
    r
}

/// Overlays indicator matches on the engine's findings: when any indicator
/// matched, a result exists, carries exactly the matching indicators and the
/// maximum severity; otherwise the engine's findings pass through untouched.
pub fn scan_overlay(event_iocs: &Vec<String>, loaded_iocs: &Vec<String>, rule_scan: Option<
    RuleScan,
>) -> (r: Option<ScanResult>)
    ensures
        ({
            let inter = spec_matching_iocs(
                event_iocs@.map_values(|p: String| p@),
                loaded_iocs@.map_values(|p: String| p@),
            );
            if inter.len() > 0 {
                r matches Some(sr) && sr.iocs@.map_values(|p: String| p@) == inter && sr.severity
                    == MAX_SEVERITY && match rule_scan {
                    Some(rs) => sr.rules == rs.rules && sr.only_filter == rs.only_filter,
                    None => sr.rules@.len() == 0 && !sr.only_filter,
                }
            } else {
                match rule_scan {
                    Some(rs) => r matches Some(sr) && sr.rules == rs.rules && sr.severity
                        == rs.severity && sr.only_filter == rs.only_filter && sr.iocs@.len() == 0,
                    None => r is None,
                }
            }
        }),
{
    let matched = matching_iocs(event_iocs, loaded_iocs);
    let ghost inter = spec_matching_iocs(
        event_iocs@.map_values(|p: String| p@),
        loaded_iocs@.map_values(|p: String| p@),
    );
    proof {
        assert(matched@.map_values(|p: String| p@).len() == matched@.len());
    }
    if matched.len() > 0 {
        match rule_scan {
            Some(rs) => Some(
                ScanResult {
                    rules: rs.rules,
                    severity: MAX_SEVERITY,
                    only_filter: rs.only_filter,
                    iocs: matched,
                },
            ),
            None => Some(
                ScanResult {
                    rules: Vec::new(),
                    severity: MAX_SEVERITY,
                    only_filter: false,
                    iocs: matched,
                },
            ),
        }
    } else {
        match rule_scan {
            Some(rs) => Some(
                ScanResult {
                    rules: rs.rules,
                    severity: rs.severity,
                    only_filter: rs.only_filter,
                    iocs: Vec::new(),
                },
            ),
            None => None,
        }
    }
}

/// What happens to a record after scanning.
#[derive(Debug)]
pub enum Emission {
    /// Emit, with findings attached when they are a detection.
    Emit(Option<ScanResult>),
    /// Drop the record.
    Suppress,
}

/// The emission decision table. With no rules and no indicators loaded every
/// record is emitted unconditionally. Otherwise a record is emitted with its
/// findings when they are a detection, emitted bare when only filter rules
/// matched, and dropped when nothing matched.
pub fn emission_decision(engine_empty: bool, iocs_empty: bool, scanned: Option<ScanResult>) -> (r:
    Emission)
    ensures
        engine_empty && iocs_empty ==> (r matches Emission::Emit(d) && d is None),
        !(engine_empty && iocs_empty) ==> match scanned {
            None => r is Suppress,
            Some(sr) => {
                if sr.spec_is_detection() {
                    r matches Emission::Emit(d) && d == Some(sr)
                } else if sr.spec_is_only_filter() {
                    r matches Emission::Emit(d) && d is None
                } else {
                    r is Suppress
                }
            },
        },
{
    if engine_empty && iocs_empty {
        return Emission::Emit(None);
    }
    match scanned {
        Some(sr) => {
            if sr.is_detection() {
                Emission::Emit(Some(sr))
            } else if sr.is_only_filter() {
                Emission::Emit(None)
            } else {
                Emission::Suppress
            }
        },
        None => Emission::Suppress,
    }
}

} // verus!
