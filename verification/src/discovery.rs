//! Upload-element discovery: a bounded-retry walk over the children of the
//! GL-upload wrapping bin.
//!
//! The host's child enumeration may raise a transient "resync" fault, after
//! which the walk must restart from the beginning.  To guarantee
//! termination against a persistently faulting enumerator, the walk retries
//! at most [`RETRY_LIMIT`] times and then gives up with no element found.

use vstd::prelude::*;
use crate::elements::{Element, FactoryKind};

verus! {

/// Maximum number of walk attempts before discovery gives up.
pub const RETRY_LIMIT: usize = 3;

/// Whether walk attempt `k` raises a transient fault under the given
/// schedule; attempts past the end of the schedule do not fault.
pub open spec fn fault_at(faults: Seq<bool>, k: int) -> bool {
    0 <= k < faults.len() && faults[k]
}

/// The first attempt index at or after `k` that does not fault, or
/// `RETRY_LIMIT` when every remaining attempt within the bound faults.
pub open spec fn first_clear_from(faults: Seq<bool>, k: int) -> int
    decreases RETRY_LIMIT as int - k,
{
    if k < 0 || k >= RETRY_LIMIT {
        RETRY_LIMIT as int
    } else if !fault_at(faults, k) {
        k
    } else {
        first_clear_from(faults, k + 1)
    }
}

/// The first child whose factory is the GPU-upload element, if any.
pub open spec fn spec_first_upload(children: Seq<Element>) -> Option<Element>
    decreases children.len(),
{
    if children.len() == 0 {
        None
    } else if children[0].factory is GlUpload {
        Some(children[0])
    } else {
        spec_first_upload(children.drop_first())
    }
}

/// What discovery returns: the first matching child when some attempt
/// within the bound completes, nothing when every attempt faults.
pub open spec fn spec_discovery_element(children: Seq<Element>, faults: Seq<bool>) -> Option<
    Element,
> {
    if first_clear_from(faults, 0) < RETRY_LIMIT {
        spec_first_upload(children)
    } else {
        None
    }
}

/// How many attempts discovery makes: up to and including the first clear
/// one, or the full bound when every attempt faults.
pub open spec fn spec_discovery_attempts(faults: Seq<bool>) -> int {
    let k = first_clear_from(faults, 0);
    if k < RETRY_LIMIT {
        k + 1
    } else {
        RETRY_LIMIT as int
    }
}

/// Result of one discovery run.
#[derive(Clone, Copy, Debug)]
pub struct DiscoveryOutcome {
    /// The cached element responsible for GPU upload, if found.
    pub element: Option<Element>,
    /// How many walk attempts were made.
    pub attempts: usize,
}

/// One complete, fault-free walk: the first matching child.
fn scan_children(children: &Vec<Element>) -> (r: Option<Element>)
    ensures
        r == spec_first_upload(children@),
{
    let n = children.len();
    assert(children@.skip(0) =~= children@);
    for i in 0..n
        invariant
            n == children@.len(),
            spec_first_upload(children@) == spec_first_upload(children@.skip(i as int)),
    {
        let child = children[i];
        if let FactoryKind::GlUpload = child.factory {
            return Some(child);
        }
        assert(children@.skip(i as int).drop_first() =~= children@.skip(i as int + 1));
    }
    None
}

/// Walks the wrapping bin's children for the GPU-upload element,
/// restarting on a transient fault, at most [`RETRY_LIMIT`] times in all.
pub fn discover_upload(children: &Vec<Element>, faults: &Vec<bool>) -> (r: DiscoveryOutcome)
    ensures
        r.element == spec_discovery_element(children@, faults@),
        r.attempts == spec_discovery_attempts(faults@),
        1 <= r.attempts <= RETRY_LIMIT,
{
    let mut attempt: usize = 0;
    while attempt < RETRY_LIMIT
        invariant
            attempt <= RETRY_LIMIT,
            first_clear_from(faults@, 0) == first_clear_from(faults@, attempt as int),
        decreases RETRY_LIMIT - attempt,
    {
        let faulted = attempt < faults.len() && faults[attempt];
        if faulted {
            attempt = attempt + 1;
        } else {
            let found = scan_children(children);
            return DiscoveryOutcome { element: found, attempts: attempt + 1 };
        }
    }
    DiscoveryOutcome { element: None, attempts: RETRY_LIMIT }
}

/// Law: a traversal whose first attempt raises a transient fault and whose
/// second completes terminates after two attempts, within the retry bound,
/// and yields the first matching child (or nothing when no child matches).
pub proof fn lemma_transient_fault_recovers(children: Seq<Element>, faults: Seq<bool>)
    requires
        fault_at(faults, 0),
        !fault_at(faults, 1),
    ensures
        spec_discovery_element(children, faults) == spec_first_upload(children),
        spec_discovery_attempts(faults) == 2 <= RETRY_LIMIT,
{
    assert(first_clear_from(faults, 0) == first_clear_from(faults, 1));
    assert(first_clear_from(faults, 1) == 1);
}

} // verus!
