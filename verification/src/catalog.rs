//! The driver catalog: candidates compatible with a device node, and the
//! selection of the best match for a component identifier.

use vstd::prelude::*;
use crate::error::TapError;
use crate::strcase::{eq_ignore_case, eq_ignore_ascii_case};

verus! {

/// One driver package associated with a device node: its declared version
/// and, when the detail record could be fetched, the hardware identifier
/// that the detail record declares.
#[derive(Clone, Debug, PartialEq, Eq)]
pub struct DriverCandidate {
    /// The declared driver version. A candidate reporting version zero is
    /// never selected.
    pub version: u64,
    /// The declared hardware identifier; `None` when the detail record could
    /// not be fetched. Such a candidate is skipped, never an error.
    pub hardware_id: Option<String>,
}

/// Whether a candidate can be selected for `component_id`: its detail record
/// was fetched, its hardware identifier equals the component identifier up
/// to ASCII case, and its version is non-zero.
pub open spec fn candidate_eligible(c: DriverCandidate, component_id: Seq<char>) -> bool {
    &&& c.version > 0
    &&& match c.hardware_id {
        Some(h) => eq_ignore_case(h@, component_id),
        None => false,
    }
}

/// Whether any candidate in the list can be selected.
pub open spec fn has_eligible(cands: Seq<DriverCandidate>, component_id: Seq<char>) -> bool {
    exists|i: int| 0 <= i < cands.len() && candidate_eligible(cands[i], component_id)
}

/// The version a running best stands for; no best yet stands for zero, so a
/// candidate must better it strictly to be taken.
pub open spec fn best_version(b: Option<(int, u64)>) -> u64 {
    match b {
        Some(p) => p.1,
        None => 0,
    }
}

/// The running best over the first `n` candidates, scanned in order: a later
/// candidate displaces the best only with a strictly greater version, so the
/// overall best is the first candidate holding the maximal eligible version.
pub open spec fn best_upto(cands: Seq<DriverCandidate>, component_id: Seq<char>, n: int) -> Option<
    (int, u64),
>
    decreases n,
{
    if n <= 0 {
        None
    } else {
        let prev = best_upto(cands, component_id, n - 1);
        if candidate_eligible(cands[n - 1], component_id) && cands[n - 1].version > best_version(
            prev,
        ) {
            Some((n - 1, cands[n - 1].version))
        } else {
            prev
        }
    }
}

/// Selects the driver candidate to install for `component_id`: the eligible
/// candidate with the strictly highest version, the earliest on ties.
/// Reports `NotFound`, and only then, when no candidate is eligible; the
/// caller must then abort before any device-node installation step.
pub fn select_driver(candidates: &Vec<DriverCandidate>, component_id: &str) -> (r: Result<
    (usize, u64),
    TapError,
>)
    ensures
        match r {
            Ok(p) => best_upto(candidates@, component_id@, candidates@.len() as int) == Some(
                (p.0 as int, p.1),
            ),
            Err(e) => e == TapError::NotFound,
        },
        r is Err <==> !has_eligible(candidates@, component_id@),
{
    let n = candidates.len();
    let mut best: Option<(usize, u64)> = None;
    let mut i: usize = 0;
    while i < n
        invariant
            i <= n,
            n == candidates@.len(),
            match best {
                Some(p) => best_upto(candidates@, component_id@, i as int) == Some(
                    (p.0 as int, p.1),
                ),
                None => best_upto(candidates@, component_id@, i as int) is None,
            },
        decreases n - i,
    {
        let c = &candidates[i];
        let current = match best {
            Some(p) => p.1,
            None => 0,
        };
        if c.version > current {
            let matches = match &c.hardware_id {
                Some(h) => eq_ignore_ascii_case(h.as_str(), component_id),
                None => false,
            };
            if matches {
                best = Some((i, c.version));
            }
        }
        i = i + 1;
    }
    proof {
        lemma_best_upto_found(candidates@, component_id@, n as int);
    }
    match best {
        Some(p) => Ok(p),
        None => Err(TapError::NotFound),
    }
}

/// The running best exists exactly when some candidate is eligible.
proof fn lemma_best_upto_found(cands: Seq<DriverCandidate>, component_id: Seq<char>, n: int)
    requires
        n <= cands.len(),
    ensures
        (best_upto(cands, component_id, n) is Some) == (exists|i: int|
            0 <= i < n && candidate_eligible(cands[i], component_id)),
    decreases n,
{
    if n > 0 {
        lemma_best_upto_found(cands, component_id, n - 1);
        if best_upto(cands, component_id, n) is Some {
            if candidate_eligible(cands[n - 1], component_id) {
                assert(0 <= n - 1 < n && candidate_eligible(cands[n - 1], component_id));
            }
        }
    }
}

/// What the selection stands for: the selected candidate is eligible, its
/// version is maximal among the eligible candidates, and every earlier
/// eligible candidate has a strictly smaller version — so the selection is
/// determined by the candidate list alone.
pub proof fn lemma_selection_is_best(cands: Seq<DriverCandidate>, component_id: Seq<char>, n: int)
    requires
        n <= cands.len(),
    ensures
        match best_upto(cands, component_id, n) {
            Some(p) => {
                &&& 0 <= p.0 < n
                &&& candidate_eligible(cands[p.0], component_id)
                &&& cands[p.0].version == p.1
                &&& forall|j: int|
                    0 <= j < n && candidate_eligible(cands[j], component_id) ==> cands[j].version
                        <= p.1
                &&& forall|j: int|
                    0 <= j < p.0 && candidate_eligible(cands[j], component_id) ==> cands[j].version
                        < p.1
            },
            None => !(exists|i: int| 0 <= i < n && candidate_eligible(cands[i], component_id)),
        },
    decreases n,
{
    if n > 0 {
        lemma_selection_is_best(cands, component_id, n - 1);
    } else {
    }
}

} // verus!
