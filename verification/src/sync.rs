//! Remote sync decisions: after the manifest is finalized, each output path
//! is probed against the remote object store and reconciled. The decision
//! from a probe's status is pure; the caller performs the probe, carries
//! out the action, and moves on. A single object's failure must not abort
//! reconciliation of the rest.

use vstd::prelude::*;

verus! {

/// What to do with one output path after its existence probe.
#[derive(Clone, Copy, Debug, PartialEq, Eq, Structural)]
pub enum SyncAction {
    /// The object is missing remotely: upload it, exactly once.
    Upload,
    /// The object already exists remotely: skip it; content-addressed
    /// names never need re-upload.
    AlreadyPresent,
    /// Any other probe outcome: report the error for this object and
    /// continue with the next one.
    ReportError,
}

/// Decide what to do with one output path from its probe status: absent
/// objects are uploaded, present ones skipped, anything else reported.
pub fn sync_decision(status: u16) -> (r: SyncAction)
    ensures
        r is Upload <==> status == 404,
        r is AlreadyPresent <==> status == 200,
        r is ReportError <==> (status != 404 && status != 200),
{
    if status == 404 {
        SyncAction::Upload
    } else if status == 200 {
        SyncAction::AlreadyPresent
    } else {
        SyncAction::ReportError
    }
}

} // verus!
