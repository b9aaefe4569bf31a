//! The readiness poller: a probe is repeated until it succeeds.

use vstd::prelude::*;

verus! {

/// What follows one attempt of a probe.
#[derive(Clone, Copy, Debug, PartialEq, Eq, Structural)]
pub enum Verdict {
    /// The probe succeeded: the wait is over.
    Resolved,
    /// The probe failed: it is run again. The poller never gives up.
    Retry,
}

/// Judges one attempt of a probe.
pub fn judge(probe_succeeded: bool) -> (verdict: Verdict)
    ensures
        verdict == (if probe_succeeded { Verdict::Resolved } else { Verdict::Retry }),
{
    if probe_succeeded {
        Verdict::Resolved
    } else {
        Verdict::Retry
    }
}

} // verus!
