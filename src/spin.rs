//! A record of the spin-loop hints issued, so that the busy-wait helpers can
//! state how much spinning they did.

use vstd::prelude::*;

verus! {

/// Counts the spin-loop hints issued through it. Only [`spin_hint`] raises
/// the count.
pub struct SpinLog {
    hints: Ghost<nat>,
}

impl SpinLog {
    /// The number of hints issued through this log.
    pub closed spec fn hints(&self) -> nat {
        self.hints@
    }

    /// A log that has seen no hint yet.
    pub fn new() -> (r: SpinLog)
        ensures
            r.hints() == 0,
    {
        SpinLog { hints: Ghost(0) }
    }
}

/// Relies on core::hint::spin_loop: it tells the processor that it is in a
/// busy-wait loop and has no other effect.
#[verifier::external_body]
fn spin_loop_hint() {
    core::hint::spin_loop()
}

/// Issue one spin-loop hint, recording it in `log`.
pub fn spin_hint(log: &mut SpinLog)
    ensures
        final(log).hints() == old(log).hints() + 1,
{
    spin_loop_hint();
    log.hints = Ghost(log.hints@ + 1);
}

} // verus!
