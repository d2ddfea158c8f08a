//! The flag by which the periodic timer asks for a report.

use vstd::prelude::*;

verus! {

/// A request for a forced report.  The timer interrupt raises it; the main
/// loop takes it once per round, which clears it.
#[derive(Clone, Copy, Debug)]
pub struct ForceFlag {
    pending: bool,
}

impl ForceFlag {
    /// Whether a forced report is asked for.
    pub closed spec fn raised(&self) -> bool {
        self.pending
    }

    /// A flag that is down.
    pub fn new() -> (flag: ForceFlag)
        ensures
            !flag.raised(),
    {
        ForceFlag { pending: false }
    }

    /// Asks for a forced report.  Raising a raised flag changes nothing.
    pub fn raise(&mut self)
        ensures
            final(self).raised(),
    {
        self.pending = true;
    }

    /// Whether a forced report is asked for.
    pub fn is_raised(&self) -> (raised: bool)
        ensures
            raised == self.raised(),
    {
        self.pending
    }

    /// Reads the flag and clears it.
    pub fn take(&mut self) -> (force_update: bool)
        ensures
            force_update == old(self).raised(),
            !final(self).raised(),
    {
        let force_update = self.pending;
        self.pending = false;
        force_update
    }
}

} // verus!
