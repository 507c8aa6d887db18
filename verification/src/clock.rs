//! The wall clock, read as time elapsed since the Unix epoch.

use vstd::prelude::*;

verus! {

/// Time elapsed since the Unix epoch, split as `std::time::Duration` splits it.
#[derive(Debug, Clone, Copy)]
pub struct EpochTime {
    pub secs: u64,
    pub subsec_nanos: u32,
}

impl EpochTime {
    /// The elapsed time in nanoseconds.
    pub open spec fn nanos(self) -> nat {
        (self.secs * 1_000_000_000 + self.subsec_nanos) as nat
    }

    /// The elapsed time in whole nanoseconds.
    pub fn as_nanos(&self) -> (n: u128)
        ensures
            n == self.nanos(),
    {
        (self.secs as u128) * 1_000_000_000 + (self.subsec_nanos as u128)
    }
}

/// Reads the system clock (`std::time::SystemTime::now`) and measures the
/// time since `UNIX_EPOCH` (`SystemTime::duration_since`), taking zero when
/// the clock is set before the epoch, as `unwrap_or_default` does. The
/// reading itself is whatever the clock says; only the split that
/// `Duration` documents is claimed: fewer than a billion nanoseconds beyond
/// the whole seconds.
#[verifier::external_body]
pub(crate) fn epoch_time_now() -> (t: EpochTime)
    ensures
        t.subsec_nanos < 1_000_000_000,
{
    let d = std::time::SystemTime::now().duration_since(std::time::UNIX_EPOCH).unwrap_or_default();
    EpochTime { secs: d.as_secs(), subsec_nanos: d.subsec_nanos() }
}

} // verus!
