//! Port allocation: picking the first free port at or above the preferred
//! one. The caller supplies the availability probe; the scan order and the
//! fallback are verified here.

use vstd::prelude::*;

verus! {

/// The preferred port if the probe accepts it, else the first greater port
/// below 65535 that the probe accepts, else the preferred port as a
/// fallback. The probe is the caller's (it typically tries to bind), so all
/// that is promised of a changed result is that the probe accepted it.
pub fn find_available_port<F: Fn(u16) -> bool>(preferred: u16, is_available: F) -> (r: u16)
    requires
        forall|p: u16| #[trigger] is_available.requires((p,)),
    ensures
        r == preferred || (r > preferred && is_available.ensures((r,), true)),
{
    if is_available(preferred) {
        return preferred;
    }
    if preferred == u16::MAX {
        return preferred;
    }
    let mut port: u16 = preferred + 1;
    while port < 65535
        invariant
            preferred < port,
            forall|p: u16| #[trigger] is_available.requires((p,)),
        decreases 65535 - port,
    {
        if is_available(port) {
            return port;
        }
        port += 1;
    }
    preferred
}

} // verus!
