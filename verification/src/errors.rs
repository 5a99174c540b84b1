//! The error taxonomy of the command surface.
//!
//! Every operation returns a typed error instead of panicking.  Variants that
//! arise only at the I/O edge (gateway discovery, downloading the install
//! script, transport failures) are part of the taxonomy so that callers can
//! surface them uniformly, even though the functions of this crate never
//! produce them themselves.

use vstd::prelude::*;

verus! {

/// Why a command-surface operation failed.
#[derive(Debug)]
pub enum ApiError {
    /// The network gateway does not lie in the device's hotspot subnet; the
    /// observed gateway address is carried for the caller's message.
    NotHavalHotspot(Vec<u8>),
    /// The default gateway of the local network could not be discovered.
    GatewayNotFound,
    /// The Telnet session is not established.
    NotConnected,
    /// The device reported a rollback while an install result was awaited.
    RollbackDetected,
    /// The expected response did not arrive within the deadline.
    Timeout,
    /// The install script could not be fetched.
    DownloadFailed,
}

} // verus!
