//! The network checks around the session.
//!
//! The target device is reached through the default gateway of the local
//! network.  Discovering that gateway is the caller's job; this module
//! decides whether a discovered gateway belongs to the device's hotspot
//! subnet, and builds the Telnet address dialled from it.

use vstd::prelude::*;
use vstd::slice::slice_to_vec;
use vstd::string::StringSliceAdditionalSpecFns;
use crate::errors::ApiError;
use crate::text::bytes_starts_with;

verus! {

/// The address prefix every gateway of the device's hotspot carries.
pub open spec fn hotspot_prefix() -> Seq<u8> {
    "192.168.3.".spec_bytes()
}

/// A gateway lies in the device's hotspot subnet exactly when its textual
/// address starts with the hotspot prefix.
pub open spec fn is_haval_gateway(gateway: Seq<u8>) -> bool {
    hotspot_prefix().is_prefix_of(gateway)
}

/// Accepts a gateway in the hotspot subnet; any other gateway is refused,
/// and the observed address travels with the error so the caller can show it.
pub fn is_haval_hotspot(gateway: &[u8]) -> (r: Result<(), ApiError>)
    ensures
        is_haval_gateway(gateway@) ==> r is Ok,
        !is_haval_gateway(gateway@) ==> (r matches Err(ApiError::NotHavalHotspot(g)) && g@
            == gateway@),
{
    if bytes_starts_with(gateway, "192.168.3.".as_bytes()) {
        Ok(())
    } else {
        Err(ApiError::NotHavalHotspot(slice_to_vec(gateway)))
    }
}

/// The suffix that selects the Telnet port.
pub open spec fn telnet_port_suffix() -> Seq<u8> {
    ":23".spec_bytes()
}

/// The address the session dials: the gateway, on the Telnet port.
pub fn telnet_addr(gateway: &[u8]) -> (r: Vec<u8>)
    ensures
        r@ == gateway@ + telnet_port_suffix(),
{
    let mut r = slice_to_vec(gateway);
    r.extend_from_slice(":23".as_bytes());
    r
}

} // verus!
