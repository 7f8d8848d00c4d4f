//! Host-side control of SCPI laboratory instruments. The library holds the
//! protocol logic: the XDR codec, ONC/RPC messages and record marking, the
//! portmap and VXI-11 procedures, SCPI framing and URIs, IEEE-488.2 blocks
//! and waveform descriptors, instrument identity and the vendor tables that
//! pick a driver. Sockets, serial ports and timers stay with the caller.
use vstd::prelude::*;

pub mod error;
pub mod xdr;
pub mod onc;
pub mod rpc;
pub mod onc_client;
pub mod portmap;
pub mod vxi11;
pub mod waveform;
pub mod text;
pub mod model;
pub mod scpi;
pub mod equipment;
pub mod stream;

verus! {

/// Version string of this library.
pub fn version() -> (r: &'static str)
    ensures
        r@ == "0.1.0"@,
{
    "0.1.0"
}

} // verus!
