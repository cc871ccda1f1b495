//! Device-side USB 2.0 controller driver core.
//!
//! The crate models the protocol logic of a bare-metal USB device
//! controller: the power bring-up sequencer, the control-endpoint state
//! machine with its device-state table, the bulk-endpoint handshake
//! machines, and the fixed packet pool. Hardware effects (register
//! writes, DMA starts) are returned as action values; the surrounding
//! runtime reads the event registers into snapshots and performs the
//! actions.

use vstd::prelude::*;

pub mod bulk;
pub mod control;
pub mod dispatch;
pub mod event;
pub mod fault;
pub mod packet;
pub mod power;
pub mod pool;
pub mod setup;

verus! {

/// Timestamp for trace output: the cycle counter scaled down by 64.
pub fn __semidap_timestamp(cyccnt: u32) -> (r: u32)
    ensures
        r == cyccnt >> 6,
{
    cyccnt >> 6
}

} // verus!
