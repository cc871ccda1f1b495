//! Fatal conditions.
//!
//! A fatal condition means the driver must disconnect from the bus
//! (pull D+ down, so the host does not retry enumeration against a hung
//! device) and halt. The dispatch functions report it as an error value
//! and make no state change; the runtime performs the disconnect.

use vstd::prelude::*;

verus! {

/// Why the driver must disconnect and halt.
#[derive(Clone, Copy, PartialEq, Eq, Structural, Debug)]
pub enum Fatal {
    /// A protocol violation: an event arrived in a state that forbids
    /// it, or an interrupt fired with no event pending.
    Unreachable,
    /// An explicitly unfinished path, distinct from a true violation.
    NotImplemented,
}

} // verus!
