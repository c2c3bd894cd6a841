//! Errors surfaced by the consensus core and its driving loop.

use vstd::prelude::*;

verus! {

/// Error kinds of the consensus core.
///
/// `Timeout` is not a failure: it is the control-flow signal that a step
/// timer fired before a packet arrived, consumed by the driving loop and
/// never surfaced past a single tick.  `UnexpectedPacket` classifies a
/// packet whose variant does not match the current role and step; such a
/// packet is logged and dropped, never fatal.  The remaining kinds abort
/// the current tick.
#[derive(Clone, Debug)]
pub enum Error {
    /// A packet of the wrong variant for the current role and step.
    UnexpectedPacket,
    /// A vote response arrived without the required signature.
    NoSignature,
    /// A step timer fired; not a failure, only the no-progress signal.
    Timeout,
    /// A transport failure, wrapped for the caller of the driving loop.
    NetworkError(String),
    /// A failure from the application collaborator, wrapped likewise.
    ApplicationError(String),
}

} // verus!
