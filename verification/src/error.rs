//! Error kinds reported by the transport, the field accessors and the
//! controller's configuration sequence.

use vstd::prelude::*;

verus! {

/// A failure reported by the two-wire bus itself.
#[derive(Clone, Copy, Debug, PartialEq, Eq, Structural)]
pub enum TransportError {
    /// The device did not acknowledge a byte.
    Nack,
    /// Bus arbitration was lost to another master.
    ArbitrationLoss,
    /// The transaction did not complete in time.
    Timeout,
}

/// Any failure this library reports.
#[derive(Clone, Copy, Debug, PartialEq, Eq, Structural)]
pub enum Error {
    /// A bus transaction failed; always propagated, never retried here.
    Transport(TransportError),
    /// An enumerated field was given a pattern outside its symbol table.
    InvalidFieldValue,
    /// A raw integer field was given a value that exceeds its bit width.
    FieldOverflow,
    /// A configuration step failed on the bus; `step` is the index of the
    /// failed step in the fixed configuration sequence.
    Configuration { step: usize, cause: TransportError },
}

} // verus!
