//! What the store refuses, and why.

use vstd::prelude::*;

verus! {

/// Why an operation was refused.
#[derive(Clone, Copy, Debug, PartialEq, Eq, Structural)]
pub enum StoreError {
    /// The event, or the history that it stands on, is not valid.
    InvalidStateEvent,
    /// An event with the same identity but another content exists.
    IdentifiedEventConflict,
    /// A session has no sequence number left.
    SequenceOverflow,
    /// An artifact could not be read.
    ArtifactUnavailable,
    /// An event is larger than an event may be.
    EventTooLarge,
}

/// `Ok` where `holds`, else the refusal of an invalid state.
pub open spec fn demand(holds: bool) -> Result<(), StoreError> {
    if holds {
        Ok(())
    } else {
        Err(StoreError::InvalidStateEvent)
    }
}

/// `Ok` where `holds`, else the refusal of a conflicting event.
pub open spec fn no_conflict(holds: bool) -> Result<(), StoreError> {
    if holds {
        Ok(())
    } else {
        Err(StoreError::IdentifiedEventConflict)
    }
}

/// The first failure of two steps.
pub open spec fn and_next(
    first: Result<(), StoreError>,
    next: Result<(), StoreError>,
) -> Result<(), StoreError> {
    match first {
        Ok(()) => next,
        Err(error) => Err(error),
    }
}

} // verus!
