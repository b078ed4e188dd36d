//! Faults: violated timing or protocol assumptions past which the control
//! loop cannot safely continue.

use vstd::prelude::*;

verus! {

/// A condition on which the firmware must halt rather than go on with
/// stale or corrupted data.
#[derive(Clone, Copy, Debug, PartialEq, Eq, Structural)]
pub enum Fault {
    /// A wheel edge arrived before the previous one was read.
    Overcapture,
    /// A buffer was released that no transfer held.
    NotInTransfer,
    /// A transfer was set up on a buffer that a transfer still held.
    InTransfer,
}

} // verus!
