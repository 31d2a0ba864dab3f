//! Why the application stops.

use vstd::prelude::*;

verus! {

/// The reason carried by the shutdown signal. Every long-lived task of the
/// application listens for the signal and stops when it sees one.
#[derive(Clone, Copy, Debug, PartialEq, Eq, Structural)]
pub enum Interrupted {
    /// The user asked to leave.
    UserInt,
    /// The source of server events failed.
    ConnectionLost,
    /// The source of server events came to its end.
    ServerClosed,
}

} // verus!
