//! What happens to a track once it has finished.
use vstd::prelude::*;

verus! {

/// Repeat policy of a guild's queue.
#[derive(Clone, Copy, Debug, PartialEq, Eq, Structural)]
pub enum RepeatMode {
    /// A finished track is dropped.
    Off,
    /// A finished track goes back to the front of the queue.
    Track,
    /// A finished track goes to the back of the queue.
    Queue,
}

} // verus!
