//! What can go wrong between a frame and its symbols.

use vstd::prelude::*;

verus! {

/// Why a frame was not taken in, or why one candidate gave no symbol.
#[derive(Debug)]
pub enum Error {
    /// The engine could not allocate: its context, or its buffer for a frame
    /// of the requested dimensions.
    Alloc,
    /// The pixel buffer holds fewer bytes than the frame has pixels.
    Short,
    /// A candidate did not decode; the number tells why, as the engine
    /// numbers its failures.
    Decode(u32),
}

} // verus!
