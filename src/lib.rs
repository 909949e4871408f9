//! Status synchronisation engine for a desktop overlay that mirrors the state
//! of a voice assistant: payload normalisation, the overlay state store with
//! its visibility policy, stream frame extraction, and the connection
//! supervisor that chooses ports and transports.
use vstd::prelude::*;

pub mod frames;
pub mod link;
pub mod overlay;
pub mod pipeline;
pub mod status;

verus! {

} // verus!
