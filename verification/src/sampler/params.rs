use vstd::prelude::*;

verus! {

/// The largest number of voices that may sound at once.
pub const MAX_POLYPHONY: i32 = 16;

} // verus!
