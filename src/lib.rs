pub mod path;
pub mod rect;
pub mod render;
pub mod wide;
pub mod window;

use vstd::prelude::*;

verus! {

/// Capacity, in UTF-16 code units, of every text buffer handed to the window system.
pub const TEXT_CAPACITY: usize = 256;

} // verus!
