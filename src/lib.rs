//! Session lifecycle of a paint-mixing workspace: the close guard, the
//! mode registry and switcher, the control bar, the geometry records of
//! named windows, the image-viewer satellites and the handling of a
//! screen-sampling outcome.
use vstd::prelude::*;

pub mod geometry;
pub mod guard;
pub mod workspace;

verus! {

} // verus!
