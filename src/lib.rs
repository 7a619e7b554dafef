//! Greek key (meander) pattern geometry: rectangular and circular layouts.
use vstd::prelude::*;

pub mod circle;
pub mod params;
pub mod path;
pub mod rect;

verus! {

} // verus!
