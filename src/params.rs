//! Parameters of the two kinds of pattern, before they become a layout.
use vstd::prelude::*;

use crate::circle::{ConfigError, GreekKeyCircleConfig, MIN_POINTS_AROUND, PATTERN_UNIT_SIZE};
use crate::rect::GreekKeyRectConfig;

verus! {

/// A rectangular pattern: unit length, and repeats across and down.
#[derive(PartialEq, Eq, Structural, Clone, Copy, Debug)]
pub struct RectArgs {
    pub size: i32,
    pub width: i32,
    pub height: i32,
}

/// A circular pattern: repeats around the circle and the outer radius.
#[derive(PartialEq, Eq, Structural, Clone, Copy, Debug)]
pub struct CircleArgs {
    pub pattern_count: i32,
    pub radius: i32,
}

impl RectArgs {
    /// The layout for these parameters with the shared margin and stroke width.
    pub fn config(&self, border_margin: i32, stroke_width: i32) -> (r: GreekKeyRectConfig)
        ensures
            r.wf(),
            r.key_unit_length == self.size,
            r.width_units == self.width,
            r.height_units == self.height,
            r.border_margin == border_margin,
            r.stroke_width == stroke_width,
    {
        GreekKeyRectConfig::new(self.size, self.width, self.height, border_margin, stroke_width)
    }
}

impl CircleArgs {
    /// The layout for these parameters with the shared margin and stroke
    /// width, or the reason there is none.
    pub fn config(&self, border_margin: i32, stroke_width: i32) -> (r: Result<
        GreekKeyCircleConfig,
        ConfigError,
    >)
        ensures
            PATTERN_UNIT_SIZE * self.pattern_count < MIN_POINTS_AROUND <==> r is Err,
            r is Err ==> r->Err_0 == ConfigError::TooFewRepeats,
            r is Ok ==> ({
                let c = r->Ok_0;
                &&& c.wf()
                &&& c.r_o == self.radius
                &&& c.pattern_count == self.pattern_count
                &&& c.border_margin == border_margin
                &&& c.stroke_width == stroke_width
            }),
    {
        GreekKeyCircleConfig::new(self.radius, self.pattern_count, border_margin, stroke_width)
    }
}

} // verus!
