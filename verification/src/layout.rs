//! The limits within which a widget is laid out.
use crate::units::{Length, Size};
use vstd::prelude::*;

verus! {

/// The smaller of two extents.
pub open spec fn smaller(a: u32, b: u32) -> u32 {
    if a <= b {
        a
    } else {
        b
    }
}

/// The larger of two extents.
pub open spec fn larger(a: u32, b: u32) -> u32 {
    if a >= b {
        a
    } else {
        b
    }
}

/// The extent that a widget with nothing inside gets along one axis, when it
/// asks for `length` and the limits along that axis are `min`, `max` and
/// `fill`: a fixed length is brought into the limits, a filling one takes
/// what there is to fill, and a shrinking one takes the least allowed.
pub open spec fn resolved_axis(length: Length, min: u32, max: u32, fill: u32) -> u32 {
    match length {
        Length::Shrink => min,
        Length::Fill | Length::FillPortion(_) => smaller(fill, max),
        Length::Units(units) => larger(smaller(units as u32, max), min),
    }
}

fn least(a: u32, b: u32) -> (least: u32)
    ensures
        least == smaller(a, b),
{
    if a <= b {
        a
    } else {
        b
    }
}

fn most(a: u32, b: u32) -> (most: u32)
    ensures
        most == larger(a, b),
{
    if a >= b {
        a
    } else {
        b
    }
}

/// The space a widget may take: no less than `min`, no more than `max`, and
/// `fill` where it is free to choose.
#[derive(Clone, Copy, Debug, PartialEq, Eq, Structural)]
pub struct Limits {
    pub min: Size,
    pub max: Size,
    pub fill: Size,
}

impl Limits {
    /// These limits once the width asks for `width`.
    pub open spec fn with_width(self, width: Length) -> Limits {
        match width {
            Length::Shrink => Limits {
                fill: Size { width: self.min.width, height: self.fill.height },
                ..self
            },
            Length::Fill | Length::FillPortion(_) => Limits {
                fill: Size {
                    width: smaller(self.fill.width, self.max.width),
                    height: self.fill.height,
                },
                ..self
            },
            Length::Units(units) => {
                let fixed = larger(smaller(units as u32, self.max.width), self.min.width);
                Limits {
                    min: Size { width: fixed, height: self.min.height },
                    max: Size { width: fixed, height: self.max.height },
                    fill: Size { width: fixed, height: self.fill.height },
                }
            },
        }
    }

    /// These limits once the height asks for `height`.
    pub open spec fn with_height(self, height: Length) -> Limits {
        match height {
            Length::Shrink => Limits {
                fill: Size { width: self.fill.width, height: self.min.height },
                ..self
            },
            Length::Fill | Length::FillPortion(_) => Limits {
                fill: Size {
                    width: self.fill.width,
                    height: smaller(self.fill.height, self.max.height),
                },
                ..self
            },
            Length::Units(units) => {
                let fixed = larger(smaller(units as u32, self.max.height), self.min.height);
                Limits {
                    min: Size { width: self.min.width, height: fixed },
                    max: Size { width: self.max.width, height: fixed },
                    fill: Size { width: self.fill.width, height: fixed },
                }
            },
        }
    }

    /// The size within these limits of a widget whose contents need
    /// `intrinsic`: the contents are cut down to the maximum, and the widget
    /// grows to what it is to fill.
    pub open spec fn resolved(self, intrinsic: Size) -> Size {
        Size {
            width: larger(smaller(intrinsic.width, self.max.width), self.fill.width),
            height: larger(smaller(intrinsic.height, self.max.height), self.fill.height),
        }
    }

    /// Creates limits between `min` and `max` that fill all the space.
    pub fn new(min: Size, max: Size) -> (limits: Limits)
        ensures
            limits == (Limits { min, max, fill: Size { width: u32::MAX, height: u32::MAX } }),
    {
        Limits { min, max, fill: Size { width: u32::MAX, height: u32::MAX } }
    }

    /// Applies a width policy to the limits.
    pub fn width(self, width: Length) -> (limits: Limits)
        ensures
            limits == self.with_width(width),
    {
        let mut limits = self;
        match width {
            Length::Shrink => {
                limits.fill.width = limits.min.width;
            },
            Length::Fill | Length::FillPortion(_) => {
                limits.fill.width = least(limits.fill.width, limits.max.width);
            },
            Length::Units(units) => {
                let fixed = most(least(units as u32, limits.max.width), limits.min.width);
                limits.min.width = fixed;
                limits.max.width = fixed;
                limits.fill.width = fixed;
            },
        }
        limits
    }

    /// Applies a height policy to the limits.
    pub fn height(self, height: Length) -> (limits: Limits)
        ensures
            limits == self.with_height(height),
    {
        let mut limits = self;
        match height {
            Length::Shrink => {
                limits.fill.height = limits.min.height;
            },
            Length::Fill | Length::FillPortion(_) => {
                limits.fill.height = least(limits.fill.height, limits.max.height);
            },
            Length::Units(units) => {
                let fixed = most(least(units as u32, limits.max.height), limits.min.height);
                limits.min.height = fixed;
                limits.max.height = fixed;
                limits.fill.height = fixed;
            },
        }
        limits
    }

    /// Returns the size within the limits of a widget whose contents need
    /// `intrinsic`.
    pub fn resolve(&self, intrinsic: Size) -> (size: Size)
        ensures
            size == self.resolved(intrinsic),
    {
        Size {
            width: most(least(intrinsic.width, self.max.width), self.fill.width),
            height: most(least(intrinsic.height, self.max.height), self.fill.height),
        }
    }
}

} // verus!
