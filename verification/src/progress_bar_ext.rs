//! A bar that displays progress, lying or standing.

use iced_core::Length;
use vstd::prelude::*;

verus! {

/// The two extents of a progress bar and the way it is turned.
///
/// The length runs in the direction in which the bar fills, the girth
/// across it.
#[derive(Debug, Clone, Copy, PartialEq)]
pub struct Extent {
    /// The extent of the bar in the direction of progress.
    pub length: Length,
    /// The extent of the bar across the direction of progress.
    pub girth: Length,
    /// Whether the bar stands upright, filling from the bottom.
    pub is_vertical: bool,
}

impl Extent {
    /// The width of the bar: its length while it lies, its girth while it
    /// stands.
    pub fn width(&self) -> (width: Length)
        ensures
            width == if self.is_vertical {
                self.girth
            } else {
                self.length
            },
    {
        if self.is_vertical {
            self.girth
        } else {
            self.length
        }
    }

    /// The height of the bar: its girth while it lies, its length while it
    /// stands.
    pub fn height(&self) -> (height: Length)
        ensures
            height == if self.is_vertical {
                self.length
            } else {
                self.girth
            },
    {
        if self.is_vertical {
            self.length
        } else {
            self.girth
        }
    }

    /// The same bar, standing upright.
    pub fn vertical(self) -> (turned: Extent)
        ensures
            turned == (Extent { is_vertical: true, ..self }),
    {
        Extent { is_vertical: true, ..self }
    }
}

} // verus!
