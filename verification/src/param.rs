//! Where a video stands in a composed picture.

use vstd::prelude::*;

verus! {

/// How a video is fitted into its place.
#[derive(Debug, Clone, Copy, PartialEq, Eq, Structural)]
pub enum FilterMode {
    /// The whole video is shown; bars may stay at its sides.
    Fit,
    /// What does not fit the proportions of the place is cut off.
    Crop,
    /// The video is stretched to the proportions of the place.
    Scale,
}

/// The place of a video.
#[derive(Debug)]
pub struct VideoPosition {
    /// The layer.
    pub layer: u32,
    /// The horizontal position.
    pub x: u32,
    /// The vertical position.
    pub y: u32,
    /// The width.
    pub width: u32,
    /// The height.
    pub height: u32,
    /// How the video is fitted.
    pub mode: FilterMode,
    /// The name of the video.
    pub id: String,
}

} // verus!
