use vstd::prelude::*;

verus! {

/// Rotation and flip applied to an output.
#[derive(Clone, Copy, Debug, PartialEq, Eq, Structural)]
pub enum Transform {
    Normal,
    Rotated90,
    Rotated180,
    Rotated270,
    Flipped,
    Flipped90,
    Flipped180,
    Flipped270,
}

/// A fractional scale factor, held as the IEEE-754 bit pattern of its `f64`
/// value so that it is stored and restored bit for bit.
#[derive(Clone, Copy, Debug, PartialEq, Eq, Structural)]
pub struct Scale {
    pub bits: u64,
}

/// The mode an output is driven at: its size in pixels and, when known, its
/// refresh rate in millihertz.
#[derive(Clone, Copy, Debug, PartialEq, Eq, Structural)]
pub struct ModeSetting {
    pub width: i32,
    pub height: i32,
    pub refresh: Option<u32>,
}

/// An offset in the global output layout.
#[derive(Clone, Copy, Debug, PartialEq, Eq, Structural)]
pub struct Position {
    pub x: i32,
    pub y: i32,
}

/// Whether an output shows its own content, nothing, or another output's image.
#[derive(Clone, Copy, Debug, PartialEq, Eq, Structural)]
pub enum OutputState {
    Enabled,
    Disabled,
    /// Duplicates the output with this identity.
    Mirroring(usize),
}

/// The configuration record held for one output.
#[derive(Clone, Copy, Debug, PartialEq, Eq, Structural)]
pub struct OutputConfig {
    pub mode: ModeSetting,
    pub scale: Scale,
    pub transform: Transform,
    pub position: Position,
    pub vrr: bool,
    pub enabled: OutputState,
}

} // verus!
