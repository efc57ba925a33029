//! Types and interfaces shared by panel drivers.

use vstd::prelude::*;

use crate::interface::BusOp;

verus! {

/// Why a driver call was refused. Bus faults are not among these: the
/// transport that replays the recorded operations surfaces its own failures,
/// and no retry happens at this layer.
#[derive(Clone, Copy, PartialEq, Eq, Structural, Debug)]
pub enum DriverError {
    /// The panel is sleeping or was never initialized; only a wake-up or a
    /// fresh init is valid now.
    NotReady,
    /// A frame buffer's length differs from the panel's fixed expected byte
    /// count; the transfer is refused rather than truncated.
    BufferSizeMismatch,
    /// The panel variant does not support the requested operation.
    UnsupportedOperation,
}

/// Power state of the panel controller. Deep sleep discards all panel-side
/// configuration, so the only way out of `Sleeping` is a full
/// re-initialization.
#[derive(Clone, Copy, PartialEq, Eq, Structural, Debug)]
pub enum PowerState {
    /// Constructed, but the init sequence has not run.
    Uninitialized,
    /// Initialized and accepting display operations.
    Ready,
    /// Powered off and in deep sleep; display operations are rejected.
    Sleeping,
}

/// Refresh look-up table choice.
#[derive(Clone, Copy, PartialEq, Eq, Structural, Debug)]
pub enum RefreshLut {
    /// Full refresh look-up table.
    Full,
    /// Quick refresh look-up table; may leave ghosting.
    Quick,
}

impl Default for RefreshLut {
    /// The default is a full refresh.
    fn default() -> (r: Self)
        ensures
            r == RefreshLut::Full,
    {
        RefreshLut::Full
    }
}

/// Interaction surface every panel driver of this family offers. The driver
/// records the bus operations each call decides on; a transport drains them
/// with [`take_ops`](WaveshareDisplay::take_ops) and performs them on the
/// physical lines.
pub trait WaveshareDisplay {
    /// Color type the display uses.
    type DisplayColor;

    /// A fresh driver that has not yet initialized the panel.
    fn new() -> Self where Self: Sized;

    /// Enter deep sleep to save power; only a wake-up recovers from it.
    fn sleep(&mut self) -> Result<(), DriverError>;

    /// Wake the device by re-running the full init sequence.
    fn wake_up(&mut self) -> Result<(), DriverError>;

    /// Set the background color used by bulk clears.
    fn set_background_color(&mut self, color: Self::DisplayColor);

    /// The current background color.
    fn background_color(&self) -> &Self::DisplayColor;

    /// Display width in pixels.
    fn width(&self) -> u32;

    /// Display height in pixels.
    fn height(&self) -> u32;

    /// Transfer a full frame to the panel's memory.
    fn update_frame(&mut self, buffer: &[u8]) -> Result<(), DriverError>;

    /// Trigger a physical refresh of the frame already transferred.
    fn display_frame(&mut self) -> Result<(), DriverError>;

    /// Transfer a frame and refresh in one composite step.
    fn update_and_display_frame(&mut self, buffer: &[u8]) -> Result<(), DriverError>;

    /// Fill the panel's frame memory with the background color and refresh.
    fn clear_frame(&mut self) -> Result<(), DriverError>;

    /// Select a refresh look-up table; `None` reloads the current one.
    fn set_lut(&mut self, refresh_rate: Option<RefreshLut>) -> Result<(), DriverError>;

    /// Record a suspension until the panel is idle.
    fn wait_until_idle(&mut self) -> Result<(), DriverError>;

    /// Hand the recorded bus operations to the transport, oldest first,
    /// leaving the driver's log empty.
    fn take_ops(&mut self) -> Vec<BusOp>;
}

/// Quick-refresh support for panels that offer it. The panel this crate
/// drives does not; the trait stands for variants that do.
pub trait QuickRefresh {
    /// Transfer the old frame.
    fn update_old_frame(&mut self, buffer: &[u8]) -> Result<(), DriverError>;

    /// Transfer part of the old frame.
    fn update_partial_old_frame(
        &mut self,
        buffer: &[u8],
        x: u32,
        y: u32,
        width: u32,
        height: u32,
    ) -> Result<(), DriverError>;

    /// Clear part of the frame memory.
    fn clear_partial_frame(&mut self, x: u32, y: u32, width: u32, height: u32) -> Result<
        (),
        DriverError,
    >;
}

} // verus!
