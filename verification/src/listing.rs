//! What a device lists when it is asked for its formats, frame sizes and
//! frame intervals, entry by entry, and a device written down as such lists.

use vstd::prelude::*;
use crate::target::{DeviceReport, FrameInterval, FrameSize};

verus! {

/// One entry of a device's list of capture pixel formats.
#[derive(Clone, Copy, Debug, PartialEq, Eq, Structural)]
pub enum FormatEntry {
    /// An encoding, by its four-character code.
    Encoding(u32),
    /// The entry could not be read.
    Unreadable,
}

/// One entry of a device's list of frame sizes for an encoding.
#[derive(Clone, Copy, Debug, PartialEq, Eq, Structural)]
pub enum SizeEntry {
    /// One size.
    Discrete(FrameSize),
    /// A range of sizes, continuous or in steps.
    Ranged,
    /// The entry could not be read.
    Unreadable,
}

/// One entry of a device's list of frame intervals for an encoding and a size.
#[derive(Clone, Copy, Debug, PartialEq, Eq, Structural)]
pub enum IntervalEntry {
    /// One interval.
    Discrete(FrameInterval),
    /// A range of intervals, continuous or in steps.
    Ranged,
    /// The entry could not be read.
    Unreadable,
}

/// A device as plain data: what it reports of itself and what it answers to
/// each question that negotiation asks.
#[derive(Clone, Debug, PartialEq, Eq)]
pub struct DeviceProfile {
    /// Identity and capabilities.
    pub report: DeviceReport,
    /// The capture pixel formats, in the order in which the device lists them.
    pub formats: Vec<FormatEntry>,
    /// The frame sizes that the device lists for the encoding looked for.
    pub sizes: Vec<SizeEntry>,
    /// The frame intervals that the device lists for the encoding and the
    /// size looked for.
    pub intervals: Vec<IntervalEntry>,
    /// Whether the device takes the configuration when it is committed.
    pub accepts_configuration: bool,
}

/// A host as plain data: the devices that it lists, in their order, and how
/// its list ends.
#[derive(Clone, Debug, PartialEq, Eq)]
pub struct Host {
    /// The devices that can be opened and that report, in the order in which
    /// the host lists them.
    pub devices: Vec<DeviceProfile>,
    /// The failure that ends the list after these devices, in words: listing
    /// failed, or the next device could not be opened or did not report.
    /// `None` where the list ends by itself.
    pub fault: Option<String>,
}

} // verus!
