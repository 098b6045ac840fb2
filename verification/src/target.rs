//! The fixed configuration that discovery and negotiation match against.

use vstd::prelude::*;
use crate::bindings::{capability_bits, mjpeg_code};

verus! {

/// Identity string of the camera this preview is built for.
pub const CAMERA_CARD: &'static str = "USB 2.0 Camera: HD USB Camera";

/// Four-character code of motion-JPEG: the characters `M`, `J`, `P`, `G`,
/// the first in the lowest byte.
pub const MJPEG: u32 = 0x4750_4A4D;

/// Number of hardware buffers of a capture stream.
pub const BUFFER_COUNT: usize = 4;

/// A driver feature that the camera has to report.
#[derive(Clone, Copy, Debug, PartialEq, Eq, Structural)]
pub enum Capability {
    /// The device captures video.
    VideoCapture,
    /// The device understands the extended pixel-format fields.
    ExtPixFormat,
    /// The device streams through queued buffers.
    Streaming,
}

impl Capability {
    /// The bit that stands for this capability in a capability set.
    pub open spec fn mask(self) -> u32 {
        match self {
            Capability::VideoCapture => 0x0000_0001,
            Capability::ExtPixFormat => 0x0020_0000,
            Capability::Streaming => 0x0400_0000,
        }
    }
}

/// The capability set that holds exactly the three capabilities.
pub open spec fn required_capabilities() -> u32 {
    Capability::VideoCapture.mask() | Capability::ExtPixFormat.mask() | Capability::Streaming.mask()
}

/// A frame size in pixels.
#[derive(Clone, Copy, Debug, PartialEq, Eq, Structural)]
pub struct FrameSize {
    pub width: u32,
    pub height: u32,
}

impl FrameSize {
    /// Number of bytes of one frame of this size at four 8-bit channels per pixel.
    pub open spec fn rgba_len(self) -> nat {
        (4 * (self.width * self.height)) as nat
    }
}

/// The time between two frames, in seconds, as a fraction. Two intervals are
/// the same only if numerator and denominator are: 1/30 is not 2/60.
#[derive(Clone, Copy, Debug, PartialEq, Eq, Structural)]
pub struct FrameInterval {
    pub numerator: u32,
    pub denominator: u32,
}

/// What is committed to the device once negotiation has succeeded.
#[derive(Clone, Copy, Debug, PartialEq, Eq, Structural)]
pub struct CaptureConfiguration {
    pub pixel_format: u32,
    pub width: u32,
    pub height: u32,
}

impl CaptureConfiguration {
    /// The frame size of the configuration.
    pub open spec fn size(self) -> FrameSize {
        FrameSize { width: self.width, height: self.height }
    }
}

/// What a device says of itself when it is opened.
#[derive(Clone, Debug, PartialEq, Eq)]
pub struct DeviceReport {
    /// The identity string of the device.
    pub card: String,
    /// The capability set of the device, one bit per feature.
    pub capabilities: u32,
}

/// The one device and the one configuration that startup looks for.
#[derive(Clone, Debug, PartialEq, Eq)]
pub struct Target {
    /// Identity string that the device has to report, character for character.
    pub card: String,
    /// Capability set that the device has to report, bit for bit.
    pub capabilities: u32,
    /// Four-character code of the encoding.
    pub pixel_format: u32,
    /// Frame size.
    pub size: FrameSize,
    /// Frame interval.
    pub interval: FrameInterval,
}

impl Target {
    /// Whether a device with this report is the one looked for: its identity
    /// is the target's and its capability set is the target's, no bit more
    /// and no bit less.
    pub open spec fn accepts_spec(self, device: DeviceReport) -> bool {
        device.card@ == self.card@ && device.capabilities == self.capabilities
    }

    /// The configuration that negotiation commits when every search succeeds.
    pub open spec fn configuration_spec(self) -> CaptureConfiguration {
        CaptureConfiguration {
            pixel_format: self.pixel_format,
            width: self.size.width,
            height: self.size.height,
        }
    }

    /// The camera this preview is built for: motion-JPEG at 320x240, one
    /// frame every 513/61612 s.
    pub fn usb_camera() -> (target: Target)
        ensures
            target.card@ == CAMERA_CARD@,
            target.capabilities == required_capabilities(),
            target.capabilities == 0x0420_0001,
            target.pixel_format == MJPEG,
            target.size == (FrameSize { width: 320, height: 240 }),
            target.interval == (FrameInterval { numerator: 513, denominator: 61612 }),
    {
        let capture: u32 = capability_bits(Capability::VideoCapture);
        let extended: u32 = capability_bits(Capability::ExtPixFormat);
        let streaming: u32 = capability_bits(Capability::Streaming);
        assert(0x0000_0001u32 | 0x0020_0000u32 | 0x0400_0000u32 == 0x0420_0001u32) by (bit_vector);
        Target {
            card: CAMERA_CARD.to_owned(),
            capabilities: capture | extended | streaming,
            pixel_format: mjpeg_code(),
            size: FrameSize { width: 320, height: 240 },
            interval: FrameInterval { numerator: 513, denominator: 61612 },
        }
    }

    /// Whether a device with this report is the one looked for.
    pub fn accepts(&self, device: &DeviceReport) -> (accepted: bool)
        ensures
            accepted == self.accepts_spec(*device),
    {
        device.card == self.card && device.capabilities == self.capabilities
    }

    /// The configuration that negotiation commits when every search succeeds.
    pub fn configuration(&self) -> (configuration: CaptureConfiguration)
        ensures
            configuration == self.configuration_spec(),
    {
        CaptureConfiguration {
            pixel_format: self.pixel_format,
            width: self.size.width,
            height: self.size.height,
        }
    }
}

/// A device that does not report the target's identity is never accepted,
/// whatever capabilities it reports.
pub proof fn lemma_identity_is_required(target: Target, device: DeviceReport)
    requires
        device.card@ != target.card@,
    ensures
        !target.accepts_spec(device),
{
}

/// A device that reports every capability of the target and at least one
/// more is not accepted: the capability sets have to be equal.
pub proof fn lemma_superset_is_rejected(target: Target, device: DeviceReport)
    requires
        device.capabilities & target.capabilities == target.capabilities,
        device.capabilities != target.capabilities,
    ensures
        !target.accepts_spec(device),
{
}

} // verus!
