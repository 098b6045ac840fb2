//! Startup: finding the camera among the host's devices, then three
//! exact-match searches (encoding, frame size, frame interval) and the
//! commit of the configuration.
//!
//! The searches never settle for a near match, so that every later step can
//! rely on one encoding and one frame size.

use vstd::prelude::*;
use vstd::pervasive::unreached;
use crate::listing::{DeviceProfile, FormatEntry, Host, IntervalEntry, SizeEntry};
use crate::target::{CaptureConfiguration, DeviceReport, FrameSize, Target};

verus! {

/// Why startup ended without a configured camera.
#[derive(Clone, Debug, PartialEq, Eq)]
pub enum StartupError {
    /// Looking through the host's devices failed; the cause is in words.
    Enumeration(String),
    /// No device reports the target's identity and capabilities.
    CameraNotFound,
    /// The camera does not list the encoding.
    FormatNotSupported,
    /// The camera does not list the frame size for the encoding.
    ResolutionNotSupported,
    /// The camera does not list the frame interval for encoding and size.
    IntervalNotSupported,
    /// The camera did not take the configuration.
    CannotSetPixelFormat,
}

impl StartupError {
    /// The failure in words: the stage that failed, or the cause that the
    /// host gave.
    pub open spec fn message_spec(self) -> Seq<char> {
        match self {
            StartupError::Enumeration(cause) => cause@,
            StartupError::CameraNotFound => "camera not found"@,
            StartupError::FormatNotSupported => "format not supported"@,
            StartupError::ResolutionNotSupported => "resolution not supported"@,
            StartupError::IntervalNotSupported => "interval not supported"@,
            StartupError::CannotSetPixelFormat => "cannot set pixel format"@,
        }
    }

    /// The failure in words.
    pub fn message(&self) -> (text: String)
        ensures
            text@ == self.message_spec(),
    {
        match self {
            StartupError::Enumeration(cause) => cause.clone(),
            StartupError::CameraNotFound => String::from_str("camera not found"),
            StartupError::FormatNotSupported => String::from_str("format not supported"),
            StartupError::ResolutionNotSupported => String::from_str("resolution not supported"),
            StartupError::IntervalNotSupported => String::from_str("interval not supported"),
            StartupError::CannotSetPixelFormat => String::from_str("cannot set pixel format"),
        }
    }
}

/// Where startup stands.
#[derive(Clone, Debug, PartialEq, Eq)]
pub enum Stage {
    /// Looking for the camera among the host's devices.
    Devices,
    /// Looking for the encoding among the camera's formats.
    Formats,
    /// Looking for the frame size among the sizes of the encoding.
    Sizes,
    /// Looking for the frame interval among the intervals of encoding and size.
    Intervals,
    /// Waiting for the camera to take the configuration.
    Commit,
    /// The camera is configured.
    Ready,
    /// Startup has failed.
    Failed(StartupError),
}

/// What the host has to be asked next.
#[derive(Clone, Copy, Debug, PartialEq, Eq, Structural)]
pub enum Request {
    /// Open the next device and read its report.
    NextDevice,
    /// Read the camera's next capture pixel format.
    NextFormat,
    /// Read the camera's next frame size for the encoding.
    NextSize { pixel_format: u32 },
    /// Read the camera's next frame interval for the encoding and the size.
    NextInterval { pixel_format: u32, size: FrameSize },
    /// Read the camera's current capture format, set encoding, width and
    /// height in it and hand it back to the camera.
    Commit(CaptureConfiguration),
    /// Nothing: startup has ended.
    Stop,
}

/// What the host answered.
#[derive(Clone, Debug, PartialEq, Eq)]
pub enum Reply<'a> {
    /// A device was opened and reported this.
    Device(&'a DeviceReport),
    /// The next entry of the format list.
    Format(FormatEntry),
    /// The next entry of the size list.
    Size(SizeEntry),
    /// The next entry of the interval list.
    Interval(IntervalEntry),
    /// The list that was asked into has no further entry.
    End,
    /// Listing the devices, opening one or reading its report failed.
    Fault(String),
    /// The camera took the configuration.
    Committed,
    /// The camera's current format could not be read or changed, or the
    /// camera refused the changed one.
    Rejected,
}

impl Stage {
    /// The stage after `reply`. A reply that does not answer the pending
    /// request changes nothing: the request stays pending.
    pub open spec fn advanced(self, target: Target, reply: Reply) -> Stage {
        match (self, reply) {
            (Stage::Devices, Reply::Device(device)) => if target.accepts_spec(*device) {
                Stage::Formats
            } else {
                Stage::Devices
            },
            (Stage::Devices, Reply::End) => Stage::Failed(StartupError::CameraNotFound),
            (Stage::Devices, Reply::Fault(cause)) => Stage::Failed(StartupError::Enumeration(cause)),
            (Stage::Formats, Reply::Format(entry)) => if entry == FormatEntry::Encoding(
                target.pixel_format,
            ) {
                Stage::Sizes
            } else {
                Stage::Formats
            },
            (Stage::Formats, Reply::End) => Stage::Failed(StartupError::FormatNotSupported),
            (Stage::Sizes, Reply::Size(entry)) => if entry == SizeEntry::Discrete(target.size) {
                Stage::Intervals
            } else {
                Stage::Sizes
            },
            (Stage::Sizes, Reply::End) => Stage::Failed(StartupError::ResolutionNotSupported),
            (Stage::Intervals, Reply::Interval(entry)) => if entry == IntervalEntry::Discrete(
                target.interval,
            ) {
                Stage::Commit
            } else {
                Stage::Intervals
            },
            (Stage::Intervals, Reply::End) => Stage::Failed(StartupError::IntervalNotSupported),
            (Stage::Commit, Reply::Committed) => Stage::Ready,
            (Stage::Commit, Reply::Rejected) => Stage::Failed(StartupError::CannotSetPixelFormat),
            (stage, _) => stage,
        }
    }

    /// How far startup has come: the four searches in their order, then the
    /// commit, then the end.
    pub open spec fn progress(self) -> nat {
        match self {
            Stage::Devices => 0,
            Stage::Formats => 1,
            Stage::Sizes => 2,
            Stage::Intervals => 3,
            Stage::Commit => 4,
            Stage::Ready => 5,
            Stage::Failed(_) => 5,
        }
    }

    /// The request that is pending in this stage.
    pub open spec fn pending_spec(self, target: Target) -> Request {
        match self {
            Stage::Devices => Request::NextDevice,
            Stage::Formats => Request::NextFormat,
            Stage::Sizes => Request::NextSize { pixel_format: target.pixel_format },
            Stage::Intervals => Request::NextInterval {
                pixel_format: target.pixel_format,
                size: target.size,
            },
            Stage::Commit => Request::Commit(target.configuration_spec()),
            Stage::Ready => Request::Stop,
            Stage::Failed(_) => Request::Stop,
        }
    }

    /// How startup ended, if it has.
    pub open spec fn outcome_spec(self, target: Target) -> Option<
        Result<CaptureConfiguration, StartupError>,
    > {
        match self {
            Stage::Ready => Some(Ok(target.configuration_spec())),
            Stage::Failed(error) => Some(Err(error)),
            _ => None,
        }
    }

    /// Takes the host's answer to the pending request.
    pub fn advance(self, target: &Target, reply: Reply) -> (next: Stage)
        ensures
            next == self.advanced(*target, reply),
    {
        match self {
            Stage::Devices => match reply {
                Reply::Device(device) => if target.accepts(device) {
                    Stage::Formats
                } else {
                    Stage::Devices
                },
                Reply::End => Stage::Failed(StartupError::CameraNotFound),
                Reply::Fault(cause) => Stage::Failed(StartupError::Enumeration(cause)),
                _ => Stage::Devices,
            },
            Stage::Formats => match reply {
                Reply::Format(FormatEntry::Encoding(code)) => if code == target.pixel_format {
                    Stage::Sizes
                } else {
                    Stage::Formats
                },
                Reply::End => Stage::Failed(StartupError::FormatNotSupported),
                _ => Stage::Formats,
            },
            Stage::Sizes => match reply {
                Reply::Size(SizeEntry::Discrete(size)) => if size == target.size {
                    Stage::Intervals
                } else {
                    Stage::Sizes
                },
                Reply::End => Stage::Failed(StartupError::ResolutionNotSupported),
                _ => Stage::Sizes,
            },
            Stage::Intervals => match reply {
                Reply::Interval(IntervalEntry::Discrete(interval)) => if interval
                    == target.interval {
                    Stage::Commit
                } else {
                    Stage::Intervals
                },
                Reply::End => Stage::Failed(StartupError::IntervalNotSupported),
                _ => Stage::Intervals,
            },
            Stage::Commit => match reply {
                Reply::Committed => Stage::Ready,
                Reply::Rejected => Stage::Failed(StartupError::CannotSetPixelFormat),
                _ => Stage::Commit,
            },
            Stage::Ready => Stage::Ready,
            Stage::Failed(error) => Stage::Failed(error),
        }
    }

    /// What to ask of the host now.
    pub fn pending(&self, target: &Target) -> (request: Request)
        ensures
            request == self.pending_spec(*target),
    {
        match self {
            Stage::Devices => Request::NextDevice,
            Stage::Formats => Request::NextFormat,
            Stage::Sizes => Request::NextSize { pixel_format: target.pixel_format },
            Stage::Intervals => Request::NextInterval {
                pixel_format: target.pixel_format,
                size: target.size,
            },
            Stage::Commit => Request::Commit(target.configuration()),
            Stage::Ready => Request::Stop,
            Stage::Failed(_) => Request::Stop,
        }
    }

    /// The configured camera's configuration or the reason of the failure,
    /// once startup has ended; `None` before.
    pub fn outcome(self, target: &Target) -> (outcome: Option<
        Result<CaptureConfiguration, StartupError>,
    >)
        ensures
            outcome == self.outcome_spec(*target),
    {
        match self {
            Stage::Ready => Some(Ok(target.configuration())),
            Stage::Failed(error) => Some(Err(error)),
            _ => None,
        }
    }
}

/// The camera that startup found: its place among the host's devices and the
/// configuration committed to it.
#[derive(Clone, Copy, Debug, PartialEq, Eq, Structural)]
pub struct Camera {
    pub index: usize,
    pub configuration: CaptureConfiguration,
}

/// What negotiation with `device` ends in: each search succeeds if and only
/// if the list holds the exact value looked for, at whatever place and among
/// whatever other entries.
pub open spec fn negotiated(target: Target, device: DeviceProfile) -> Result<
    CaptureConfiguration,
    StartupError,
> {
    if !device.formats@.contains(FormatEntry::Encoding(target.pixel_format)) {
        Err(StartupError::FormatNotSupported)
    } else if !device.sizes@.contains(SizeEntry::Discrete(target.size)) {
        Err(StartupError::ResolutionNotSupported)
    } else if !device.intervals@.contains(IntervalEntry::Discrete(target.interval)) {
        Err(StartupError::IntervalNotSupported)
    } else if !device.accepts_configuration {
        Err(StartupError::CannotSetPixelFormat)
    } else {
        Ok(target.configuration_spec())
    }
}

/// `index` is the place of the first device of `host` that the target accepts.
pub open spec fn is_first_accepted(target: Target, host: Seq<DeviceProfile>, index: int) -> bool {
    &&& 0 <= index < host.len()
    &&& target.accepts_spec(host[index].report)
    &&& forall|j: int| 0 <= j < index ==> !target.accepts_spec(#[trigger] host[j].report)
}

/// What startup on `host` ends in: the first accepted device is the camera,
/// and negotiation is with that device alone. Where no device is accepted,
/// startup fails with the host's failure, if its list ends in one.
pub open spec fn camera_of(target: Target, host: Host) -> Result<Camera, StartupError> {
    if exists|i: int| is_first_accepted(target, host.devices@, i) {
        let index = choose|i: int| is_first_accepted(target, host.devices@, i);
        match negotiated(target, host.devices@[index]) {
            Ok(configuration) => Ok(Camera { index: index as usize, configuration }),
            Err(error) => Err(error),
        }
    } else {
        match host.fault {
            Some(cause) => Err(StartupError::Enumeration(cause)),
            None => Err(StartupError::CameraNotFound),
        }
    }
}

/// The result of a startup that has ended at `stage` with the camera at `index`.
fn conclude(stage: Stage, target: &Target, index: usize) -> (res: Result<Camera, StartupError>)
    requires
        stage.outcome_spec(*target) is Some,
    ensures
        res == match stage.outcome_spec(*target).unwrap() {
            Ok(configuration) => Ok::<Camera, StartupError>(Camera { index, configuration }),
            Err(error) => Err(error),
        },
{
    match stage.outcome(target) {
        Some(Ok(configuration)) => Ok(Camera { index, configuration }),
        Some(Err(error)) => Err(error),
        None => unreached(),
    }
}

/// Startup against a host given as plain data: finds the camera among its
/// devices, walks the camera's lists and commits the configuration, by the
/// same steps as against a live host.
pub fn get_camera(target: &Target, host: &Host) -> (res: Result<Camera, StartupError>)
    ensures
        res == camera_of(*target, *host),
{
    let devices = &host.devices;
    let mut stage = Stage::Devices;
    let mut index: usize = 0;
    let mut searching = true;
    while searching && index < devices.len()
        invariant
            index <= devices.len(),
            searching ==> stage == Stage::Devices,
            searching ==> forall|j: int|
                0 <= j < index ==> !target.accepts_spec(#[trigger] devices@[j].report),
            !searching ==> stage == Stage::Formats && is_first_accepted(
                *target,
                devices@,
                index as int,
            ),
        decreases devices.len() - index + (if searching { 1int } else { 0int }),
    {
        stage = stage.advance(target, Reply::Device(&devices[index].report));
        if stage.pending(target) == Request::NextDevice {
            index += 1;
        } else {
            searching = false;
        }
    }
    if searching {
        let reply = match &host.fault {
            Some(cause) => Reply::Fault(cause.clone()),
            None => Reply::End,
        };
        stage = stage.advance(target, reply);
        return conclude(stage, target, index);
    }
    assert(camera_of(*target, *host) == match negotiated(*target, devices@[index as int]) {
        Ok(configuration) => Ok::<Camera, StartupError>(Camera { index, configuration }),
        Err(error) => Err(error),
    });
    let device = &devices[index];

    let mut position: usize = 0;
    searching = true;
    while searching && position < device.formats.len()
        invariant
            position <= device.formats.len(),
            searching ==> stage == Stage::Formats,
            searching ==> forall|j: int|
                0 <= j < position ==> device.formats@[j] != FormatEntry::Encoding(
                    target.pixel_format,
                ),
            !searching ==> stage == Stage::Sizes && device.formats@.contains(
                FormatEntry::Encoding(target.pixel_format),
            ),
        decreases device.formats.len() - position + (if searching { 1int } else { 0int }),
    {
        stage = stage.advance(target, Reply::Format(device.formats[position]));
        if stage.pending(target) == Request::NextFormat {
            position += 1;
        } else {
            searching = false;
        }
    }
    if searching {
        stage = stage.advance(target, Reply::End);
        return conclude(stage, target, index);
    }

    position = 0;
    searching = true;
    while searching && position < device.sizes.len()
        invariant
            position <= device.sizes.len(),
            searching ==> stage == Stage::Sizes,
            searching ==> forall|j: int|
                0 <= j < position ==> device.sizes@[j] != SizeEntry::Discrete(target.size),
            !searching ==> stage == Stage::Intervals && device.sizes@.contains(
                SizeEntry::Discrete(target.size),
            ),
        decreases device.sizes.len() - position + (if searching { 1int } else { 0int }),
    {
        stage = stage.advance(target, Reply::Size(device.sizes[position]));
        if stage.pending(target) == (Request::NextSize { pixel_format: target.pixel_format }) {
            position += 1;
        } else {
            searching = false;
        }
    }
    if searching {
        stage = stage.advance(target, Reply::End);
        return conclude(stage, target, index);
    }

    position = 0;
    searching = true;
    while searching && position < device.intervals.len()
        invariant
            position <= device.intervals.len(),
            searching ==> stage == Stage::Intervals,
            searching ==> forall|j: int|
                0 <= j < position ==> device.intervals@[j] != IntervalEntry::Discrete(
                    target.interval,
                ),
            !searching ==> stage == Stage::Commit && device.intervals@.contains(
                IntervalEntry::Discrete(target.interval),
            ),
        decreases device.intervals.len() - position + (if searching { 1int } else { 0int }),
    {
        stage = stage.advance(target, Reply::Interval(device.intervals[position]));
        if stage.pending(target) == Request::Commit(target.configuration()) {
            searching = false;
        } else {
            position += 1;
        }
    }
    if searching {
        stage = stage.advance(target, Reply::End);
        return conclude(stage, target, index);
    }

    let reply = if device.accepts_configuration {
        Reply::Committed
    } else {
        Reply::Rejected
    };
    stage = stage.advance(target, reply);
    conclude(stage, target, index)
}

/// The camera that startup selects is a device that the target accepts: it
/// reports the target's identity and exactly the target's capabilities. No
/// device before it does.
pub proof fn lemma_camera_is_accepted(target: Target, host: Host)
    ensures
        camera_of(target, host) matches Ok(camera) ==> {
            &&& is_first_accepted(target, host.devices@, camera.index as int)
            &&& host.devices@[camera.index as int].report.card@ == target.card@
            &&& host.devices@[camera.index as int].report.capabilities == target.capabilities
            &&& camera.configuration == target.configuration_spec()
        },
{
    if exists|i: int| is_first_accepted(target, host.devices@, i) {
        let index = choose|i: int| is_first_accepted(target, host.devices@, i);
        assert(is_first_accepted(target, host.devices@, index));
        assert(index < host.devices.len());
    }
}

/// A failure of the host ends startup only where no device before it is
/// accepted: it comes out as it came in, and a camera that stands before it
/// is found as if the list had ended by itself.
pub proof fn lemma_fault_behind_the_camera_is_not_met(target: Target, host: Host, ended: Host)
    requires
        ended.devices@ == host.devices@,
        ended.fault is None,
    ensures
        camera_of(target, ended) != Err::<Camera, StartupError>(StartupError::CameraNotFound)
            ==> camera_of(target, host) == camera_of(target, ended),
        camera_of(target, ended) == Err::<Camera, StartupError>(StartupError::CameraNotFound)
            ==> camera_of(target, host) == match host.fault {
            Some(cause) => Err::<Camera, StartupError>(StartupError::Enumeration(cause)),
            None => Err(StartupError::CameraNotFound),
        },
{
}

/// Startup takes its stages in order. An answer leaves the stage as it is,
/// moves startup to the stage that follows, or fails it; a startup that has
/// ended stays as it ended.
pub proof fn lemma_stages_in_order(target: Target, stage: Stage, reply: Reply)
    ensures
        ({
            let next = stage.advanced(target, reply);
            ||| next == stage
            ||| !(next is Failed) && next.progress() == stage.progress() + 1
            ||| next is Failed && stage.progress() < 5
        }),
        stage.pending_spec(target) == Request::Stop ==> stage.advanced(target, reply) == stage,
{
}

/// A format list that holds the encoding looked for, at whatever place,
/// yields it: the format search does not fail on such a device, and a
/// configuration that results has the target's encoding.
pub proof fn lemma_format_is_found_anywhere(target: Target, device: DeviceProfile, place: int)
    requires
        0 <= place < device.formats@.len(),
        device.formats@[place] == FormatEntry::Encoding(target.pixel_format),
    ensures
        negotiated(target, device) != Err::<CaptureConfiguration, StartupError>(
            StartupError::FormatNotSupported,
        ),
        negotiated(target, device) matches Ok(configuration) ==> configuration.pixel_format
            == target.pixel_format,
{
}

/// Two lists with the same entries, each as often in one as in the other,
/// hold the same entries.
proof fn lemma_same_entries_are_held<T>(a: Seq<T>, b: Seq<T>, entry: T)
    requires
        a.to_multiset() == b.to_multiset(),
    ensures
        a.contains(entry) == b.contains(entry),
{
    a.to_multiset_ensures();
    b.to_multiset_ensures();
    assert(a.contains(entry) <==> a.to_multiset().count(entry) > 0);
    assert(b.contains(entry) <==> b.to_multiset().count(entry) > 0);
}

/// The order in which a device lists its formats, sizes and intervals does
/// not matter: the encoding, the size and the interval are found wherever
/// they stand among the other entries.
pub proof fn lemma_order_is_irrelevant(target: Target, a: DeviceProfile, b: DeviceProfile)
    requires
        a.formats@.to_multiset() == b.formats@.to_multiset(),
        a.sizes@.to_multiset() == b.sizes@.to_multiset(),
        a.intervals@.to_multiset() == b.intervals@.to_multiset(),
        a.accepts_configuration == b.accepts_configuration,
    ensures
        negotiated(target, a) == negotiated(target, b),
{
    lemma_same_entries_are_held(a.formats@, b.formats@, FormatEntry::Encoding(target.pixel_format));
    lemma_same_entries_are_held(a.sizes@, b.sizes@, SizeEntry::Discrete(target.size));
    lemma_same_entries_are_held(
        a.intervals@,
        b.intervals@,
        IntervalEntry::Discrete(target.interval),
    );
}

/// An interval entry that is not the interval looked for (a range, an entry
/// that could not be read, another interval) neither ends the search nor
/// fails it: the next entry is asked for.
pub proof fn lemma_other_interval_is_skipped(target: Target, entry: IntervalEntry)
    requires
        entry != IntervalEntry::Discrete(target.interval),
    ensures
        Stage::Intervals.advanced(target, Reply::Interval(entry)) == Stage::Intervals,
        Stage::Intervals.pending_spec(target) == (Request::NextInterval {
            pixel_format: target.pixel_format,
            size: target.size,
        }),
{
}

/// A list that holds the interval looked for after any entries of other
/// kinds, and before any others, yields it: the interval search does not
/// fail on such a device.
pub proof fn lemma_interval_is_found_behind_others(
    target: Target,
    device: DeviceProfile,
    before: Seq<IntervalEntry>,
    after: Seq<IntervalEntry>,
)
    requires
        device.intervals@ == before + seq![IntervalEntry::Discrete(target.interval)] + after,
    ensures
        device.intervals@.contains(IntervalEntry::Discrete(target.interval)),
        negotiated(target, device) != Err::<CaptureConfiguration, StartupError>(
            StartupError::IntervalNotSupported,
        ),
{
    assert(device.intervals@[before.len() as int] == IntervalEntry::Discrete(target.interval));
}

} // verus!
