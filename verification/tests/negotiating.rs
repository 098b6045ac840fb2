use camera_pipeline::listing::{DeviceProfile, FormatEntry, Host, IntervalEntry, SizeEntry};
use camera_pipeline::negotiation::{get_camera, Camera, Reply, Request, Stage, StartupError};
use camera_pipeline::target::{
    CaptureConfiguration, DeviceReport, FrameInterval, FrameSize, Target, MJPEG,
};

const YUYV: u32 = 0x5659_5559;
const H264: u32 = 0x3436_3248;
const CAPS: u32 = 0x0420_0001;

fn test_target() -> Target {
    Target {
        card: "TESTCAM".to_string(),
        capabilities: CAPS,
        pixel_format: MJPEG,
        size: FrameSize { width: 320, height: 240 },
        interval: FrameInterval { numerator: 513, denominator: 61612 },
    }
}

fn size(width: u32, height: u32) -> SizeEntry {
    SizeEntry::Discrete(FrameSize { width, height })
}

fn interval(numerator: u32, denominator: u32) -> IntervalEntry {
    IntervalEntry::Discrete(FrameInterval { numerator, denominator })
}

fn test_camera() -> DeviceProfile {
    DeviceProfile {
        report: DeviceReport { card: "TESTCAM".to_string(), capabilities: CAPS },
        formats: vec![FormatEntry::Encoding(MJPEG)],
        sizes: vec![size(320, 240)],
        intervals: vec![interval(513, 61612)],
        accepts_configuration: true,
    }
}

fn other_device(card: &str, capabilities: u32) -> DeviceProfile {
    DeviceProfile { report: DeviceReport { card: card.to_string(), capabilities }, ..test_camera() }
}

fn host(devices: Vec<DeviceProfile>) -> Host {
    Host { devices, fault: None }
}

fn mjpeg_320_240() -> CaptureConfiguration {
    CaptureConfiguration { pixel_format: MJPEG, width: 320, height: 240 }
}

#[test]
fn end_to_end_on_a_described_camera() {
    let res = get_camera(&test_target(), &host(vec![test_camera()]));
    assert_eq!(res, Ok(Camera { index: 0, configuration: mjpeg_320_240() }));
}

#[test]
fn end_to_end_step_by_step() {
    let target = test_target();
    let report = DeviceReport { card: "TESTCAM".to_string(), capabilities: CAPS };
    let mut stage = Stage::Devices;
    assert_eq!(stage.pending(&target), Request::NextDevice);
    stage = stage.advance(&target, Reply::Device(&report));
    assert_eq!(stage, Stage::Formats);
    assert_eq!(stage.pending(&target), Request::NextFormat);
    stage = stage.advance(&target, Reply::Format(FormatEntry::Encoding(MJPEG)));
    assert_eq!(stage, Stage::Sizes);
    assert_eq!(stage.pending(&target), Request::NextSize { pixel_format: MJPEG });
    stage = stage.advance(&target, Reply::Size(size(320, 240)));
    assert_eq!(stage, Stage::Intervals);
    assert_eq!(
        stage.pending(&target),
        Request::NextInterval { pixel_format: MJPEG, size: FrameSize { width: 320, height: 240 } }
    );
    stage = stage.advance(&target, Reply::Interval(interval(513, 61612)));
    assert_eq!(stage, Stage::Commit);
    assert_eq!(stage.pending(&target), Request::Commit(mjpeg_320_240()));
    assert_eq!(stage.clone().outcome(&target), None);
    stage = stage.advance(&target, Reply::Committed);
    assert_eq!(stage, Stage::Ready);
    assert_eq!(stage.pending(&target), Request::Stop);
    assert_eq!(stage.outcome(&target), Some(Ok(mjpeg_320_240())));
}

#[test]
fn device_without_the_identity_is_never_selected() {
    let devices = vec![other_device("OTHERCAM", CAPS), other_device("TESTCAM2", CAPS)];
    assert_eq!(get_camera(&test_target(), &host(devices)), Err(StartupError::CameraNotFound));
}

#[test]
fn device_with_more_capabilities_is_never_selected() {
    let devices = vec![other_device("TESTCAM", CAPS | 0x0100_0000)];
    assert_eq!(get_camera(&test_target(), &host(devices)), Err(StartupError::CameraNotFound));
}

#[test]
fn empty_host_has_no_camera() {
    assert_eq!(get_camera(&test_target(), &host(vec![])), Err(StartupError::CameraNotFound));
}

#[test]
fn camera_is_found_behind_other_devices() {
    let devices = vec![
        other_device("OTHERCAM", CAPS),
        other_device("TESTCAM", CAPS | 0x2),
        test_camera(),
        test_camera(),
    ];
    let res = get_camera(&test_target(), &host(devices));
    assert_eq!(res, Ok(Camera { index: 2, configuration: mjpeg_320_240() }));
}

#[test]
fn negotiation_is_with_the_first_accepted_device_only() {
    let mut first = test_camera();
    first.formats = vec![FormatEntry::Encoding(YUYV)];
    let devices = vec![first, test_camera()];
    assert_eq!(get_camera(&test_target(), &host(devices)), Err(StartupError::FormatNotSupported));
}

#[test]
fn format_is_selected_wherever_it_stands() {
    let a = FormatEntry::Encoding(YUYV);
    let b = FormatEntry::Encoding(MJPEG);
    let c = FormatEntry::Encoding(H264);
    let orders =
        [[a, b, c], [c, b, a], [b, a, c], [b, c, a], [a, c, b], [c, a, b]];
    for order in orders {
        let mut device = test_camera();
        device.formats = order.to_vec();
        let res = get_camera(&test_target(), &host(vec![device]));
        assert_eq!(res, Ok(Camera { index: 0, configuration: mjpeg_320_240() }));
        assert_eq!(res.unwrap().configuration.pixel_format, MJPEG);
    }
}

#[test]
fn format_search_stops_at_the_match() {
    let target = test_target();
    let mut stage = Stage::Formats;
    stage = stage.advance(&target, Reply::Format(FormatEntry::Encoding(YUYV)));
    assert_eq!(stage, Stage::Formats);
    assert_eq!(stage.pending(&target), Request::NextFormat);
    stage = stage.advance(&target, Reply::Format(FormatEntry::Encoding(MJPEG)));
    assert_eq!(stage, Stage::Sizes);
}

#[test]
fn unreadable_format_is_skipped() {
    let mut device = test_camera();
    device.formats = vec![FormatEntry::Unreadable, FormatEntry::Encoding(MJPEG)];
    let res = get_camera(&test_target(), &host(vec![device]));
    assert_eq!(res, Ok(Camera { index: 0, configuration: mjpeg_320_240() }));
}

#[test]
fn missing_format_is_reported() {
    let mut device = test_camera();
    device.formats = vec![FormatEntry::Encoding(YUYV), FormatEntry::Unreadable];
    assert_eq!(get_camera(&test_target(), &host(vec![device])), Err(StartupError::FormatNotSupported));
    let mut device = test_camera();
    device.formats = vec![];
    assert_eq!(get_camera(&test_target(), &host(vec![device])), Err(StartupError::FormatNotSupported));
}

#[test]
fn listed_size_is_found() {
    let mut device = test_camera();
    device.sizes = vec![size(640, 480), size(320, 240)];
    let res = get_camera(&test_target(), &host(vec![device]));
    assert_eq!(res, Ok(Camera { index: 0, configuration: mjpeg_320_240() }));
}

#[test]
fn unlisted_size_is_reported() {
    let mut device = test_camera();
    device.sizes = vec![size(640, 480), size(320, 240)];
    let mut target = test_target();
    target.size = FrameSize { width: 160, height: 120 };
    assert_eq!(get_camera(&target, &host(vec![device])), Err(StartupError::ResolutionNotSupported));
}

#[test]
fn size_must_match_in_both_dimensions() {
    let mut device = test_camera();
    device.sizes = vec![size(320, 200), size(240, 320), size(321, 240)];
    assert_eq!(
        get_camera(&test_target(), &host(vec![device])),
        Err(StartupError::ResolutionNotSupported)
    );
}

#[test]
fn ranged_and_unreadable_sizes_are_skipped() {
    let mut device = test_camera();
    device.sizes = vec![SizeEntry::Ranged, SizeEntry::Unreadable, size(320, 240)];
    let res = get_camera(&test_target(), &host(vec![device]));
    assert_eq!(res, Ok(Camera { index: 0, configuration: mjpeg_320_240() }));
    let mut device = test_camera();
    device.sizes = vec![SizeEntry::Ranged, SizeEntry::Unreadable];
    assert_eq!(
        get_camera(&test_target(), &host(vec![device])),
        Err(StartupError::ResolutionNotSupported)
    );
}

#[test]
fn interval_behind_an_entry_of_another_kind_is_found() {
    let mut device = test_camera();
    device.intervals = vec![IntervalEntry::Ranged, interval(513, 61612)];
    let res = get_camera(&test_target(), &host(vec![device]));
    assert_eq!(res, Ok(Camera { index: 0, configuration: mjpeg_320_240() }));
    let mut device = test_camera();
    device.intervals = vec![IntervalEntry::Unreadable, interval(1, 30), interval(513, 61612)];
    let res = get_camera(&test_target(), &host(vec![device]));
    assert_eq!(res, Ok(Camera { index: 0, configuration: mjpeg_320_240() }));
}

#[test]
fn entry_of_another_kind_keeps_the_interval_search_going() {
    let target = test_target();
    let stage = Stage::Intervals.advance(&target, Reply::Interval(IntervalEntry::Ranged));
    assert_eq!(stage, Stage::Intervals);
    let stage = stage.advance(&target, Reply::Interval(IntervalEntry::Unreadable));
    assert_eq!(stage, Stage::Intervals);
    assert_eq!(
        stage.pending(&target),
        Request::NextInterval { pixel_format: MJPEG, size: FrameSize { width: 320, height: 240 } }
    );
    let stage = stage.advance(&target, Reply::Interval(interval(513, 61612)));
    assert_eq!(stage, Stage::Commit);
}

#[test]
fn interval_is_compared_as_written_not_as_a_rate() {
    let mut device = test_camera();
    device.intervals = vec![interval(1026, 123224), interval(61612, 513)];
    assert_eq!(
        get_camera(&test_target(), &host(vec![device])),
        Err(StartupError::IntervalNotSupported)
    );
}

#[test]
fn missing_interval_is_reported() {
    let mut device = test_camera();
    device.intervals = vec![];
    assert_eq!(
        get_camera(&test_target(), &host(vec![device])),
        Err(StartupError::IntervalNotSupported)
    );
}

#[test]
fn refused_configuration_is_reported() {
    let mut device = test_camera();
    device.accepts_configuration = false;
    assert_eq!(
        get_camera(&test_target(), &host(vec![device])),
        Err(StartupError::CannotSetPixelFormat)
    );
    let stage = Stage::Commit.advance(&test_target(), Reply::Rejected);
    assert_eq!(stage, Stage::Failed(StartupError::CannotSetPixelFormat));
}

#[test]
fn earlier_stage_fails_first() {
    let mut device = test_camera();
    device.formats = vec![];
    device.sizes = vec![];
    device.intervals = vec![];
    device.accepts_configuration = false;
    assert_eq!(get_camera(&test_target(), &host(vec![device])), Err(StartupError::FormatNotSupported));
    let mut device = test_camera();
    device.sizes = vec![];
    device.intervals = vec![];
    assert_eq!(
        get_camera(&test_target(), &host(vec![device])),
        Err(StartupError::ResolutionNotSupported)
    );
}

#[test]
fn fault_while_looking_for_devices_ends_startup() {
    let target = test_target();
    let stage = Stage::Devices.advance(&target, Reply::Fault("permission denied".to_string()));
    assert_eq!(stage, Stage::Failed(StartupError::Enumeration("permission denied".to_string())));
    assert_eq!(stage.pending(&target), Request::Stop);
    assert_eq!(
        stage.outcome(&target),
        Some(Err(StartupError::Enumeration("permission denied".to_string())))
    );
}

#[test]
fn end_of_each_list_fails_its_stage() {
    let target = test_target();
    assert_eq!(
        Stage::Devices.advance(&target, Reply::End),
        Stage::Failed(StartupError::CameraNotFound)
    );
    assert_eq!(
        Stage::Formats.advance(&target, Reply::End),
        Stage::Failed(StartupError::FormatNotSupported)
    );
    assert_eq!(
        Stage::Sizes.advance(&target, Reply::End),
        Stage::Failed(StartupError::ResolutionNotSupported)
    );
    assert_eq!(
        Stage::Intervals.advance(&target, Reply::End),
        Stage::Failed(StartupError::IntervalNotSupported)
    );
}

#[test]
fn reply_that_does_not_answer_the_request_changes_nothing() {
    let target = test_target();
    assert_eq!(Stage::Devices.advance(&target, Reply::Committed), Stage::Devices);
    assert_eq!(
        Stage::Formats.advance(&target, Reply::Size(size(320, 240))),
        Stage::Formats
    );
    assert_eq!(Stage::Sizes.advance(&target, Reply::Interval(interval(513, 61612))), Stage::Sizes);
    assert_eq!(Stage::Commit.advance(&target, Reply::End), Stage::Commit);
    assert_eq!(Stage::Formats.advance(&target, Reply::Fault("gone".to_string())), Stage::Formats);
}

#[test]
fn ended_startup_stays_ended() {
    let target = test_target();
    assert_eq!(Stage::Ready.advance(&target, Reply::Rejected), Stage::Ready);
    assert_eq!(Stage::Ready.advance(&target, Reply::End), Stage::Ready);
    let failed = Stage::Failed(StartupError::CameraNotFound);
    assert_eq!(failed.clone().advance(&target, Reply::Committed), failed);
    assert_eq!(Stage::Devices.outcome(&target), None);
}

#[test]
fn startup_errors_name_the_stage() {
    assert_eq!(StartupError::CameraNotFound.message(), "camera not found");
    assert_eq!(StartupError::FormatNotSupported.message(), "format not supported");
    assert_eq!(StartupError::ResolutionNotSupported.message(), "resolution not supported");
    assert_eq!(StartupError::IntervalNotSupported.message(), "interval not supported");
    assert_eq!(StartupError::CannotSetPixelFormat.message(), "cannot set pixel format");
    assert_eq!(StartupError::Enumeration("no such directory".to_string()).message(), "no such directory");
}

#[test]
fn failing_host_without_the_camera_ends_startup() {
    let failing = Host {
        devices: vec![other_device("OTHERCAM", CAPS)],
        fault: Some("permission denied".to_string()),
    };
    assert_eq!(
        get_camera(&test_target(), &failing),
        Err(StartupError::Enumeration("permission denied".to_string()))
    );
    let failing = Host { devices: vec![], fault: Some("no such directory".to_string()) };
    assert_eq!(
        get_camera(&test_target(), &failing),
        Err(StartupError::Enumeration("no such directory".to_string()))
    );
}

#[test]
fn failure_behind_the_camera_is_not_met() {
    let failing = Host {
        devices: vec![other_device("OTHERCAM", CAPS), test_camera()],
        fault: Some("permission denied".to_string()),
    };
    let res = get_camera(&test_target(), &failing);
    assert_eq!(res, Ok(Camera { index: 1, configuration: mjpeg_320_240() }));
}
