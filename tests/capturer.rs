use std::sync::mpsc;
use std::time::{Duration, Instant};

use sc_cap::engine::{ChannelItem, EngineOutput, Platform, ProcessingError};
use sc_cap::frame::{Frame, FrameType, Options, VideoFrame};
use sc_cap::gpu_capturer::{
    GPUCapturer, GPUCapturerBuildError, GPUFrameError, GPUFrameTryError, PollStep, Received,
};
use sc_cap::{has_permission, portal_supports_capture};
use sc_cap::linux::{panic_message, LinuxProcessingError};
use sc_cap::pixel::PixelLayout;
use sc_cap::timing::WallTime;

fn options(output_type: FrameType) -> Options {
    Options { fps: 60, show_cursor: true, show_highlight: true, captures_audio: false, output_type }
}

fn frame(width: i32, height: i32) -> ChannelItem {
    let n = (width.max(0) * height.max(0)) as usize;
    ChannelItem::Decoded(Frame::Video(VideoFrame {
        layout: PixelLayout::RGBx,
        display_time: WallTime { nanos: 9 },
        width,
        height,
        data: vec![7; n * 4],
    }))
}

#[test]
fn build_refuses_non_bgra_output() {
    for t in [FrameType::YUVFrame, FrameType::BGR0, FrameType::RGB] {
        let r = GPUCapturer::build(&options(t), true, true, Platform::Linux);
        assert_eq!(r.err(), Some(GPUCapturerBuildError::UnsupportedOutputType));
    }
}

#[test]
fn build_checks_support_then_permission() {
    let r = GPUCapturer::build(&options(FrameType::RGB), false, false, Platform::Linux);
    assert_eq!(r.err(), Some(GPUCapturerBuildError::NotSupported));
    let r = GPUCapturer::build(&options(FrameType::BGRAFrame), true, false, Platform::Linux);
    assert_eq!(r.err(), Some(GPUCapturerBuildError::PermissionNotGranted));
}

#[test]
fn build_without_engine_fails() {
    let r = GPUCapturer::build(&options(FrameType::BGRAFrame), true, true, Platform::Other);
    assert_eq!(
        r.err(),
        Some(GPUCapturerBuildError::Engine("GPU capture is not available for this platform".to_string()))
    );
}

#[test]
fn start_and_stop_are_idempotent() {
    let mut c = GPUCapturer::build(&options(FrameType::BGRAFrame), true, true, Platform::Linux).unwrap();
    assert!(c.start_capture());
    assert!(!c.start_capture());
    assert!(c.stop_capture());
    assert!(!c.stop_capture());
    assert_eq!(c.get_output_frame_size(), [0, 0]);
}

#[test]
fn try_get_on_empty_open_channel_returns_none_at_once() {
    let mut c = GPUCapturer::build(&options(FrameType::BGRAFrame), true, true, Platform::Linux).unwrap();
    let (_tx, rx) = mpsc::channel::<ChannelItem>();
    let started = Instant::now();
    let received = match rx.try_recv() {
        Ok(item) => Received::Item(item),
        Err(mpsc::TryRecvError::Empty) => Received::Empty,
        Err(mpsc::TryRecvError::Disconnected) => Received::Disconnected,
    };
    assert!(matches!(c.try_next_frame_step(received), Ok(PollStep::Idle)));
    assert!(started.elapsed() < Duration::from_secs(1));
}

#[test]
fn try_get_on_closed_channel_is_an_error() {
    let mut c = GPUCapturer::build(&options(FrameType::BGRAFrame), true, true, Platform::Linux).unwrap();
    assert_eq!(c.try_next_frame_step(Received::Disconnected).err(), Some(GPUFrameTryError::Channel));
}

#[test]
fn try_get_skips_zero_area_and_delivers_next() {
    let mut c = GPUCapturer::build(&options(FrameType::BGRAFrame), true, true, Platform::Linux).unwrap();
    assert!(matches!(c.try_next_frame_step(Received::Item(frame(0, 3))), Ok(PollStep::Skip)));
    match c.try_next_frame_step(Received::Item(frame(2, 1))) {
        Ok(PollStep::Deliver(EngineOutput::Upload(u))) => {
            assert_eq!(&u.data[0..8], &[7, 7, 7, 255, 7, 7, 7, 255]);
        }
        _ => panic!("expected a frame"),
    }
    assert_eq!(c.get_output_frame_size(), [2, 1]);
}

#[test]
fn blocking_step_reports_closed_channel_and_errors() {
    let mut c = GPUCapturer::build(&options(FrameType::BGRAFrame), true, true, Platform::Linux).unwrap();
    assert_eq!(c.next_frame_step(None).err(), Some(GPUFrameError::Recv));
    let r = c.next_frame_step(Some(frame(-2, 3)));
    assert_eq!(
        r.err(),
        Some(GPUFrameError::Processing(ProcessingError::Linux(LinuxProcessingError::InvalidDimensions)))
    );
    assert!(matches!(c.next_frame_step(Some(frame(1, 0))), Ok(None)));
}

#[test]
fn queued_items_are_processed_in_order_after_stop() {
    let mut c = GPUCapturer::build(&options(FrameType::BGRAFrame), true, true, Platform::Linux).unwrap();
    let (tx, rx) = mpsc::channel::<ChannelItem>();
    c.start_capture();
    tx.send(frame(1, 1)).unwrap();
    tx.send(frame(3, 1)).unwrap();
    c.stop_capture();
    drop(tx);
    let mut widths = Vec::new();
    while let Ok(item) = rx.recv() {
        if let Ok(Some(EngineOutput::Upload(u))) = c.next_frame_step(Some(item)) {
            widths.push(u.width);
        }
    }
    assert_eq!(widths, vec![1, 3]);
}

#[test]
fn permission_is_granted_interactively() {
    assert!(has_permission());
}

#[test]
fn abort_without_message_is_named_unknown() {
    assert_eq!(panic_message(None), "unknown panic");
    assert_eq!(panic_message(Some("portal gone".to_string())), "portal gone");
}

#[test]
fn capture_needs_graphical_session_and_portal_sources() {
    assert!(portal_supports_capture(true, Some(3)));
    assert!(!portal_supports_capture(true, Some(0)));
    assert!(!portal_supports_capture(true, None));
    assert!(!portal_supports_capture(false, Some(1)));
}
