use magick_wand_rs::errors::{Error, ErrorDescriptor};
use magick_wand_rs::frames::Frame;
use magick_wand_rs::lifecycle::{Phase, Pipeline};

fn frame(width: u32, height: u32) -> Frame {
    Frame { width, height }
}

/// A valid single-frame input written to a plain output path: exit 0 and
/// exactly one frame at 106x80.
#[test]
fn scenario_single_frame_success() {
    let mut p = Pipeline::new(b"photo.jpg".to_vec(), b"out.jpg".to_vec());
    p.library_started();
    p.handle_created();
    assert!(p.begin_read());
    p.read_succeeded(vec![frame(400, 300)]);
    p.resize_frames();
    assert!(p.begin_write());
    p.write_succeeded();
    p.destroy_handle();
    p.shutdown_library();
    assert_eq!(p.exit_code(), 0);
    assert_eq!(p.frames.len(), 1);
    assert_eq!(p.frames[0], frame(106, 80));
}

/// An animated five-frame input: exit 0, exactly five frames, each 106x80,
/// in the same relative order as loaded.
#[test]
fn scenario_five_frames_preserved() {
    let loaded = vec![
        frame(320, 240),
        frame(321, 241),
        frame(322, 242),
        frame(323, 243),
        frame(324, 244),
    ];
    let mut p = Pipeline::new(b"anim.gif".to_vec(), b"thumb.gif".to_vec());
    p.library_started();
    p.handle_created();
    assert!(p.begin_read());
    p.read_succeeded(loaded.clone());
    p.resize_frames();
    assert!(p.begin_write());
    p.write_succeeded();
    p.destroy_handle();
    p.shutdown_library();
    assert_eq!(p.exit_code(), 0);
    assert_eq!(p.frames.len(), loaded.len());
    for f in &p.frames {
        assert_eq!(*f, frame(106, 80));
    }
}

/// An input path with an embedded null byte: rejected before any native
/// call, diagnostic indicates the encoding failure, exit non-zero.
#[test]
fn scenario_null_byte_input_rejected() {
    let mut p = Pipeline::new(b"bad\0name.jpg".to_vec(), b"out.jpg".to_vec());
    p.library_started();
    p.handle_created();
    assert!(!p.begin_read());
    assert!(!p.native_read_attempted);
    assert!(!p.native_write_attempted);
    assert!(matches!(p.failure, Some(Error::PathEncoding)));
    assert_eq!(p.failure.as_ref().unwrap().diagnostic(), "Null byte?");
    p.destroy_handle();
    p.shutdown_library();
    assert_ne!(p.exit_code(), 0);
}

/// An output path with an embedded null byte: the read runs, the write is
/// never attempted, exit non-zero.
#[test]
fn scenario_null_byte_output_rejected() {
    let mut p = Pipeline::new(b"photo.jpg".to_vec(), b"out\0.jpg".to_vec());
    p.library_started();
    p.handle_created();
    assert!(p.begin_read());
    p.read_succeeded(vec![frame(64, 64)]);
    p.resize_frames();
    assert!(!p.begin_write());
    assert!(!p.native_write_attempted);
    assert!(matches!(p.failure, Some(Error::PathEncoding)));
    p.destroy_handle();
    p.shutdown_library();
    assert_ne!(p.exit_code(), 0);
}

/// A read that the native layer refuses (for instance a non-existent
/// file): exit non-zero, and the diagnostic text equals the message the
/// native layer reported.
#[test]
fn scenario_missing_input_reports_native_message() {
    let message = "unable to open image `/no/such/file.jpg'";
    let mut p = Pipeline::new(b"/no/such/file.jpg".to_vec(), b"out.jpg".to_vec());
    p.library_started();
    p.handle_created();
    assert!(p.begin_read());
    p.read_failed(ErrorDescriptor::new(message.to_string(), 435));
    match &p.failure {
        Some(Error::NativeOperation { descriptor }) => {
            assert_eq!(descriptor.message, message);
            assert_eq!(descriptor.severity, 435);
        }
        other => panic!("expected a native failure, got {:?}", other.is_some()),
    }
    assert_eq!(p.failure.as_ref().unwrap().diagnostic(), message);
    p.destroy_handle();
    p.shutdown_library();
    assert_ne!(p.exit_code(), 0);
}

/// A write that the native layer refuses: the recorded failure carries the
/// descriptor fetched while the handle was alive.
#[test]
fn native_write_failure_recorded() {
    let mut p = Pipeline::new(b"photo.jpg".to_vec(), b"/root/denied.png".to_vec());
    p.library_started();
    p.handle_created();
    assert!(p.begin_read());
    p.read_succeeded(vec![frame(800, 600)]);
    p.resize_frames();
    assert!(p.begin_write());
    p.write_failed(ErrorDescriptor::new("unable to write `/root/denied.png'".to_string(), 499));
    assert_eq!(p.phase, Phase::Failing);
    assert_eq!(
        p.failure.as_ref().unwrap().diagnostic(),
        "unable to write `/root/denied.png'"
    );
    p.destroy_handle();
    p.shutdown_library();
    assert_eq!(p.exit_code(), 1);
}

/// Teardown pairing on a successful run: the handle is destroyed exactly
/// once and global teardown runs exactly once, after it.
#[test]
fn teardown_pairing_on_success() {
    let mut p = Pipeline::new(b"a.png".to_vec(), b"b.png".to_vec());
    p.library_started();
    p.handle_created();
    assert!(p.begin_read());
    p.read_succeeded(vec![frame(10, 10)]);
    p.resize_frames();
    assert!(p.begin_write());
    p.write_succeeded();
    assert_eq!(p.library_shutdown_count, 0);
    p.destroy_handle();
    assert_eq!(p.handle_destroy_count, 1);
    assert_eq!(p.library_shutdown_count, 0);
    assert!(!p.handle_alive);
    p.shutdown_library();
    assert_eq!(p.handle_destroy_count, 1);
    assert_eq!(p.library_shutdown_count, 1);
    assert_eq!(p.phase, Phase::Terminated);
}

/// Teardown pairing on a failing run: the same exactly-once guarantees
/// hold when the pipeline fails mid-way.
#[test]
fn teardown_pairing_on_failure() {
    let mut p = Pipeline::new(b"nope.tif".to_vec(), b"out.tif".to_vec());
    p.library_started();
    p.handle_created();
    assert!(p.begin_read());
    p.read_failed(ErrorDescriptor::new("no decode delegate".to_string(), 420));
    p.destroy_handle();
    p.shutdown_library();
    assert_eq!(p.handle_destroy_count, 1);
    assert_eq!(p.library_shutdown_count, 1);
    assert!(!p.handle_alive);
    assert_eq!(p.exit_code(), 1);
}

/// The phases of a full successful run, in order.
#[test]
fn phases_in_order() {
    let mut p = Pipeline::new(b"in.png".to_vec(), b"out.png".to_vec());
    assert_eq!(p.phase, Phase::Start);
    p.library_started();
    assert_eq!(p.phase, Phase::LibraryReady);
    p.handle_created();
    assert_eq!(p.phase, Phase::HandleReady);
    assert!(p.begin_read());
    assert_eq!(p.phase, Phase::Reading);
    p.read_succeeded(vec![frame(1, 1)]);
    assert_eq!(p.phase, Phase::Loaded);
    p.resize_frames();
    assert_eq!(p.phase, Phase::Resized);
    assert!(p.begin_write());
    assert_eq!(p.phase, Phase::Writing);
    p.write_succeeded();
    assert_eq!(p.phase, Phase::Written);
    p.destroy_handle();
    assert_eq!(p.phase, Phase::Disposed);
    p.shutdown_library();
    assert_eq!(p.phase, Phase::Terminated);
}
