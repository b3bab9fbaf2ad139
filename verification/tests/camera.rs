use camera_rest_api::address::{AddressKind, CameraSpec};
use camera_rest_api::camera::{Camera, LoopAction, LoopEvent, Phase, BACKOFF_MS};
use camera_rest_api::frame::{Frame, FrameCache};

fn local(name: &str, index: i32) -> CameraSpec {
    CameraSpec { name: name.to_string(), address: AddressKind::Local(index) }
}

fn picture(seed: u8) -> Frame {
    Frame::new(2, 3, 16, vec![seed; 18])
}

fn opened(name: &str) -> Camera {
    match Camera::new(local(name, 0), true) {
        Ok(camera) => camera,
        Err(_) => panic!("the camera was opened"),
    }
}

#[test]
fn cache_starts_empty_and_keeps_the_latest_frame() {
    let mut cache = FrameCache::new();
    assert!(!cache.is_filled());
    assert_eq!(cache.read(), None);
    cache.write(picture(1));
    assert_eq!(cache.read(), Some(picture(1)));
    cache.write(picture(2));
    assert_eq!(cache.read(), Some(picture(2)));
    assert_eq!(cache.read(), Some(picture(2)));
    assert!(cache.is_filled());
}

#[test]
fn frame_without_pixels_is_empty() {
    assert!(Frame::new(0, 3, 16, vec![1, 2, 3]).empty());
    assert!(Frame::new(2, 0, 16, vec![1, 2, 3]).empty());
    assert!(Frame::new(2, 3, 16, Vec::new()).empty());
    assert!(!Frame::new(1, 1, 0, vec![9]).empty());
    let frame = picture(7);
    assert_eq!(frame.clone(), frame);
    assert_eq!(frame.rows, 2);
    assert_eq!(frame.cols, 3);
    assert_eq!(frame.pixel_format, 16);
}

#[test]
fn camera_that_did_not_open_is_an_error() {
    match Camera::new(local("cam1", 4), false) {
        Ok(_) => panic!("the camera did not open"),
        Err(error) => assert_eq!(error.spec, local("cam1", 4)),
    }
}

#[test]
fn opened_camera_is_stopped_and_holds_no_frame() {
    let camera = opened("cam0");
    assert_eq!(camera.phase(), Phase::Stopped);
    assert!(!camera.is_running());
    assert_eq!(camera.get_frame(), None);
    assert_eq!(camera.spec(), &local("cam0", 0));
}

#[test]
fn start_is_idempotent() {
    let mut camera = opened("cam0");
    assert!(camera.start());
    assert_eq!(camera.phase(), Phase::Starting);
    assert!(camera.is_running());
    assert!(!camera.start());
    assert_eq!(camera.phase(), Phase::Starting);
    assert_eq!(camera.step(LoopEvent::Begin), LoopAction::Capture);
    assert!(!camera.start());
    assert_eq!(camera.phase(), Phase::Running);
}

#[test]
fn capture_replaces_the_frame_and_failure_keeps_it() {
    let mut camera = opened("cam0");
    camera.start();
    assert_eq!(camera.step(LoopEvent::Begin), LoopAction::Capture);
    assert_eq!(camera.capture_frame(Some(picture(1))), LoopAction::Capture);
    assert_eq!(camera.get_frame(), Some(picture(1)));
    assert_eq!(camera.phase(), Phase::Running);
    assert_eq!(camera.capture_frame(None), LoopAction::Backoff(100));
    assert_eq!(BACKOFF_MS, 100);
    assert_eq!(camera.phase(), Phase::Retrying);
    assert_eq!(camera.get_frame(), Some(picture(1)));
    assert_eq!(camera.step(LoopEvent::BackoffElapsed), LoopAction::Capture);
    assert_eq!(camera.phase(), Phase::Running);
    assert_eq!(camera.step(LoopEvent::Grabbed(Some(picture(2)))), LoopAction::Capture);
    assert_eq!(camera.get_frame(), Some(picture(2)));
}

#[test]
fn frame_without_pixels_counts_as_a_failed_capture() {
    let mut camera = opened("cam0");
    camera.start();
    camera.step(LoopEvent::Begin);
    camera.capture_frame(Some(picture(5)));
    let blank = Frame::new(0, 0, 0, Vec::new());
    assert_eq!(camera.capture_frame(Some(blank)), LoopAction::Backoff(BACKOFF_MS));
    assert_eq!(camera.get_frame(), Some(picture(5)));
    assert_eq!(camera.phase(), Phase::Retrying);
}

#[test]
fn release_lets_one_event_through_and_then_nothing() {
    let mut camera = opened("cam0");
    camera.start();
    camera.step(LoopEvent::Begin);
    camera.capture_frame(Some(picture(1)));
    camera.release();
    assert_eq!(camera.phase(), Phase::Stopping);
    assert!(!camera.is_running());
    assert_eq!(camera.get_frame(), Some(picture(1)));
    // The capture that was under way may still arrive.
    assert_eq!(camera.capture_frame(Some(picture(2))), LoopAction::Exit);
    assert_eq!(camera.phase(), Phase::Stopped);
    assert_eq!(camera.get_frame(), Some(picture(2)));
    // Nothing is written after that.
    assert_eq!(camera.capture_frame(Some(picture(3))), LoopAction::Exit);
    assert_eq!(camera.step(LoopEvent::Grabbed(Some(picture(4)))), LoopAction::Exit);
    assert_eq!(camera.step(LoopEvent::BackoffElapsed), LoopAction::Exit);
    assert_eq!(camera.step(LoopEvent::Begin), LoopAction::Exit);
    assert_eq!(camera.get_frame(), Some(picture(2)));
    assert_eq!(camera.phase(), Phase::Stopped);
}

#[test]
fn release_during_backoff_ends_the_loop() {
    let mut camera = opened("cam0");
    camera.start();
    camera.step(LoopEvent::Begin);
    assert_eq!(camera.capture_frame(None), LoopAction::Backoff(100));
    camera.release();
    camera.release();
    assert_eq!(camera.phase(), Phase::Stopping);
    assert_eq!(camera.step(LoopEvent::BackoffElapsed), LoopAction::Exit);
    assert_eq!(camera.phase(), Phase::Stopped);
    assert_eq!(camera.get_frame(), None);
}

#[test]
fn release_of_a_stopped_camera_changes_nothing() {
    let mut camera = opened("cam0");
    camera.release();
    assert_eq!(camera.phase(), Phase::Stopped);
    assert!(!camera.is_running());
    assert_eq!(camera.capture_frame(Some(picture(1))), LoopAction::Exit);
    assert_eq!(camera.get_frame(), None);
}

#[test]
fn stopped_camera_can_be_started_again() {
    let mut camera = opened("cam0");
    camera.start();
    camera.step(LoopEvent::Begin);
    camera.capture_frame(Some(picture(1)));
    camera.release();
    assert!(!camera.start());
    assert_eq!(camera.step(LoopEvent::Begin), LoopAction::Exit);
    assert!(camera.start());
    assert_eq!(camera.phase(), Phase::Starting);
    assert_eq!(camera.get_frame(), Some(picture(1)));
    assert_eq!(camera.step(LoopEvent::Begin), LoopAction::Capture);
}

#[test]
fn only_the_newest_frame_is_kept() {
    let mut camera = opened("cam0");
    camera.start();
    camera.step(LoopEvent::Begin);
    for seed in 1..=5u8 {
        assert_eq!(camera.capture_frame(Some(picture(seed))), LoopAction::Capture);
    }
    assert_eq!(camera.get_frame(), Some(picture(5)));
    assert_eq!(camera.capture_frame(None), LoopAction::Backoff(100));
    assert_eq!(camera.step(LoopEvent::BackoffElapsed), LoopAction::Capture);
    assert_eq!(camera.get_frame(), Some(picture(5)));
    assert_eq!(camera.get_frame(), Some(picture(5)));
    assert!(camera.is_running());
}
