use camera_rest_api::address::{AddressKind, CameraSpec};
use camera_rest_api::camera::{Camera, LoopAction, LoopEvent, Phase};
use camera_rest_api::config::{CameraConfig, CameraDetails};
use camera_rest_api::frame::Frame;
use camera_rest_api::registry::{
    encode_frame, get_camera_count, get_camera_frame, get_camera_image, AppState,
};
use camera_rest_api::service::{
    get_cameras, get_cameras_count, get_image, image_reply, refresh_cameras, snapshot_reply,
    ContentKind, Reply,
    STATUS_FAILED, STATUS_NOT_FOUND, STATUS_OK,
};

fn details(name: &str, url: &str) -> CameraDetails {
    CameraDetails { name: name.to_string(), url: url.to_string() }
}

fn config(entries: &[(&str, &str)]) -> CameraConfig {
    CameraConfig { cameras: entries.iter().map(|(name, url)| details(name, url)).collect() }
}

fn picture(seed: u8) -> Frame {
    Frame::new(2, 2, 16, vec![seed, seed, seed, seed])
}

/// Opens every camera.
fn open_all(_spec: &CameraSpec) -> bool {
    true
}

/// Opens local devices only.
fn open_local(spec: &CameraSpec) -> bool {
    !spec.address.is_network()
}

/// Stands for an encoder: the marker of a JPEG image, then the pixels.
fn jpeg(frame: &Frame) -> Option<Vec<u8>> {
    let mut bytes = vec![0xFF, 0xD8];
    bytes.extend_from_slice(&frame.data);
    Some(bytes)
}

fn broken(_frame: &Frame) -> Option<Vec<u8>> {
    None
}

fn silent(_frame: &Frame) -> Option<Vec<u8>> {
    Some(Vec::new())
}

fn built(entries: &[(&str, &str)]) -> AppState {
    match AppState::build(config(entries), "cameras.yml".to_string(), &open_all) {
        Ok(state) => state,
        Err(_) => panic!("every camera opens"),
    }
}

fn image_bytes(reply: Reply) -> Vec<u8> {
    match reply {
        Reply::Image(bytes) => bytes,
        other => panic!("no image: {:?}", other),
    }
}

#[test]
fn build_opens_and_starts_every_camera() {
    let state = built(&[("cam0", "0"), ("cam1", "rtsp://host/stream")]);
    assert_eq!(state.count(), 2);
    assert_eq!(state.generation(), 0);
    assert_eq!(state.config_path(), "cameras.yml");
    assert_eq!(state.list(), vec![details("cam0", "0"), details("cam1", "rtsp://host/stream")]);
    assert_eq!(state.frame_at(0), None);
    assert_eq!(state.frame_at(1), None);
}

#[test]
fn build_stops_at_the_first_camera_that_does_not_open() {
    let tried = std::cell::RefCell::new(Vec::new());
    let open = |spec: &CameraSpec| {
        tried.borrow_mut().push(spec.name.clone());
        !spec.address.is_network()
    };
    let entries = config(&[("cam0", "0"), ("cam1", "rtsp://bad-host/stream"), ("cam2", "2")]);
    match AppState::build(entries, "cameras.yml".to_string(), &open) {
        Ok(_) => panic!("cam1 does not open"),
        Err(error) => {
            assert_eq!(error.index, 1);
            assert_eq!(error.cause.spec.name, "cam1");
            assert_eq!(
                error.cause.spec.address,
                AddressKind::Network("rtsp://bad-host/stream".to_string())
            );
        }
    }
    assert_eq!(*tried.borrow(), vec!["cam0".to_string(), "cam1".to_string()]);
}

#[test]
fn build_of_an_empty_list_is_an_empty_set() {
    let state = built(&[]);
    assert_eq!(state.count(), 0);
    assert_eq!(state.list(), Vec::new());
    assert_eq!(state.image_at(0, &jpeg), None);
}

#[test]
fn image_before_any_capture_is_not_found() {
    let state = built(&[("cam0", "0")]);
    assert_eq!(state.image_at(0, &jpeg), None);
    let reply = get_image(&state, 0, &jpeg);
    assert!(matches!(reply, Reply::NotFound));
    assert_eq!(reply.status(), 404);
}

#[test]
fn image_after_one_capture_starts_with_the_marker() {
    let mut state = built(&[("cam0", "0")]);
    assert_eq!(state.worker_step(0, 0, LoopEvent::Begin), LoopAction::Capture);
    assert_eq!(
        state.worker_step(0, 0, LoopEvent::Grabbed(Some(picture(9)))),
        LoopAction::Capture
    );
    let reply = get_image(&state, 0, &jpeg);
    assert_eq!(reply.status(), 200);
    let bytes = image_bytes(reply);
    assert_eq!(bytes[0], 0xFF);
    assert_eq!(bytes[1], 0xD8);
    assert_eq!(bytes, vec![0xFF, 0xD8, 9, 9, 9, 9]);
    assert_eq!(state.frame_at(0), Some(picture(9)));
}

#[test]
fn image_past_the_last_camera_is_not_found() {
    let mut state = built(&[("cam0", "0"), ("cam1", "1")]);
    state.worker_step(0, 0, LoopEvent::Grabbed(Some(picture(1))));
    state.worker_step(0, 1, LoopEvent::Grabbed(Some(picture(2))));
    assert!(state.image_at(1, &jpeg).is_some());
    for index in [2, 3, 100, usize::MAX] {
        assert_eq!(state.image_at(index, &jpeg), None);
        assert_eq!(state.frame_at(index), None);
        let reply = get_image(&state, index, &jpeg);
        assert!(matches!(reply, Reply::NotFound));
        assert_eq!(reply.status(), 404);
    }
}

#[test]
fn encoder_failure_is_no_image() {
    let mut state = built(&[("cam0", "0")]);
    state.worker_step(0, 0, LoopEvent::Grabbed(Some(picture(1))));
    assert_eq!(state.image_at(0, &broken), None);
    assert_eq!(state.image_at(0, &silent), None);
    assert!(matches!(get_image(&state, 0, &broken), Reply::NotFound));
    assert_eq!(encode_frame(&picture(1), &jpeg), Some(vec![0xFF, 0xD8, 1, 1, 1, 1]));
    assert_eq!(encode_frame(&picture(1), &silent), None);
    assert_eq!(encode_frame(&picture(1), &broken), None);
}

#[test]
fn snapshot_of_a_list_of_cameras() {
    let mut first = match Camera::new(
        CameraSpec { name: "a".to_string(), address: AddressKind::Local(0) },
        true,
    ) {
        Ok(camera) => camera,
        Err(_) => panic!("the camera was opened"),
    };
    first.start();
    first.capture_frame(Some(picture(3)));
    let cameras = vec![first];
    assert_eq!(get_camera_count(&cameras), 1);
    assert_eq!(get_camera_count(&Vec::new()), 0);
    assert_eq!(get_camera_frame(0, &cameras), Some(picture(3)));
    assert_eq!(get_camera_frame(1, &cameras), None);
    assert_eq!(get_camera_image(0, &cameras, &jpeg), Some(vec![0xFF, 0xD8, 3, 3, 3, 3]));
    assert_eq!(get_camera_image(1, &cameras, &jpeg), None);
}

#[test]
fn refresh_replaces_the_whole_set() {
    let mut state = built(&[("cam0", "0")]);
    state.worker_step(0, 0, LoopEvent::Begin);
    state.worker_step(0, 0, LoopEvent::Grabbed(Some(picture(1))));
    let retired = match state.refresh(config(&[("a", "1"), ("b", "2"), ("c", "rtsp://h/s")]), &open_all)
    {
        Ok(retired) => retired,
        Err(_) => panic!("every camera opens"),
    };
    assert_eq!(state.count(), 3);
    assert_eq!(state.list().len(), state.count());
    assert_eq!(state.list()[2], details("c", "rtsp://h/s"));
    assert_eq!(state.generation(), 1);
    assert_eq!(state.config_path(), "cameras.yml");
    // The position that held a frame now names another camera.
    assert_eq!(state.frame_at(0), None);
    assert_eq!(retired.len(), 1);
    assert_eq!(retired[0].phase(), Phase::Stopping);
    assert!(!retired[0].is_running());
    assert_eq!(retired[0].get_frame(), Some(picture(1)));
}

#[test]
fn refresh_that_cannot_open_a_camera_changes_nothing() {
    let mut state = built(&[("cam0", "0")]);
    state.worker_step(0, 0, LoopEvent::Grabbed(Some(picture(1))));
    match state.refresh(config(&[("a", "1"), ("b", "rtsp://bad-host/stream")]), &open_local) {
        Ok(_) => panic!("the stream does not open"),
        Err(error) => assert_eq!(error.index, 1),
    }
    assert_eq!(state.count(), 1);
    assert_eq!(state.list(), vec![details("cam0", "0")]);
    assert_eq!(state.generation(), 0);
    assert_eq!(state.frame_at(0), Some(picture(1)));
}

#[test]
fn refresh_to_no_cameras_counts_zero() {
    let mut state = built(&[("cam0", "0"), ("cam1", "1")]);
    let fresh = AppState::build(config(&[]), "cameras.yml".to_string(), &open_all);
    let reply = refresh_cameras(&mut state, fresh);
    assert!(matches!(reply, Reply::Refreshed));
    assert_eq!(reply.status(), 200);
    let reply = get_cameras_count(&state);
    assert!(matches!(reply, Reply::Count(0)));
    assert_eq!(reply.status(), 200);
    assert!(matches!(get_cameras(&state), Reply::Cameras(list) if list.is_empty()));
    assert!(matches!(get_image(&state, 0, &jpeg), Reply::NotFound));
}

#[test]
fn failed_refresh_is_reported_and_keeps_the_set() {
    let mut state = built(&[("cam0", "0")]);
    let fresh =
        AppState::build(config(&[("x", "rtsp://bad-host/stream")]), "other.yml".to_string(), &open_local);
    let reply = refresh_cameras(&mut state, fresh);
    assert_eq!(reply.status(), 500);
    assert!(matches!(reply, Reply::RefreshFailed(error) if error.index == 0));
    assert!(matches!(get_cameras_count(&state), Reply::Count(1)));
    assert_eq!(state.config_path(), "cameras.yml");
}

#[test]
fn loops_of_a_replaced_set_are_told_to_leave() {
    let mut state = built(&[("cam0", "0")]);
    assert_eq!(state.worker_step(0, 0, LoopEvent::Begin), LoopAction::Capture);
    let fresh = built(&[("new0", "5")]);
    let retired = state.install(fresh);
    assert_eq!(retired.len(), 1);
    assert_eq!(state.generation(), 1);
    // The old loop reports a frame: it is not written to the new camera.
    assert_eq!(state.worker_step(0, 0, LoopEvent::Grabbed(Some(picture(1)))), LoopAction::Exit);
    assert_eq!(state.frame_at(0), None);
    // The new loop runs.
    assert_eq!(state.worker_step(1, 0, LoopEvent::Begin), LoopAction::Capture);
    assert_eq!(state.worker_step(1, 0, LoopEvent::Grabbed(None)), LoopAction::Backoff(100));
    assert_eq!(state.worker_step(1, 0, LoopEvent::BackoffElapsed), LoopAction::Capture);
    assert_eq!(state.worker_step(1, 0, LoopEvent::Grabbed(Some(picture(2)))), LoopAction::Capture);
    assert_eq!(state.frame_at(0), Some(picture(2)));
    // A loop for a position that the set does not have leaves too.
    assert_eq!(state.worker_step(1, 1, LoopEvent::Begin), LoopAction::Exit);
}

#[test]
fn install_keeps_the_path_of_the_camera_list() {
    let mut state = built(&[("cam0", "0")]);
    let fresh = match AppState::build(config(&[("a", "1"), ("b", "2")]), "other.yml".to_string(), &open_all)
    {
        Ok(fresh) => fresh,
        Err(_) => panic!("every camera opens"),
    };
    assert_eq!(fresh.config_path(), "other.yml");
    state.install(fresh);
    assert_eq!(state.config_path(), "cameras.yml");
    assert_eq!(state.count(), 2);
    let fresh = AppState::build(config(&[("c", "3")]), "third.yml".to_string(), &open_all);
    assert!(matches!(refresh_cameras(&mut state, fresh), Reply::Refreshed));
    assert_eq!(state.config_path(), "cameras.yml");
    assert_eq!(state.list(), vec![details("c", "3")]);
    assert_eq!(state.generation(), 2);
}

#[test]
fn network_cameras_of_any_scheme_reach_the_opener_as_uris() {
    let seen = std::cell::RefCell::new(Vec::new());
    let open = |spec: &CameraSpec| {
        seen.borrow_mut().push(spec.address.clone());
        true
    };
    let entries = config(&[("web", "http://host/stream"), ("cam", "rtsp://h/s"), ("usb", "1")]);
    assert!(AppState::build(entries, "cameras.yml".to_string(), &open).is_ok());
    assert_eq!(
        *seen.borrow(),
        vec![
            AddressKind::Network("http://host/stream".to_string()),
            AddressKind::Network("rtsp://h/s".to_string()),
            AddressKind::Local(1),
        ]
    );
}

#[test]
fn loop_events_touch_one_camera_only() {
    let mut state = built(&[("cam0", "0"), ("cam1", "1")]);
    state.worker_step(0, 1, LoopEvent::Grabbed(Some(picture(4))));
    assert_eq!(state.frame_at(0), None);
    assert_eq!(state.frame_at(1), Some(picture(4)));
    assert_eq!(state.count(), 2);
    assert_eq!(state.list().len(), 2);
}

#[test]
fn replies_carry_their_status() {
    assert_eq!(Reply::Image(vec![1]).status(), 200);
    assert_eq!(Reply::NotFound.status(), 404);
    assert_eq!(Reply::Count(3).status(), 200);
    assert_eq!(Reply::Cameras(Vec::new()).status(), 200);
    assert_eq!(Reply::Refreshed.status(), 200);
    assert!(matches!(image_reply(Some(vec![7, 8])), Reply::Image(bytes) if bytes == vec![7, 8]));
    assert!(matches!(image_reply(None), Reply::NotFound));
}

#[test]
fn snapshot_reply_encodes_the_frame_it_is_given() {
    let reply = snapshot_reply(Some(picture(6)), &jpeg);
    assert_eq!(reply.status(), 200);
    assert_eq!(image_bytes(reply), vec![0xFF, 0xD8, 6, 6, 6, 6]);
    assert!(matches!(snapshot_reply(None, &jpeg), Reply::NotFound));
    assert!(matches!(snapshot_reply(Some(picture(6)), &broken), Reply::NotFound));
    assert!(matches!(snapshot_reply(Some(picture(6)), &silent), Reply::NotFound));
}

#[test]
fn replies_say_how_their_body_is_written() {
    assert_eq!(Reply::Image(vec![1]).content(), ContentKind::Jpeg);
    assert_eq!(Reply::Count(3).content(), ContentKind::Json);
    assert_eq!(Reply::Cameras(Vec::new()).content(), ContentKind::Json);
    assert_eq!(Reply::NotFound.content(), ContentKind::Text);
    assert_eq!(Reply::Refreshed.content(), ContentKind::Text);
    assert_eq!(STATUS_OK, 200);
    assert_eq!(STATUS_NOT_FOUND, 404);
    assert_eq!(STATUS_FAILED, 500);
}

#[test]
fn resolved_cameras_are_listed_by_position() {
    let state = built(&[("cam0", "2"), ("door", "rtsp://door/live"), ("odd", "garage")]);
    let specs = state.list_specs();
    assert_eq!(specs.len(), state.count());
    assert_eq!(specs[0], CameraSpec { name: "cam0".to_string(), address: AddressKind::Local(2) });
    assert_eq!(
        specs[1],
        CameraSpec {
            name: "door".to_string(),
            address: AddressKind::Network("rtsp://door/live".to_string()),
        }
    );
    assert_eq!(specs[2], CameraSpec { name: "odd".to_string(), address: AddressKind::Local(0) });
    assert_eq!(built(&[]).list_specs(), Vec::new());
}

#[test]
fn counts_and_lists_agree_after_every_step() {
    let mut state = built(&[("a", "0"), ("b", "1")]);
    assert_eq!(state.count(), state.list().len());
    state.worker_step(0, 0, LoopEvent::Begin);
    assert_eq!(state.count(), state.list().len());
    state.worker_step(0, 1, LoopEvent::Grabbed(None));
    assert_eq!(state.count(), state.list().len());
    let _ = state.refresh(config(&[("c", "2")]), &open_all);
    assert_eq!(state.count(), 1);
    assert_eq!(state.count(), state.list().len());
    assert_eq!(state.count(), state.list_specs().len());
    let _ = state.refresh(config(&[("d", "rtsp://x/y"), ("e", "3")]), &open_local);
    assert_eq!(state.count(), 1);
    assert_eq!(state.list(), vec![details("c", "2")]);
    let _ = state.refresh(config(&[]), &open_local);
    assert_eq!(state.count(), 0);
    assert_eq!(state.list().len(), 0);
    assert_eq!(state.generation(), 2);
}

#[test]
fn listing_gives_name_and_url_by_position() {
    let state = built(&[("cam0", "0"), ("door", "rtsp://door/live")]);
    match get_cameras(&state) {
        Reply::Cameras(list) => {
            assert_eq!(list.len(), 2);
            assert_eq!(list[0], details("cam0", "0"));
            assert_eq!(list[1].name, "door");
            assert_eq!(list[1].url, "rtsp://door/live");
        }
        other => panic!("no list: {:?}", other),
    }
}
