//! What holds of cameras and camera sets whatever happens to them, stated
//! over their mathematical values.

use vstd::prelude::*;
use crate::camera::{CameraView, EventView, LoopAction, LoopEvent, Phase};
use crate::config::DetailsView;
use crate::address::{
    has_sign, is_digit, is_network, parse_index, resolve, scheme_ends_at, AddressView, CameraSpec,
    CameraSpecView,
};
use crate::frame::{Frame, FrameView};
use crate::registry::{
    built_from, built_view, frame_at, next_generation, opens, snapshot_of, AppState, BuildError,
    RegistryView,
};

verus! {

/// A text with a scheme prefix resolves to a network address that holds the
/// whole text, whatever the scheme is.
pub proof fn lemma_scheme_prefixed_is_network(url: Seq<char>, n: int)
    requires
        scheme_ends_at(url, n),
    ensures
        is_network(url),
        resolve(url) == AddressView::Network(url),
{
}

/// A text that denotes a device index has no scheme prefix, so it resolves
/// to that local device and never to a network address.
pub proof fn lemma_index_is_local(url: Seq<char>)
    requires
        parse_index(url) is Some,
    ensures
        !is_network(url),
        resolve(url) == AddressView::Local(parse_index(url)->0),
{
    if is_network(url) && !has_sign(url) {
        // The first character is a digit, and no scheme starts with one.
        assert(is_digit(url[0]));
    }
}

/// Every event that a capture loop can report is valid: a frame without
/// pixels counts as a failed capture, never as a captured frame.
pub proof fn lemma_reported_event_valid(event: LoopEvent)
    ensures
        event@.valid(),
{
}

/// A camera that was just opened is well formed, and a start request, a stop
/// request and every valid event keep a camera well formed.
pub proof fn lemma_camera_stays_well_formed(
    spec: CameraSpecView,
    camera: CameraView,
    event: EventView,
)
    requires
        camera.wf(),
        event.valid(),
    ensures
        CameraView::opened(spec).wf(),
        camera.started().wf(),
        camera.stopped().wf(),
        camera.step(event).wf(),
{
}

/// Starting a camera twice is starting it once: the second request changes
/// nothing and asks for no second loop. The same holds of stopping.
pub proof fn lemma_start_and_stop_idempotent(camera: CameraView)
    ensures
        camera.started().started() == camera.started(),
        !camera.started().needs_worker(),
        camera.stopped().stopped() == camera.stopped(),
{
}

/// A frame captured by a camera whose loop is alive is the frame that the
/// camera then holds.
pub proof fn lemma_captured_frame_is_held(camera: CameraView, frame: FrameView)
    requires
        !(camera.phase is Stopped),
    ensures
        camera.step(EventView::Captured(frame)).slot == Some(frame),
{
}

/// An event leaves a camera with the frame it held before or with the whole
/// frame that the event carries, and with nothing else. A failed capture
/// leaves the frame it held before.
pub proof fn lemma_frame_replaced_whole(camera: CameraView, event: EventView)
    ensures
        camera.step(event).slot == camera.slot || (event is Captured && camera.step(event).slot
            == Some(event->Captured_0)),
        event is CaptureFailed ==> camera.step(event).slot == camera.slot,
        camera.started().slot == camera.slot,
        camera.stopped().slot == camera.slot,
{
}

/// A camera that holds a frame holds one after any run of events: the cache
/// never goes back to empty.
pub proof fn lemma_frame_never_lost(camera: CameraView, events: Seq<EventView>)
    requires
        camera.slot is Some,
    ensures
        camera.run(events).slot is Some,
    decreases events.len(),
{
    if events.len() > 0 {
        lemma_frame_never_lost(camera, events.drop_last());
    }
}

/// The frame that is held after `events` by a loop that started out holding
/// `slot`: the frame of the last capture among the events, or `slot` itself
/// where none of them is a capture.
pub open spec fn latest_frame(slot: Option<FrameView>, events: Seq<EventView>) -> Option<FrameView>
    decreases events.len(),
{
    if events.len() == 0 {
        slot
    } else {
        match events.last() {
            EventView::Captured(frame) => Some(frame),
            _ => latest_frame(slot, events.drop_last()),
        }
    }
}

/// While no stop is requested, a camera whose loop is alive holds the frame
/// of the latest capture, whatever came before it: frames are seen in the
/// order in which they were captured, and only the newest is kept.
pub proof fn lemma_latest_frame_wins(camera: CameraView, events: Seq<EventView>)
    requires
        camera.running,
        !(camera.phase is Stopped),
    ensures
        camera.run(events).slot == latest_frame(camera.slot, events),
        camera.run(events).running,
        !(camera.run(events).phase is Stopped),
    decreases events.len(),
{
    if events.len() > 0 {
        lemma_latest_frame_wins(camera, events.drop_last());
    }
}

/// A stopped camera ignores every run of events.
pub proof fn lemma_stopped_camera_ignores_events(camera: CameraView, events: Seq<EventView>)
    requires
        camera.phase is Stopped,
    ensures
        camera.run(events) == camera,
    decreases events.len(),
{
    if events.len() > 0 {
        lemma_stopped_camera_ignores_events(camera, events.drop_last());
    }
}

/// After a stop request the loop's next event is its last: the loop is told
/// to leave and the camera is stopped. That one event may still bring the
/// frame of a capture that was under way. No event after it changes the
/// camera, so nothing is written to its cache any more, and every later
/// answer is to leave.
pub proof fn lemma_stop_ends_writes(
    camera: CameraView,
    next: EventView,
    later: Seq<EventView>,
    after: EventView,
)
    ensures
        camera.stopped().action(next) == LoopAction::Exit,
        camera.stopped().step(next).phase is Stopped,
        camera.stopped().step(next).run(later) == camera.stopped().step(next),
        camera.stopped().step(next).run(later).slot == camera.stopped().step(next).slot,
        camera.stopped().step(next).run(later).action(after) == LoopAction::Exit,
{
    lemma_stopped_camera_ignores_events(camera.stopped().step(next), later);
}

/// While no stop is requested, a live loop is never told to leave: it waits
/// the fixed interval after a failed capture and captures again otherwise.
pub proof fn lemma_running_loop_goes_on(camera: CameraView, event: EventView)
    requires
        camera.wf(),
        camera.running,
    ensures
        camera.action(event) == (if event is CaptureFailed {
            LoopAction::Backoff(crate::camera::BACKOFF_MS)
        } else {
            LoopAction::Capture
        }),
        camera.step(event).running,
        camera.step(event).phase == (if event is CaptureFailed {
            Phase::Retrying
        } else {
            Phase::Running
        }),
{
}

/// A position at or past the number of cameras has no frame and no
/// snapshot, whatever the encoder is.
pub proof fn lemma_out_of_range_absent<F: Fn(&Frame) -> Option<Vec<u8>>>(
    encode: F,
    cameras: Seq<CameraView>,
    index: int,
    res: Option<Vec<u8>>,
)
    requires
        index >= cameras.len(),
        snapshot_of(encode, cameras, index, res),
    ensures
        frame_at(cameras, index) is None,
        res is None,
{
}

/// A camera that has captured nothing yet has no snapshot, whatever the
/// encoder is.
pub proof fn lemma_no_frame_no_snapshot<F: Fn(&Frame) -> Option<Vec<u8>>>(
    encode: F,
    cameras: Seq<CameraView>,
    index: int,
    res: Option<Vec<u8>>,
)
    requires
        0 <= index < cameras.len(),
        cameras[index].slot is None,
        snapshot_of(encode, cameras, index, res),
    ensures
        res is None,
{
}

/// A camera that holds a frame has a snapshot whenever the encoder always
/// returns at least one byte.
pub proof fn lemma_snapshot_present<F: Fn(&Frame) -> Option<Vec<u8>>>(
    encode: F,
    cameras: Seq<CameraView>,
    index: int,
    res: Option<Vec<u8>>,
)
    requires
        0 <= index < cameras.len(),
        cameras[index].slot is Some,
        snapshot_of(encode, cameras, index, res),
        forall|frame: Frame, out: Option<Vec<u8>>| #[trigger]
            call_ensures(encode, (&frame,), out) ==> out is Some && out->0@.len() > 0,
    ensures
        res is Some,
        res->0@.len() > 0,
{
}

/// A frame that the loop of a camera captures is the frame that a lookup at
/// the camera's position finds, as long as the camera is in the set and its
/// loop is alive.
pub proof fn lemma_capture_reaches_lookup(
    set: RegistryView,
    generation: u64,
    index: int,
    frame: FrameView,
)
    requires
        set.owns(generation, index),
        !(set.cameras[index].phase is Stopped),
    ensures
        frame_at(
            set.worker_step(generation, index, EventView::Captured(frame)).cameras,
            index,
        ) == Some(frame),
{
}

/// A snapshot that is there holds at least one byte.
pub proof fn lemma_snapshot_not_empty<F: Fn(&Frame) -> Option<Vec<u8>>>(
    encode: F,
    cameras: Seq<CameraView>,
    index: int,
    res: Option<Vec<u8>>,
)
    requires
        snapshot_of(encode, cameras, index, res),
        res is Some,
    ensures
        res->0@.len() > 0,
        0 <= index < cameras.len(),
        cameras[index].slot is Some,
{
}

/// In a well-formed set the number of cameras is the number of listed
/// entries, and the camera at each position is the one that the entry at
/// that position configures.
pub proof fn lemma_count_matches_list(set: RegistryView, index: int)
    requires
        set.wf(),
        0 <= index < set.cameras.len(),
    ensures
        set.cameras.len() == set.details.len(),
        set.cameras[index].spec == set.details[index].resolved(),
{
}

/// A set that was just built is well formed and has one camera for each
/// entry it was built from, each with a loop requested and no frame yet.
pub proof fn lemma_built_set_well_formed(details: Seq<DetailsView>, config_path: Seq<char>)
    ensures
        built_view(details, config_path).wf(),
        built_view(details, config_path).cameras.len() == details.len(),
        built_view(details, config_path).details == details,
        forall|i: int|
            0 <= i < details.len() ==> (#[trigger] built_view(details, config_path).cameras[i])
                == CameraView::opened(details[i].resolved()).started(),
        forall|spec: CameraSpecView|
            CameraView::opened(spec).started() == (CameraView {
                spec,
                slot: None,
                running: true,
                phase: Phase::Starting,
            }),
{
}

/// A build succeeds if the opener never refuses a camera, and the set then
/// has one camera for each entry.
pub proof fn lemma_build_succeeds_when_all_open<F: Fn(&CameraSpec) -> bool>(
    open: F,
    details: Seq<DetailsView>,
    config_path: Seq<char>,
    res: Result<AppState, BuildError>,
)
    requires
        built_from(open, details, config_path, res),
        forall|s: CameraSpec| !call_ensures(open, (&s,), false),
    ensures
        res is Ok,
        res->Ok_0@.cameras.len() == details.len(),
        res->Ok_0@.details == details,
{
}

/// A build fails if the opener never opens the camera of some entry. The
/// error then names that entry or an earlier one, and no set is made.
pub proof fn lemma_build_fails_when_one_refused<F: Fn(&CameraSpec) -> bool>(
    open: F,
    details: Seq<DetailsView>,
    config_path: Seq<char>,
    res: Result<AppState, BuildError>,
    refused: int,
)
    requires
        built_from(open, details, config_path, res),
        0 <= refused < details.len(),
        !opens(open, details[refused].resolved(), true),
    ensures
        res is Err,
        res->Err_0.index <= refused,
{
}

/// Replacing a set by one built from `details` leaves a well-formed set with
/// exactly one camera for each entry of `details`, listed as `details`.
pub proof fn lemma_refresh_count(set: RegistryView, details: Seq<DetailsView>)
    ensures
        set.replaced_by(built_view(details, set.config_path)).wf(),
        set.replaced_by(built_view(details, set.config_path)).cameras.len() == details.len(),
        set.replaced_by(built_view(details, set.config_path)).details == details,
        set.replaced_by(built_view(details, set.config_path)).config_path == set.config_path,
{
    lemma_built_set_well_formed(details, set.config_path);
}

/// Replacing the set by a well-formed one leaves a well-formed set.
pub proof fn lemma_replace_keeps_well_formed(set: RegistryView, fresh: RegistryView)
    requires
        fresh.wf(),
    ensures
        set.replaced_by(fresh).wf(),
        set.replaced_by(fresh).cameras == fresh.cameras,
        set.replaced_by(fresh).details == fresh.details,
        set.replaced_by(fresh).config_path == set.config_path,
{
}

/// An event of a capture loop keeps a well-formed set well formed, and
/// changes neither the number of cameras nor the list of entries.
pub proof fn lemma_worker_step_keeps_well_formed(
    set: RegistryView,
    generation: u64,
    index: int,
    event: EventView,
)
    requires
        set.wf(),
        event.valid(),
    ensures
        set.worker_step(generation, index, event).wf(),
        set.worker_step(generation, index, event).cameras.len() == set.cameras.len(),
        set.worker_step(generation, index, event).details == set.details,
        set.worker_step(generation, index, event).generation == set.generation,
{
    let after = set.worker_step(generation, index, event);
    if set.owns(generation, index) {
        assert forall|i: int| 0 <= i < after.cameras.len() implies (#[trigger] after.cameras[i]).wf()
            && after.cameras[i].spec == after.details[i].resolved() by {
            if i != index {
                assert(after.cameras[i] == set.cameras[i]);
            } else {
                assert(set.cameras[i].wf());
            }
        }
    }
}

/// An event of a capture loop touches no camera but its own.
pub proof fn lemma_worker_step_is_local(
    set: RegistryView,
    generation: u64,
    index: int,
    event: EventView,
    other: int,
)
    requires
        0 <= other < set.cameras.len(),
        other != index,
    ensures
        set.worker_step(generation, index, event).cameras[other] == set.cameras[other],
{
}

/// Once the set is replaced, a loop that was launched for the set before is
/// told to leave at its next event, and that event changes nothing in the
/// new set.
pub proof fn lemma_retired_loop_leaves(
    set: RegistryView,
    fresh: RegistryView,
    index: int,
    event: EventView,
)
    ensures
        next_generation(set.generation) != set.generation,
        set.replaced_by(fresh).worker_action(set.generation, index, event) == LoopAction::Exit,
        set.replaced_by(fresh).worker_step(set.generation, index, event) == set.replaced_by(
            fresh,
        ),
{
}

} // verus!
