//! The set of active cameras: lookup by position, snapshots, and the
//! replacement of the whole set while the service runs.
//!
//! Opening a device and encoding a frame are done by the caller's functions,
//! which are handed in; what they return decides, and the contracts here say
//! how.

use vstd::prelude::*;
use crate::address::{CameraSpec, CameraSpecView};
use crate::camera::{Camera, CameraView, EventView, LoopAction, LoopEvent, OpenError};
use crate::config::{details_view, duplicate_details, CameraConfig, CameraDetails, DetailsView};
use crate::frame::{slot_view, Frame, FrameView};

verus! {

/// The views of a list of cameras, in order.
pub open spec fn camera_views(cameras: Seq<Camera>) -> Seq<CameraView> {
    cameras.map_values(|c: Camera| c@)
}

/// The latest frame of the camera at `index`, or none where `index` is past
/// the last camera or that camera has captured nothing yet.
pub open spec fn frame_at(cameras: Seq<CameraView>, index: int) -> Option<FrameView> {
    if 0 <= index < cameras.len() {
        cameras[index].slot
    } else {
        None
    }
}

/// Whether `res` is what a snapshot of `frame` gives when `encode` is the
/// encoder: the encoder's bytes where it returned some, and nothing where it
/// failed or returned no bytes at all.
pub open spec fn encoded_as<F: Fn(&Frame) -> Option<Vec<u8>>>(
    encode: F,
    frame: Frame,
    res: Option<Vec<u8>>,
) -> bool {
    match res {
        Some(bytes) => bytes@.len() > 0 && call_ensures(encode, (&frame,), Some(bytes)),
        None => call_ensures(encode, (&frame,), None) || exists|bytes: Vec<u8>|
            bytes@.len() == 0 && #[trigger] call_ensures(encode, (&frame,), Some(bytes)),
    }
}

/// Whether `res` is what a snapshot of the camera at `index` gives: nothing
/// where there is no such camera or it has no frame yet, and else the
/// encoding of a copy of its latest frame.
pub open spec fn snapshot_of<F: Fn(&Frame) -> Option<Vec<u8>>>(
    encode: F,
    cameras: Seq<CameraView>,
    index: int,
    res: Option<Vec<u8>>,
) -> bool {
    match frame_at(cameras, index) {
        None => res is None,
        Some(latest) => exists|frame: Frame|
            frame@ == latest && #[trigger] encoded_as(encode, frame, res),
    }
}

/// Whether the opener gave `outcome` for a camera with this name and address.
pub open spec fn opens<F: Fn(&CameraSpec) -> bool>(
    open: F,
    spec: CameraSpecView,
    outcome: bool,
) -> bool {
    exists|s: CameraSpec| s@ == spec && #[trigger] call_ensures(open, (&s,), outcome)
}

/// The number of cameras.
pub fn get_camera_count(cameras: &Vec<Camera>) -> (res: usize)
    ensures
        res == cameras@.len(),
{
    cameras.len()
}

/// A copy of the latest frame of the camera at `camera_index`.
pub fn get_camera_frame(camera_index: usize, cameras: &Vec<Camera>) -> (res: Option<Frame>)
    ensures
        slot_view(res) == frame_at(camera_views(cameras@), camera_index as int),
{
    if camera_index < cameras.len() {
        cameras[camera_index].get_frame()
    } else {
        None
    }
}

/// Encodes one frame. An encoder that fails, or that returns no bytes, gives
/// no image.
pub fn encode_frame<F: Fn(&Frame) -> Option<Vec<u8>>>(
    frame: &Frame,
    encode: &F,
) -> (res: Option<Vec<u8>>)
    requires
        call_requires(*encode, (frame,)),
    ensures
        encoded_as(*encode, *frame, res),
        res is Some ==> res->0@.len() > 0,
{
    match encode(frame) {
        Some(bytes) => {
            if bytes.len() > 0 {
                Some(bytes)
            } else {
                None
            }
        },
        None => None,
    }
}

/// The encoded snapshot of the camera at `camera_index`. There is none where
/// the index is out of range, where the camera has no frame yet, and where
/// the encoder gives none.
pub fn get_camera_image<F: Fn(&Frame) -> Option<Vec<u8>>>(
    camera_index: usize,
    cameras: &Vec<Camera>,
    encode: &F,
) -> (res: Option<Vec<u8>>)
    requires
        forall|f: &Frame| call_requires(*encode, (f,)),
    ensures
        snapshot_of(*encode, camera_views(cameras@), camera_index as int, res),
        camera_index >= cameras@.len() ==> res is None,
        res is Some ==> res->0@.len() > 0,
{
    match get_camera_frame(camera_index, cameras) {
        Some(frame) => encode_frame(&frame, encode),
        None => None,
    }
}

/// Building a camera set stopped at a camera that did not open.
#[derive(Debug)]
pub struct BuildError {
    /// The position of that camera in the configuration.
    pub index: usize,
    /// The failure itself.
    pub cause: OpenError,
}

/// The mathematical value of an [`AppState`].
pub struct RegistryView {
    /// The cameras, by position.
    pub cameras: Seq<CameraView>,
    /// The configuration entry of each camera, by position.
    pub details: Seq<DetailsView>,
    /// Where the camera list was read from.
    pub config_path: Seq<char>,
    /// How many times the set was replaced, counted around `u64`.
    pub generation: u64,
}

/// The generation that follows `generation`.
pub open spec fn next_generation(generation: u64) -> u64 {
    if generation == u64::MAX {
        0
    } else {
        (generation + 1) as u64
    }
}

/// The cameras of a set that was just built from `details`: each one opened,
/// holding no frame, and asked to start.
pub open spec fn fresh_cameras(details: Seq<DetailsView>) -> Seq<CameraView> {
    details.map_values(|d: DetailsView| CameraView::opened(d.resolved()).started())
}

impl RegistryView {
    /// The two lists agree: they are equally long, and each camera is the one
    /// that the entry at its position configures. Each camera is well formed.
    pub open spec fn wf(self) -> bool {
        &&& self.cameras.len() == self.details.len()
        &&& forall|i: int|
            0 <= i < self.cameras.len() ==> (#[trigger] self.cameras[i]).spec
                == self.details[i].resolved()
        &&& forall|i: int| 0 <= i < self.cameras.len() ==> (#[trigger] self.cameras[i]).wf()
    }

    /// The set that takes the place of this one when `fresh` is installed:
    /// the cameras and entries of `fresh`, under the next generation. Where
    /// the camera list is read from stays as it was.
    pub open spec fn replaced_by(self, fresh: RegistryView) -> RegistryView {
        RegistryView {
            cameras: fresh.cameras,
            details: fresh.details,
            config_path: self.config_path,
            generation: next_generation(self.generation),
        }
    }

    /// Whether a loop launched for `generation` and `index` belongs to a
    /// camera of this set.
    pub open spec fn owns(self, generation: u64, index: int) -> bool {
        generation == self.generation && 0 <= index < self.cameras.len()
    }

    /// The set after the loop for `generation` and `index` reports `event`.
    /// A loop of a camera that is no longer in the set changes nothing.
    pub open spec fn worker_step(self, generation: u64, index: int, event: EventView)
        -> RegistryView {
        if self.owns(generation, index) {
            RegistryView {
                cameras: self.cameras.update(index, self.cameras[index].step(event)),
                ..self
            }
        } else {
            self
        }
    }

    /// What that loop is told: a loop of a camera that is no longer in the
    /// set leaves.
    pub open spec fn worker_action(self, generation: u64, index: int, event: EventView)
        -> LoopAction {
        if self.owns(generation, index) {
            self.cameras[index].action(event)
        } else {
            LoopAction::Exit
        }
    }
}

/// Whether the opener opened every camera of `details`.
pub open spec fn all_open<F: Fn(&CameraSpec) -> bool>(open: F, details: Seq<DetailsView>) -> bool {
    forall|k: int| 0 <= k < details.len() ==> opens(open, (#[trigger] details[k]).resolved(), true)
}

/// Whether the camera at `index` is the first of `details` that the opener
/// did not open.
pub open spec fn first_refusal<F: Fn(&CameraSpec) -> bool>(
    open: F,
    details: Seq<DetailsView>,
    index: int,
) -> bool {
    &&& 0 <= index < details.len()
    &&& opens(open, details[index].resolved(), false)
    &&& forall|k: int| 0 <= k < index ==> opens(open, (#[trigger] details[k]).resolved(), true)
}

/// The set that a build from `details` makes: one camera for each entry, in
/// order, each opened, holding no frame and asked to start.
pub open spec fn built_view(details: Seq<DetailsView>, config_path: Seq<char>) -> RegistryView {
    RegistryView { cameras: fresh_cameras(details), details, config_path, generation: 0 }
}

/// Whether `error` reports the first camera of `details` that did not open.
pub open spec fn build_failure<F: Fn(&CameraSpec) -> bool>(
    open: F,
    details: Seq<DetailsView>,
    error: BuildError,
) -> bool {
    &&& first_refusal(open, details, error.index as int)
    &&& error.cause.spec@ == details[error.index as int].resolved()
}

/// Whether `res` is what building a set from `details` gives when `open` is
/// the opener. The cameras are opened in order. If all open, the set holds
/// them all. The first one that does not open ends the build with an error
/// that names it, and no set is made.
pub open spec fn built_from<F: Fn(&CameraSpec) -> bool>(
    open: F,
    details: Seq<DetailsView>,
    config_path: Seq<char>,
    res: Result<AppState, BuildError>,
) -> bool {
    match res {
        Ok(state) => state@ == built_view(details, config_path) && all_open(open, details),
        Err(error) => build_failure(open, details, error),
    }
}

/// The active cameras with their configuration entries, and where the
/// configuration is kept. A position in the set is what callers name a
/// camera by; replacing the set may put another camera at a position.
#[derive(Debug)]
pub struct AppState {
    cameras: Vec<Camera>,
    cameras_detailed: Vec<CameraDetails>,
    config_path: String,
    generation: u64,
}

impl View for AppState {
    type V = RegistryView;

    closed spec fn view(&self) -> RegistryView {
        RegistryView {
            cameras: camera_views(self.cameras@),
            details: details_view(self.cameras_detailed@),
            config_path: self.config_path@,
            generation: self.generation,
        }
    }
}

impl AppState {
    /// The set is well formed at all times: the cameras and their entries
    /// never disagree.
    #[verifier::type_invariant]
    closed spec fn inv(&self) -> bool {
        self@.wf()
    }

    /// Opens and starts one camera for each entry of `config`, in order. A
    /// camera that does not open aborts the build: none of the later ones is
    /// tried.
    pub fn build<F: Fn(&CameraSpec) -> bool>(
        config: CameraConfig,
        config_path: String,
        open: &F,
    ) -> (res: Result<AppState, BuildError>)
        requires
            forall|s: &CameraSpec| call_requires(*open, (s,)),
        ensures
            built_from(*open, details_view(config.cameras@), config_path@, res),
            res is Ok ==> res->Ok_0@.wf(),
    {
        let details = config.cameras;
        let ghost entries = details_view(details@);
        let mut cameras: Vec<Camera> = Vec::new();
        let mut i: usize = 0;
        while i < details.len()
            invariant
                i <= details.len(),
                cameras.len() == i,
                entries == details_view(details@),
                entries == details_view(config.cameras@),
                forall|s: &CameraSpec| call_requires(*open, (s,)),
                forall|k: int|
                    0 <= k < i ==> (#[trigger] cameras@[k])@ == CameraView::opened(
                        entries[k].resolved(),
                    ).started(),
                forall|k: int| 0 <= k < i ==> opens(*open, (#[trigger] entries[k]).resolved(), true),
            decreases details.len() - i,
        {
            let spec = details[i].resolve();
            let opened = open(&spec);
            match Camera::new(spec, opened) {
                Ok(mut camera) => {
                    camera.start();
                    cameras.push(camera);
                },
                Err(cause) => {
                    return Err(BuildError { index: i, cause });
                },
            }
            i = i + 1;
        }
        let state = AppState { cameras, cameras_detailed: details, config_path, generation: 0 };
        assert(state@.cameras =~= fresh_cameras(entries));
        Ok(state)
    }

    /// Puts the cameras of `fresh` in the place of the current ones, together
    /// with their entries, in one step. The path of the camera list is kept.
    /// Each camera that leaves is asked to stop, not waited for, and handed
    /// back. Loops launched for the old set are told to leave at their next
    /// event.
    pub fn install(&mut self, fresh: AppState) -> (retired: Vec<Camera>)
        ensures
            final(self)@ == old(self)@.replaced_by(fresh@),
            final(self)@.wf(),
            camera_views(retired@) == old(self)@.cameras.map_values(|c: CameraView| c.stopped()),
    {
        proof {
            use_type_invariant(&*self);
            use_type_invariant(&fresh);
        }
        let next: u64 = if self.generation == u64::MAX {
            0
        } else {
            self.generation + 1
        };
        let config_path = self.config_path.clone();
        let AppState { cameras, cameras_detailed, config_path: _, generation: _ } = fresh;
        let mut previous = AppState { cameras, cameras_detailed, config_path, generation: next };
        std::mem::swap(self, &mut previous);
        let mut retired = previous.cameras;
        let ghost before = camera_views(retired@);
        let mut i: usize = 0;
        while i < retired.len()
            invariant
                i <= retired.len(),
                retired.len() == before.len(),
                forall|k: int| 0 <= k < i ==> (#[trigger] retired@[k])@ == before[k].stopped(),
                forall|k: int| i <= k < retired.len() ==> (#[trigger] retired@[k])@ == before[k],
            decreases retired.len() - i,
        {
            retired[i].release();
            i = i + 1;
        }
        retired
    }

    /// Builds a new set from `config` and installs it. If a camera does not
    /// open, the current set stays as it is.
    pub fn refresh<F: Fn(&CameraSpec) -> bool>(
        &mut self,
        config: CameraConfig,
        open: &F,
    ) -> (res: Result<Vec<Camera>, BuildError>)
        requires
            forall|s: &CameraSpec| call_requires(*open, (s,)),
        ensures
            res is Ok ==> all_open(*open, details_view(config.cameras@)),
            res is Ok ==> final(self)@ == old(self)@.replaced_by(
                built_view(details_view(config.cameras@), old(self)@.config_path),
            ),
            res is Ok ==> camera_views(res->Ok_0@) == old(self)@.cameras.map_values(
                |c: CameraView| c.stopped(),
            ),
            res is Ok ==> final(self)@.cameras.len() == config.cameras@.len() && final(self)@.wf(),
            res is Err ==> final(self)@ == old(self)@,
            res is Err ==> build_failure(*open, details_view(config.cameras@), res->Err_0),
    {
        let path = self.config_path.clone();
        match AppState::build(config, path, open) {
            Ok(fresh) => {
                let retired = self.install(fresh);
                Ok(retired)
            },
            Err(error) => Err(error),
        }
    }

    /// The number of cameras in the set.
    pub fn count(&self) -> (res: usize)
        ensures
            res == self@.cameras.len(),
            res == self@.details.len(),
            self@.wf(),
    {
        proof {
            use_type_invariant(self);
        }
        get_camera_count(&self.cameras)
    }

    /// The configuration entries of the cameras in the set, by position.
    pub fn list(&self) -> (res: Vec<CameraDetails>)
        ensures
            details_view(res@) == self@.details,
            res@.len() == self@.cameras.len(),
            self@.wf(),
    {
        proof {
            use_type_invariant(self);
        }
        duplicate_details(&self.cameras_detailed)
    }

    /// The name and resolved address of each camera in the set, by position.
    pub fn list_specs(&self) -> (res: Vec<CameraSpec>)
        ensures
            res@.len() == self@.cameras.len(),
            res@.len() == self@.details.len(),
            forall|i: int|
                0 <= i < res@.len() ==> (#[trigger] res@[i])@ == self@.cameras[i].spec && res@[i]@
                    == self@.details[i].resolved(),
    {
        proof {
            use_type_invariant(self);
        }
        let mut res: Vec<CameraSpec> = Vec::new();
        let mut i: usize = 0;
        while i < self.cameras.len()
            invariant
                i <= self.cameras.len(),
                res.len() == i,
                self@.wf(),
                forall|k: int|
                    0 <= k < i ==> (#[trigger] res@[k])@ == self@.cameras[k].spec && res@[k]@
                        == self@.details[k].resolved(),
            decreases self.cameras.len() - i,
        {
            res.push(self.cameras[i].spec().clone());
            i = i + 1;
        }
        res
    }

    /// Where the camera list was read from.
    pub fn config_path(&self) -> (res: &String)
        ensures
            res@ == self@.config_path,
    {
        &self.config_path
    }

    /// The generation of the set, which each replacement changes. A capture
    /// loop is launched with the generation of its camera's set.
    pub fn generation(&self) -> (res: u64)
        ensures
            res == self@.generation,
    {
        self.generation
    }

    /// A copy of the latest frame of the camera at `index`.
    pub fn frame_at(&self, index: usize) -> (res: Option<Frame>)
        ensures
            slot_view(res) == frame_at(self@.cameras, index as int),
            index >= self@.cameras.len() ==> res is None,
            res is Some ==> !res->0@.is_blank(),
    {
        proof {
            use_type_invariant(self);
        }
        get_camera_frame(index, &self.cameras)
    }

    /// The encoded snapshot of the camera at `index`.
    pub fn image_at<F: Fn(&Frame) -> Option<Vec<u8>>>(
        &self,
        index: usize,
        encode: &F,
    ) -> (res: Option<Vec<u8>>)
        requires
            forall|f: &Frame| call_requires(*encode, (f,)),
        ensures
            snapshot_of(*encode, self@.cameras, index as int, res),
            index >= self@.cameras.len() ==> res is None,
            res is Some ==> res->0@.len() > 0,
    {
        get_camera_image(index, &self.cameras, encode)
    }

    /// Takes one event of the capture loop that was launched for the camera
    /// at `index` of the set of `generation`, and returns what that loop does
    /// next.
    pub fn worker_step(
        &mut self,
        generation: u64,
        index: usize,
        event: LoopEvent,
    ) -> (action: LoopAction)
        ensures
            final(self)@ == old(self)@.worker_step(generation, index as int, event@),
            action == old(self)@.worker_action(generation, index as int, event@),
            final(self)@.wf(),
    {
        proof {
            use_type_invariant(&*self);
        }
        if generation == self.generation && index < self.cameras.len() {
            // The set is taken out whole and put back whole, so that the
            // cameras and their entries are never seen apart.
            let mut taken = AppState {
                cameras: Vec::new(),
                cameras_detailed: Vec::new(),
                config_path: String::new(),
                generation: 0,
            };
            std::mem::swap(self, &mut taken);
            let AppState { mut cameras, cameras_detailed, config_path, generation: current } = taken;
            let action = cameras[index].step(event);
            proof {
                let before = old(self)@;
                let after = camera_views(cameras@);
                assert(after =~= before.cameras.update(
                    index as int,
                    before.cameras[index as int].step(event@),
                ));
                assert forall|i: int| 0 <= i < after.len() implies (#[trigger] after[i]).wf()
                    && after[i].spec == before.details[i].resolved() by {
                    if i != index {
                        assert(after[i] == before.cameras[i]);
                    } else {
                        assert(before.cameras[i].wf());
                    }
                }
            }
            let mut updated = AppState { cameras, cameras_detailed, config_path, generation: current };
            std::mem::swap(self, &mut updated);
            action
        } else {
            LoopAction::Exit
        }
    }
}

} // verus!
