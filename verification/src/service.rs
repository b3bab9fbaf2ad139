//! The answers of the snapshot service, as values. Turning an answer into an
//! HTTP response is left to the server that carries it.

use vstd::prelude::*;
use crate::config::{details_view, CameraDetails, DetailsView};
use crate::frame::Frame;
use crate::registry::{encode_frame, encoded_as, snapshot_of, AppState, BuildError};

verus! {

/// Status of an answer that carries what was asked for.
pub const STATUS_OK: u16 = 200;

/// Status of an answer to a request for an image that is not there.
pub const STATUS_NOT_FOUND: u16 = 404;

/// Status of an answer to a refresh that could not open a camera.
pub const STATUS_FAILED: u16 = 500;

/// How the body of an answer is written.
#[derive(Clone, Copy, Debug, PartialEq, Eq, Structural)]
pub enum ContentKind {
    /// An encoded image, `image/jpeg`.
    Jpeg,
    /// A JSON value.
    Json,
    /// A message in plain text.
    Text,
}

/// What the service answers.
#[derive(Debug)]
pub enum Reply {
    /// The encoded snapshot of a camera.
    Image(Vec<u8>),
    /// No such camera, no frame yet, or no encoding.
    NotFound,
    /// The number of cameras.
    Count(usize),
    /// The configured cameras, by position.
    Cameras(Vec<CameraDetails>),
    /// The camera set was replaced.
    Refreshed,
    /// The camera set was not replaced, because a camera did not open.
    RefreshFailed(BuildError),
}

/// The mathematical value of a [`Reply`].
pub enum ReplyView {
    Image(Seq<u8>),
    NotFound,
    Count(nat),
    Cameras(Seq<DetailsView>),
    Refreshed,
    /// Holds the position of the camera that did not open.
    RefreshFailed(nat),
}

impl View for Reply {
    type V = ReplyView;

    open spec fn view(&self) -> ReplyView {
        match self {
            Reply::Image(bytes) => ReplyView::Image(bytes@),
            Reply::NotFound => ReplyView::NotFound,
            Reply::Count(n) => ReplyView::Count(*n as nat),
            Reply::Cameras(list) => ReplyView::Cameras(details_view(list@)),
            Reply::Refreshed => ReplyView::Refreshed,
            Reply::RefreshFailed(error) => ReplyView::RefreshFailed(error.index as nat),
        }
    }
}

impl ReplyView {
    /// The HTTP status that goes with an answer.
    pub open spec fn status(self) -> u16 {
        match self {
            ReplyView::NotFound => STATUS_NOT_FOUND,
            ReplyView::RefreshFailed(_) => STATUS_FAILED,
            _ => STATUS_OK,
        }
    }
}

impl ReplyView {
    /// How the body of an answer is written: an image as JPEG, a count and a
    /// list as JSON, everything else as a plain message.
    pub open spec fn content(self) -> ContentKind {
        match self {
            ReplyView::Image(_) => ContentKind::Jpeg,
            ReplyView::Count(_) => ContentKind::Json,
            ReplyView::Cameras(_) => ContentKind::Json,
            _ => ContentKind::Text,
        }
    }
}

impl Reply {
    /// How the body of this answer is written.
    pub fn content(&self) -> (res: ContentKind)
        ensures
            res == self@.content(),
    {
        match self {
            Reply::Image(_) => ContentKind::Jpeg,
            Reply::Count(_) => ContentKind::Json,
            Reply::Cameras(_) => ContentKind::Json,
            _ => ContentKind::Text,
        }
    }

    /// The HTTP status that goes with this answer.
    pub fn status(&self) -> (res: u16)
        ensures
            res == self@.status(),
    {
        match self {
            Reply::NotFound => STATUS_NOT_FOUND,
            Reply::RefreshFailed(_) => STATUS_FAILED,
            _ => STATUS_OK,
        }
    }
}

/// The answer to a request for an image, given the snapshot if there is one.
pub fn image_reply(image: Option<Vec<u8>>) -> (res: Reply)
    ensures
        image is Some ==> res == Reply::Image(image->0),
        image is None ==> res == Reply::NotFound,
{
    match image {
        Some(bytes) => Reply::Image(bytes),
        None => Reply::NotFound,
    }
}

/// The image of a reply, if it carries one.
pub open spec fn reply_image(reply: Reply) -> Option<Vec<u8>> {
    match reply {
        Reply::Image(bytes) => Some(bytes),
        _ => None,
    }
}

/// The answer to a request for an image, given a copy of the camera's latest
/// frame if it has one. The frame is encoded here, after the lookup, so that
/// a caller need not keep the camera set to itself while an image is encoded.
pub fn snapshot_reply<F: Fn(&Frame) -> Option<Vec<u8>>>(
    frame: Option<Frame>,
    encode: &F,
) -> (res: Reply)
    requires
        forall|f: &Frame| call_requires(*encode, (f,)),
    ensures
        res is Image || res is NotFound,
        frame is None ==> res is NotFound,
        frame is Some ==> encoded_as(*encode, frame->0, reply_image(res)),
{
    match frame {
        Some(frame) => image_reply(encode_frame(&frame, encode)),
        None => Reply::NotFound,
    }
}

/// Answers a request for the snapshot of the camera at `index`.
pub fn get_image<F: Fn(&Frame) -> Option<Vec<u8>>>(
    state: &AppState,
    index: usize,
    encode: &F,
) -> (res: Reply)
    requires
        forall|f: &Frame| call_requires(*encode, (f,)),
    ensures
        res is Image || res is NotFound,
        res is Image ==> snapshot_of(*encode, state@.cameras, index as int, Some(res->Image_0)),
        res is Image ==> res->Image_0@.len() > 0,
        res is NotFound ==> snapshot_of(*encode, state@.cameras, index as int, None),
        index >= state@.cameras.len() ==> res is NotFound,
{
    image_reply(state.image_at(index, encode))
}

/// Answers a request for the number of cameras.
pub fn get_cameras_count(state: &AppState) -> (res: Reply)
    ensures
        res == Reply::Count(state@.cameras.len() as usize),
        res@ == ReplyView::Count(state@.cameras.len()),
{
    Reply::Count(state.count())
}

/// Answers a request for the list of cameras.
pub fn get_cameras(state: &AppState) -> (res: Reply)
    ensures
        res@ == ReplyView::Cameras(state@.details),
{
    Reply::Cameras(state.list())
}

/// Answers a refresh request, given the outcome of building the new set. A
/// set that was built takes the place of the current one; a build that
/// failed leaves the current one as it is.
pub fn refresh_cameras(state: &mut AppState, built: Result<AppState, BuildError>) -> (res: Reply)
    ensures
        built is Ok ==> res == Reply::Refreshed,
        built is Ok ==> final(state)@ == old(state)@.replaced_by(built->Ok_0@),
        built is Err ==> res == Reply::RefreshFailed(built->Err_0),
        built is Err ==> final(state)@ == old(state)@,
{
    match built {
        Ok(fresh) => {
            state.install(fresh);
            Reply::Refreshed
        },
        Err(error) => Reply::RefreshFailed(error),
    }
}

} // verus!
