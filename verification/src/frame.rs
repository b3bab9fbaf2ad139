//! Decoded frames and the single-slot cache that holds the latest one.

use vstd::prelude::*;

verus! {

/// One decoded image. A frame is never changed after capture: a newer frame
/// replaces it whole.
#[derive(Debug, PartialEq, Eq)]
pub struct Frame {
    /// Number of pixel rows.
    pub rows: u32,
    /// Number of pixel columns.
    pub cols: u32,
    /// The decoder's code for the layout of one pixel.
    pub pixel_format: i32,
    /// The pixel data, row by row.
    pub data: Vec<u8>,
}

/// The mathematical value of a [`Frame`].
pub struct FrameView {
    pub rows: nat,
    pub cols: nat,
    pub pixel_format: int,
    pub data: Seq<u8>,
}

impl View for Frame {
    type V = FrameView;

    open spec fn view(&self) -> FrameView {
        FrameView {
            rows: self.rows as nat,
            cols: self.cols as nat,
            pixel_format: self.pixel_format as int,
            data: self.data@,
        }
    }
}

impl FrameView {
    /// A frame without pixels: no rows, no columns or no data.
    pub open spec fn is_blank(self) -> bool {
        self.rows == 0 || self.cols == 0 || self.data.len() == 0
    }
}

impl Frame {
    /// A frame of the given dimensions and data.
    pub fn new(rows: u32, cols: u32, pixel_format: i32, data: Vec<u8>) -> (res: Frame)
        ensures
            res@ == (FrameView {
                rows: rows as nat,
                cols: cols as nat,
                pixel_format: pixel_format as int,
                data: data@,
            }),
    {
        Frame { rows, cols, pixel_format, data }
    }

    /// Whether the frame holds no pixels.
    pub fn empty(&self) -> (res: bool)
        ensures
            res == self@.is_blank(),
    {
        self.rows == 0 || self.cols == 0 || self.data.len() == 0
    }
}

impl Clone for Frame {
    /// A copy of this frame, pixel for pixel.
    fn clone(&self) -> (res: Frame)
        ensures
            res@ == self@,
    {
        let data = self.data.clone();
        Frame { rows: self.rows, cols: self.cols, pixel_format: self.pixel_format, data }
    }
}

/// The view of an optional frame.
pub open spec fn slot_view(slot: Option<Frame>) -> Option<FrameView> {
    match slot {
        Some(frame) => Some(frame@),
        None => None,
    }
}

/// Holds the most recent frame of one camera, or none before the first
/// capture. No history is kept.
#[derive(Debug)]
pub struct FrameCache {
    slot: Option<Frame>,
}

impl View for FrameCache {
    type V = Option<FrameView>;

    closed spec fn view(&self) -> Option<FrameView> {
        slot_view(self.slot)
    }
}

impl FrameCache {
    /// A cache that holds no frame yet.
    pub fn new() -> (res: FrameCache)
        ensures
            res@ is None,
    {
        FrameCache { slot: None }
    }

    /// Replaces whatever the cache holds with `frame`.
    pub fn write(&mut self, frame: Frame)
        ensures
            final(self)@ == Some(frame@),
        no_unwind
    {
        self.slot = Some(frame);
    }

    /// A copy of the frame that the cache holds, if it holds one. The cache is
    /// left as it is.
    pub fn read(&self) -> (res: Option<Frame>)
        ensures
            slot_view(res) == self@,
    {
        match &self.slot {
            Some(frame) => Some(frame.clone()),
            None => None,
        }
    }

    /// Whether the cache holds a frame.
    pub fn is_filled(&self) -> (res: bool)
        ensures
            res == (self@ is Some),
    {
        self.slot.is_some()
    }
}

} // verus!
