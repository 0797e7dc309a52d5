//! Frame metadata and the alignment of full-sensor calibration artifacts to
//! a frame's subframe window.
use vstd::prelude::*;
use crate::frame::{crop_model, cropped, model_wf, Frame, FrameModel};

verus! {

/// A subframe of the sensor in full-resolution coordinates, 1-based origin.
#[derive(Clone, Copy, PartialEq, Eq, Structural, Debug)]
pub struct Rect {
    pub x: u32,
    pub y: u32,
    pub width: u32,
    pub height: u32,
}

impl Rect {
    /// The origin is 1-based and the far edges are representable.
    pub open spec fn wf(&self) -> bool {
        &&& self.x >= 1
        &&& self.y >= 1
        &&& self.x + self.width <= u32::MAX
        &&& self.y + self.height <= u32::MAX
    }
}

/// What the decoded frame tells about its geometry.
#[derive(Clone, Copy, PartialEq, Eq, Structural, Debug)]
pub struct FrameMetadata {
    /// On-instrument downsampling factor, at least 1.
    pub scale_factor: u32,
    /// The subframe read out; absent for a full-sensor frame.
    pub subframe_rect: Option<Rect>,
}

impl FrameMetadata {
    pub open spec fn wf(&self) -> bool {
        &&& self.scale_factor >= 1
        &&& (self.subframe_rect matches Some(r) ==> r.wf())
    }
}

/// The window of an artifact, at scale factor `sf`, that covers the subframe
/// `rect`: origin `(x - 1, y - 1) / sf` and size `(w, h) / sf`, floored.
pub open spec fn window_of(rect: Rect, sf: u32) -> (int, int, int, int) {
    (
        (rect.x as int - 1) / (sf as int),
        (rect.y as int - 1) / (sf as int),
        rect.width as int / (sf as int),
        rect.height as int / (sf as int),
    )
}

/// Computes `window_of(rect, sf)`.
pub fn crop_window(rect: Rect, sf: u32) -> (r: (usize, usize, usize, usize))
    requires
        rect.wf(),
        sf >= 1,
    ensures
        (r.0 as int, r.1 as int, r.2 as int, r.3 as int) == window_of(rect, sf),
{
    (
        ((rect.x - 1) / sf) as usize,
        ((rect.y - 1) / sf) as usize,
        (rect.width / sf) as usize,
        (rect.height / sf) as usize,
    )
}

/// The artifact `a` as it lines up with a `width` by `height` frame described
/// by `md`: cropped to the subframe window when there is one, and kept only if
/// the window lies inside the artifact and the result has the frame's size.
pub open spec fn aligned_model(a: FrameModel, md: FrameMetadata, width: int, height: int) -> Option<FrameModel> {
    let c = match md.subframe_rect {
        Some(rect) => {
            let (x, y, w, h) = window_of(rect, md.scale_factor);
            if x + w <= a.width && y + h <= a.height {
                Some(crop_model(a, x, y, w, h))
            } else {
                None
            }
        },
        None => Some(a),
    };
    match c {
        Some(m) => if m.width == width && m.height == height { Some(m) } else { None },
        None => None,
    }
}

/// Lines the artifact up with a `width` by `height` frame described by `md`;
/// `None` when it cannot be (the stage that uses it is then skipped).
pub fn align_artifact(artifact: &Frame, md: &FrameMetadata, width: usize, height: usize) -> (r: Option<Frame>)
    requires
        artifact.wf(),
        md.wf(),
    ensures
        match r {
            Some(f) => f.wf() && aligned_model(artifact@, *md, width as int, height as int) == Some(f@),
            None => aligned_model(artifact@, *md, width as int, height as int).is_none(),
        },
{
    let c = match md.subframe_rect {
        Some(rect) => {
            let (x, y, w, h) = crop_window(rect, md.scale_factor);
            if x <= artifact.width && w <= artifact.width - x && y <= artifact.height && h <= artifact.height - y {
                Some(artifact.crop(x, y, w, h))
            } else {
                None
            }
        },
        None => Some(artifact.clone_frame()),
    };
    match c {
        Some(m) => if m.width == width && m.height == height { Some(m) } else { None },
        None => None,
    }
}

proof fn lemma_whole_window(s: Seq<u32>, w: int, h: int)
    requires
        w > 0,
        h >= 0,
        s.len() == w * h,
    ensures
        cropped(s, w, 0, 0, w, h) == s,
{
    let c = cropped(s, w, 0, 0, w, h);
    assert forall|i: int| 0 <= i < s.len() implies c[i] == s[i] by {
        vstd::arithmetic::div_mod::lemma_fundamental_div_mod(i, w);
        vstd::arithmetic::mul::lemma_mul_is_commutative(w, i / w);
    }
    assert(c =~= s);
}

/// At scale factor 1, a subframe that starts at the sensor's first pixel
/// and spans a `width` by `height` frame lines up an artifact of that same
/// size with the frame unchanged, pixel for pixel.
pub proof fn lemma_full_frame_alignment(a: FrameModel, width: u32, height: u32)
    requires
        model_wf(a),
        width >= 1,
        a.width == width,
        a.height == height,
        width + 1 <= u32::MAX,
        height + 1 <= u32::MAX,
    ensures
        aligned_model(
            a,
            FrameMetadata { scale_factor: 1, subframe_rect: Some(Rect { x: 1, y: 1, width, height }) },
            width as int,
            height as int,
        ) == Some(a),
{
    let c = crop_model(a, 0, 0, width as int, height as int);
    assert forall|b: int| 0 <= b < a.bands.len() implies c.bands[b] == a.bands[b] by {
        lemma_whole_window(a.bands[b], width as int, height as int);
    }
    assert(c.bands =~= a.bands);
}

} // verus!
