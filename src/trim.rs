//! Removal of the frame border, with the matching update of the subframe.
use vstd::prelude::*;
use crate::align::{FrameMetadata, Rect};
use crate::frame::{crop_model, Frame, FrameModel};

verus! {

/// Pixels removed from each edge.
pub const BORDER: u32 = 2;

/// The border is trimmed from full-resolution subframes only, and only where
/// both the frame and the subframe are large enough to lose two pixels per edge.
pub open spec fn trim_eligible(md: FrameMetadata, width: int, height: int) -> bool {
    &&& md.scale_factor == 1
    &&& md.subframe_rect is Some
    &&& width >= 2 * BORDER
    &&& height >= 2 * BORDER
    &&& md.subframe_rect.unwrap().width >= 2 * BORDER
    &&& md.subframe_rect.unwrap().height >= 2 * BORDER
}

/// The subframe moved in by the border on each side.
pub open spec fn trimmed_rect(r: Rect) -> Rect {
    Rect {
        x: (r.x + BORDER) as u32,
        y: (r.y + BORDER) as u32,
        width: (r.width - 2 * BORDER) as u32,
        height: (r.height - 2 * BORDER) as u32,
    }
}

/// The frame and metadata after the trim stage.
pub open spec fn trimmed_model(f: FrameModel, md: FrameMetadata) -> (FrameModel, FrameMetadata) {
    if trim_eligible(md, f.width, f.height) {
        (
            crop_model(f, BORDER as int, BORDER as int, f.width - 2 * BORDER, f.height - 2 * BORDER),
            FrameMetadata { scale_factor: md.scale_factor, subframe_rect: Some(trimmed_rect(md.subframe_rect.unwrap())) },
        )
    } else {
        (f, md)
    }
}

/// Removes a two-pixel border from every edge of an eligible frame and moves
/// its subframe in to match; any other frame and its metadata are unchanged.
pub fn trim_border(frame: &Frame, md: &FrameMetadata) -> (r: (Frame, FrameMetadata))
    requires
        frame.wf(),
        md.wf(),
    ensures
        r.0.wf(),
        r.1.wf(),
        (r.0@, r.1) == trimmed_model(frame@, *md),
{
    if md.scale_factor == 1 && frame.width >= 4 && frame.height >= 4 {
        if let Some(rect) = md.subframe_rect {
            if rect.width >= 4 && rect.height >= 4 {
                let f = frame.crop(2, 2, frame.width - 4, frame.height - 4);
                let nr = Rect { x: rect.x + 2, y: rect.y + 2, width: rect.width - 4, height: rect.height - 4 };
                let m = FrameMetadata { scale_factor: md.scale_factor, subframe_rect: Some(nr) };
                return (f, m);
            }
        }
    }
    (frame.clone_frame(), *md)
}

/// A full-resolution frame read out from the sensor's first pixel loses two
/// pixels on each edge, and its subframe moves to start two pixels in.
pub proof fn lemma_trim_full_frame(f: FrameModel, width: u32, height: u32)
    requires
        f.width == width,
        f.height == height,
        width >= 2 * BORDER,
        height >= 2 * BORDER,
        width + 1 <= u32::MAX,
        height + 1 <= u32::MAX,
    ensures
        ({
            let md = FrameMetadata { scale_factor: 1, subframe_rect: Some(Rect { x: 1, y: 1, width, height }) };
            let (t, tmd) = trimmed_model(f, md);
            &&& t.width == width - 4
            &&& t.height == height - 4
            &&& t.bands.len() == f.bands.len()
            &&& tmd.subframe_rect == Some(Rect { x: 3, y: 3, width: (width - 4) as u32, height: (height - 4) as u32 })
        }),
{
}

} // verus!
