//! Per-band colour weights.
use vstd::prelude::*;
use crate::frame::{Frame, FrameModel};

verus! {

/// A weight is a count of thousandths: this value stands for 1.0.
pub const WEIGHT_ONE: u32 = 1000;

/// The red, green and blue scalars of a profile, in thousandths.
#[derive(Clone, Copy, PartialEq, Eq, Structural, Debug)]
pub struct ColorWeights {
    pub red: u32,
    pub green: u32,
    pub blue: u32,
}

impl ColorWeights {
    /// Weights that change nothing.
    pub fn neutral() -> (r: ColorWeights)
        ensures
            r.red == WEIGHT_ONE && r.green == WEIGHT_ONE && r.blue == WEIGHT_ONE,
    {
        ColorWeights { red: WEIGHT_ONE, green: WEIGHT_ONE, blue: WEIGHT_ONE }
    }

    /// The weight of band `b` (0 red, 1 green, 2 blue).
    pub open spec fn of_band(&self, b: int) -> u32 {
        if b == 0 { self.red } else if b == 1 { self.green } else { self.blue }
    }
}

/// Sample `v` scaled by `w` thousandths, floored and saturated.
pub open spec fn weighted(v: u32, w: u32) -> u32 {
    if v * w / (WEIGHT_ONE as int) > u32::MAX { u32::MAX } else { (v * w / (WEIGHT_ONE as int)) as u32 }
}

/// A three-band frame with each band scaled by its weight; any other frame
/// unchanged.
pub open spec fn weighted_model(f: FrameModel, w: ColorWeights) -> FrameModel {
    if f.bands.len() == 3 {
        FrameModel {
            width: f.width,
            height: f.height,
            bands: Seq::new(3, |b: int| Seq::new(f.bands[b].len(), |i: int| weighted(f.bands[b][i], w.of_band(b)))),
        }
    } else {
        f
    }
}

/// Computes `weighted(v, w)`.
pub fn weight_sample(v: u32, w: u32) -> (r: u32)
    ensures
        r == weighted(v, w),
{
    proof {
        vstd::arithmetic::mul::lemma_mul_upper_bound(v as int, u32::MAX as int, w as int, u32::MAX as int);
    }
    let q = (v as u64) * (w as u64) / (WEIGHT_ONE as u64);
    if q > u32::MAX as u64 {
        u32::MAX
    } else {
        q as u32
    }
}

fn weight_band(band: &Vec<u32>, w: u32) -> (r: Vec<u32>)
    ensures
        r@ == Seq::new(band@.len(), |i: int| weighted(band@[i], w)),
{
    let mut r: Vec<u32> = Vec::with_capacity(band.len());
    let mut i: usize = 0;
    while i < band.len()
        invariant
            i <= band@.len(),
            r@.len() == i,
            forall|k: int| 0 <= k < i ==> r@[k] == weighted(band@[k], w),
        decreases band@.len() - i,
    {
        r.push(weight_sample(band[i], w));
        i = i + 1;
    }
    assert(r@ =~= Seq::new(band@.len(), |i: int| weighted(band@[i], w)));
    r
}

/// Scales the red, green and blue bands of a colour frame by their weights.
/// A frame that is not three-band comes back unchanged.
pub fn apply_weights(frame: &Frame, w: &ColorWeights) -> (r: Frame)
    requires
        frame.wf(),
    ensures
        r.wf(),
        r@ == weighted_model(frame@, *w),
{
    if frame.bands.len() != 3 {
        return frame.clone_frame();
    }
    let red = weight_band(&frame.bands[0], w.red);
    let green = weight_band(&frame.bands[1], w.green);
    let blue = weight_band(&frame.bands[2], w.blue);
    let r = Frame { width: frame.width, height: frame.height, bands: vec![red, green, blue] };
    assert(frame@.bands[0] == frame.bands@[0]@);
    assert(frame@.bands[1] == frame.bands@[1]@);
    assert(frame@.bands[2] == frame.bands@[2]@);
    assert(r@.bands =~= weighted_model(frame@, *w).bands);
    r
}

/// Weighting leaves a single-band frame as it is, whatever the weights.
pub proof fn lemma_weights_keep_grayscale(f: FrameModel, w: ColorWeights)
    requires
        f.bands.len() == 1,
    ensures
        weighted_model(f, w) == f,
{
}

} // verus!
