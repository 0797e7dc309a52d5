//! The validity mask: binarisation and application to a frame.
use vstd::prelude::*;
use crate::frame::{Frame, FrameModel};

verus! {

/// A mask sample is valid only when it exceeds this value (0-255 scale).
pub const MASK_THRESHOLD: u32 = 200;

/// Full-scale value of an 8-bit mask sample.
pub const MASK_FULL_SCALE: u32 = 255;

/// 1 for a valid mask sample, 0 for an invalid one. The threshold is high on
/// purpose: after resampling, the invalid region grows rather than the valid one.
pub open spec fn binarized(v: u32) -> u32 {
    if v > MASK_THRESHOLD { 1 } else { 0 }
}

pub open spec fn binarize_model(s: Seq<u32>) -> Seq<u32> {
    Seq::new(s.len(), |i: int| binarized(s[i]))
}

/// A binary mask shown on the 0-255 scale of a stored mask: valid becomes 255.
pub open spec fn full_scale_model(s: Seq<u32>) -> Seq<u32> {
    Seq::new(s.len(), |i: int| if s[i] == 0 { 0 } else { MASK_FULL_SCALE })
}

/// `v` kept where the binary mask sample `m` is valid, else zero.
pub open spec fn masked(v: u32, m: u32) -> u32 {
    if m == 0 { 0 } else { v }
}

/// Every band of `f` masked by the binary mask `bin`.
pub open spec fn masked_model(f: FrameModel, bin: Seq<u32>) -> FrameModel {
    FrameModel {
        width: f.width,
        height: f.height,
        bands: Seq::new(f.bands.len(), |b: int| Seq::new(f.bands[b].len(), |i: int| masked(f.bands[b][i], bin[i]))),
    }
}

/// Binarises a mask stored on the 0-255 scale.
pub fn binarize_mask(s: &Vec<u32>) -> (r: Vec<u32>)
    ensures
        r@ == binarize_model(s@),
{
    let mut r: Vec<u32> = Vec::with_capacity(s.len());
    let mut i: usize = 0;
    while i < s.len()
        invariant
            i <= s@.len(),
            r@.len() == i,
            forall|k: int| 0 <= k < i ==> r@[k] == binarized(s@[k]),
        decreases s@.len() - i,
    {
        if s[i] > MASK_THRESHOLD {
            r.push(1);
        } else {
            r.push(0);
        }
        i = i + 1;
    }
    assert(r@ =~= binarize_model(s@));
    r
}

fn mask_band(band: &Vec<u32>, bin: &Vec<u32>) -> (r: Vec<u32>)
    requires
        bin@.len() == band@.len(),
    ensures
        r@ == Seq::new(band@.len(), |i: int| masked(band@[i], bin@[i])),
{
    let mut r: Vec<u32> = Vec::with_capacity(band.len());
    let mut i: usize = 0;
    while i < band.len()
        invariant
            bin@.len() == band@.len(),
            i <= band@.len(),
            r@.len() == i,
            forall|k: int| 0 <= k < i ==> r@[k] == masked(band@[k], bin@[k]),
        decreases band@.len() - i,
    {
        if bin[i] == 0 {
            r.push(0);
        } else {
            r.push(band[i]);
        }
        i = i + 1;
    }
    assert(r@ =~= Seq::new(band@.len(), |i: int| masked(band@[i], bin@[i])));
    r
}

/// Zeroes, in every band, the samples that the binary mask `bin` marks invalid.
pub fn apply_mask(frame: &Frame, bin: &Vec<u32>) -> (r: Frame)
    requires
        frame.wf(),
        bin@.len() == frame.width * frame.height,
    ensures
        r.wf(),
        r@ == masked_model(frame@, bin@),
{
    let mut bands: Vec<Vec<u32>> = Vec::with_capacity(frame.bands.len());
    let mut b: usize = 0;
    while b < frame.bands.len()
        invariant
            frame.wf(),
            bin@.len() == frame.width * frame.height,
            b <= frame.bands@.len(),
            bands@.len() == b,
            forall|k: int| 0 <= k < b ==> #[trigger] bands@[k]@ == Seq::new(
                frame@.bands[k].len(),
                |i: int| masked(frame@.bands[k][i], bin@[i]),
            ),
        decreases frame.bands@.len() - b,
    {
        assert(frame@.bands[b as int] == frame.bands@[b as int]@);
        bands.push(mask_band(&frame.bands[b], bin));
        b = b + 1;
    }
    let r = Frame { width: frame.width, height: frame.height, bands };
    assert(r@.bands =~= masked_model(frame@, bin@).bands);
    r
}

/// Binarising a mask that holds no valid sample gives it back unchanged. On
/// any mask with a valid sample, binarising twice empties it, since 1 is
/// below the threshold; see the full-scale form below.
pub proof fn lemma_binarize_idempotent(s: Seq<u32>)
    requires
        forall|i: int| 0 <= i < s.len() ==> s[i] <= MASK_THRESHOLD,
    ensures
        binarize_model(binarize_model(s)) == binarize_model(s),
        binarize_model(s) == s.map_values(|v: u32| 0u32),
{
    assert(binarize_model(binarize_model(s)) =~= binarize_model(s));
    assert(binarize_model(s) =~= s.map_values(|v: u32| 0u32));
}

/// A binarised mask, stored back on the 0-255 scale and binarised again, is
/// the same binary mask.
pub proof fn lemma_binarize_full_scale_idempotent(s: Seq<u32>)
    ensures
        binarize_model(full_scale_model(binarize_model(s))) == binarize_model(s),
{
    assert(binarize_model(full_scale_model(binarize_model(s))) =~= binarize_model(s));
}

} // verus!
