//! Rescaling of working values into the 16-bit output range.
use vstd::prelude::*;
use crate::flatfield::{saturate, saturated};
use crate::frame::{Frame, FrameModel};
use sciimg::enums::ImageMode;
use sciimg::imagebuffer::ImageBuffer;
use sciimg::rgbimage::RgbImage;

verus! {

/// Largest value of the 16-bit output range.
pub const OUTPUT_MAX: u32 = 65535;

/// `v` on a scale where `max` maps to the top of the output range; values
/// above `max` are clipped.
pub open spec fn scaled(v: u32, max: u32) -> u32 {
    if v >= max { OUTPUT_MAX } else { (v * OUTPUT_MAX / (max as int)) as u32 }
}

/// Correlated normalisation: one scale for all bands, set by `max`.
pub open spec fn correlated_model(f: FrameModel, max: u32) -> FrameModel {
    FrameModel {
        width: f.width,
        height: f.height,
        bands: Seq::new(f.bands.len(), |b: int| Seq::new(f.bands[b].len(), |i: int| scaled(f.bands[b][i], max))),
    }
}

/// What sciimg's decorrelated stretch makes of the three bands of a `width`
/// by `height` colour frame. The result depends on these values alone.
pub uninterp spec fn decorrelated16(bands: Seq<Seq<u16>>, width: nat, height: nat) -> Seq<Seq<u16>>;

/// Relies on sciimg::rgbimage::RgbImage::normalize_to_16bit_decorrelated:
/// each band stretched over the range it spans once hot pixels are removed
/// and the band is smoothed. The image is made with
/// RgbImage::new_from_buffers_rgb from ImageBuffer::from_vec_u16 and read back
/// with ImageBuffer::to_vector_u16, which saturates into 0..=65535 and keeps
/// the length. Hot-pixel removal walks the interior of the frame, so it needs
/// one row and one column; its windows are addressed in `i32`.
#[verifier::external_body]
fn stretch_color_bands(bands: &Vec<Vec<u16>>, width: usize, height: usize) -> (r: Vec<Vec<u16>>)
    requires
        bands@.len() == 3,
        forall|k: int| 0 <= k < 3 ==> (#[trigger] bands@[k])@.len() == width * height,
        1 <= width,
        1 <= height,
        width + 2 <= i32::MAX,
        height + 2 <= i32::MAX,
    ensures
        r@.len() == 3,
        forall|k: int| 0 <= k < 3 ==> (#[trigger] r@[k])@ == decorrelated16(
            Seq::new(3, |j: int| bands@[j]@),
            width as nat,
            height as nat,
        )[k],
        forall|k: int| 0 <= k < 3 ==> (#[trigger] r@[k])@.len() == width * height,
{
    let b: Vec<ImageBuffer> = bands.iter().map(|v| ImageBuffer::from_vec_u16(v, width, height).unwrap()).collect();
    let mut img = RgbImage::new_from_buffers_rgb(&b[0], &b[1], &b[2], ImageMode::U16BIT).unwrap();
    img.normalize_to_16bit_decorrelated();
    (0..3).map(|k| img.get_band(k).to_vector_u16()).collect()
}

/// Whether the decorrelated stretch applies to `f`: a colour frame of at
/// least one pixel, small enough for the stretch's window arithmetic.
pub open spec fn stretch_applies(f: FrameModel) -> bool {
    &&& f.bands.len() == 3
    &&& 1 <= f.width
    &&& 1 <= f.height
    &&& f.width + 2 <= i32::MAX
    &&& f.height + 2 <= i32::MAX
}

/// Decorrelated normalisation: each band of a colour frame, held in 16 bits,
/// stretched over its own range; any other frame unchanged.
pub open spec fn decorrelated_model(f: FrameModel) -> FrameModel {
    if stretch_applies(f) {
        let d = decorrelated16(
            Seq::new(3, |j: int| saturated(f.bands[j])),
            f.width as nat,
            f.height as nat,
        );
        FrameModel {
            width: f.width,
            height: f.height,
            bands: Seq::new(3, |b: int| Seq::new(f.bands[b].len(), |i: int| d[b][i] as u32)),
        }
    } else {
        f
    }
}

/// Scaling never leaves the 16-bit range.
pub proof fn lemma_scaled_bound(v: u32, max: u32)
    requires
        max > 0,
    ensures
        scaled(v, max) <= OUTPUT_MAX,
{
    if v < max {
        assert(v * OUTPUT_MAX / (max as int) <= OUTPUT_MAX) by (nonlinear_arith)
            requires
                0 <= v < max,
        {
            vstd::arithmetic::div_mod::lemma_div_is_ordered((v * OUTPUT_MAX) as int, (max * OUTPUT_MAX) as int, max as int);
            vstd::arithmetic::div_mod::lemma_div_by_multiple(OUTPUT_MAX as int, max as int);
        }
    }
}

/// Computes `scaled(v, max)`.
pub fn scale_sample(v: u32, max: u32) -> (r: u32)
    requires
        max > 0,
    ensures
        r == scaled(v, max),
        r <= OUTPUT_MAX,
{
    if v >= max {
        return OUTPUT_MAX;
    }
    proof {
        vstd::arithmetic::mul::lemma_mul_strict_inequality(v as int, max as int, OUTPUT_MAX as int);
        vstd::arithmetic::div_mod::lemma_div_is_ordered((v * OUTPUT_MAX) as int, (max * OUTPUT_MAX) as int, max as int);
        vstd::arithmetic::div_mod::lemma_div_by_multiple(OUTPUT_MAX as int, max as int);
        vstd::arithmetic::mul::lemma_mul_is_commutative(max as int, OUTPUT_MAX as int);
    }
    ((v as u64) * (OUTPUT_MAX as u64) / (max as u64)) as u32
}

fn scale_band(band: &Vec<u32>, max: u32) -> (r: Vec<u32>)
    requires
        max > 0,
    ensures
        r@ == Seq::new(band@.len(), |i: int| scaled(band@[i], max)),
{
    let mut r: Vec<u32> = Vec::with_capacity(band.len());
    let mut i: usize = 0;
    while i < band.len()
        invariant
            max > 0,
            i <= band@.len(),
            r@.len() == i,
            forall|k: int| 0 <= k < i ==> r@[k] == scaled(band@[k], max),
        decreases band@.len() - i,
    {
        r.push(scale_sample(band[i], max));
        i = i + 1;
    }
    assert(r@ =~= Seq::new(band@.len(), |i: int| scaled(band@[i], max)));
    r
}

/// Rescales every band by the one factor that takes `max` to the top of the
/// 16-bit range, keeping the bands' relative intensities.
pub fn normalize_correlated(frame: &Frame, max: u32) -> (r: Frame)
    requires
        frame.wf(),
        max > 0,
    ensures
        r.wf(),
        r@ == correlated_model(frame@, max),
{
    let mut bands: Vec<Vec<u32>> = Vec::with_capacity(frame.bands.len());
    let mut b: usize = 0;
    while b < frame.bands.len()
        invariant
            frame.wf(),
            max > 0,
            b <= frame.bands@.len(),
            bands@.len() == b,
            forall|k: int| 0 <= k < b ==> #[trigger] bands@[k]@ == Seq::new(
                frame@.bands[k].len(),
                |i: int| scaled(frame@.bands[k][i], max),
            ),
        decreases frame.bands@.len() - b,
    {
        assert(frame@.bands[b as int] == frame.bands@[b as int]@);
        bands.push(scale_band(&frame.bands[b], max));
        b = b + 1;
    }
    let r = Frame { width: frame.width, height: frame.height, bands };
    assert(r@.bands =~= correlated_model(frame@, max).bands);
    r
}

fn widen_band(s: &Vec<u16>) -> (r: Vec<u32>)
    ensures
        r@.len() == s@.len(),
        forall|i: int| 0 <= i < s@.len() ==> r@[i] == s@[i] as u32,
{
    let mut r: Vec<u32> = Vec::with_capacity(s.len());
    let mut i: usize = 0;
    while i < s.len()
        invariant
            i <= s@.len(),
            r@.len() == i,
            forall|k: int| 0 <= k < i ==> r@[k] == s@[k] as u32,
        decreases s@.len() - i,
    {
        r.push(s[i] as u32);
        i = i + 1;
    }
    r
}

/// Stretches each band of a colour frame over the whole 16-bit range on its
/// own. A frame that is not three-band, or is empty, comes back unchanged.
pub fn normalize_decorrelated(frame: &Frame) -> (r: Frame)
    requires
        frame.wf(),
    ensures
        r.wf(),
        r@ == decorrelated_model(frame@),
{
    if frame.bands.len() != 3 || frame.width < 1 || frame.height < 1 || frame.width > 2147483645
        || frame.height > 2147483645 {
        return frame.clone_frame();
    }
    let mut held: Vec<Vec<u16>> = Vec::with_capacity(3);
    held.push(saturate(&frame.bands[0]));
    held.push(saturate(&frame.bands[1]));
    held.push(saturate(&frame.bands[2]));
    assert(frame@.bands[0] == frame.bands@[0]@);
    assert(frame@.bands[1] == frame.bands@[1]@);
    assert(frame@.bands[2] == frame.bands@[2]@);
    assert(Seq::new(3, |j: int| held@[j]@) =~= Seq::new(3, |j: int| saturated(frame@.bands[j])));
    let d = stretch_color_bands(&held, frame.width, frame.height);
    let red = widen_band(&d[0]);
    let green = widen_band(&d[1]);
    let blue = widen_band(&d[2]);
    let r = Frame { width: frame.width, height: frame.height, bands: vec![red, green, blue] };
    let ghost m = decorrelated_model(frame@);
    assert(r@.bands[0] =~= m.bands[0]);
    assert(r@.bands[1] =~= m.bands[1]);
    assert(r@.bands[2] =~= m.bands[2]);
    assert(r@.bands =~= m.bands);
    r
}

} // verus!
