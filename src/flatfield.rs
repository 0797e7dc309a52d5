//! Flat-field correction, on samples held in the 16-bit working range.
use vstd::prelude::*;
use crate::frame::{Frame, FrameModel};
use sciimg::enums::ImageMode;
use sciimg::imagebuffer::ImageBuffer;
use sciimg::rgbimage::RgbImage;

verus! {

/// What sciimg's flat-field correction makes of a `width` by `height` band
/// and a flat of the same size. The result depends on these values alone.
pub uninterp spec fn flat_fielded(band: Seq<u16>, flat: Seq<u16>, width: nat, height: nat) -> Seq<u16>;

/// Relies on sciimg::rgbimage::RgbImage::apply_flat: each sample scaled by
/// the flat's mean and divided by the flat's own sample. The one-band images
/// are made with RgbImage::new_with_bands and set_band from
/// ImageBuffer::from_vec_u16 (which returns `Ok` once the length matches the
/// size), and read back with ImageBuffer::to_vector_u16, which saturates into
/// 0..=65535 and keeps the length.
#[verifier::external_body]
fn apply_flat_band(band: &Vec<u16>, flat: &Vec<u16>, width: usize, height: usize) -> (r: Vec<u16>)
    requires
        band@.len() == width * height,
        flat@.len() == width * height,
    ensures
        r@ == flat_fielded(band@, flat@, width as nat, height as nat),
        r@.len() == width * height,
{
    let mut img = RgbImage::new_with_bands(width, height, 1, ImageMode::U16BIT).unwrap();
    img.set_band(&ImageBuffer::from_vec_u16(band, width, height).unwrap(), 0);
    let mut gain = RgbImage::new_with_bands(width, height, 1, ImageMode::U16BIT).unwrap();
    gain.set_band(&ImageBuffer::from_vec_u16(flat, width, height).unwrap(), 0);
    img.apply_flat(&gain);
    img.get_band(0).to_vector_u16()
}

/// `s` held in 16 bits: samples above 65535 become 65535.
pub open spec fn saturated(s: Seq<u32>) -> Seq<u16> {
    Seq::new(s.len(), |i: int| if s[i] > u16::MAX { u16::MAX } else { s[i] as u16 })
}

/// `s` held in 16 bits, as `saturated` says.
pub fn saturate(s: &Vec<u32>) -> (r: Vec<u16>)
    ensures
        r@ == saturated(s@),
{
    let mut r: Vec<u16> = Vec::with_capacity(s.len());
    let mut i: usize = 0;
    while i < s.len()
        invariant
            i <= s@.len(),
            r@.len() == i,
            forall|k: int| 0 <= k < i ==> r@[k] == saturated(s@)[k],
        decreases s@.len() - i,
    {
        if s[i] > 65535 {
            r.push(65535);
        } else {
            r.push(s[i] as u16);
        }
        i = i + 1;
    }
    assert(r@ =~= saturated(s@));
    r
}

/// The flat band that corrects band `b`: its own when the flat has one, else
/// the flat's first band.
pub open spec fn flat_band_index(flat: FrameModel, b: int) -> int {
    if b < flat.bands.len() { b } else { 0 }
}

/// Band `b` of `f` corrected by its flat band.
pub open spec fn flat_band_model(f: FrameModel, flat: FrameModel, b: int) -> Seq<u32> {
    let c = flat_fielded(
        saturated(f.bands[b]),
        saturated(flat.bands[flat_band_index(flat, b)]),
        f.width as nat,
        f.height as nat,
    );
    Seq::new(f.bands[b].len(), |i: int| c[i] as u32)
}

/// Every band of `f` corrected by its flat band.
pub open spec fn flat_model(f: FrameModel, flat: FrameModel) -> FrameModel {
    FrameModel {
        width: f.width,
        height: f.height,
        bands: Seq::new(f.bands.len(), |b: int| flat_band_model(f, flat, b)),
    }
}

/// Applies the flat field `flat`, of the frame's size, to every band; band
/// `b` uses the flat's band `b`, or its first band when it has fewer.
pub fn apply_flat(frame: &Frame, flat: &Frame) -> (r: Frame)
    requires
        frame.wf(),
        flat.wf(),
        flat.width == frame.width,
        flat.height == frame.height,
    ensures
        r.wf(),
        r@ == flat_model(frame@, flat@),
{
    let mut bands: Vec<Vec<u32>> = Vec::with_capacity(frame.bands.len());
    let mut b: usize = 0;
    while b < frame.bands.len()
        invariant
            frame.wf(),
            flat.wf(),
            flat.width == frame.width,
            flat.height == frame.height,
            b <= frame.bands@.len(),
            bands@.len() == b,
            forall|k: int| 0 <= k < b ==> #[trigger] bands@[k]@ == flat_band_model(frame@, flat@, k),
        decreases frame.bands@.len() - b,
    {
        let fb: usize = if b < flat.bands.len() { b } else { 0 };
        assert(frame@.bands[b as int] == frame.bands@[b as int]@);
        assert(flat@.bands[fb as int] == flat.bands@[fb as int]@);
        assert(flat@.bands[fb as int].len() == flat.width * flat.height);
        assert(frame@.bands[b as int].len() == frame.width * frame.height);
        let s = saturate(&frame.bands[b]);
        let g = saturate(&flat.bands[fb]);
        let c = apply_flat_band(&s, &g, frame.width, frame.height);
        let mut out: Vec<u32> = Vec::with_capacity(c.len());
        let mut i: usize = 0;
        while i < c.len()
            invariant
                i <= c@.len(),
                out@.len() == i,
                forall|k: int| 0 <= k < i ==> out@[k] == c@[k] as u32,
            decreases c@.len() - i,
        {
            out.push(c[i] as u32);
            i = i + 1;
        }
        assert(out@ =~= flat_band_model(frame@, flat@, b as int));
        bands.push(out);
        b = b + 1;
    }
    let r = Frame { width: frame.width, height: frame.height, bands };
    assert(r@.bands =~= flat_model(frame@, flat@).bands);
    r
}

} // verus!
