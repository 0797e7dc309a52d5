//! Colour reconstruction of a mosaiced single-band frame.
use vstd::prelude::*;
use crate::frame::{Frame, FrameModel};
use crate::pipeline::DebayerMethod;

verus! {

/// The three bands (red, green, blue) that sciimg's reconstruction makes of
/// a `width` by `height` mosaic. The result depends on these values alone.
pub uninterp spec fn debayered(mosaic: Seq<u16>, width: nat, height: nat) -> Seq<Seq<u16>>;

/// Relies on sciimg::debayer::debayer, the Malvar-He-Cutler kernels, on a
/// buffer made by ImageBuffer::from_vec_u16 and read back band by band with
/// ImageBuffer::to_vector_u16 (which saturates into 0..=65535). Both
/// constructors return `Ok` once the length matches the size; the window
/// arithmetic is done in `i32`, two pixels beyond the edges.
#[verifier::external_body]
fn reconstruct(mosaic: &Vec<u16>, width: usize, height: usize) -> (r: Vec<Vec<u16>>)
    requires
        mosaic@.len() == width * height,
        width + 2 <= i32::MAX,
        height + 2 <= i32::MAX,
    ensures
        r@.len() == 3,
        forall|k: int| 0 <= k < 3 ==> (#[trigger] r@[k])@ == debayered(mosaic@, width as nat, height as nat)[k],
        forall|k: int| 0 <= k < 3 ==> (#[trigger] r@[k])@.len() == width * height,
{
    let buffer = sciimg::imagebuffer::ImageBuffer::from_vec_u16(mosaic, width, height).unwrap();
    let rgb = sciimg::debayer::debayer(&buffer).unwrap();
    vec![rgb.get_band(0).to_vector_u16(), rgb.get_band(1).to_vector_u16(), rgb.get_band(2).to_vector_u16()]
}

/// Every sample of `s` fits in 16 bits.
pub open spec fn fits_u16(s: Seq<u32>) -> bool {
    forall|i: int| 0 <= i < s.len() ==> #[trigger] s[i] <= u16::MAX
}

pub open spec fn narrowed(s: Seq<u32>) -> Seq<u16> {
    Seq::new(s.len(), |i: int| s[i] as u16)
}

pub open spec fn widened(s: Seq<u16>) -> Seq<u32> {
    Seq::new(s.len(), |i: int| s[i] as u32)
}

/// The debayer stage: a single-band frame becomes the three reconstructed
/// bands; a frame that already has colour is unchanged.
pub open spec fn debayer_model(f: FrameModel) -> FrameModel {
    if f.bands.len() == 1 {
        FrameModel {
            width: f.width,
            height: f.height,
            bands: Seq::new(
                3,
                |k: int| widened(debayered(narrowed(f.bands[0]), f.width as nat, f.height as nat)[k]),
            ),
        }
    } else {
        f
    }
}

fn narrow(s: &Vec<u32>) -> (r: Vec<u16>)
    requires
        fits_u16(s@),
    ensures
        r@ == narrowed(s@),
{
    let mut r: Vec<u16> = Vec::with_capacity(s.len());
    let mut i: usize = 0;
    while i < s.len()
        invariant
            fits_u16(s@),
            i <= s@.len(),
            r@.len() == i,
            forall|k: int| 0 <= k < i ==> r@[k] == s@[k] as u16,
        decreases s@.len() - i,
    {
        r.push(s[i] as u16);
        i = i + 1;
    }
    assert(r@ =~= narrowed(s@));
    r
}

fn widen(s: &Vec<u16>) -> (r: Vec<u32>)
    ensures
        r@ == widened(s@),
{
    let mut r: Vec<u32> = Vec::with_capacity(s.len());
    let mut i: usize = 0;
    while i < s.len()
        invariant
            i <= s@.len(),
            r@.len() == i,
            forall|k: int| 0 <= k < i ==> r@[k] == s@[k] as u32,
        decreases s@.len() - i,
    {
        r.push(s[i] as u32);
        i = i + 1;
    }
    assert(r@ =~= widened(s@));
    r
}

/// Reconstructs the colour bands of a mosaiced single-band frame with
/// `method`; a frame with colour comes back unchanged.
pub fn debayer_frame(frame: &Frame, method: DebayerMethod) -> (r: Frame)
    requires
        frame.wf(),
        frame.width + 2 <= i32::MAX,
        frame.height + 2 <= i32::MAX,
        frame@.bands.len() == 1 ==> fits_u16(frame@.bands[0]),
    ensures
        r.wf(),
        r@ == debayer_model(frame@),
{
    if frame.bands.len() != 1 {
        return frame.clone_frame();
    }
    assert(frame@.bands[0] == frame.bands@[0]@);
    let mosaic = narrow(&frame.bands[0]);
    let rgb = match method {
        DebayerMethod::Malvar => reconstruct(&mosaic, frame.width, frame.height),
    };
    let red = widen(&rgb[0]);
    let green = widen(&rgb[1]);
    let blue = widen(&rgb[2]);
    let r = Frame { width: frame.width, height: frame.height, bands: vec![red, green, blue] };
    assert(r@.bands =~= debayer_model(frame@).bands);
    r
}

} // verus!
