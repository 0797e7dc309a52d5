//! Multi-band integer frames and the window crop they share with the
//! calibration artifacts.
use vstd::prelude::*;

verus! {

/// The samples of the `w` by `h` window at (`left`, `top`) of a row-major
/// buffer whose rows are `src_width` samples long.
pub open spec fn cropped<T>(src: Seq<T>, src_width: int, left: int, top: int, w: int, h: int) -> Seq<T> {
    Seq::new((w * h) as nat, |i: int| src[(top + i / w) * src_width + left + i % w])
}

/// Relies on sciimg::crop_2d: it copies the requested window row by row and
/// panics when the window leaves the source.
pub assume_specification<T: Copy>[ sciimg::crop_2d::<T> ](
    from_array: &[T],
    from_width: usize,
    from_height: usize,
    left_x: usize,
    top_y: usize,
    to_width: usize,
    to_height: usize,
) -> (r: Vec<T>)
    requires
        left_x + to_width <= from_width,
        top_y + to_height <= from_height,
        from_array@.len() == from_width * from_height,
    ensures
        r@ == cropped(from_array@, from_width as int, left_x as int, top_y as int, to_width as int, to_height as int),
;

/// A sample taken by `cropped` comes from inside the source.
pub proof fn lemma_crop_index_in_bounds(sw: int, sh: int, left: int, top: int, w: int, h: int, i: int)
    requires
        0 <= left,
        0 <= top,
        0 <= w,
        0 <= h,
        left + w <= sw,
        top + h <= sh,
        0 <= i < w * h,
    ensures
        0 <= (top + i / w) * sw + left + i % w < sw * sh,
{
    assert(w > 0) by (nonlinear_arith)
        requires
            0 <= i < w * h,
            0 <= w,
            0 <= h,
    ;
    let q = i / w;
    let r = i % w;
    vstd::arithmetic::div_mod::lemma_fundamental_div_mod(i, w);
    assert(0 <= r < w);
    assert(0 <= q < h) by (nonlinear_arith)
        requires
            i == w * q + r,
            0 <= r < w,
            0 <= i < w * h,
            w > 0,
    ;
    assert(0 <= (top + q) * sw + left + r < sw * sh) by (nonlinear_arith)
        requires
            0 <= q < h,
            0 <= r < w,
            0 <= left,
            0 <= top,
            left + w <= sw,
            top + h <= sh,
    ;
}

/// What a frame is: its size and one row-major sample sequence per band.
pub ghost struct FrameModel {
    pub width: int,
    pub height: int,
    pub bands: Seq<Seq<u32>>,
}

/// The window (`left`, `top`, `w`, `h`) of every band of `m`.
pub open spec fn crop_model(m: FrameModel, left: int, top: int, w: int, h: int) -> FrameModel {
    FrameModel {
        width: w,
        height: h,
        bands: Seq::new(m.bands.len(), |b: int| cropped(m.bands[b], m.width, left, top, w, h)),
    }
}

/// A frame of one band (grey or still mosaiced) or three bands (red, green,
/// blue), each band row-major.
pub struct Frame {
    pub width: usize,
    pub height: usize,
    pub bands: Vec<Vec<u32>>,
}

impl View for Frame {
    type V = FrameModel;

    open spec fn view(&self) -> FrameModel {
        FrameModel {
            width: self.width as int,
            height: self.height as int,
            bands: Seq::new(self.bands@.len(), |b: int| self.bands@[b]@),
        }
    }
}

/// Every band of `m` holds `width * height` samples, and there is at least one.
pub open spec fn model_wf(m: FrameModel) -> bool {
    &&& m.bands.len() >= 1
    &&& forall|b: int| 0 <= b < m.bands.len() ==> #[trigger] m.bands[b].len() == m.width * m.height
}

/// A copy of `s`.
pub fn copy_samples(s: &Vec<u32>) -> (r: Vec<u32>)
    ensures
        r@ == s@,
{
    let mut r: Vec<u32> = Vec::with_capacity(s.len());
    let mut i: usize = 0;
    while i < s.len()
        invariant
            i <= s@.len(),
            r@ == s@.subrange(0, i as int),
        decreases s@.len() - i,
    {
        r.push(s[i]);
        i = i + 1;
    }
    assert(r@ =~= s@);
    r
}

/// Whether `a` and `b` hold the same samples.
pub fn same_samples(a: &Vec<u32>, b: &Vec<u32>) -> (r: bool)
    ensures
        r == (a@ == b@),
{
    if a.len() != b.len() {
        return false;
    }
    let mut i: usize = 0;
    while i < a.len()
        invariant
            a@.len() == b@.len(),
            i <= a@.len(),
            forall|k: int| 0 <= k < i ==> a@[k] == b@[k],
        decreases a@.len() - i,
    {
        if a[i] != b[i] {
            return false;
        }
        i = i + 1;
    }
    assert(a@ =~= b@);
    true
}

impl Frame {
    pub open spec fn wf(&self) -> bool {
        model_wf(self@)
    }

    /// A copy of the frame.
    pub fn clone_frame(&self) -> (r: Frame)
        ensures
            r@ == self@,
    {
        let mut bands: Vec<Vec<u32>> = Vec::with_capacity(self.bands.len());
        let mut b: usize = 0;
        while b < self.bands.len()
            invariant
                b <= self.bands@.len(),
                bands@.len() == b,
                forall|k: int| 0 <= k < b ==> #[trigger] bands@[k]@ == self.bands@[k]@,
            decreases self.bands@.len() - b,
        {
            bands.push(copy_samples(&self.bands[b]));
            b = b + 1;
        }
        let r = Frame { width: self.width, height: self.height, bands };
        assert(r@.bands =~= self@.bands);
        r
    }

    /// A decoded frame whose three bands are identical carries one band of
    /// data (a grey or mosaiced image stored as colour): it is reduced to
    /// that band. Any other frame is kept as it is.
    pub fn merge_gray_bands(self) -> (r: Frame)
        requires
            self.wf(),
        ensures
            r.wf(),
            r@ == (if self@.bands.len() == 3 && self@.bands[1] == self@.bands[0] && self@.bands[2] == self@.bands[0] {
                FrameModel { width: self@.width, height: self@.height, bands: seq![self@.bands[0]] }
            } else {
                self@
            }),
    {
        if self.bands.len() != 3 {
            return self;
        }
        assert(self@.bands[0] == self.bands@[0]@);
        assert(self@.bands[1] == self.bands@[1]@);
        assert(self@.bands[2] == self.bands@[2]@);
        if same_samples(&self.bands[0], &self.bands[1]) && same_samples(&self.bands[0], &self.bands[2]) {
            let mut bands = self.bands;
            bands.truncate(1);
            let r = Frame { width: self.width, height: self.height, bands };
            assert(r@.bands =~= seq![self@.bands[0]]);
            r
        } else {
            self
        }
    }

    /// The window (`left`, `top`, `w`, `h`) of every band.
    pub fn crop(&self, left: usize, top: usize, w: usize, h: usize) -> (r: Frame)
        requires
            self.wf(),
            left + w <= self.width,
            top + h <= self.height,
        ensures
            r.wf(),
            r@ == crop_model(self@, left as int, top as int, w as int, h as int),
    {
        let mut bands: Vec<Vec<u32>> = Vec::with_capacity(self.bands.len());
        let mut b: usize = 0;
        while b < self.bands.len()
            invariant
                self.wf(),
                left + w <= self.width,
                top + h <= self.height,
                b <= self.bands@.len(),
                bands@.len() == b,
                forall|k: int| 0 <= k < b ==> #[trigger] bands@[k]@ == cropped(
                    self@.bands[k],
                    self.width as int,
                    left as int,
                    top as int,
                    w as int,
                    h as int,
                ),
            decreases self.bands@.len() - b,
        {
            assert(self@.bands[b as int] == self.bands@[b as int]@);
            let band = sciimg::crop_2d(self.bands[b].as_slice(), self.width, self.height, left, top, w, h);
            bands.push(band);
            b = b + 1;
        }
        let r = Frame { width: w, height: h, bands };
        assert(r@.bands =~= crop_model(self@, left as int, top as int, w as int, h as int).bands);
        r
    }
}

} // verus!
