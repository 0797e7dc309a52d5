//! The calibration of one engineering-camera frame, stage by stage, and the
//! decisions of the driver around it.
use vstd::prelude::*;
use crate::align::{align_artifact, aligned_model, FrameMetadata};
use crate::color::{apply_weights, weighted_model, ColorWeights};
use crate::debayer::{debayer_frame, debayer_model};
use crate::decompand::{DecompandTable, DEFAULT_DATA_MAX, TABLE_LEN};
use crate::flatfield::{apply_flat, flat_model};
use crate::frame::{lemma_crop_index_in_bounds, model_wf, Frame, FrameModel};
use crate::instrument::{instrument_from_file_name, instrument_of, is_engineering, is_engineering_camera, Instrument};
use crate::mask::{apply_mask, binarize_mask, binarize_model, masked_model};
use crate::normalize::{correlated_model, decorrelated_model, normalize_correlated, normalize_decorrelated, lemma_scaled_bound, stretch_applies, OUTPUT_MAX};
use crate::trim::{trim_border, trim_eligible, trimmed_model};

verus! {

/// Colour reconstruction methods for mosaiced frames.
#[derive(Clone, Copy, PartialEq, Eq, Structural, Debug)]
pub enum DebayerMethod {
    /// The gradient-corrected bilinear kernels of Malvar, He and Cutler.
    Malvar,
}

/// How frames of one camera are calibrated.
#[derive(Debug)]
pub struct CalProfile {
    /// Inserted before the extension of the input's name to name the output.
    pub filename_suffix: String,
    /// Whether the decompanding stage runs.
    pub apply_ilt: bool,
    pub debayer_method: DebayerMethod,
    /// Red, green and blue scalars, in thousandths.
    pub weights: ColorWeights,
    /// Whether each band is stretched on its own during normalisation.
    pub decorrelate_color: bool,
}

/// Why the calibration of a file failed.
#[derive(Clone, Copy, PartialEq, Eq, Structural, Debug)]
pub enum Failure {
    InputNotFound,
    /// The input was read but is not a frame the calibration takes (not
    /// 8-bit, or too large).
    InputNotSupported,
    OutputPathNotWritable,
}

/// How the calibration of a file ended.
#[derive(Clone, Copy, PartialEq, Eq, Structural, Debug)]
pub enum Outcome {
    Done,
    /// The output existed and only new files were asked for: nothing written.
    Skipped,
    Failed(Failure),
}

/// What the batch driver does after a file's outcome.
#[derive(Clone, Copy, PartialEq, Eq, Structural, Debug)]
pub enum BatchAction {
    NextFile,
    Abort,
}

/// Every sample of every band fits in 8 bits.
pub open spec fn samples_are_8bit(f: FrameModel) -> bool {
    forall|b: int, i: int| 0 <= b < f.bands.len() && 0 <= i < f.bands[b].len() ==> #[trigger] f.bands[b][i] < TABLE_LEN
}

/// The decompanding stage: each sample replaced by its linear value, and the
/// data maximum the table's; a no-op with maximum 255 when the profile turns
/// the stage off or no table is registered.
pub open spec fn decompanded_model(f: FrameModel, apply_ilt: bool, table: Option<Seq<u32>>) -> (FrameModel, u32) {
    if apply_ilt && table is Some {
        let t = table.unwrap();
        (
            FrameModel {
                width: f.width,
                height: f.height,
                bands: Seq::new(f.bands.len(), |b: int| Seq::new(f.bands[b].len(), |i: int| t[f.bands[b][i] as int])),
            },
            t[TABLE_LEN - 1],
        )
    } else {
        (f, DEFAULT_DATA_MAX)
    }
}

/// The mask stage: the mask, aligned and binarised, applied to every band; a
/// no-op without a mask that lines up with the frame.
pub open spec fn mask_stage_model(f: FrameModel, md: FrameMetadata, mask: Option<FrameModel>) -> FrameModel {
    match mask {
        Some(m) => match aligned_model(m, md, f.width, f.height) {
            Some(a) => masked_model(f, binarize_model(a.bands[0])),
            None => f,
        },
        None => f,
    }
}

/// The flat-field stage: the aligned flat applied to every band; a no-op
/// without a flat that lines up with the frame.
pub open spec fn flat_stage_model(f: FrameModel, md: FrameMetadata, flat: Option<FrameModel>) -> FrameModel {
    match flat {
        Some(m) => match aligned_model(m, md, f.width, f.height) {
            Some(a) => flat_model(f, a),
            None => f,
        },
        None => f,
    }
}

/// The normalisation stage, decorrelated or correlated as the profile says.
pub open spec fn normalize_stage_model(f: FrameModel, decorrelate: bool, data_max: u32) -> FrameModel {
    if decorrelate { decorrelated_model(f) } else { correlated_model(f, data_max) }
}

/// The stages after colour reconstruction, in order: mask, flat field,
/// colour weights, normalisation, border trim.
pub open spec fn calibrated_model(
    f: FrameModel,
    md: FrameMetadata,
    weights: ColorWeights,
    decorrelate: bool,
    flat: Option<FrameModel>,
    mask: Option<FrameModel>,
    data_max: u32,
) -> (FrameModel, FrameMetadata) {
    let masked = mask_stage_model(f, md, mask);
    let flattened = flat_stage_model(masked, md, flat);
    let weighted = weighted_model(flattened, weights);
    let normalized = normalize_stage_model(weighted, decorrelate, data_max);
    trimmed_model(normalized, md)
}

/// The whole calibration of a raw frame: decompanding, colour
/// reconstruction of a mosaiced frame, then the remaining stages.
pub open spec fn processed_model(
    f: FrameModel,
    md: FrameMetadata,
    apply_ilt: bool,
    table: Option<Seq<u32>>,
    weights: ColorWeights,
    decorrelate: bool,
    flat: Option<FrameModel>,
    mask: Option<FrameModel>,
) -> (FrameModel, FrameMetadata) {
    let (linear, data_max) = decompanded_model(f, apply_ilt, table);
    calibrated_model(debayer_model(linear), md, weights, decorrelate, flat, mask, data_max)
}

/// Every sample of `f` is at most `bound`.
pub open spec fn samples_at_most(f: FrameModel, bound: u32) -> bool {
    forall|b: int, i: int| 0 <= b < f.bands.len() && 0 <= i < f.bands[b].len() ==> #[trigger] f.bands[b][i] <= bound
}

proof fn lemma_stages_keep_shape(
    f: FrameModel,
    md: FrameMetadata,
    weights: ColorWeights,
    decorrelate: bool,
    flat: Option<FrameModel>,
    mask: Option<FrameModel>,
    data_max: u32,
)
    requires
        model_wf(f),
        data_max > 0,
        0 <= f.width,
        0 <= f.height,
        f.width + 2 <= i32::MAX,
        f.height + 2 <= i32::MAX,
    ensures
        ({
            let n = normalize_stage_model(
                weighted_model(flat_stage_model(mask_stage_model(f, md, mask), md, flat), weights),
                decorrelate,
                data_max,
            );
            &&& model_wf(n)
            &&& n.width == f.width
            &&& n.height == f.height
            &&& n.bands.len() == f.bands.len()
            &&& (!decorrelate || f.bands.len() == 3) ==> samples_at_most(n, OUTPUT_MAX)
        }),
{
    let m = mask_stage_model(f, md, mask);
    assert(model_wf(m) && m.width == f.width && m.height == f.height && m.bands.len() == f.bands.len());
    let fl = flat_stage_model(m, md, flat);
    assert(model_wf(fl) && fl.width == f.width && fl.height == f.height && fl.bands.len() == f.bands.len());
    let w = weighted_model(fl, weights);
    assert(model_wf(w) && w.width == f.width && w.height == f.height && w.bands.len() == f.bands.len());
    let n = normalize_stage_model(w, decorrelate, data_max);
    assert(model_wf(n) && n.width == f.width && n.height == f.height && n.bands.len() == f.bands.len());
    if !decorrelate {
        assert forall|b: int, i: int| 0 <= b < n.bands.len() && 0 <= i < n.bands[b].len() implies #[trigger] n.bands[b][i] <= OUTPUT_MAX by {
            lemma_scaled_bound(w.bands[b][i], data_max);
        }
    } else if f.bands.len() == 3 && !stretch_applies(w) {
        assert(w.width == 0 || w.height == 0);
        assert forall|b: int| 0 <= b < w.bands.len() implies #[trigger] w.bands[b].len() == 0 by {
            assert(w.bands[b].len() == w.width * w.height);
            assert(w.width * w.height == 0) by (nonlinear_arith)
                requires
                    w.width == 0 || w.height == 0,
            ;
        }
    }
}

proof fn lemma_trim_keeps_bound(f: FrameModel, md: FrameMetadata, bound: u32)
    requires
        model_wf(f),
        samples_at_most(f, bound),
    ensures
        samples_at_most(trimmed_model(f, md).0, bound),
{
    if trim_eligible(md, f.width, f.height) {
        let t = trimmed_model(f, md).0;
        let (w, h) = (f.width - 4, f.height - 4);
        assert forall|b: int, i: int| 0 <= b < t.bands.len() && 0 <= i < t.bands[b].len() implies #[trigger] t.bands[b][i] <= bound by {
            lemma_crop_index_in_bounds(f.width, f.height, 2, 2, w, h, i);
            let j = (2 + i / w) * f.width + 2 + i % w;
            assert(t.bands[b][i] == f.bands[b][j]);
        }
    }
}

/// A calibrated frame holds 16-bit samples whenever it was normalised with
/// the correlated scale, or is a colour frame; it keeps the number of bands
/// it had after colour reconstruction.
pub proof fn lemma_output_is_16bit(
    f: FrameModel,
    md: FrameMetadata,
    weights: ColorWeights,
    decorrelate: bool,
    flat: Option<FrameModel>,
    mask: Option<FrameModel>,
    data_max: u32,
)
    requires
        model_wf(f),
        data_max > 0,
        !decorrelate || f.bands.len() == 3,
        0 <= f.width,
        0 <= f.height,
        f.width + 2 <= i32::MAX,
        f.height + 2 <= i32::MAX,
    ensures
        samples_at_most(calibrated_model(f, md, weights, decorrelate, flat, mask, data_max).0, OUTPUT_MAX),
        calibrated_model(f, md, weights, decorrelate, flat, mask, data_max).0.bands.len() == f.bands.len(),
{
    lemma_stages_keep_shape(f, md, weights, decorrelate, flat, mask, data_max);
    let n = normalize_stage_model(
        weighted_model(flat_stage_model(mask_stage_model(f, md, mask), md, flat), weights),
        decorrelate,
        data_max,
    );
    lemma_trim_keeps_bound(n, md, OUTPUT_MAX);
}

/// Whether a file is skipped: its output exists and only new files are wanted.
pub open spec fn skips(only_new: bool, output_exists: bool) -> bool {
    only_new && output_exists
}

/// Calibration of the navigation and hazard-avoidance cameras.
#[derive(Clone, Copy, Debug)]
pub struct M20EECam {}

impl M20EECam {
    /// Whether this calibrator handles frames of `instrument`.
    pub fn accepts_instrument(&self, instrument: Instrument) -> (r: bool)
        ensures
            r == is_engineering_camera(instrument),
    {
        is_engineering(instrument)
    }

    /// The camera that took the frame stored under `file_name` (a base name).
    pub fn instrument_for(&self, file_name: &str) -> (r: Instrument)
        ensures
            r == instrument_of(file_name@),
            is_engineering_camera(r),
    {
        instrument_from_file_name(file_name)
    }

    /// The first decision on a file: `Some(Skipped)` when it is skipped, and
    /// nothing else is done for it; `None` when its calibration goes ahead.
    pub fn begin(&self, only_new: bool, output_exists: bool) -> (r: Option<Outcome>)
        ensures
            r == (if skips(only_new, output_exists) { Some(Outcome::Skipped) } else { None::<Outcome> }),
    {
        if only_new && output_exists {
            Some(Outcome::Skipped)
        } else {
            None
        }
    }

    /// What the batch does after a file: a missing or unsupported input
    /// costs only that file, an unwritable output location ends the run.
    pub fn after(&self, outcome: Outcome) -> (r: BatchAction)
        ensures
            r == (if outcome == Outcome::Failed(Failure::OutputPathNotWritable) {
                BatchAction::Abort
            } else {
                BatchAction::NextFile
            }),
    {
        match outcome {
            Outcome::Failed(Failure::OutputPathNotWritable) => BatchAction::Abort,
            _ => BatchAction::NextFile,
        }
    }

    /// The decompanding stage. Returns the frame and the data maximum that
    /// correlated normalisation scales by.
    pub fn decompand_stage(&self, frame: &Frame, profile: &CalProfile, table: Option<&DecompandTable>) -> (r: (Frame, u32))
        requires
            frame.wf(),
            table matches Some(t) ==> t.wf(),
            profile.apply_ilt && table.is_some() ==> samples_are_8bit(frame@),
        ensures
            r.0.wf(),
            r.1 > 0,
            (r.0@, r.1) == decompanded_model(frame@, profile.apply_ilt, match table {
                Some(t) => Some(t@),
                None => None,
            }),
    {
        match table {
            Some(t) => {
                if profile.apply_ilt {
                    let mut bands: Vec<Vec<u32>> = Vec::with_capacity(frame.bands.len());
                    let mut b: usize = 0;
                    while b < frame.bands.len()
                        invariant
                            frame.wf(),
                            t.wf(),
                            samples_are_8bit(frame@),
                            b <= frame.bands@.len(),
                            bands@.len() == b,
                            forall|k: int| 0 <= k < b ==> #[trigger] bands@[k]@ == Seq::new(
                                frame@.bands[k].len(),
                                |i: int| t@[frame@.bands[k][i] as int],
                            ),
                        decreases frame.bands@.len() - b,
                    {
                        assert(frame@.bands[b as int] == frame.bands@[b as int]@);
                        let band = t.decompand_samples(&frame.bands[b]);
                        assert(band@ =~= Seq::new(frame@.bands[b as int].len(), |i: int| t@[frame@.bands[b as int][i] as int]));
                        bands.push(band);
                        b = b + 1;
                    }
                    let r = Frame { width: frame.width, height: frame.height, bands };
                    let ghost model = decompanded_model(frame@, true, Some(t@)).0;
                    assert(r@.bands =~= model.bands);
                    return (r, t.max());
                }
                (frame.clone_frame(), DEFAULT_DATA_MAX)
            },
            None => (frame.clone_frame(), DEFAULT_DATA_MAX),
        }
    }

    /// Calibrates a raw 8-bit frame of the camera: decompanding with `table`
    /// when the profile asks for it, colour reconstruction of a mosaiced
    /// frame, then masking, flat-fielding, weighting, normalisation and
    /// border trim. Returns the calibrated frame and its updated metadata.
    pub fn process_frame(
        &self,
        frame: &Frame,
        md: &FrameMetadata,
        profile: &CalProfile,
        table: Option<&DecompandTable>,
        flat: Option<&Frame>,
        mask: Option<&Frame>,
    ) -> (r: (Frame, FrameMetadata))
        requires
            frame.wf(),
            md.wf(),
            samples_are_8bit(frame@),
            frame.width + 2 <= i32::MAX,
            frame.height + 2 <= i32::MAX,
            table matches Some(t) ==> t.wf(),
            flat matches Some(f) ==> f.wf(),
            mask matches Some(m) ==> m.wf(),
        ensures
            r.0.wf(),
            r.1.wf(),
            frame@.bands.len() == 1 || frame@.bands.len() == 3 ==> r.0@.bands.len() == 3 && samples_at_most(
                r.0@,
                OUTPUT_MAX,
            ),
            (r.0@, r.1) == processed_model(
                frame@,
                *md,
                profile.apply_ilt,
                match table {
                    Some(t) => Some(t@),
                    None => None,
                },
                profile.weights,
                profile.decorrelate_color,
                match flat {
                    Some(f) => Some(f@),
                    None => None,
                },
                match mask {
                    Some(m) => Some(m@),
                    None => None,
                },
            ),
    {
        let (linear, data_max) = self.decompand_stage(frame, profile, table);
        proof {
            if linear@.bands.len() == 1 {
                assert forall|i: int| 0 <= i < linear@.bands[0].len() implies #[trigger] linear@.bands[0][i] <= u16::MAX by {
                    if profile.apply_ilt && table.is_some() {
                        let t = table.unwrap();
                        assert(frame@.bands[0][i] < TABLE_LEN);
                        assert(t@[frame@.bands[0][i] as int] <= t@[TABLE_LEN - 1]);
                    } else {
                        assert(frame@.bands[0][i] < TABLE_LEN);
                    }
                }
            }
        }
        let color = debayer_frame(&linear, profile.debayer_method);
        proof {
            if frame@.bands.len() == 1 || frame@.bands.len() == 3 {
                lemma_output_is_16bit(
                    color@,
                    *md,
                    profile.weights,
                    profile.decorrelate_color,
                    match flat {
                        Some(f) => Some(f@),
                        None => None,
                    },
                    match mask {
                        Some(m) => Some(m@),
                        None => None,
                    },
                    data_max,
                );
            }
        }
        self.calibrate(&color, md, profile, flat, mask, data_max)
    }

    /// The stages after colour reconstruction: mask, flat field, colour
    /// weights, normalisation to 16 bits and border trim. `flat` and `mask`
    /// are the artifacts in full-sensor coordinates at the frame's scale
    /// factor, `None` where absent; each is aligned to the frame first.
    pub fn calibrate(
        &self,
        frame: &Frame,
        md: &FrameMetadata,
        profile: &CalProfile,
        flat: Option<&Frame>,
        mask: Option<&Frame>,
        data_max: u32,
    ) -> (r: (Frame, FrameMetadata))
        requires
            frame.wf(),
            md.wf(),
            flat matches Some(f) ==> f.wf(),
            mask matches Some(m) ==> m.wf(),
            data_max > 0,
        ensures
            r.0.wf(),
            r.1.wf(),
            (r.0@, r.1) == calibrated_model(
                frame@,
                *md,
                profile.weights,
                profile.decorrelate_color,
                match flat {
                    Some(f) => Some(f@),
                    None => None,
                },
                match mask {
                    Some(m) => Some(m@),
                    None => None,
                },
                data_max,
            ),
    {
        let masked = match mask {
            Some(m) => match align_artifact(m, md, frame.width, frame.height) {
                Some(a) => {
                    assert(a@.bands[0] == a.bands@[0]@);
                    let bin = binarize_mask(&a.bands[0]);
                    apply_mask(frame, &bin)
                },
                None => frame.clone_frame(),
            },
            None => frame.clone_frame(),
        };
        let flattened = match flat {
            Some(f) => match align_artifact(f, md, masked.width, masked.height) {
                Some(a) => apply_flat(&masked, &a),
                None => masked,
            },
            None => masked,
        };
        let weighted = apply_weights(&flattened, &profile.weights);
        let normalized = if profile.decorrelate_color {
            normalize_decorrelated(&weighted)
        } else {
            normalize_correlated(&weighted, data_max)
        };
        trim_border(&normalized, md)
    }
}

} // verus!
