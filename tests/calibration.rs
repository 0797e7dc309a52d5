use mars_raw_utils::align::{align_artifact, crop_window, FrameMetadata, Rect};
use mars_raw_utils::cache::{ArtifactCache, CacheKey, CalType};
use mars_raw_utils::color::{apply_weights, weight_sample, ColorWeights};
use mars_raw_utils::debayer::debayer_frame;
use mars_raw_utils::decompand::{registered_table, DecompandTable, ENGINEERING_TABLE_MAX, TABLE_LEN};
use mars_raw_utils::flatfield::apply_flat;
use mars_raw_utils::frame::Frame;
use mars_raw_utils::instrument::{instrument_from_file_name, Instrument};
use mars_raw_utils::mask::{apply_mask, binarize_mask};
use mars_raw_utils::naming::{calibration_path, output_file_name, scale_factor_tag};
use mars_raw_utils::normalize::{normalize_correlated, normalize_decorrelated, scale_sample};
use mars_raw_utils::pipeline::{BatchAction, CalProfile, DebayerMethod, Failure, M20EECam, Outcome};
use mars_raw_utils::trim::trim_border;

fn plane(width: usize, height: usize, value: u32) -> Frame {
    Frame { width, height, bands: vec![vec![value; width * height]] }
}

fn ramp(width: usize, height: usize) -> Frame {
    let data: Vec<u32> = (0..width * height).map(|i| i as u32).collect();
    Frame { width, height, bands: vec![data] }
}

fn full_frame_md(size: u32) -> FrameMetadata {
    FrameMetadata { scale_factor: 1, subframe_rect: Some(Rect { x: 1, y: 1, width: size, height: size }) }
}

fn default_profile() -> CalProfile {
    CalProfile {
        filename_suffix: String::from("-rjcal"),
        apply_ilt: true,
        debayer_method: DebayerMethod::Malvar,
        weights: ColorWeights::neutral(),
        decorrelate_color: false,
    }
}

#[test]
fn decompand_identity_and_max() {
    let t = DecompandTable::identity();
    assert_eq!(t.decompand(0), 0);
    assert_eq!(t.decompand(200), 200);
    assert_eq!(t.max(), 255);
}

#[test]
fn decompand_is_monotonic_on_registered_table() {
    let t = registered_table(Instrument::M20NavcamLeft).expect("engineering table");
    let mut prev = t.decompand(0);
    for v in 1..=255u8 {
        let cur = t.decompand(v);
        assert!(prev <= cur);
        prev = cur;
    }
    assert_eq!(t.max(), ENGINEERING_TABLE_MAX);
    assert_eq!(t.decompand(1), 2);
    assert_eq!(t.decompand(128), 542);
    assert_eq!(TABLE_LEN, 256);
    assert!(registered_table(Instrument::M20MastcamZLeft).is_none());
}

#[test]
fn decompand_table_rejects_bad_tables() {
    let mut decreasing: Vec<u32> = (0..256).collect();
    decreasing[10] = 5;
    assert!(DecompandTable::new(decreasing).is_none());
    assert!(DecompandTable::new(vec![1; 255]).is_none());
    assert!(DecompandTable::new(vec![0; 256]).is_none());
    assert!(DecompandTable::new(vec![70000; 256]).is_none());
    let ok: Vec<u32> = (0..256).map(|v| v * 2).collect();
    let t = DecompandTable::new(ok).expect("valid table");
    assert_eq!(t.decompand(100), 200);
    assert_eq!(t.max(), 510);
}

#[test]
fn mask_binarization_threshold() {
    assert_eq!(binarize_mask(&vec![0, 200, 201, 255]), vec![0, 0, 1, 1]);
}

#[test]
fn mask_binarization_idempotent_on_full_scale() {
    let m = vec![0, 12, 199, 200, 201, 254, 255];
    let once = binarize_mask(&m);
    let full: Vec<u32> = once.iter().map(|&v| v * 255).collect();
    assert_eq!(binarize_mask(&full), once);
    let dark = vec![0, 100, 200];
    assert_eq!(binarize_mask(&binarize_mask(&dark)), binarize_mask(&dark));
}

#[test]
fn mask_zeroes_invalid_pixels() {
    let f = Frame { width: 2, height: 2, bands: vec![vec![5, 6, 7, 8], vec![1, 2, 3, 4], vec![9, 9, 9, 9]] };
    let r = apply_mask(&f, &vec![1, 0, 0, 1]);
    assert_eq!(r.bands, vec![vec![5, 0, 0, 8], vec![1, 0, 0, 4], vec![9, 0, 0, 9]]);
}

#[test]
fn alignment_full_frame_keeps_artifact() {
    let flat = ramp(1024, 1024);
    let md = full_frame_md(1024);
    let aligned = align_artifact(&flat, &md, 1024, 1024).expect("aligned");
    assert_eq!(aligned.width, 1024);
    assert_eq!(aligned.height, 1024);
    assert_eq!(aligned.bands, flat.bands);
}

#[test]
fn alignment_window_with_scale_factor() {
    let rect = Rect { x: 101, y: 201, width: 400, height: 300 };
    assert_eq!(crop_window(rect, 2), (50, 100, 200, 150));
    let artifact = ramp(8, 6);
    let md = FrameMetadata { scale_factor: 2, subframe_rect: Some(Rect { x: 3, y: 5, width: 8, height: 4 }) };
    let a = align_artifact(&artifact, &md, 4, 2).expect("aligned");
    assert_eq!(a.bands[0], vec![17, 18, 19, 20, 25, 26, 27, 28]);
    assert!(align_artifact(&artifact, &md, 5, 2).is_none());
    let outside = FrameMetadata { scale_factor: 1, subframe_rect: Some(Rect { x: 6, y: 1, width: 4, height: 2 }) };
    assert!(align_artifact(&artifact, &outside, 4, 2).is_none());
}

#[test]
fn trim_full_frame() {
    let f = ramp(1024, 1024);
    let (t, md) = trim_border(&f, &full_frame_md(1024));
    assert_eq!((t.width, t.height), (1020, 1020));
    assert_eq!(t.bands[0].len(), 1020 * 1020);
    assert_eq!(t.bands[0][0], 2 * 1024 + 2);
    assert_eq!(md.subframe_rect, Some(Rect { x: 3, y: 3, width: 1020, height: 1020 }));
}

#[test]
fn trim_skipped_when_not_eligible() {
    let f = ramp(16, 16);
    let scaled = FrameMetadata { scale_factor: 2, subframe_rect: Some(Rect { x: 1, y: 1, width: 32, height: 32 }) };
    let (t, md) = trim_border(&f, &scaled);
    assert_eq!((t.width, t.height), (16, 16));
    assert_eq!(md, scaled);
    let no_rect = FrameMetadata { scale_factor: 1, subframe_rect: None };
    let (t2, md2) = trim_border(&f, &no_rect);
    assert_eq!(t2.bands, f.bands);
    assert_eq!(md2, no_rect);
}

#[test]
fn weights_leave_grayscale_unchanged() {
    let f = ramp(4, 4);
    let w = ColorWeights { red: 2000, green: 500, blue: 3000 };
    let r = apply_weights(&f, &w);
    assert_eq!(r.bands, f.bands);
}

#[test]
fn weights_scale_color_bands() {
    let f = Frame { width: 1, height: 2, bands: vec![vec![100, 3], vec![100, 3], vec![100, 3]] };
    let w = ColorWeights { red: 1500, green: 1000, blue: 250 };
    let r = apply_weights(&f, &w);
    assert_eq!(r.bands, vec![vec![150, 4], vec![100, 3], vec![25, 0]]);
    assert_eq!(weight_sample(u32::MAX, 2000), u32::MAX);
}

#[test]
fn flat_field_scales_by_mean_over_gain() {
    let f = Frame { width: 2, height: 1, bands: vec![vec![100, 100]] };
    let flat = Frame { width: 2, height: 1, bands: vec![vec![50, 150]] };
    assert_eq!(apply_flat(&f, &flat).bands, vec![vec![200, 66]]);
    let color = Frame { width: 2, height: 1, bands: vec![vec![100, 100], vec![10, 10], vec![0, 70000]] };
    let r = apply_flat(&color, &flat);
    assert_eq!(r.bands, vec![vec![200, 66], vec![20, 6], vec![0, 43690]]);
    let zero_gain = Frame { width: 2, height: 1, bands: vec![vec![0, 100]] };
    let band = Frame { width: 2, height: 1, bands: vec![vec![10, 10]] };
    assert_eq!(apply_flat(&band, &zero_gain).bands, vec![vec![65535, 5]]);
}

#[test]
fn normalization_correlated() {
    assert_eq!(scale_sample(255, 255), 65535);
    assert_eq!(scale_sample(128, 255), 32896);
    assert_eq!(scale_sample(3000, 2033), 65535);
    let f = Frame { width: 3, height: 1, bands: vec![vec![10, 20, 30], vec![0, 0, 0], vec![1, 2, 3]] };
    assert_eq!(normalize_correlated(&f, 30).bands, vec![vec![21845, 43690, 65535], vec![0, 0, 0], vec![2184, 4369, 6553]]);
}

#[test]
fn normalization_decorrelated_stretches_each_band() {
    let (w, h) = (8usize, 8usize);
    let ramp: Vec<u32> = (0..w * h).map(|i| 100 + 10 * i as u32).collect();
    let half: Vec<u32> = ramp.iter().map(|v| v / 2).collect();
    let f = Frame { width: w, height: h, bands: vec![ramp.clone(), half, vec![40; w * h]] };
    let r = normalize_decorrelated(&f);
    assert_eq!((r.width, r.height), (w, h));
    for b in 0..2 {
        assert_eq!(r.bands[b].len(), w * h);
        assert_eq!(*r.bands[b].iter().min().unwrap(), 0);
        assert_eq!(*r.bands[b].iter().max().unwrap(), 65535);
    }
    assert_ne!(r.bands[0], ramp);
    assert!(r.bands[2].iter().all(|&v| v == r.bands[2][0]));
    let gray = Frame { width: 2, height: 1, bands: vec![vec![5, 9]] };
    assert_eq!(normalize_decorrelated(&gray).bands, gray.bands);
}

#[test]
fn skip_when_output_exists_and_only_new() {
    let cam = M20EECam {};
    assert_eq!(cam.begin(true, true), Some(Outcome::Skipped));
    assert_eq!(cam.begin(true, false), None);
    assert_eq!(cam.begin(false, true), None);
}

#[test]
fn batch_continues_or_aborts() {
    let cam = M20EECam {};
    assert_eq!(cam.after(Outcome::Failed(Failure::InputNotFound)), BatchAction::NextFile);
    assert_eq!(cam.after(Outcome::Failed(Failure::InputNotSupported)), BatchAction::NextFile);
    assert_eq!(cam.after(Outcome::Failed(Failure::OutputPathNotWritable)), BatchAction::Abort);
    assert_eq!(cam.after(Outcome::Skipped), BatchAction::NextFile);
    assert_eq!(cam.after(Outcome::Done), BatchAction::NextFile);
}

#[test]
fn instrument_from_prefix() {
    assert_eq!(instrument_from_file_name("NLF_0100_0667.png"), Instrument::M20NavcamLeft);
    assert_eq!(instrument_from_file_name("NRF_0100_0667.png"), Instrument::M20NavcamRight);
    assert_eq!(instrument_from_file_name("FLB_0100.png"), Instrument::M20FrontHazLeft);
    assert_eq!(instrument_from_file_name("FRB_0100.png"), Instrument::M20FrontHazRight);
    assert_eq!(instrument_from_file_name("RLB_0100.png"), Instrument::M20RearHazLeft);
    assert_eq!(instrument_from_file_name("RRB_0100.png"), Instrument::M20RearHazRight);
    assert_eq!(instrument_from_file_name("ZLF_0100.png"), Instrument::M20NavcamRight);
    assert_eq!(instrument_from_file_name(""), Instrument::M20NavcamRight);
    assert_eq!(instrument_from_file_name("N"), Instrument::M20NavcamRight);
    let cam = M20EECam {};
    assert!(cam.accepts_instrument(Instrument::M20RearHazLeft));
    assert!(!cam.accepts_instrument(Instrument::M20MastcamZRight));
}

#[test]
fn output_names() {
    assert_eq!(output_file_name("dir/NLF_01.png", "-rjcal"), "dir/NLF_01-rjcal.png");
    assert_eq!(output_file_name("noext", "-rjcal"), "noext-rjcal");
    assert_eq!(output_file_name("a.b/c", "-x"), "a.b/c-x");
    assert_eq!(output_file_name("a.tar.gz", "-x"), "a.tar-x.gz");
}

#[test]
fn calibration_paths() {
    assert_eq!(calibration_path("/cal/NAV_FLAT-scalefactor-.png", 2), "/cal/NAV_FLATsf2.png");
    assert_eq!(calibration_path("-scalefactor-/m-scalefactor-", 10), "sf10/msf10");
    assert_eq!(calibration_path("plain.png", 1), "plain.png");
    assert_eq!(calibration_path("-scalefactor", 1), "-scalefactor");
}

#[test]
fn scale_tags() {
    assert_eq!(scale_factor_tag(0), "sf0");
    assert_eq!(scale_factor_tag(4), "sf4");
    assert_eq!(scale_factor_tag(4294967295), "sf4294967295");
}

#[test]
fn cache_populates_once() {
    let mut cache = ArtifactCache::new();
    let key = CacheKey { instrument: Instrument::M20NavcamLeft, cal_type: CalType::FlatField, scale_factor: 1 };
    let other = CacheKey { instrument: Instrument::M20NavcamLeft, cal_type: CalType::Mask, scale_factor: 1 };
    assert!(cache.get(key).is_none());
    cache.store(key, Some(plane(2, 2, 7)));
    cache.store(key, Some(plane(2, 2, 9)));
    cache.store(other, None);
    let hit = cache.get(key).expect("cached").as_ref().expect("present");
    assert_eq!(hit.bands[0], vec![7, 7, 7, 7]);
    assert!(cache.get(other).expect("cached").is_none());
}

#[test]
fn end_to_end_navcam_left() {
    let cam = M20EECam {};
    let name = "NLF_0001_0667022671_000ECM_N0010052AUT_04096_00_2I3J01.png";
    let instrument = cam.instrument_for(name);
    assert_eq!(instrument, Instrument::M20NavcamLeft);
    let raw = Frame { width: 1024, height: 1024, bands: vec![(0..1024 * 1024).map(|i| (i % 256) as u32).collect()] };
    let md = full_frame_md(1024);
    let table = DecompandTable::identity();
    let flat = plane(1024, 1024, 1);
    let mask = plane(1024, 1024, 255);
    let (out, out_md) = cam.process_frame(&raw, &md, &default_profile(), Some(&table), Some(&flat), Some(&mask));
    assert_eq!(out.bands.len(), 3);
    assert_eq!((out.width, out.height), (1020, 1020));
    for band in &out.bands {
        assert_eq!(band.len(), 1020 * 1020);
        assert!(band.iter().all(|&v| v <= 65535));
    }
    assert_eq!(out_md.subframe_rect, Some(Rect { x: 3, y: 3, width: 1020, height: 1020 }));
    assert_eq!(output_file_name(name, "-rjcal"), "NLF_0001_0667022671_000ECM_N0010052AUT_04096_00_2I3J01-rjcal.png");
}

#[test]
fn decompand_stage_skipped_without_table() {
    let cam = M20EECam {};
    let raw = Frame { width: 2, height: 1, bands: vec![vec![3, 250]] };
    let (same, max) = cam.decompand_stage(&raw, &default_profile(), None);
    assert_eq!(same.bands, raw.bands);
    assert_eq!(max, 255);
    let t = registered_table(Instrument::M20NavcamLeft).expect("table");
    let (lin, max2) = cam.decompand_stage(&raw, &default_profile(), Some(&t));
    assert_eq!(lin.bands, vec![vec![3, 1963]]);
    assert_eq!(max2, 2033);
    let mut raw_color = default_profile();
    raw_color.apply_ilt = false;
    let (kept, max3) = cam.decompand_stage(&raw, &raw_color, Some(&t));
    assert_eq!(kept.bands, raw.bands);
    assert_eq!(max3, 255);
}

#[test]
fn debayer_reconstructs_uniform_bayer_pattern() {
    let (w, h) = (8usize, 8usize);
    let mut mosaic = vec![0u32; w * h];
    for y in 0..h {
        for x in 0..w {
            mosaic[y * w + x] = match (x % 2, y % 2) {
                (0, 0) => 200,
                (1, 1) => 50,
                _ => 100,
            };
        }
    }
    let f = Frame { width: w, height: h, bands: vec![mosaic] };
    let rgb = debayer_frame(&f, DebayerMethod::Malvar);
    assert_eq!(rgb.bands.len(), 3);
    let at = |b: usize, x: usize, y: usize| rgb.bands[b][y * w + x];
    assert_eq!(at(0, 2, 2), 200);
    assert_eq!(at(1, 2, 2), 100);
    assert_eq!(at(2, 2, 2), 50);
    assert_eq!(at(0, 3, 3), 200);
    assert_eq!(at(2, 3, 3), 50);
    let color = Frame { width: 1, height: 1, bands: vec![vec![1], vec![2], vec![3]] };
    assert_eq!(debayer_frame(&color, DebayerMethod::Malvar).bands, color.bands);
}

#[test]
fn gray_bands_merge_to_one() {
    let gray = Frame { width: 2, height: 1, bands: vec![vec![4, 5], vec![4, 5], vec![4, 5]] };
    assert_eq!(gray.merge_gray_bands().bands, vec![vec![4, 5]]);
    let color = Frame { width: 2, height: 1, bands: vec![vec![4, 5], vec![4, 6], vec![4, 5]] };
    assert_eq!(color.merge_gray_bands().bands.len(), 3);
}
