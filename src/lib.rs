//! Calibration of raw rover engineering-camera frames: decompanding,
//! alignment of calibration artifacts, masking, flat-fielding, colour
//! weighting, normalisation to 16 bits and border trimming, all on
//! integer pixel buffers with machine-checked contracts.

pub mod instrument;
pub mod decompand;
pub mod frame;
pub mod align;
pub mod mask;
pub mod flatfield;
pub mod color;
pub mod normalize;
pub mod trim;
pub mod debayer;
pub mod cache;
pub mod naming;
pub mod pipeline;
pub mod time;
pub mod lmst;
