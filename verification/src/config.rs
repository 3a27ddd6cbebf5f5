//! Model of the native encoder-configuration record and its builder-style
//! setters. The record mirrors the codec's flat configuration struct field by
//! field, as plain values: rationals as integer pairs, fixed-size native
//! buffers as owned byte vectors.

use vstd::prelude::*;

use crate::errors::Av1Errors;

verus! {

/// A rational number, as the codec's timebase field carries it.
#[derive(Clone, Copy, Debug, PartialEq, Eq, Structural)]
pub struct AomRational {
    pub num: i32,
    pub den: i32,
}

/// An owned stand-in for the codec's fixed buffer (a raw pointer and a byte
/// count); here the bytes themselves.
#[derive(Clone, Debug)]
pub struct AomFixedBuf {
    pub data: Vec<u8>,
}

/// Model of the codec's algorithm-option record, stored whole by the
/// `encoder_cfg` setter and never read field by field here.
#[derive(Clone, Copy, Debug, PartialEq, Eq, Structural)]
pub struct CfgOptions {
    pub init_by_cfg_file: u32,
    pub super_block_size: u32,
    pub max_partition_size: u32,
    pub min_partition_size: u32,
    pub disable_ab_partition_type: u32,
    pub disable_rect_partition_type: u32,
    pub disable_1to4_partition_type: u32,
    pub disable_flip_idtx: u32,
    pub disable_cdef: u32,
    pub disable_lr: u32,
    pub disable_obmc: u32,
    pub disable_warp_motion: u32,
    pub disable_global_motion: u32,
    pub disable_dist_wtd_comp: u32,
    pub disable_diff_wtd_comp: u32,
    pub disable_inter_intra_comp: u32,
    pub disable_masked_comp: u32,
    pub disable_one_sided_comp: u32,
    pub disable_palette: u32,
    pub disable_intrabc: u32,
    pub disable_cfl: u32,
    pub disable_smooth_intra: u32,
    pub disable_filter_intra: u32,
    pub disable_dual_filter: u32,
    pub disable_intra_angle_delta: u32,
    pub disable_intra_edge_filter: u32,
    pub disable_tx_64x64: u32,
    pub disable_smooth_inter_intra: u32,
    pub disable_inter_inter_wedge: u32,
    pub disable_inter_intra_wedge: u32,
    pub disable_paeth_intra: u32,
    pub disable_trellis_quant: u32,
    pub disable_ref_frame_mv: u32,
    pub reduced_reference_set: u32,
    pub reduced_tx_type_set: u32,
}

/// Model of the codec's encoder-configuration record: general (`g_`), rate
/// control (`rc_`), keyframe (`kf_`) and tiling fields, all plain scalars and
/// fixed arrays. Enumerated native types are carried as their integer codes.
#[derive(Clone, Debug)]
pub struct AomCodecEncCfg {
    pub g_usage: u32,
    pub g_threads: u32,
    pub g_profile: u32,
    pub g_w: u32,
    pub g_h: u32,
    pub g_limit: u32,
    pub g_forced_max_frame_width: u32,
    pub g_forced_max_frame_height: u32,
    pub g_bit_depth: u32,
    pub g_input_bit_depth: u32,
    pub g_timebase: AomRational,
    pub g_error_resilient: u32,
    pub g_pass: u32,
    pub g_lag_in_frames: u32,
    pub rc_dropframe_thresh: u32,
    pub rc_resize_mode: u32,
    pub rc_resize_denominator: u32,
    pub rc_resize_kf_denominator: u32,
    pub rc_superres_mode: u32,
    pub rc_superres_denominator: u32,
    pub rc_superres_kf_denominator: u32,
    pub rc_superres_qthresh: u32,
    pub rc_superres_kf_qthresh: u32,
    pub rc_end_usage: u32,
    pub rc_twopass_stats_in: AomFixedBuf,
    pub rc_firstpass_mb_stats_in: AomFixedBuf,
    pub rc_target_bitrate: u32,
    pub rc_min_quantizer: u32,
    pub rc_max_quantizer: u32,
    pub rc_undershoot_pct: u32,
    pub rc_overshoot_pct: u32,
    pub rc_buf_sz: u32,
    pub rc_buf_initial_sz: u32,
    pub rc_buf_optimal_sz: u32,
    pub rc_2pass_vbr_bias_pct: u32,
    pub rc_2pass_vbr_minsection_pct: u32,
    pub rc_2pass_vbr_maxsection_pct: u32,
    pub fwd_kf_enabled: i32,
    pub kf_mode: u32,
    pub kf_min_dist: u32,
    pub kf_max_dist: u32,
    pub sframe_dist: u32,
    pub sframe_mode: u32,
    pub large_scale_tile: u32,
    pub monochrome: u32,
    pub full_still_picture_hdr: u32,
    pub save_as_annexb: u32,
    pub tile_width_count: i32,
    pub tile_height_count: i32,
    pub tile_widths: [i32; 64],
    pub tile_heights: [i32; 64],
    pub use_fixed_qp_offsets: u32,
    pub fixed_qp_offsets: [i32; 5],
    pub encoder_cfg: CfgOptions,
}

impl AomCodecEncCfg {
    /// Holds when every field of the record is zero and both stand-in
    /// buffers are empty: the state of the native struct before the codec
    /// fills in its defaults.
    pub open spec fn is_zeroed(self) -> bool {
        &&& self.g_usage == 0
        &&& self.g_threads == 0
        &&& self.g_profile == 0
        &&& self.g_w == 0
        &&& self.g_h == 0
        &&& self.g_limit == 0
        &&& self.g_forced_max_frame_width == 0
        &&& self.g_forced_max_frame_height == 0
        &&& self.g_bit_depth == 0
        &&& self.g_input_bit_depth == 0
        &&& self.g_timebase == (AomRational { num: 0, den: 0 })
        &&& self.g_error_resilient == 0
        &&& self.g_pass == 0
        &&& self.g_lag_in_frames == 0
        &&& self.rc_dropframe_thresh == 0
        &&& self.rc_resize_mode == 0
        &&& self.rc_resize_denominator == 0
        &&& self.rc_resize_kf_denominator == 0
        &&& self.rc_superres_mode == 0
        &&& self.rc_superres_denominator == 0
        &&& self.rc_superres_kf_denominator == 0
        &&& self.rc_superres_qthresh == 0
        &&& self.rc_superres_kf_qthresh == 0
        &&& self.rc_end_usage == 0
        &&& self.rc_twopass_stats_in.data@.len() == 0
        &&& self.rc_firstpass_mb_stats_in.data@.len() == 0
        &&& self.rc_target_bitrate == 0
        &&& self.rc_min_quantizer == 0
        &&& self.rc_max_quantizer == 0
        &&& self.rc_undershoot_pct == 0
        &&& self.rc_overshoot_pct == 0
        &&& self.rc_buf_sz == 0
        &&& self.rc_buf_initial_sz == 0
        &&& self.rc_buf_optimal_sz == 0
        &&& self.rc_2pass_vbr_bias_pct == 0
        &&& self.rc_2pass_vbr_minsection_pct == 0
        &&& self.rc_2pass_vbr_maxsection_pct == 0
        &&& self.fwd_kf_enabled == 0
        &&& self.kf_mode == 0
        &&& self.kf_min_dist == 0
        &&& self.kf_max_dist == 0
        &&& self.sframe_dist == 0
        &&& self.sframe_mode == 0
        &&& self.large_scale_tile == 0
        &&& self.monochrome == 0
        &&& self.full_still_picture_hdr == 0
        &&& self.save_as_annexb == 0
        &&& self.tile_width_count == 0
        &&& self.tile_height_count == 0
        &&& (forall|i: int| 0 <= i < 64 ==> self.tile_widths@[i] == 0i32)
        &&& (forall|i: int| 0 <= i < 64 ==> self.tile_heights@[i] == 0i32)
        &&& self.use_fixed_qp_offsets == 0
        &&& (forall|i: int| 0 <= i < 5 ==> self.fixed_qp_offsets@[i] == 0i32)
        &&& self.encoder_cfg == (CfgOptions {
            init_by_cfg_file: 0,
            super_block_size: 0,
            max_partition_size: 0,
            min_partition_size: 0,
            disable_ab_partition_type: 0,
            disable_rect_partition_type: 0,
            disable_1to4_partition_type: 0,
            disable_flip_idtx: 0,
            disable_cdef: 0,
            disable_lr: 0,
            disable_obmc: 0,
            disable_warp_motion: 0,
            disable_global_motion: 0,
            disable_dist_wtd_comp: 0,
            disable_diff_wtd_comp: 0,
            disable_inter_intra_comp: 0,
            disable_masked_comp: 0,
            disable_one_sided_comp: 0,
            disable_palette: 0,
            disable_intrabc: 0,
            disable_cfl: 0,
            disable_smooth_intra: 0,
            disable_filter_intra: 0,
            disable_dual_filter: 0,
            disable_intra_angle_delta: 0,
            disable_intra_edge_filter: 0,
            disable_tx_64x64: 0,
            disable_smooth_inter_intra: 0,
            disable_inter_inter_wedge: 0,
            disable_inter_intra_wedge: 0,
            disable_paeth_intra: 0,
            disable_trellis_quant: 0,
            disable_ref_frame_mv: 0,
            reduced_reference_set: 0,
            reduced_tx_type_set: 0,
        })
    }

    /// An all-zero record, the state of the native struct before the codec
    /// fills in its defaults.
    pub fn zeroed() -> (r: AomCodecEncCfg)
        ensures
            r.is_zeroed(),
    {
        AomCodecEncCfg {
            g_usage: 0,
            g_threads: 0,
            g_profile: 0,
            g_w: 0,
            g_h: 0,
            g_limit: 0,
            g_forced_max_frame_width: 0,
            g_forced_max_frame_height: 0,
            g_bit_depth: 0,
            g_input_bit_depth: 0,
            g_timebase: AomRational { num: 0, den: 0 },
            g_error_resilient: 0,
            g_pass: 0,
            g_lag_in_frames: 0,
            rc_dropframe_thresh: 0,
            rc_resize_mode: 0,
            rc_resize_denominator: 0,
            rc_resize_kf_denominator: 0,
            rc_superres_mode: 0,
            rc_superres_denominator: 0,
            rc_superres_kf_denominator: 0,
            rc_superres_qthresh: 0,
            rc_superres_kf_qthresh: 0,
            rc_end_usage: 0,
            rc_twopass_stats_in: AomFixedBuf { data: Vec::new() },
            rc_firstpass_mb_stats_in: AomFixedBuf { data: Vec::new() },
            rc_target_bitrate: 0,
            rc_min_quantizer: 0,
            rc_max_quantizer: 0,
            rc_undershoot_pct: 0,
            rc_overshoot_pct: 0,
            rc_buf_sz: 0,
            rc_buf_initial_sz: 0,
            rc_buf_optimal_sz: 0,
            rc_2pass_vbr_bias_pct: 0,
            rc_2pass_vbr_minsection_pct: 0,
            rc_2pass_vbr_maxsection_pct: 0,
            fwd_kf_enabled: 0,
            kf_mode: 0,
            kf_min_dist: 0,
            kf_max_dist: 0,
            sframe_dist: 0,
            sframe_mode: 0,
            large_scale_tile: 0,
            monochrome: 0,
            full_still_picture_hdr: 0,
            save_as_annexb: 0,
            tile_width_count: 0,
            tile_height_count: 0,
            tile_widths: [0; 64],
            tile_heights: [0; 64],
            use_fixed_qp_offsets: 0,
            fixed_qp_offsets: [0; 5],
            encoder_cfg: CfgOptions {
                init_by_cfg_file: 0,
                super_block_size: 0,
                max_partition_size: 0,
                min_partition_size: 0,
                disable_ab_partition_type: 0,
                disable_rect_partition_type: 0,
                disable_1to4_partition_type: 0,
                disable_flip_idtx: 0,
                disable_cdef: 0,
                disable_lr: 0,
                disable_obmc: 0,
                disable_warp_motion: 0,
                disable_global_motion: 0,
                disable_dist_wtd_comp: 0,
                disable_diff_wtd_comp: 0,
                disable_inter_intra_comp: 0,
                disable_masked_comp: 0,
                disable_one_sided_comp: 0,
                disable_palette: 0,
                disable_intrabc: 0,
                disable_cfl: 0,
                disable_smooth_intra: 0,
                disable_filter_intra: 0,
                disable_dual_filter: 0,
                disable_intra_angle_delta: 0,
                disable_intra_edge_filter: 0,
                disable_tx_64x64: 0,
                disable_smooth_inter_intra: 0,
                disable_inter_inter_wedge: 0,
                disable_inter_intra_wedge: 0,
                disable_paeth_intra: 0,
                disable_trellis_quant: 0,
                disable_ref_frame_mv: 0,
                reduced_reference_set: 0,
                reduced_tx_type_set: 0,
            },
        }
    }

}

/// The configuration holder around the native record model.
#[derive(Clone, Debug)]
pub struct AV1EncoderConfig {
    pub enc_cfg: AomCodecEncCfg,
}

impl AV1EncoderConfig {
    /// Wraps the record the codec's default-configuration call produced,
    /// going by the result code that came with it: the record is taken only
    /// on success, and a failure becomes a configuration error.
    pub fn init_result(code: u32, cfg: AomCodecEncCfg) -> (r: Result<AV1EncoderConfig, Av1Errors>)
        ensures
            r is Ok <==> code == crate::AOM_CODEC_OK,
            r is Ok ==> r->Ok_0.enc_cfg == cfg,
            r is Err ==> r->Err_0 == Av1Errors::ConfigError,
    {
        if code == crate::AOM_CODEC_OK {
            Ok(AV1EncoderConfig { enc_cfg: cfg })
        } else {
            Err(Av1Errors::ConfigError)
        }
    }
}

/// Builder-style setters for the encoder-configuration record: one method per
/// field, each writing the given value into the record behind a view exposed
/// by `cfg` and handing the receiver back for chaining.
pub trait AomCodecEncCfgTrait: Sized {
    /// The configuration record this builder writes to.
    spec fn cfg(&self) -> AomCodecEncCfg;

    fn g_usage(&mut self, value: u32) -> (r: &mut Self)
        ensures
            r.cfg() == (AomCodecEncCfg { g_usage: value, ..old(self).cfg() }),
            *final(self) == *final(r),
    ;

    fn g_threads(&mut self, value: u32) -> (r: &mut Self)
        ensures
            r.cfg() == (AomCodecEncCfg { g_threads: value, ..old(self).cfg() }),
            *final(self) == *final(r),
    ;

    fn g_profile(&mut self, value: u32) -> (r: &mut Self)
        ensures
            r.cfg() == (AomCodecEncCfg { g_profile: value, ..old(self).cfg() }),
            *final(self) == *final(r),
    ;

    fn g_w(&mut self, value: u32) -> (r: &mut Self)
        ensures
            r.cfg() == (AomCodecEncCfg { g_w: value, ..old(self).cfg() }),
            *final(self) == *final(r),
    ;

    fn g_h(&mut self, value: u32) -> (r: &mut Self)
        ensures
            r.cfg() == (AomCodecEncCfg { g_h: value, ..old(self).cfg() }),
            *final(self) == *final(r),
    ;

    fn g_limit(&mut self, value: u32) -> (r: &mut Self)
        ensures
            r.cfg() == (AomCodecEncCfg { g_limit: value, ..old(self).cfg() }),
            *final(self) == *final(r),
    ;

    fn g_forced_max_frame_width(&mut self, value: u32) -> (r: &mut Self)
        ensures
            r.cfg() == (AomCodecEncCfg { g_forced_max_frame_width: value, ..old(self).cfg() }),
            *final(self) == *final(r),
    ;

    fn g_forced_max_frame_height(&mut self, value: u32) -> (r: &mut Self)
        ensures
            r.cfg() == (AomCodecEncCfg { g_forced_max_frame_height: value, ..old(self).cfg() }),
            *final(self) == *final(r),
    ;

    fn g_bit_depth(&mut self, value: u32) -> (r: &mut Self)
        ensures
            r.cfg() == (AomCodecEncCfg { g_bit_depth: value, ..old(self).cfg() }),
            *final(self) == *final(r),
    ;

    fn g_input_bit_depth(&mut self, value: u32) -> (r: &mut Self)
        ensures
            r.cfg() == (AomCodecEncCfg { g_input_bit_depth: value, ..old(self).cfg() }),
            *final(self) == *final(r),
    ;

    fn g_timebase(&mut self, value: AomRational) -> (r: &mut Self)
        ensures
            r.cfg() == (AomCodecEncCfg { g_timebase: value, ..old(self).cfg() }),
            *final(self) == *final(r),
    ;

    fn g_error_resilient(&mut self, value: u32) -> (r: &mut Self)
        ensures
            r.cfg() == (AomCodecEncCfg { g_error_resilient: value, ..old(self).cfg() }),
            *final(self) == *final(r),
    ;

    fn g_pass(&mut self, value: u32) -> (r: &mut Self)
        ensures
            r.cfg() == (AomCodecEncCfg { g_pass: value, ..old(self).cfg() }),
            *final(self) == *final(r),
    ;

    fn g_lag_in_frames(&mut self, value: u32) -> (r: &mut Self)
        ensures
            r.cfg() == (AomCodecEncCfg { g_lag_in_frames: value, ..old(self).cfg() }),
            *final(self) == *final(r),
    ;

    fn rc_dropframe_thresh(&mut self, value: u32) -> (r: &mut Self)
        ensures
            r.cfg() == (AomCodecEncCfg { rc_dropframe_thresh: value, ..old(self).cfg() }),
            *final(self) == *final(r),
    ;

    fn rc_resize_mode(&mut self, value: u32) -> (r: &mut Self)
        ensures
            r.cfg() == (AomCodecEncCfg { rc_resize_mode: value, ..old(self).cfg() }),
            *final(self) == *final(r),
    ;

    fn rc_resize_denominator(&mut self, value: u32) -> (r: &mut Self)
        ensures
            r.cfg() == (AomCodecEncCfg { rc_resize_denominator: value, ..old(self).cfg() }),
            *final(self) == *final(r),
    ;

    fn rc_resize_kf_denominator(&mut self, value: u32) -> (r: &mut Self)
        ensures
            r.cfg() == (AomCodecEncCfg { rc_resize_kf_denominator: value, ..old(self).cfg() }),
            *final(self) == *final(r),
    ;

    fn rc_superres_mode(&mut self, value: u32) -> (r: &mut Self)
        ensures
            r.cfg() == (AomCodecEncCfg { rc_superres_mode: value, ..old(self).cfg() }),
            *final(self) == *final(r),
    ;

    fn rc_superres_denominator(&mut self, value: u32) -> (r: &mut Self)
        ensures
            r.cfg() == (AomCodecEncCfg { rc_superres_denominator: value, ..old(self).cfg() }),
            *final(self) == *final(r),
    ;

    fn rc_superres_kf_denominator(&mut self, value: u32) -> (r: &mut Self)
        ensures
            r.cfg() == (AomCodecEncCfg { rc_superres_kf_denominator: value, ..old(self).cfg() }),
            *final(self) == *final(r),
    ;

    fn rc_superres_qthresh(&mut self, value: u32) -> (r: &mut Self)
        ensures
            r.cfg() == (AomCodecEncCfg { rc_superres_qthresh: value, ..old(self).cfg() }),
            *final(self) == *final(r),
    ;

    fn rc_superres_kf_qthresh(&mut self, value: u32) -> (r: &mut Self)
        ensures
            r.cfg() == (AomCodecEncCfg { rc_superres_kf_qthresh: value, ..old(self).cfg() }),
            *final(self) == *final(r),
    ;

    fn rc_end_usage(&mut self, value: u32) -> (r: &mut Self)
        ensures
            r.cfg() == (AomCodecEncCfg { rc_end_usage: value, ..old(self).cfg() }),
            *final(self) == *final(r),
    ;

    fn rc_twopass_stats_in(&mut self, value: AomFixedBuf) -> (r: &mut Self)
        ensures
            r.cfg() == (AomCodecEncCfg { rc_twopass_stats_in: value, ..old(self).cfg() }),
            *final(self) == *final(r),
    ;

    fn rc_firstpass_mb_stats_in(&mut self, value: AomFixedBuf) -> (r: &mut Self)
        ensures
            r.cfg() == (AomCodecEncCfg { rc_firstpass_mb_stats_in: value, ..old(self).cfg() }),
            *final(self) == *final(r),
    ;

    fn rc_target_bitrate(&mut self, value: u32) -> (r: &mut Self)
        ensures
            r.cfg() == (AomCodecEncCfg { rc_target_bitrate: value, ..old(self).cfg() }),
            *final(self) == *final(r),
    ;

    fn rc_min_quantizer(&mut self, value: u32) -> (r: &mut Self)
        ensures
            r.cfg() == (AomCodecEncCfg { rc_min_quantizer: value, ..old(self).cfg() }),
            *final(self) == *final(r),
    ;

    fn rc_max_quantizer(&mut self, value: u32) -> (r: &mut Self)
        ensures
            r.cfg() == (AomCodecEncCfg { rc_max_quantizer: value, ..old(self).cfg() }),
            *final(self) == *final(r),
    ;

    fn rc_undershoot_pct(&mut self, value: u32) -> (r: &mut Self)
        ensures
            r.cfg() == (AomCodecEncCfg { rc_undershoot_pct: value, ..old(self).cfg() }),
            *final(self) == *final(r),
    ;

    fn rc_overshoot_pct(&mut self, value: u32) -> (r: &mut Self)
        ensures
            r.cfg() == (AomCodecEncCfg { rc_overshoot_pct: value, ..old(self).cfg() }),
            *final(self) == *final(r),
    ;

    fn rc_buf_sz(&mut self, value: u32) -> (r: &mut Self)
        ensures
            r.cfg() == (AomCodecEncCfg { rc_buf_sz: value, ..old(self).cfg() }),
            *final(self) == *final(r),
    ;

    fn rc_buf_initial_sz(&mut self, value: u32) -> (r: &mut Self)
        ensures
            r.cfg() == (AomCodecEncCfg { rc_buf_initial_sz: value, ..old(self).cfg() }),
            *final(self) == *final(r),
    ;

    fn rc_buf_optimal_sz(&mut self, value: u32) -> (r: &mut Self)
        ensures
            r.cfg() == (AomCodecEncCfg { rc_buf_optimal_sz: value, ..old(self).cfg() }),
            *final(self) == *final(r),
    ;

    fn rc_2pass_vbr_bias_pct(&mut self, value: u32) -> (r: &mut Self)
        ensures
            r.cfg() == (AomCodecEncCfg { rc_2pass_vbr_bias_pct: value, ..old(self).cfg() }),
            *final(self) == *final(r),
    ;

    fn rc_2pass_vbr_minsection_pct(&mut self, value: u32) -> (r: &mut Self)
        ensures
            r.cfg() == (AomCodecEncCfg { rc_2pass_vbr_minsection_pct: value, ..old(self).cfg() }),
            *final(self) == *final(r),
    ;

    fn rc_2pass_vbr_maxsection_pct(&mut self, value: u32) -> (r: &mut Self)
        ensures
            r.cfg() == (AomCodecEncCfg { rc_2pass_vbr_maxsection_pct: value, ..old(self).cfg() }),
            *final(self) == *final(r),
    ;

    fn fwd_kf_enabled(&mut self, value: i32) -> (r: &mut Self)
        ensures
            r.cfg() == (AomCodecEncCfg { fwd_kf_enabled: value, ..old(self).cfg() }),
            *final(self) == *final(r),
    ;

    fn kf_mode(&mut self, value: u32) -> (r: &mut Self)
        ensures
            r.cfg() == (AomCodecEncCfg { kf_mode: value, ..old(self).cfg() }),
            *final(self) == *final(r),
    ;

    fn kf_min_dist(&mut self, value: u32) -> (r: &mut Self)
        ensures
            r.cfg() == (AomCodecEncCfg { kf_min_dist: value, ..old(self).cfg() }),
            *final(self) == *final(r),
    ;

    fn kf_max_dist(&mut self, value: u32) -> (r: &mut Self)
        ensures
            r.cfg() == (AomCodecEncCfg { kf_max_dist: value, ..old(self).cfg() }),
            *final(self) == *final(r),
    ;

    fn sframe_dist(&mut self, value: u32) -> (r: &mut Self)
        ensures
            r.cfg() == (AomCodecEncCfg { sframe_dist: value, ..old(self).cfg() }),
            *final(self) == *final(r),
    ;

    fn sframe_mode(&mut self, value: u32) -> (r: &mut Self)
        ensures
            r.cfg() == (AomCodecEncCfg { sframe_mode: value, ..old(self).cfg() }),
            *final(self) == *final(r),
    ;

    fn large_scale_tile(&mut self, value: u32) -> (r: &mut Self)
        ensures
            r.cfg() == (AomCodecEncCfg { large_scale_tile: value, ..old(self).cfg() }),
            *final(self) == *final(r),
    ;

    fn monochrome(&mut self, value: u32) -> (r: &mut Self)
        ensures
            r.cfg() == (AomCodecEncCfg { monochrome: value, ..old(self).cfg() }),
            *final(self) == *final(r),
    ;

    fn full_still_picture_hdr(&mut self, value: u32) -> (r: &mut Self)
        ensures
            r.cfg() == (AomCodecEncCfg { full_still_picture_hdr: value, ..old(self).cfg() }),
            *final(self) == *final(r),
    ;

    fn save_as_annexb(&mut self, value: u32) -> (r: &mut Self)
        ensures
            r.cfg() == (AomCodecEncCfg { save_as_annexb: value, ..old(self).cfg() }),
            *final(self) == *final(r),
    ;

    fn tile_width_count(&mut self, value: i32) -> (r: &mut Self)
        ensures
            r.cfg() == (AomCodecEncCfg { tile_width_count: value, ..old(self).cfg() }),
            *final(self) == *final(r),
    ;

    fn tile_height_count(&mut self, value: i32) -> (r: &mut Self)
        ensures
            r.cfg() == (AomCodecEncCfg { tile_height_count: value, ..old(self).cfg() }),
            *final(self) == *final(r),
    ;

    fn tile_widths(&mut self, value: [i32; 64]) -> (r: &mut Self)
        ensures
            r.cfg() == (AomCodecEncCfg { tile_widths: value, ..old(self).cfg() }),
            *final(self) == *final(r),
    ;

    fn tile_heights(&mut self, value: [i32; 64]) -> (r: &mut Self)
        ensures
            r.cfg() == (AomCodecEncCfg { tile_heights: value, ..old(self).cfg() }),
            *final(self) == *final(r),
    ;

    fn use_fixed_qp_offsets(&mut self, value: u32) -> (r: &mut Self)
        ensures
            r.cfg() == (AomCodecEncCfg { use_fixed_qp_offsets: value, ..old(self).cfg() }),
            *final(self) == *final(r),
    ;

    fn fixed_qp_offsets(&mut self, value: [i32; 5]) -> (r: &mut Self)
        ensures
            r.cfg() == (AomCodecEncCfg { fixed_qp_offsets: value, ..old(self).cfg() }),
            *final(self) == *final(r),
    ;

    fn encoder_cfg(&mut self, value: CfgOptions) -> (r: &mut Self)
        ensures
            r.cfg() == (AomCodecEncCfg { encoder_cfg: value, ..old(self).cfg() }),
            *final(self) == *final(r),
    ;
}

impl AomCodecEncCfgTrait for AV1EncoderConfig {
    open spec fn cfg(&self) -> AomCodecEncCfg {
        self.enc_cfg
    }

    fn g_usage(&mut self, value: u32) -> (r: &mut Self) {
        self.enc_cfg.g_usage = value;
        self
    }

    fn g_threads(&mut self, value: u32) -> (r: &mut Self) {
        self.enc_cfg.g_threads = value;
        self
    }

    fn g_profile(&mut self, value: u32) -> (r: &mut Self) {
        self.enc_cfg.g_profile = value;
        self
    }

    fn g_w(&mut self, value: u32) -> (r: &mut Self) {
        self.enc_cfg.g_w = value;
        self
    }

    fn g_h(&mut self, value: u32) -> (r: &mut Self) {
        self.enc_cfg.g_h = value;
        self
    }

    fn g_limit(&mut self, value: u32) -> (r: &mut Self) {
        self.enc_cfg.g_limit = value;
        self
    }

    fn g_forced_max_frame_width(&mut self, value: u32) -> (r: &mut Self) {
        self.enc_cfg.g_forced_max_frame_width = value;
        self
    }

    fn g_forced_max_frame_height(&mut self, value: u32) -> (r: &mut Self) {
        self.enc_cfg.g_forced_max_frame_height = value;
        self
    }

    fn g_bit_depth(&mut self, value: u32) -> (r: &mut Self) {
        self.enc_cfg.g_bit_depth = value;
        self
    }

    fn g_input_bit_depth(&mut self, value: u32) -> (r: &mut Self) {
        self.enc_cfg.g_input_bit_depth = value;
        self
    }

    fn g_timebase(&mut self, value: AomRational) -> (r: &mut Self) {
        self.enc_cfg.g_timebase = value;
        self
    }

    fn g_error_resilient(&mut self, value: u32) -> (r: &mut Self) {
        self.enc_cfg.g_error_resilient = value;
        self
    }

    fn g_pass(&mut self, value: u32) -> (r: &mut Self) {
        self.enc_cfg.g_pass = value;
        self
    }

    fn g_lag_in_frames(&mut self, value: u32) -> (r: &mut Self) {
        self.enc_cfg.g_lag_in_frames = value;
        self
    }

    fn rc_dropframe_thresh(&mut self, value: u32) -> (r: &mut Self) {
        self.enc_cfg.rc_dropframe_thresh = value;
        self
    }

    fn rc_resize_mode(&mut self, value: u32) -> (r: &mut Self) {
        self.enc_cfg.rc_resize_mode = value;
        self
    }

    fn rc_resize_denominator(&mut self, value: u32) -> (r: &mut Self) {
        self.enc_cfg.rc_resize_denominator = value;
        self
    }

    fn rc_resize_kf_denominator(&mut self, value: u32) -> (r: &mut Self) {
        self.enc_cfg.rc_resize_kf_denominator = value;
        self
    }

    fn rc_superres_mode(&mut self, value: u32) -> (r: &mut Self) {
        self.enc_cfg.rc_superres_mode = value;
        self
    }

    fn rc_superres_denominator(&mut self, value: u32) -> (r: &mut Self) {
        self.enc_cfg.rc_superres_denominator = value;
        self
    }

    fn rc_superres_kf_denominator(&mut self, value: u32) -> (r: &mut Self) {
        self.enc_cfg.rc_superres_kf_denominator = value;
        self
    }

    fn rc_superres_qthresh(&mut self, value: u32) -> (r: &mut Self) {
        self.enc_cfg.rc_superres_qthresh = value;
        self
    }

    fn rc_superres_kf_qthresh(&mut self, value: u32) -> (r: &mut Self) {
        self.enc_cfg.rc_superres_kf_qthresh = value;
        self
    }

    fn rc_end_usage(&mut self, value: u32) -> (r: &mut Self) {
        self.enc_cfg.rc_end_usage = value;
        self
    }

    fn rc_twopass_stats_in(&mut self, value: AomFixedBuf) -> (r: &mut Self) {
        self.enc_cfg.rc_twopass_stats_in = value;
        self
    }

    fn rc_firstpass_mb_stats_in(&mut self, value: AomFixedBuf) -> (r: &mut Self) {
        self.enc_cfg.rc_firstpass_mb_stats_in = value;
        self
    }

    fn rc_target_bitrate(&mut self, value: u32) -> (r: &mut Self) {
        self.enc_cfg.rc_target_bitrate = value;
        self
    }

    fn rc_min_quantizer(&mut self, value: u32) -> (r: &mut Self) {
        self.enc_cfg.rc_min_quantizer = value;
        self
    }

    fn rc_max_quantizer(&mut self, value: u32) -> (r: &mut Self) {
        self.enc_cfg.rc_max_quantizer = value;
        self
    }

    fn rc_undershoot_pct(&mut self, value: u32) -> (r: &mut Self) {
        self.enc_cfg.rc_undershoot_pct = value;
        self
    }

    fn rc_overshoot_pct(&mut self, value: u32) -> (r: &mut Self) {
        self.enc_cfg.rc_overshoot_pct = value;
        self
    }

    fn rc_buf_sz(&mut self, value: u32) -> (r: &mut Self) {
        self.enc_cfg.rc_buf_sz = value;
        self
    }

    fn rc_buf_initial_sz(&mut self, value: u32) -> (r: &mut Self) {
        self.enc_cfg.rc_buf_initial_sz = value;
        self
    }

    fn rc_buf_optimal_sz(&mut self, value: u32) -> (r: &mut Self) {
        self.enc_cfg.rc_buf_optimal_sz = value;
        self
    }

    fn rc_2pass_vbr_bias_pct(&mut self, value: u32) -> (r: &mut Self) {
        self.enc_cfg.rc_2pass_vbr_bias_pct = value;
        self
    }

    fn rc_2pass_vbr_minsection_pct(&mut self, value: u32) -> (r: &mut Self) {
        self.enc_cfg.rc_2pass_vbr_minsection_pct = value;
        self
    }

    fn rc_2pass_vbr_maxsection_pct(&mut self, value: u32) -> (r: &mut Self) {
        self.enc_cfg.rc_2pass_vbr_maxsection_pct = value;
        self
    }

    fn fwd_kf_enabled(&mut self, value: i32) -> (r: &mut Self) {
        self.enc_cfg.fwd_kf_enabled = value;
        self
    }

    fn kf_mode(&mut self, value: u32) -> (r: &mut Self) {
        self.enc_cfg.kf_mode = value;
        self
    }

    fn kf_min_dist(&mut self, value: u32) -> (r: &mut Self) {
        self.enc_cfg.kf_min_dist = value;
        self
    }

    fn kf_max_dist(&mut self, value: u32) -> (r: &mut Self) {
        self.enc_cfg.kf_max_dist = value;
        self
    }

    fn sframe_dist(&mut self, value: u32) -> (r: &mut Self) {
        self.enc_cfg.sframe_dist = value;
        self
    }

    fn sframe_mode(&mut self, value: u32) -> (r: &mut Self) {
        self.enc_cfg.sframe_mode = value;
        self
    }

    fn large_scale_tile(&mut self, value: u32) -> (r: &mut Self) {
        self.enc_cfg.large_scale_tile = value;
        self
    }

    fn monochrome(&mut self, value: u32) -> (r: &mut Self) {
        self.enc_cfg.monochrome = value;
        self
    }

    fn full_still_picture_hdr(&mut self, value: u32) -> (r: &mut Self) {
        self.enc_cfg.full_still_picture_hdr = value;
        self
    }

    fn save_as_annexb(&mut self, value: u32) -> (r: &mut Self) {
        self.enc_cfg.save_as_annexb = value;
        self
    }

    fn tile_width_count(&mut self, value: i32) -> (r: &mut Self) {
        self.enc_cfg.tile_width_count = value;
        self
    }

    fn tile_height_count(&mut self, value: i32) -> (r: &mut Self) {
        self.enc_cfg.tile_height_count = value;
        self
    }

    fn tile_widths(&mut self, value: [i32; 64]) -> (r: &mut Self) {
        self.enc_cfg.tile_widths = value;
        self
    }

    fn tile_heights(&mut self, value: [i32; 64]) -> (r: &mut Self) {
        self.enc_cfg.tile_heights = value;
        self
    }

    fn use_fixed_qp_offsets(&mut self, value: u32) -> (r: &mut Self) {
        self.enc_cfg.use_fixed_qp_offsets = value;
        self
    }

    fn fixed_qp_offsets(&mut self, value: [i32; 5]) -> (r: &mut Self) {
        self.enc_cfg.fixed_qp_offsets = value;
        self
    }

    fn encoder_cfg(&mut self, value: CfgOptions) -> (r: &mut Self) {
        self.enc_cfg.encoder_cfg = value;
        self
    }
}

} // verus!

