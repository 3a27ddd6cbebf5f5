use av1_encoder::config::AomCodecEncCfg;
use av1_encoder::config::AomFixedBuf;
use av1_encoder::config::AomRational;
use av1_encoder::config::CfgOptions;
use av1_encoder::AomCodecEncCfgTrait;
use av1_encoder::AV1EncoderConfig;
use av1_encoder::Av1Errors;

fn zeroed_config() -> AV1EncoderConfig {
    AV1EncoderConfig { enc_cfg: AomCodecEncCfg::zeroed() }
}

#[test]
fn zeroed_record_is_all_zero() {
    let cfg = AomCodecEncCfg::zeroed();
    assert_eq!(cfg.g_usage, 0);
    assert_eq!(cfg.g_w, 0);
    assert_eq!(cfg.g_h, 0);
    assert_eq!(cfg.g_timebase, AomRational { num: 0, den: 0 });
    assert_eq!(cfg.rc_target_bitrate, 0);
    assert!(cfg.rc_twopass_stats_in.data.is_empty());
    assert!(cfg.rc_firstpass_mb_stats_in.data.is_empty());
    assert_eq!(cfg.tile_widths, [0i32; 64]);
    assert_eq!(cfg.tile_heights, [0i32; 64]);
    assert_eq!(cfg.fixed_qp_offsets, [0i32; 5]);
    assert_eq!(cfg.encoder_cfg.super_block_size, 0);
}

#[test]
fn general_setters_write_their_fields() {
    let mut cfg = zeroed_config();
    cfg.g_usage(1)
        .g_threads(8)
        .g_profile(2)
        .g_w(1920)
        .g_h(1080)
        .g_limit(300)
        .g_forced_max_frame_width(3840)
        .g_forced_max_frame_height(2160)
        .g_bit_depth(8)
        .g_input_bit_depth(8)
        .g_timebase(AomRational { num: 1, den: 30 })
        .g_error_resilient(1)
        .g_pass(0)
        .g_lag_in_frames(25);
    assert_eq!(cfg.enc_cfg.g_usage, 1);
    assert_eq!(cfg.enc_cfg.g_threads, 8);
    assert_eq!(cfg.enc_cfg.g_profile, 2);
    assert_eq!(cfg.enc_cfg.g_w, 1920);
    assert_eq!(cfg.enc_cfg.g_h, 1080);
    assert_eq!(cfg.enc_cfg.g_limit, 300);
    assert_eq!(cfg.enc_cfg.g_forced_max_frame_width, 3840);
    assert_eq!(cfg.enc_cfg.g_forced_max_frame_height, 2160);
    assert_eq!(cfg.enc_cfg.g_bit_depth, 8);
    assert_eq!(cfg.enc_cfg.g_input_bit_depth, 8);
    assert_eq!(cfg.enc_cfg.g_timebase, AomRational { num: 1, den: 30 });
    assert_eq!(cfg.enc_cfg.g_error_resilient, 1);
    assert_eq!(cfg.enc_cfg.g_pass, 0);
    assert_eq!(cfg.enc_cfg.g_lag_in_frames, 25);
    // Untouched fields keep their value.
    assert_eq!(cfg.enc_cfg.rc_target_bitrate, 0);
    assert_eq!(cfg.enc_cfg.kf_max_dist, 0);
}

#[test]
fn rate_control_setters_write_their_fields() {
    let mut cfg = zeroed_config();
    cfg.rc_dropframe_thresh(30)
        .rc_resize_mode(1)
        .rc_resize_denominator(16)
        .rc_resize_kf_denominator(12)
        .rc_superres_mode(2)
        .rc_superres_denominator(9)
        .rc_superres_kf_denominator(10)
        .rc_superres_qthresh(63)
        .rc_superres_kf_qthresh(42)
        .rc_end_usage(1)
        .rc_target_bitrate(3000)
        .rc_min_quantizer(4)
        .rc_max_quantizer(52)
        .rc_undershoot_pct(25)
        .rc_overshoot_pct(50)
        .rc_buf_sz(6000)
        .rc_buf_initial_sz(4000)
        .rc_buf_optimal_sz(5000)
        .rc_2pass_vbr_bias_pct(50)
        .rc_2pass_vbr_minsection_pct(5)
        .rc_2pass_vbr_maxsection_pct(800);
    assert_eq!(cfg.enc_cfg.rc_dropframe_thresh, 30);
    assert_eq!(cfg.enc_cfg.rc_resize_mode, 1);
    assert_eq!(cfg.enc_cfg.rc_resize_denominator, 16);
    assert_eq!(cfg.enc_cfg.rc_resize_kf_denominator, 12);
    assert_eq!(cfg.enc_cfg.rc_superres_mode, 2);
    assert_eq!(cfg.enc_cfg.rc_superres_denominator, 9);
    assert_eq!(cfg.enc_cfg.rc_superres_kf_denominator, 10);
    assert_eq!(cfg.enc_cfg.rc_superres_qthresh, 63);
    assert_eq!(cfg.enc_cfg.rc_superres_kf_qthresh, 42);
    assert_eq!(cfg.enc_cfg.rc_end_usage, 1);
    assert_eq!(cfg.enc_cfg.rc_target_bitrate, 3000);
    assert_eq!(cfg.enc_cfg.rc_min_quantizer, 4);
    assert_eq!(cfg.enc_cfg.rc_max_quantizer, 52);
    assert_eq!(cfg.enc_cfg.rc_undershoot_pct, 25);
    assert_eq!(cfg.enc_cfg.rc_overshoot_pct, 50);
    assert_eq!(cfg.enc_cfg.rc_buf_sz, 6000);
    assert_eq!(cfg.enc_cfg.rc_buf_initial_sz, 4000);
    assert_eq!(cfg.enc_cfg.rc_buf_optimal_sz, 5000);
    assert_eq!(cfg.enc_cfg.rc_2pass_vbr_bias_pct, 50);
    assert_eq!(cfg.enc_cfg.rc_2pass_vbr_minsection_pct, 5);
    assert_eq!(cfg.enc_cfg.rc_2pass_vbr_maxsection_pct, 800);
}

#[test]
fn stats_buffer_setters_store_the_bytes() {
    let mut cfg = zeroed_config();
    cfg.rc_twopass_stats_in(AomFixedBuf { data: vec![1, 2, 3] })
        .rc_firstpass_mb_stats_in(AomFixedBuf { data: vec![9, 8] });
    assert_eq!(cfg.enc_cfg.rc_twopass_stats_in.data, vec![1, 2, 3]);
    assert_eq!(cfg.enc_cfg.rc_firstpass_mb_stats_in.data, vec![9, 8]);
}

#[test]
fn keyframe_and_tile_setters_write_their_fields() {
    let mut cfg = zeroed_config();
    let mut widths = [0i32; 64];
    widths[0] = 4;
    widths[63] = 7;
    let mut heights = [0i32; 64];
    heights[1] = 2;
    cfg.fwd_kf_enabled(1)
        .kf_mode(1)
        .kf_min_dist(12)
        .kf_max_dist(128)
        .sframe_dist(60)
        .sframe_mode(2)
        .large_scale_tile(1)
        .monochrome(1)
        .full_still_picture_hdr(1)
        .save_as_annexb(1)
        .tile_width_count(2)
        .tile_height_count(1)
        .tile_widths(widths)
        .tile_heights(heights)
        .use_fixed_qp_offsets(1)
        .fixed_qp_offsets([1, 2, 3, 4, 5]);
    assert_eq!(cfg.enc_cfg.fwd_kf_enabled, 1);
    assert_eq!(cfg.enc_cfg.kf_mode, 1);
    assert_eq!(cfg.enc_cfg.kf_min_dist, 12);
    assert_eq!(cfg.enc_cfg.kf_max_dist, 128);
    assert_eq!(cfg.enc_cfg.sframe_dist, 60);
    assert_eq!(cfg.enc_cfg.sframe_mode, 2);
    assert_eq!(cfg.enc_cfg.large_scale_tile, 1);
    assert_eq!(cfg.enc_cfg.monochrome, 1);
    assert_eq!(cfg.enc_cfg.full_still_picture_hdr, 1);
    assert_eq!(cfg.enc_cfg.save_as_annexb, 1);
    assert_eq!(cfg.enc_cfg.tile_width_count, 2);
    assert_eq!(cfg.enc_cfg.tile_height_count, 1);
    assert_eq!(cfg.enc_cfg.tile_widths, widths);
    assert_eq!(cfg.enc_cfg.tile_heights, heights);
    assert_eq!(cfg.enc_cfg.use_fixed_qp_offsets, 1);
    assert_eq!(cfg.enc_cfg.fixed_qp_offsets, [1, 2, 3, 4, 5]);
}

#[test]
fn encoder_cfg_setter_stores_the_record() {
    let mut cfg = zeroed_config();
    let mut opts: CfgOptions = AomCodecEncCfg::zeroed().encoder_cfg;
    opts.super_block_size = 64;
    opts.disable_cdef = 1;
    opts.reduced_tx_type_set = 1;
    cfg.encoder_cfg(opts);
    assert_eq!(cfg.enc_cfg.encoder_cfg.super_block_size, 64);
    assert_eq!(cfg.enc_cfg.encoder_cfg.disable_cdef, 1);
    assert_eq!(cfg.enc_cfg.encoder_cfg.reduced_tx_type_set, 1);
    assert_eq!(cfg.enc_cfg.encoder_cfg.disable_lr, 0);
}

#[test]
fn setter_overwrites_previous_value() {
    let mut cfg = zeroed_config();
    cfg.rc_target_bitrate(1000).rc_target_bitrate(2000);
    assert_eq!(cfg.enc_cfg.rc_target_bitrate, 2000);
}

#[test]
fn init_result_takes_record_on_success() {
    let mut cfg = AomCodecEncCfg::zeroed();
    cfg.g_usage = 1;
    let r = AV1EncoderConfig::init_result(0, cfg);
    let built = r.expect("code 0 must succeed");
    assert_eq!(built.enc_cfg.g_usage, 1);
}

#[test]
fn init_result_fails_on_nonzero_code() {
    let r = AV1EncoderConfig::init_result(1, AomCodecEncCfg::zeroed());
    assert_eq!(r.unwrap_err(), Av1Errors::ConfigError);
    let r = AV1EncoderConfig::init_result(7, AomCodecEncCfg::zeroed());
    assert_eq!(r.unwrap_err(), Av1Errors::ConfigError);
}

#[test]
fn check_codec_ok_maps_codes() {
    assert!(av1_encoder::check_codec_ok(0).is_ok());
    assert_eq!(av1_encoder::check_codec_ok(5), Err(5));
    assert_eq!(av1_encoder::check_codec_ok(1), Err(1));
}
