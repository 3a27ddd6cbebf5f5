use av1_encoder::frame::Frame;
use av1_encoder::frame::MediaKind;
use av1_encoder::frame::Plane;
use av1_encoder::frame::VideoInfo;
use av1_encoder::img_from_frame;
use av1_encoder::pixel::yuv420;
use av1_encoder::pixel::ColorModel;
use av1_encoder::pixel::COLOR_UNSPECIFIED;
use av1_encoder::utils::AOM_IMG_FMT_I420;

fn video_frame(width: usize, height: usize, planes: Vec<Plane>) -> Frame {
    Frame {
        kind: MediaKind::Video(VideoInfo {
            width,
            height,
            format: yuv420(),
        }),
        planes,
        pts: Some(0),
    }
}

#[test]
fn video_frame_fills_the_image_header() {
    let img = img_from_frame(&video_frame(640, 480, Vec::new()));
    assert_eq!(img.fmt, AOM_IMG_FMT_I420);
    assert_eq!(img.w, 640);
    assert_eq!(img.h, 480);
    assert_eq!(img.d_w, 640);
    assert_eq!(img.d_h, 480);
    assert_eq!(img.bit_depth, 8);
    assert_eq!(img.bps, 12);
    assert_eq!(img.x_chroma_shift, 1);
    assert_eq!(img.y_chroma_shift, 1);
    assert_eq!(img.cp, COLOR_UNSPECIFIED);
    assert_eq!(img.tc, COLOR_UNSPECIFIED);
    assert_eq!(img.mc, COLOR_UNSPECIFIED);
}

#[test]
fn i420_format_code_is_planar_with_order_two() {
    assert_eq!(AOM_IMG_FMT_I420, 0x102);
}

#[test]
fn planes_are_copied_in_order_with_strides() {
    let planes = vec![
        Plane { data: vec![1, 2, 3, 4], linesize: 2 },
        Plane { data: vec![5], linesize: 1 },
        Plane { data: vec![6], linesize: 1 },
    ];
    let img = img_from_frame(&video_frame(2, 2, planes));
    assert_eq!(img.planes.len(), 3);
    assert_eq!(img.stride.len(), 3);
    assert_eq!(img.planes[0], vec![1, 2, 3, 4]);
    assert_eq!(img.planes[1], vec![5]);
    assert_eq!(img.planes[2], vec![6]);
    assert_eq!(img.stride, vec![2, 1, 1]);
}

#[test]
fn non_video_frame_leaves_the_header_zeroed() {
    let frame = Frame {
        kind: MediaKind::Audio,
        planes: vec![Plane { data: vec![9], linesize: 3 }],
        pts: None,
    };
    let img = img_from_frame(&frame);
    assert_eq!(img.fmt, 0);
    assert_eq!(img.w, 0);
    assert_eq!(img.h, 0);
    assert_eq!(img.bit_depth, 0);
    // Planes are still marshalled, as the header and the planes are
    // independent steps.
    assert_eq!(img.planes.len(), 1);
    assert_eq!(img.planes[0], vec![9]);
    assert_eq!(img.stride, vec![3]);
}

#[test]
fn yuv420_recognises_itself_only() {
    let fmt = yuv420();
    assert!(fmt.is_yuv420());
    assert_eq!(fmt.get_primaries(), COLOR_UNSPECIFIED);
    assert_eq!(fmt.get_xfer(), COLOR_UNSPECIFIED);
    assert_eq!(fmt.get_matrix(), COLOR_UNSPECIFIED);

    let mut other = yuv420();
    other.primaries = 1;
    assert!(!other.is_yuv420());
    assert!(other != yuv420());

    let mut other = yuv420();
    other.comp_info[1] = None;
    assert!(!other.is_yuv420());

    let mut other = yuv420();
    other.model = ColorModel::Cmyk;
    assert!(!other.is_yuv420());

    assert_eq!(yuv420(), yuv420());
}
