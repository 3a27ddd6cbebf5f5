//! Marshalling of an input frame into the layout of the native image struct:
//! the format constant, the dimensions, the colorimetry code points, and the
//! pixel planes with their strides.

use vstd::prelude::*;

use crate::frame::Frame;
use crate::frame::MediaKind;
use crate::pixel::spec_yuv420;
use crate::pixel::Formaton;

verus! {

/// Format code of 8-bit planar YUV 4:2:0 in the native image struct: the
/// planar bit (0x100) with plane order code 2.
pub const AOM_IMG_FMT_I420: u32 = 0x102;

/// The native image struct has room for this many plane pointers.
pub const AOM_IMG_MAX_PLANES: usize = 3;

/// Model of the native image struct, as far as the marshalling fills it:
/// scalars as they stand in the struct, and the plane pointers and strides as
/// owned byte rows beside their strides. A freshly zeroed struct has every
/// scalar zero and no planes.
#[derive(Clone, Debug)]
pub struct AomImage {
    pub fmt: u32,
    pub w: u32,
    pub h: u32,
    pub bit_depth: u32,
    pub d_w: u32,
    pub d_h: u32,
    pub x_chroma_shift: u32,
    pub y_chroma_shift: u32,
    pub cp: u32,
    pub tc: u32,
    pub mc: u32,
    pub bps: i32,
    pub planes: Vec<Vec<u8>>,
    pub stride: Vec<i32>,
}

impl AomImage {
    /// Holds when every scalar field is zero and no plane is set: the state
    /// of the native struct after it is zeroed.
    pub open spec fn is_zeroed(self) -> bool {
        &&& self.fmt == 0
        &&& self.w == 0
        &&& self.h == 0
        &&& self.bit_depth == 0
        &&& self.d_w == 0
        &&& self.d_h == 0
        &&& self.x_chroma_shift == 0
        &&& self.y_chroma_shift == 0
        &&& self.cp == 0
        &&& self.tc == 0
        &&& self.mc == 0
        &&& self.bps == 0
        &&& self.planes@.len() == 0
        &&& self.stride@.len() == 0
    }

    /// An all-zero image, the starting point of the marshalling.
    pub fn zeroed() -> (r: AomImage)
        ensures
            r.is_zeroed(),
    {
        AomImage {
            fmt: 0,
            w: 0,
            h: 0,
            bit_depth: 0,
            d_w: 0,
            d_h: 0,
            x_chroma_shift: 0,
            y_chroma_shift: 0,
            cp: 0,
            tc: 0,
            mc: 0,
            bps: 0,
            planes: Vec::new(),
            stride: Vec::new(),
        }
    }
}

/// Copies the colorimetry code points of the pixel format into the image.
fn map_fmt_to_img(img: &mut AomImage, fmt: &Formaton)
    ensures
        *final(img) == (AomImage { cp: fmt.primaries, tc: fmt.xfer, mc: fmt.matrix, ..*old(img) }),
{
    img.cp = fmt.get_primaries();
    img.tc = fmt.get_xfer();
    img.mc = fmt.get_matrix();
}

/// Writes the format-dependent image fields for the one pixel format the
/// marshalling accepts, 8-bit planar YUV 4:2:0: the native I420 format code,
/// 8-bit depth at 12 bits per pixel, chroma halved in both directions, and
/// the format's colorimetry code points.
fn map_formaton(img: &mut AomImage, fmt: &Formaton)
    requires
        *fmt == spec_yuv420(),
    ensures
        *final(img) == (AomImage {
            fmt: AOM_IMG_FMT_I420,
            bit_depth: 8,
            bps: 12,
            x_chroma_shift: 1,
            y_chroma_shift: 1,
            cp: fmt.primaries,
            tc: fmt.xfer,
            mc: fmt.matrix,
            ..*old(img)
        }),
{
    img.fmt = AOM_IMG_FMT_I420;
    img.bit_depth = 8;
    img.bps = 12;
    img.x_chroma_shift = 1;
    img.y_chroma_shift = 1;
    map_fmt_to_img(img, fmt);
}

/// Converts a frame into the native image layout. A video frame must carry
/// 8-bit planar YUV 4:2:0 — the one format the mapping covers — and
/// dimensions and line sizes that fit the native struct's 32-bit fields; any
/// other media kind leaves the scalar fields zeroed. The frame's planes
/// become the image's planes in order, each with its line size as stride.
pub fn img_from_frame(frame: &Frame) -> (r: AomImage)
    requires
        frame.kind matches MediaKind::Video(v) ==> {
            &&& v.format == spec_yuv420()
            &&& v.width <= u32::MAX
            &&& v.height <= u32::MAX
        },
        frame.planes@.len() <= AOM_IMG_MAX_PLANES,
        forall|i: int|
            0 <= i < frame.planes@.len() ==> frame.planes@[i].linesize <= i32::MAX,
    ensures
        match frame.kind {
            MediaKind::Video(v) => {
                &&& r.fmt == AOM_IMG_FMT_I420
                &&& r.w == v.width as u32
                &&& r.h == v.height as u32
                &&& r.d_w == v.width as u32
                &&& r.d_h == v.height as u32
                &&& r.bit_depth == 8
                &&& r.bps == 12
                &&& r.x_chroma_shift == 1
                &&& r.y_chroma_shift == 1
                &&& r.cp == v.format.primaries
                &&& r.tc == v.format.xfer
                &&& r.mc == v.format.matrix
            },
            MediaKind::Audio => {
                &&& r.fmt == 0
                &&& r.w == 0
                &&& r.h == 0
                &&& r.d_w == 0
                &&& r.d_h == 0
                &&& r.bit_depth == 0
                &&& r.bps == 0
                &&& r.x_chroma_shift == 0
                &&& r.y_chroma_shift == 0
                &&& r.cp == 0
                &&& r.tc == 0
                &&& r.mc == 0
            },
        },
        r.planes@.len() == frame.planes@.len(),
        r.stride@.len() == frame.planes@.len(),
        forall|i: int| 0 <= i < frame.planes@.len() ==> r.planes@[i]@ == frame.planes@[i].data@,
        forall|i: int|
            0 <= i < frame.planes@.len() ==> r.stride@[i] == frame.planes@[i].linesize as i32,
{
    let mut img = AomImage::zeroed();

    match &frame.kind {
        MediaKind::Video(v) => {
            map_formaton(&mut img, &v.format);
            img.w = v.width as u32;
            img.h = v.height as u32;
            img.d_w = v.width as u32;
            img.d_h = v.height as u32;
        },
        MediaKind::Audio => {},
    }

    let ghost filled = img;
    let mut i: usize = 0;
    while i < frame.planes.len()
        invariant
            i <= frame.planes@.len(),
            img.planes@.len() == i,
            img.stride@.len() == i,
            forall|j: int| 0 <= j < i ==> img.planes@[j]@ == frame.planes@[j].data@,
            forall|j: int|
                0 <= j < i ==> img.stride@[j] == frame.planes@[j].linesize as i32,
            forall|j: int|
                0 <= j < frame.planes@.len() ==> frame.planes@[j].linesize <= i32::MAX,
            img == (AomImage { planes: img.planes, stride: img.stride, ..filled }),
        decreases frame.planes@.len() - i,
    {
        let row: Vec<u8> = frame.planes[i].data.clone();
        img.planes.push(row);
        img.stride.push(frame.planes[i].linesize as i32);
        i = i + 1;
    }

    img
}

} // verus!
