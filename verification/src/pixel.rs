//! Model of the pixel-format description an input frame carries: colour
//! model, per-component subsampling, and the colorimetry code points that the
//! marshalling copies into the native image struct.

use vstd::prelude::*;

verus! {

broadcast use vstd::array::group_array_axioms;

/// Range of the stored YUV samples.
#[derive(Clone, Copy, Debug, PartialEq, Eq, Structural)]
pub enum YuvRange {
    Limited,
    Full,
}

/// Flavour of YUV encoding.
#[derive(Clone, Copy, Debug, PartialEq, Eq, Structural)]
pub enum YuvSystem {
    YCbCr(YuvRange),
    YCoCg,
    ICtCp,
}

/// Encoding system of a three-channel image.
#[derive(Clone, Copy, Debug, PartialEq, Eq, Structural)]
pub enum TrichromaticEncodingSystem {
    Rgb,
    Yuv(YuvSystem),
    Xyz,
}

/// Colour model of an image.
#[derive(Clone, Copy, Debug, PartialEq, Eq, Structural)]
pub enum ColorModel {
    Trichromatic(TrichromaticEncodingSystem),
    Cmyk,
    Hsv,
    Lab,
}

/// Layout of one pixel component: subsampling in powers of two, packing,
/// bit depth, and placement within an element.
#[derive(Clone, Copy, Debug, PartialEq, Eq, Structural)]
pub struct Chromaton {
    pub h_ss: u8,
    pub v_ss: u8,
    pub packed: bool,
    pub depth: u8,
    pub shift: u8,
    pub comp_offs: u8,
    pub next_elem: u8,
}

/// A pixel-format description. The colorimetry fields (`primaries`, `xfer`,
/// `matrix`, `chroma_location`) carry their standard integer code points, the
/// value an enumerated native field would hold.
#[derive(Clone, Copy, Debug)]
pub struct Formaton {
    pub model: ColorModel,
    pub primaries: u32,
    pub xfer: u32,
    pub matrix: u32,
    pub chroma_location: u32,
    pub components: u8,
    pub comp_info: [Option<Chromaton>; 5],
    pub elem_size: u8,
    pub be: bool,
    pub alpha: bool,
    pub palette: bool,
}

/// Code point for unspecified colorimetry, shared by the primaries, transfer
/// and matrix scales.
pub const COLOR_UNSPECIFIED: u32 = 2;

/// The 8-bit planar YUV 4:2:0 format, at the specification level: limited
/// range, three components, chroma halved in both directions, unspecified
/// colorimetry.
pub open spec fn spec_yuv420() -> Formaton {
    Formaton {
        model: ColorModel::Trichromatic(TrichromaticEncodingSystem::Yuv(YuvSystem::YCbCr(
            YuvRange::Limited,
        ))),
        primaries: COLOR_UNSPECIFIED,
        xfer: COLOR_UNSPECIFIED,
        matrix: COLOR_UNSPECIFIED,
        chroma_location: 0,
        components: 3,
        comp_info: [
            Some(
                Chromaton {
                    h_ss: 0,
                    v_ss: 0,
                    packed: false,
                    depth: 8,
                    shift: 0,
                    comp_offs: 0,
                    next_elem: 1,
                },
            ),
            Some(
                Chromaton {
                    h_ss: 1,
                    v_ss: 1,
                    packed: false,
                    depth: 8,
                    shift: 0,
                    comp_offs: 1,
                    next_elem: 1,
                },
            ),
            Some(
                Chromaton {
                    h_ss: 1,
                    v_ss: 1,
                    packed: false,
                    depth: 8,
                    shift: 0,
                    comp_offs: 2,
                    next_elem: 1,
                },
            ),
            None,
            None,
        ],
        elem_size: 0,
        be: false,
        alpha: false,
        palette: false,
    }
}

/// The 8-bit planar YUV 4:2:0 format.
pub fn yuv420() -> (r: Formaton)
    ensures
        r == spec_yuv420(),
{
    Formaton {
        model: ColorModel::Trichromatic(TrichromaticEncodingSystem::Yuv(YuvSystem::YCbCr(
            YuvRange::Limited,
        ))),
        primaries: COLOR_UNSPECIFIED,
        xfer: COLOR_UNSPECIFIED,
        matrix: COLOR_UNSPECIFIED,
        chroma_location: 0,
        components: 3,
        comp_info: [
            Some(
                Chromaton {
                    h_ss: 0,
                    v_ss: 0,
                    packed: false,
                    depth: 8,
                    shift: 0,
                    comp_offs: 0,
                    next_elem: 1,
                },
            ),
            Some(
                Chromaton {
                    h_ss: 1,
                    v_ss: 1,
                    packed: false,
                    depth: 8,
                    shift: 0,
                    comp_offs: 1,
                    next_elem: 1,
                },
            ),
            Some(
                Chromaton {
                    h_ss: 1,
                    v_ss: 1,
                    packed: false,
                    depth: 8,
                    shift: 0,
                    comp_offs: 2,
                    next_elem: 1,
                },
            ),
            None,
            None,
        ],
        elem_size: 0,
        be: false,
        alpha: false,
        palette: false,
    }
}

/// Compares two optional component layouts.
fn chromaton_opt_eq(a: &Option<Chromaton>, b: &Option<Chromaton>) -> (r: bool)
    ensures
        r <==> *a == *b,
{
    match (a, b) {
        (Some(x), Some(y)) => *x == *y,
        (None, None) => true,
        _ => false,
    }
}

impl PartialEq for Formaton {
    fn eq(&self, o: &Formaton) -> (r: bool) {
        let fields_eq = self.model == o.model && self.primaries == o.primaries && self.xfer
            == o.xfer && self.matrix == o.matrix && self.chroma_location == o.chroma_location
            && self.components == o.components && self.elem_size == o.elem_size && self.be == o.be
            && self.alpha == o.alpha && self.palette == o.palette;
        let comps_eq = chromaton_opt_eq(&self.comp_info[0], &o.comp_info[0]) && chromaton_opt_eq(
            &self.comp_info[1],
            &o.comp_info[1],
        ) && chromaton_opt_eq(&self.comp_info[2], &o.comp_info[2]) && chromaton_opt_eq(
            &self.comp_info[3],
            &o.comp_info[3],
        ) && chromaton_opt_eq(&self.comp_info[4], &o.comp_info[4]);
        proof {
            if comps_eq {
                assert(self.comp_info =~= o.comp_info);
            } else {
                assert(self.comp_info != o.comp_info);
            }
        }
        fields_eq && comps_eq
    }
}

impl vstd::std_specs::cmp::PartialEqSpecImpl for Formaton {
    open spec fn obeys_eq_spec() -> bool {
        true
    }

    open spec fn eq_spec(&self, o: &Formaton) -> bool {
        *self == *o
    }
}

impl Eq for Formaton {

}

impl Formaton {
    /// Reads the colour-primaries code.
    pub fn get_primaries(&self) -> (r: u32)
        ensures
            r == self.primaries,
    {
        self.primaries
    }

    /// Reads the transfer-characteristic code.
    pub fn get_xfer(&self) -> (r: u32)
        ensures
            r == self.xfer,
    {
        self.xfer
    }

    /// Reads the matrix-coefficients code.
    pub fn get_matrix(&self) -> (r: u32)
        ensures
            r == self.matrix,
    {
        self.matrix
    }

    /// Decides whether this format is exactly the 8-bit planar YUV 4:2:0
    /// format, the one layout the frame marshalling accepts.
    pub fn is_yuv420(&self) -> (r: bool)
        ensures
            r <==> *self == spec_yuv420(),
    {
        *self == yuv420()
    }
}

} // verus!
