//! Classification of the encoder's output packets: the native codec hands
//! back a tagged union, and each tag picks one payload shape — a compressed
//! frame, two kinds of pass statistics, a PSNR measurement, or raw bytes.

use vstd::prelude::*;

verus! {

/// Native packet tag: a compressed frame.
pub const AOM_CODEC_CX_FRAME_PKT: u32 = 0;

/// Native packet tag: two-pass statistics.
pub const AOM_CODEC_STATS_PKT: u32 = 1;

/// Native packet tag: first-pass macroblock statistics.
pub const AOM_CODEC_FPMB_STATS_PKT: u32 = 2;

/// Native packet tag: a PSNR measurement.
pub const AOM_CODEC_PSNR_PKT: u32 = 3;

/// Native packet tag: algorithm-specific raw data.
pub const AOM_CODEC_CUSTOM_PKT: u32 = 256;

/// Flag bit set in a frame packet's flags when the frame is a keyframe.
pub const AOM_FRAME_IS_KEY: u32 = 0x1;

/// An output packet in the caller's shape: the compressed bytes with their
/// timestamp and keyframe mark.
#[derive(Clone, Debug)]
pub struct Packet {
    pub data: Vec<u8>,
    pub pts: Option<i64>,
    pub is_key: bool,
}

/// The PSNR payload of a native packet. The PSNR values themselves are
/// carried untouched as the bit patterns of the native 64-bit floating-point
/// fields (`psnr_bits`, `psnr_hbd_bits`); this logic only copies them.
/// `hbd` stands for high-bit-depth data.
#[derive(Clone, Copy, Debug)]
pub struct PsnrData {
    pub samples: [u32; 4],
    pub psnr_bits: [u64; 4],
    pub sse: [u64; 4],
    pub samples_hbd: [u32; 4],
    pub sse_hbd: [u64; 4],
    pub psnr_hbd_bits: [u64; 4],
}

/// The frame payload of a native packet: the compressed bytes, the
/// presentation timestamp, the duration, the frame flags, and the partition
/// index.
#[derive(Clone, Debug)]
pub struct CxFrameData {
    pub data: Vec<u8>,
    pub pts: i64,
    pub duration: u64,
    pub flags: u32,
    pub partition_id: i32,
}

/// The payload a native packet's union carries, one arm per payload shape.
#[derive(Clone, Debug)]
pub enum CxPktData {
    Frame(CxFrameData),
    TwoPassStats(Vec<u8>),
    FirstPassMbStats(Vec<u8>),
    Psnr(PsnrData),
    Raw(Vec<u8>),
}

/// A native output packet: its kind tag beside the union's payload. It is
/// well formed when the tag names the payload that is actually there, the
/// validity condition of the native tagged union.
#[derive(Clone, Debug)]
pub struct CxPkt {
    pub kind: u32,
    pub data: CxPktData,
}

impl CxPkt {
    /// The tag agrees with the payload arm, as the native union requires.
    pub open spec fn wf(self) -> bool {
        match self.data {
            CxPktData::Frame(_) => self.kind == AOM_CODEC_CX_FRAME_PKT,
            CxPktData::TwoPassStats(_) => self.kind == AOM_CODEC_STATS_PKT,
            CxPktData::FirstPassMbStats(_) => self.kind == AOM_CODEC_FPMB_STATS_PKT,
            CxPktData::Psnr(_) => self.kind == AOM_CODEC_PSNR_PKT,
            CxPktData::Raw(_) => self.kind == AOM_CODEC_CUSTOM_PKT,
        }
    }

    /// The tagged packet this native packet classifies to: the frame payload
    /// becomes a `Packet` whose keyframe mark is the keyframe bit of the
    /// flags, and every other payload is handed on unchanged.
    pub open spec fn classification(self) -> AOMPacket {
        match self.data {
            CxPktData::Frame(f) => AOMPacket::Frame(
                Packet {
                    data: f.data,
                    pts: Some(f.pts),
                    is_key: (f.flags & AOM_FRAME_IS_KEY) != 0,
                },
            ),
            CxPktData::TwoPassStats(b) => AOMPacket::TwoPassStats(b),
            CxPktData::FirstPassMbStats(b) => AOMPacket::FirstPassMBStats(b),
            CxPktData::Psnr(p) => AOMPacket::PSNR(p),
            CxPktData::Raw(b) => AOMPacket::Raw(b),
        }
    }
}

/// One unit of encoder output, tagged by what the native packet's kind said
/// it was.
#[derive(Clone, Debug)]
pub enum AOMPacket {
    Frame(Packet),
    TwoPassStats(Vec<u8>),
    FirstPassMBStats(Vec<u8>),
    PSNR(PsnrData),
    Raw(Vec<u8>),
}

impl AOMPacket {
    /// Classifies a well-formed native packet by its kind tag. A frame
    /// packet's bytes, timestamp and keyframe bit become a `Packet`; the
    /// statistics, PSNR and raw payloads are handed on as they are.
    pub fn new(pkt: CxPkt) -> (r: AOMPacket)
        requires
            pkt.wf(),
        ensures
            r == pkt.classification(),
            pkt.kind == AOM_CODEC_CX_FRAME_PKT ==> r is Frame,
            pkt.kind == AOM_CODEC_STATS_PKT ==> r is TwoPassStats,
            pkt.kind == AOM_CODEC_FPMB_STATS_PKT ==> r is FirstPassMBStats,
            pkt.kind == AOM_CODEC_PSNR_PKT ==> r is PSNR,
            pkt.kind == AOM_CODEC_CUSTOM_PKT ==> r is Raw,
    {
        match pkt.data {
            CxPktData::Frame(f) => {
                let is_key = (f.flags & AOM_FRAME_IS_KEY) != 0;
                AOMPacket::Frame(Packet { data: f.data, pts: Some(f.pts), is_key })
            },
            CxPktData::TwoPassStats(b) => AOMPacket::TwoPassStats(b),
            CxPktData::FirstPassMbStats(b) => AOMPacket::FirstPassMBStats(b),
            CxPktData::Psnr(p) => AOMPacket::PSNR(p),
            CxPktData::Raw(b) => AOMPacket::Raw(b),
        }
    }
}

} // verus!
