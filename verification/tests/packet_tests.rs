use av1_encoder::encoder::AOMPacket;
use av1_encoder::encoder::CxFrameData;
use av1_encoder::encoder::CxPkt;
use av1_encoder::encoder::CxPktData;
use av1_encoder::encoder::PsnrData;
use av1_encoder::encoder::AOM_CODEC_CUSTOM_PKT;
use av1_encoder::encoder::AOM_CODEC_CX_FRAME_PKT;
use av1_encoder::encoder::AOM_CODEC_FPMB_STATS_PKT;
use av1_encoder::encoder::AOM_CODEC_PSNR_PKT;
use av1_encoder::encoder::AOM_CODEC_STATS_PKT;

fn frame_pkt(data: Vec<u8>, pts: i64, flags: u32) -> CxPkt {
    CxPkt {
        kind: AOM_CODEC_CX_FRAME_PKT,
        data: CxPktData::Frame(CxFrameData {
            data,
            pts,
            duration: 1,
            flags,
            partition_id: -1,
        }),
    }
}

#[test]
fn frame_packet_keeps_bytes_and_pts() {
    let pkt = frame_pkt(vec![10, 20, 30], 42, 0);
    match AOMPacket::new(pkt) {
        AOMPacket::Frame(p) => {
            assert_eq!(p.data, vec![10, 20, 30]);
            assert_eq!(p.pts, Some(42));
            assert!(!p.is_key);
        }
        _ => panic!("expected a frame packet"),
    }
}

#[test]
fn keyframe_bit_sets_is_key() {
    let pkt = frame_pkt(vec![1], 0, 0x1);
    match AOMPacket::new(pkt) {
        AOMPacket::Frame(p) => assert!(p.is_key),
        _ => panic!("expected a frame packet"),
    }
}

#[test]
fn other_flag_bits_do_not_set_is_key() {
    // 0x2 is a different frame flag; only bit 0x1 marks a keyframe.
    let pkt = frame_pkt(vec![1], 0, 0x2);
    match AOMPacket::new(pkt) {
        AOMPacket::Frame(p) => assert!(!p.is_key),
        _ => panic!("expected a frame packet"),
    }
    let pkt = frame_pkt(vec![1], 0, 0x3);
    match AOMPacket::new(pkt) {
        AOMPacket::Frame(p) => assert!(p.is_key),
        _ => panic!("expected a frame packet"),
    }
}

#[test]
fn stats_packet_hands_bytes_through() {
    let pkt = CxPkt {
        kind: AOM_CODEC_STATS_PKT,
        data: CxPktData::TwoPassStats(vec![5, 6, 7]),
    };
    match AOMPacket::new(pkt) {
        AOMPacket::TwoPassStats(b) => assert_eq!(b, vec![5, 6, 7]),
        _ => panic!("expected two-pass statistics"),
    }
}

#[test]
fn first_pass_mb_stats_packet_hands_bytes_through() {
    let pkt = CxPkt {
        kind: AOM_CODEC_FPMB_STATS_PKT,
        data: CxPktData::FirstPassMbStats(vec![8]),
    };
    match AOMPacket::new(pkt) {
        AOMPacket::FirstPassMBStats(b) => assert_eq!(b, vec![8]),
        _ => panic!("expected first-pass macroblock statistics"),
    }
}

#[test]
fn psnr_packet_keeps_every_field() {
    let psnr = PsnrData {
        samples: [1, 2, 3, 4],
        psnr_bits: [11, 12, 13, 14],
        sse: [21, 22, 23, 24],
        samples_hbd: [31, 32, 33, 34],
        sse_hbd: [41, 42, 43, 44],
        psnr_hbd_bits: [51, 52, 53, 54],
    };
    let pkt = CxPkt {
        kind: AOM_CODEC_PSNR_PKT,
        data: CxPktData::Psnr(psnr),
    };
    match AOMPacket::new(pkt) {
        AOMPacket::PSNR(p) => {
            assert_eq!(p.samples, [1, 2, 3, 4]);
            assert_eq!(p.psnr_bits, [11, 12, 13, 14]);
            assert_eq!(p.sse, [21, 22, 23, 24]);
            assert_eq!(p.samples_hbd, [31, 32, 33, 34]);
            assert_eq!(p.sse_hbd, [41, 42, 43, 44]);
            assert_eq!(p.psnr_hbd_bits, [51, 52, 53, 54]);
        }
        _ => panic!("expected a PSNR packet"),
    }
}

#[test]
fn custom_packet_becomes_raw() {
    let pkt = CxPkt {
        kind: AOM_CODEC_CUSTOM_PKT,
        data: CxPktData::Raw(vec![0xde, 0xad]),
    };
    match AOMPacket::new(pkt) {
        AOMPacket::Raw(b) => assert_eq!(b, vec![0xde, 0xad]),
        _ => panic!("expected a raw packet"),
    }
}

#[test]
fn empty_frame_packet_is_kept_empty() {
    let pkt = frame_pkt(Vec::new(), -7, 0x1);
    match AOMPacket::new(pkt) {
        AOMPacket::Frame(p) => {
            assert!(p.data.is_empty());
            assert_eq!(p.pts, Some(-7));
            assert!(p.is_key);
        }
        _ => panic!("expected a frame packet"),
    }
}
