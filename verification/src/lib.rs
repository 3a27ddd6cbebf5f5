//! Safe, verified core of an AV1 encoder binding: the encoder configuration
//! record with its builder-style setters, classification of the encoder's
//! output packets, and marshalling of input frames into the native image
//! layout. The native codec calls themselves live outside this library.

pub mod config;
pub mod encoder;
pub mod errors;
pub mod frame;
pub mod pixel;
pub mod utils;

pub use config::AomCodecEncCfgTrait;
pub use config::AV1EncoderConfig;
pub use encoder::AOMPacket;
pub use errors::Av1Errors;
pub use utils::img_from_frame;

use vstd::prelude::*;

verus! {

/// Result code the native codec returns on success.
pub const AOM_CODEC_OK: u32 = 0;

/// Maps a native codec result code to a `Result`, as every codec entry point
/// reports success or failure through such a code.
pub fn check_codec_ok(code: u32) -> (r: Result<(), u32>)
    ensures
        r is Ok <==> code == AOM_CODEC_OK,
        r is Err ==> r->Err_0 == code,
{
    if code == AOM_CODEC_OK {
        Ok(())
    } else {
        Err(code)
    }
}

} // verus!
