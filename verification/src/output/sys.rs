//! Plain-value images of the two records that cross the host boundary.
//!
//! A pointer field is held as the bytes it points to; the callbacks of the
//! host are not part of these records, since only the caller can invoke them.

use vstd::prelude::*;

verus! {

/// The job produces video.
pub const OUTPUT_INFO_FLAG_VIDEO: i32 = 0x0001;

/// The job produces audio.
pub const OUTPUT_INFO_FLAG_AUDIO: i32 = 0x0002;

/// The job runs in batch mode.
pub const OUTPUT_INFO_FLAG_BATCH: i32 = 0x0004;

/// The frame is a key frame.
pub const OUTPUT_INFO_FRAME_FLAG_KEYFRAME: i32 = 0x0001;

/// The frame is not a key frame.
pub const OUTPUT_INFO_FRAME_FLAG_NONKEYFRAME: i32 = 0x0002;

/// The job descriptor as the host fills it in, field for field.
#[derive(Debug)]
pub struct OutputInfo {
    pub flag: i32,
    pub w: i32,
    pub h: i32,
    pub rate: i32,
    pub scale: i32,
    pub n: i32,
    pub size: i32,
    pub audio_rate: i32,
    pub audio_ch: i32,
    pub audio_n: i32,
    pub audio_size: i32,
    /// The bytes of the save path, without the terminating NUL.
    pub savefile: Vec<u8>,
}

/// What the exported table holds besides its entry points.
///
/// `name` and `information` are C strings and end in one NUL; `filefilter` is
/// a string table that ends in an empty string.
#[derive(Debug)]
pub struct OutputPluginTable {
    pub flag: i32,
    pub name: Vec<u8>,
    pub filefilter: Vec<u8>,
    pub information: Vec<u8>,
    /// Whether the `config` slot of the table is filled.
    pub has_config: bool,
}

} // verus!
