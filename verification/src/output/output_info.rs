//! The typed view of one job descriptor.

use vstd::prelude::*;
use vstd::std_specs::convert::FromSpecImpl;
use vstd::string::StringSliceAdditionalSpecFns;
use vstd::utf8::{decode_utf8, encode_utf8_decode_utf8, valid_utf8};

use super::error::Error;
use super::frame::{decode_frame, decoded_samples, frame_fits, image_samples, image_size, Image};
use super::frames::{Frames, FramesView, Phase};
use super::sys;
use super::timestamp::FrameRate;

verus! {

/// Whether `flag` has a bit in common with `mask`.
pub open spec fn has_flag(flag: i32, mask: i32) -> bool {
    flag & mask != 0
}

/// The capability bits of a job, decoded from the `flag` field.
#[derive(Debug, Clone, Copy, PartialEq, Eq, Structural)]
pub struct OutputInfoFlag {
    video: bool,
    audio: bool,
    batch: bool,
}

impl OutputInfoFlag {
    /// Whether the job produces video.
    pub closed spec fn spec_video(&self) -> bool {
        self.video
    }

    /// Whether the job produces audio.
    pub closed spec fn spec_audio(&self) -> bool {
        self.audio
    }

    /// Whether the job runs in batch mode.
    pub closed spec fn spec_batch(&self) -> bool {
        self.batch
    }

    /// The flags that the mask `flag` stands for.
    pub closed spec fn decode(flag: i32) -> OutputInfoFlag {
        OutputInfoFlag {
            video: has_flag(flag, sys::OUTPUT_INFO_FLAG_VIDEO),
            audio: has_flag(flag, sys::OUTPUT_INFO_FLAG_AUDIO),
            batch: has_flag(flag, sys::OUTPUT_INFO_FLAG_BATCH),
        }
    }

    /// Whether the job produces video.
    pub fn video(&self) -> (r: &bool)
        ensures
            *r == self.spec_video(),
    {
        &self.video
    }

    /// Whether the job produces audio.
    pub fn audio(&self) -> (r: &bool)
        ensures
            *r == self.spec_audio(),
    {
        &self.audio
    }

    /// Whether the job runs in batch mode.
    pub fn batch(&self) -> (r: &bool)
        ensures
            *r == self.spec_batch(),
    {
        &self.batch
    }

    /// Each flag is decoded from its own bit, whatever the others hold.
    pub proof fn lemma_decode_bits(flag: i32)
        ensures
            Self::decode(flag).spec_video() == has_flag(flag, sys::OUTPUT_INFO_FLAG_VIDEO),
            Self::decode(flag).spec_audio() == has_flag(flag, sys::OUTPUT_INFO_FLAG_AUDIO),
            Self::decode(flag).spec_batch() == has_flag(flag, sys::OUTPUT_INFO_FLAG_BATCH),
            has_flag(flag, sys::OUTPUT_INFO_FLAG_VIDEO) == (flag % 2 == 1),
            has_flag(flag, sys::OUTPUT_INFO_FLAG_AUDIO) == ((flag / 2) % 2 == 1),
            has_flag(flag, sys::OUTPUT_INFO_FLAG_BATCH) == ((flag / 4) % 2 == 1),
    {
        assert((flag & 0x0001i32 != 0) == (flag % 2 == 1)) by (bit_vector);
        assert((flag & 0x0002i32 != 0) == ((flag / 2) % 2 == 1)) by (bit_vector);
        assert((flag & 0x0004i32 != 0) == ((flag / 4) % 2 == 1)) by (bit_vector);
    }
}

impl From<i32> for OutputInfoFlag {
    fn from(flag: i32) -> (r: Self) {
        Self {
            video: flag & sys::OUTPUT_INFO_FLAG_VIDEO != 0,
            audio: flag & sys::OUTPUT_INFO_FLAG_AUDIO != 0,
            batch: flag & sys::OUTPUT_INFO_FLAG_BATCH != 0,
        }
    }
}

impl FromSpecImpl<i32> for OutputInfoFlag {
    open spec fn obeys_from_spec() -> bool {
        true
    }

    open spec fn from_spec(flag: i32) -> Self {
        Self::decode(flag)
    }
}

/// `core::str::Utf8Error`, which says where a byte string stops being UTF-8.
/// Nothing is known of its contents here.
#[verifier::external_type_specification]
#[verifier::external_body]
pub struct ExUtf8Error(core::str::Utf8Error);

/// `core::str::from_utf8` accepts exactly the byte strings that are valid
/// UTF-8, and the string slice it gives holds the bytes it was given.
pub assume_specification[ core::str::from_utf8 ](v: &[u8]) -> (r: Result<
    &str,
    core::str::Utf8Error,
>)
    ensures
        r is Ok <==> valid_utf8(v@),
        r matches Ok(s) ==> s.spec_bytes() == v@,
;

/// The typed view of one job descriptor.
///
/// The view borrows the save path from the descriptor, and so lives no longer
/// than the descriptor does.
#[derive(Debug)]
pub struct OutputInfo<'a> {
    flag: OutputInfoFlag,
    w: u32,
    h: u32,
    n: u32,
    frame_rate: FrameRate,
    size: u32,
    audio_rate: u32,
    audio_ch: u32,
    audio_n: u32,
    audio_size: u32,
    savefile: &'a str,
}

/// What an [`OutputInfo`] holds.
pub struct OutputInfoView {
    pub flag: OutputInfoFlag,
    pub w: u32,
    pub h: u32,
    pub n: u32,
    pub frame_rate: FrameRate,
    pub size: u32,
    pub audio_rate: u32,
    pub audio_ch: u32,
    pub audio_n: u32,
    pub audio_size: u32,
    pub savefile: Seq<char>,
}

impl<'a> View for OutputInfo<'a> {
    type V = OutputInfoView;

    closed spec fn view(&self) -> OutputInfoView {
        OutputInfoView {
            flag: self.flag,
            w: self.w,
            h: self.h,
            n: self.n,
            frame_rate: self.frame_rate,
            size: self.size,
            audio_rate: self.audio_rate,
            audio_ch: self.audio_ch,
            audio_n: self.audio_n,
            audio_size: self.audio_size,
            savefile: self.savefile@,
        }
    }
}

/// The count that the host wrote as the signed integer `field`.  A count is
/// not negative; a negative field is read as the host's bits stand.
pub open spec fn count_of(field: i32) -> u32 {
    field as u32
}

/// The typed view of the descriptor `info`, where it has one.
pub open spec fn typed_view(info: sys::OutputInfo) -> OutputInfoView {
    OutputInfoView {
        flag: OutputInfoFlag::decode(info.flag),
        w: count_of(info.w),
        h: count_of(info.h),
        n: count_of(info.n),
        frame_rate: FrameRate { numer: info.rate, denom: info.scale },
        size: count_of(info.size),
        audio_rate: count_of(info.audio_rate),
        audio_ch: count_of(info.audio_ch),
        audio_n: count_of(info.audio_n),
        audio_size: count_of(info.audio_size),
        savefile: decode_utf8(info.savefile@),
    }
}

/// A count that is not negative is read as it is.
pub proof fn lemma_count_of_nonnegative(field: i32)
    requires
        field >= 0,
    ensures
        count_of(field) == field,
{
}

impl<'a> OutputInfo<'a> {
    /// Reads the descriptor `info`.
    ///
    /// A save path that is not valid UTF-8 is refused, and so is a frame rate
    /// with the denominator zero.
    pub fn from(info: &'a sys::OutputInfo) -> (r: Result<OutputInfo<'a>, Error>)
        ensures
            !valid_utf8(info.savefile@) ==> r is Err && r->Err_0 == Error::SavefileNotDecodable,
            valid_utf8(info.savefile@) && info.scale == 0 ==> r is Err && r->Err_0
                == Error::InvalidFrameRate,
            valid_utf8(info.savefile@) && info.scale != 0 ==> r is Ok && r->Ok_0@ == typed_view(
                *info,
            ),
    {
        let savefile = match core::str::from_utf8(info.savefile.as_slice()) {
            Ok(s) => s,
            Err(_) => {
                return Err(Error::SavefileNotDecodable);
            },
        };
        if info.scale == 0 {
            return Err(Error::InvalidFrameRate);
        }
        proof {
            encode_utf8_decode_utf8(savefile@);
        }
        Ok(
            OutputInfo {
                flag: OutputInfoFlag::from(info.flag),
                w: info.w as u32,
                h: info.h as u32,
                n: info.n as u32,
                frame_rate: FrameRate { numer: info.rate, denom: info.scale },
                size: info.size as u32,
                audio_rate: info.audio_rate as u32,
                audio_ch: info.audio_ch as u32,
                audio_n: info.audio_n as u32,
                audio_size: info.audio_size as u32,
                savefile,
            },
        )
    }

    /// The capability bits of the job.
    pub fn flag(&self) -> (r: &OutputInfoFlag)
        ensures
            *r == self@.flag,
    {
        &self.flag
    }

    /// The width of a frame, in pixels.
    pub fn w(&self) -> (r: &u32)
        ensures
            *r == self@.w,
    {
        &self.w
    }

    /// The height of a frame, in pixels.
    pub fn h(&self) -> (r: &u32)
        ensures
            *r == self@.h,
    {
        &self.h
    }

    /// The number of frames of the job.
    pub fn n(&self) -> (r: &u32)
        ensures
            *r == self@.n,
    {
        &self.n
    }

    /// The frame rate of the job.
    pub fn frame_rate(&self) -> (r: &FrameRate)
        ensures
            *r == self@.frame_rate,
    {
        &self.frame_rate
    }

    /// The number of bytes of one frame in the host's buffer.
    pub fn size(&self) -> (r: &u32)
        ensures
            *r == self@.size,
    {
        &self.size
    }

    /// The sampling rate of the audio.
    pub fn audio_rate(&self) -> (r: &u32)
        ensures
            *r == self@.audio_rate,
    {
        &self.audio_rate
    }

    /// The number of audio channels.
    pub fn audio_ch(&self) -> (r: &u32)
        ensures
            *r == self@.audio_ch,
    {
        &self.audio_ch
    }

    /// The number of audio samples.
    pub fn audio_n(&self) -> (r: &u32)
        ensures
            *r == self@.audio_n,
    {
        &self.audio_n
    }

    /// The number of bytes of one audio sample.
    pub fn audio_size(&self) -> (r: &u32)
        ensures
            *r == self@.audio_size,
    {
        &self.audio_size
    }

    /// The path of the file to save.
    pub fn savefile(&self) -> (r: &'a str)
        ensures
            r@ == self@.savefile,
    {
        self.savefile
    }

    /// Decodes the frame that the host left in `data` when it was asked for
    /// a frame of this job.
    ///
    /// This lets the host neither check for an abort nor refresh its
    /// preview: a whole job is better read through [`OutputInfo::frames`].
    pub fn get_video(&self, data: &Vec<u8>) -> (r: Result<Image, Error>)
        ensures
            frame_fits(data@.len(), self@.w, self@.h) ==> r is Ok,
            !frame_fits(data@.len(), self@.w, self@.h) ==> r is Err,
            r matches Ok(img) ==> image_size(img) == (self@.w, self@.h) && image_samples(img)
                == decoded_samples(data@, self@.w, self@.h),
            r matches Err(e) ==> e == Error::FrameTooShort,
    {
        decode_frame(data, self.w, self.h)
    }

    /// The frames of the job, one after the other, as a stream that is
    /// started at the clock reading `now`, in milliseconds.
    pub fn frames(&'a self, now: u64) -> (frames: Frames<'a>)
        ensures
            frames@ == (FramesView {
                w: self@.w,
                h: self@.h,
                n: self@.n,
                frame_rate: self@.frame_rate,
                frame: 0,
                last_time: now,
                phase: Phase::Ready,
            }),
            frames@.wf(),
    {
        Frames::new(self, now)
    }

    /// Reads the answer of the host to a request to refresh the preview.
    pub fn update_preview(&self, result: i32) -> (r: Result<(), Error>)
        ensures
            result != 0 ==> r is Ok,
            result == 0 ==> r == Err::<(), Error>(Error::PreviewUpdateFailed),
    {
        if result == 0 {
            return Err(Error::PreviewUpdateFailed);
        }
        Ok(())
    }

    /// Reads the answer of the host to the question whether the user has
    /// asked to abort the job.
    pub fn should_abort(&self, result: i32) -> (abort: bool)
        ensures
            abort == (result != 0),
    {
        result != 0
    }

    /// Reads the answer of the host to a request to display the remaining
    /// time.
    pub fn rest_time_disp(&self, result: i32) -> (r: Result<(), Error>)
        ensures
            result != 0 ==> r is Ok,
            result == 0 ==> r == Err::<(), Error>(Error::RestTimeDisplayFailed),
    {
        if result == 0 {
            return Err(Error::RestTimeDisplayFailed);
        }
        Ok(())
    }
}

} // verus!
