//! The failures that the bridge reports.

use vstd::prelude::*;
use vstd::string::StringExecFns;

verus! {

/// A failure of the bridge or of the host.
#[derive(Debug, Clone, Copy, PartialEq, Eq, Structural)]
pub enum Error {
    /// The save path is not valid UTF-8.
    SavefileNotDecodable,
    /// The frame rate has a zero denominator.
    InvalidFrameRate,
    /// The frame rate is zero, so no frame has a presentation time.
    ZeroFrameRate,
    /// The host reported that it could not refresh the preview.
    PreviewUpdateFailed,
    /// The host reported that it could not display the remaining time.
    RestTimeDisplayFailed,
    /// The host handed over fewer bytes than one frame holds.
    FrameTooShort,
    /// An answer arrived that the stream had not asked for.
    UnexpectedEvent,
    /// The destination of a configuration read is smaller than the buffer.
    ConfigTooLarge,
    /// A configuration of more bytes than the host can count.
    ConfigTooLong,
    /// A plugin is already registered.
    AlreadyInitialized,
    /// No plugin is registered yet.
    NotInitialized,
    /// An encoded display string holds a NUL byte.
    InteriorNul,
    /// A display string is longer than the encoder is asked to take.
    TextTooLong,
}

impl Error {
    /// The diagnostic text of the failure.
    pub open spec fn spec_message(self) -> Seq<char> {
        match self {
            Error::SavefileNotDecodable => "Save path is not valid UTF-8"@,
            Error::InvalidFrameRate => "denominator == 0"@,
            Error::ZeroFrameRate => "Frame rate is zero"@,
            Error::PreviewUpdateFailed => "Preview update failed"@,
            Error::RestTimeDisplayFailed => "Rest time display failed"@,
            Error::FrameTooShort => "Frame buffer too short"@,
            Error::UnexpectedEvent => "Unexpected event"@,
            Error::ConfigTooLarge => "Config too large"@,
            Error::ConfigTooLong => "Config too long"@,
            Error::AlreadyInitialized => "Output plugin already initialized"@,
            Error::NotInitialized => "Output plugin not initialized"@,
            Error::InteriorNul => "nul byte found in provided data"@,
            Error::TextTooLong => "Text too long"@,
        }
    }

    /// The diagnostic text of the failure, for a log line or a panic message.
    pub fn message(&self) -> (text: String)
        ensures
            text@ == self.spec_message(),
    {
        let text: &str = match self {
            Error::SavefileNotDecodable => "Save path is not valid UTF-8",
            Error::InvalidFrameRate => "denominator == 0",
            Error::ZeroFrameRate => "Frame rate is zero",
            Error::PreviewUpdateFailed => "Preview update failed",
            Error::RestTimeDisplayFailed => "Rest time display failed",
            Error::FrameTooShort => "Frame buffer too short",
            Error::UnexpectedEvent => "Unexpected event",
            Error::ConfigTooLarge => "Config too large",
            Error::ConfigTooLong => "Config too long",
            Error::AlreadyInitialized => "Output plugin already initialized",
            Error::NotInitialized => "Output plugin not initialized",
            Error::InteriorNul => "nul byte found in provided data",
            Error::TextTooLong => "Text too long",
        };
        String::from_str(text)
    }
}

} // verus!
