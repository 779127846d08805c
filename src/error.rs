use vstd::prelude::*;
use vstd::string::StringExecFns;

verus! {

/// The step that was being attempted when a native call reported a failure.
#[derive(Clone, Copy, Debug, PartialEq, Eq, Structural)]
pub enum Action {
    AllocatingContext,
    AllocatingStream,
    AllocatingFrameBuffer,
    AllocatingPacket,
    AllocatingConverter,
    MakingFrameWriteable,
    OpeningCodec,
    CopyingStreamParameters,
    SendingFrame,
    SendingEndOfStream,
    Encoding,
    OpeningFile,
    WritingHeader,
    WritingPacket,
    WritingTrailer,
}

} // verus!

verus! {

/// What went wrong. Each failure of a native call is tagged with the step that
/// was attempted and the native status code, so that a message combining both
/// can be produced where the native diagnostic text is at hand.
#[derive(Clone, Copy, Debug, PartialEq, Eq, Structural)]
pub enum VideoError {
    /// A native resource could not be created.
    AllocationFailure { action: Action, code: i32 },
    /// The container format could not be inferred from the file name.
    UnrecognizedFormat,
    /// The file name cannot be handed to the native library.
    InvalidFilename,
    /// An image source does not have the frame's width and height.
    SizeMismatch,
    /// An image source, or the frame it should fill, has a pixel layout that is
    /// not accepted.
    UnsupportedFormat,
    /// No encoder exists for the requested codec.
    EncoderNotFound,
    /// The selected codec is not a video codec.
    InvalidCodec,
    /// The encoder returned a failure status.
    EncoderRejected { action: Action, code: i32 },
    /// Writing to the container failed.
    MuxerWriteFailure { action: Action, code: i32 },
    /// The encoder was used after it was finished.
    AlreadyFinished,
    /// An earlier step failed; the encoder can no longer be used.
    Unusable,
}

/// The steps whose failure means that a native resource could not be created.
pub open spec fn is_allocation(a: Action) -> bool {
    match a {
        Action::AllocatingContext | Action::AllocatingStream | Action::AllocatingFrameBuffer
        | Action::AllocatingPacket | Action::AllocatingConverter => true,
        _ => false,
    }
}

/// The steps that write to the container.
pub open spec fn is_muxer_write(a: Action) -> bool {
    match a {
        Action::OpeningFile | Action::WritingHeader | Action::WritingPacket
        | Action::WritingTrailer => true,
        _ => false,
    }
}

/// The error that a failed native call stands for.
pub open spec fn native_error(action: Action, code: i32) -> VideoError {
    if is_allocation(action) {
        VideoError::AllocationFailure { action, code }
    } else if is_muxer_write(action) {
        VideoError::MuxerWriteFailure { action, code }
    } else {
        VideoError::EncoderRejected { action, code }
    }
}

/// The outcome of a native call that reports success with a non-negative
/// status and failure with a negative one.
pub open spec fn status_result(action: Action, code: i32) -> Result<(), VideoError> {
    if code < 0 {
        Err(native_error(action, code))
    } else {
        Ok(())
    }
}

/// Turns a native failure status into the error it stands for.
pub fn make_av_error(action: Action, code: i32) -> (r: VideoError)
    ensures
        r == native_error(action, code),
{
    match action {
        Action::AllocatingContext | Action::AllocatingStream | Action::AllocatingFrameBuffer
        | Action::AllocatingPacket | Action::AllocatingConverter => {
            VideoError::AllocationFailure { action, code }
        },
        Action::OpeningFile | Action::WritingHeader | Action::WritingPacket
        | Action::WritingTrailer => VideoError::MuxerWriteFailure { action, code },
        _ => VideoError::EncoderRejected { action, code },
    }
}

/// Checks the status that a native call returned.
pub fn check_status(action: Action, code: i32) -> (r: Result<(), VideoError>)
    ensures
        r == status_result(action, code),
{
    if code < 0 {
        Err(make_av_error(action, code))
    } else {
        Ok(())
    }
}

/// The words that describe each step in an error message.
pub open spec fn action_text(a: Action) -> Seq<char> {
    match a {
        Action::AllocatingContext => "allocating file format context"@,
        Action::AllocatingStream => "allocating stream"@,
        Action::AllocatingFrameBuffer => "allocating frame buffer"@,
        Action::AllocatingPacket => "allocating packet"@,
        Action::AllocatingConverter => "initializing pixel format converter"@,
        Action::MakingFrameWriteable => "making frame writeable"@,
        Action::OpeningCodec => "opening video codec"@,
        Action::CopyingStreamParameters => "copying stream parameters"@,
        Action::SendingFrame => "sending frame to encoder"@,
        Action::SendingEndOfStream => "sending EOF to encoder"@,
        Action::Encoding => "encoding a frame"@,
        Action::OpeningFile => "opening destination file"@,
        Action::WritingHeader => "writing header to output file"@,
        Action::WritingPacket => "writing output packet"@,
        Action::WritingTrailer => "writing trailer to output file"@,
    }
}

impl Action {
    /// Describes the step, for an error message of the form
    /// `Error <description>: <native diagnostic>`.
    pub fn describe(&self) -> (r: &'static str)
        ensures
            r@ == action_text(*self),
    {
        match self {
            Action::AllocatingContext => "allocating file format context",
            Action::AllocatingStream => "allocating stream",
            Action::AllocatingFrameBuffer => "allocating frame buffer",
            Action::AllocatingPacket => "allocating packet",
            Action::AllocatingConverter => "initializing pixel format converter",
            Action::MakingFrameWriteable => "making frame writeable",
            Action::OpeningCodec => "opening video codec",
            Action::CopyingStreamParameters => "copying stream parameters",
            Action::SendingFrame => "sending frame to encoder",
            Action::SendingEndOfStream => "sending EOF to encoder",
            Action::Encoding => "encoding a frame",
            Action::OpeningFile => "opening destination file",
            Action::WritingHeader => "writing header to output file",
            Action::WritingPacket => "writing output packet",
            Action::WritingTrailer => "writing trailer to output file",
        }
    }
}

/// The fixed text of each error that no native call reported.
pub open spec fn plain_text(e: VideoError) -> Seq<char> {
    match e {
        VideoError::UnrecognizedFormat => "could not determine output format from file extension"@,
        VideoError::InvalidFilename => "the file name holds a NUL byte"@,
        VideoError::SizeMismatch => "the image does not match the frame size"@,
        VideoError::UnsupportedFormat => "only RGB24 and ARGB32 pixels are supported"@,
        VideoError::EncoderNotFound => "no encoder found for the codec"@,
        VideoError::InvalidCodec => "the specified codec is not a video codec"@,
        VideoError::AlreadyFinished => "the encoder was already finished"@,
        _ => "an earlier step failed; the encoder cannot be used"@,
    }
}

/// The message of an error: `Error <step>: <diagnostic>` for a native failure
/// with a status, `Error <step>` for one without, and `Error: <text>` for the
/// rest.
pub open spec fn message_text(e: VideoError, diagnostic: Seq<char>) -> Seq<char> {
    match e {
        VideoError::AllocationFailure { action, code }
        | VideoError::EncoderRejected { action, code }
        | VideoError::MuxerWriteFailure { action, code } => if code < 0 {
            "Error "@ + action_text(action) + ": "@ + diagnostic
        } else {
            "Error "@ + action_text(action)
        },
        _ => "Error: "@ + plain_text(e),
    }
}

impl VideoError {
    /// The human-readable message, given the native library's description of
    /// the status code where a native call failed (ignored otherwise).
    pub fn message(&self, diagnostic: &str) -> (r: String)
        ensures
            r@ == message_text(*self, diagnostic@),
    {
        match *self {
            VideoError::AllocationFailure { action, code }
            | VideoError::EncoderRejected { action, code }
            | VideoError::MuxerWriteFailure { action, code } => {
                let mut m = String::from_str("Error ");
                m.append(action.describe());
                if code < 0 {
                    m.append(": ");
                    m.append(diagnostic);
                }
                m
            },
            _ => {
                let mut m = String::from_str("Error: ");
                m.append(self.plain_text());
                m
            },
        }
    }

    fn plain_text(&self) -> (r: &'static str)
        ensures
            r@ == plain_text(*self),
    {
        match self {
            VideoError::UnrecognizedFormat => "could not determine output format from file extension",
            VideoError::InvalidFilename => "the file name holds a NUL byte",
            VideoError::SizeMismatch => "the image does not match the frame size",
            VideoError::UnsupportedFormat => "only RGB24 and ARGB32 pixels are supported",
            VideoError::EncoderNotFound => "no encoder found for the codec",
            VideoError::InvalidCodec => "the specified codec is not a video codec",
            VideoError::AlreadyFinished => "the encoder was already finished",
            _ => "an earlier step failed; the encoder cannot be used",
        }
    }
}

} // verus!
