use vstd::prelude::*;
use vstd::string::StringSliceAdditionalSpecFns;

use crate::error::{check_status, native_error, status_result, Action, VideoError};
use crate::frame::{Frame, FrameView, PixelFormat};
use crate::{OptionalSettings, X264Preset};

verus! {

/// The bit rate used when none is given, in bits per second.
pub const DEFAULT_BIT_RATE: i64 = 800000;

/// The group-of-pictures size used when none is given.
pub const DEFAULT_GOP_SIZE: i32 = 10;

/// The encoder session configuration with every default applied.
#[derive(Clone, Copy, Debug, PartialEq, Eq, Structural)]
pub struct EncoderConfig {
    pub width: i32,
    pub height: i32,
    /// The time base is one over this many units per second.
    pub time_base_den: i32,
    pub pixel_format: PixelFormat,
    /// Advisory only when a CRF is set.
    pub bit_rate: i64,
    pub gop_size: i32,
    pub crf: Option<i64>,
    pub preset: X264Preset,
    /// Codec headers go once into the container's header rather than into
    /// the stream, because the container format asks for that.
    pub global_header: bool,
}

/// The configuration that settings and stream parameters give.
pub open spec fn resolved_config(
    settings: OptionalSettings,
    width: i32,
    height: i32,
    framerate: i32,
    pixel_format: PixelFormat,
    container_global_header: bool,
) -> EncoderConfig {
    EncoderConfig {
        width,
        height,
        time_base_den: framerate,
        pixel_format,
        bit_rate: match settings.bitrate {
            Some(b) => b,
            None => DEFAULT_BIT_RATE,
        },
        gop_size: match settings.gop_size {
            Some(g) => g,
            None => DEFAULT_GOP_SIZE,
        },
        crf: settings.crf,
        preset: match settings.preset {
            Some(p) => p,
            None => X264Preset::Medium,
        },
        global_header: container_global_header,
    }
}

/// Applies the defaults to the settings that were left out.
pub fn resolve_config(
    settings: &OptionalSettings,
    width: i32,
    height: i32,
    framerate: i32,
    pixel_format: PixelFormat,
    container_global_header: bool,
) -> (r: EncoderConfig)
    ensures
        r == resolved_config(*settings, width, height, framerate, pixel_format, container_global_header),
{
    EncoderConfig {
        width,
        height,
        time_base_den: framerate,
        pixel_format,
        bit_rate: match settings.bitrate {
            Some(b) => b,
            None => DEFAULT_BIT_RATE,
        },
        gop_size: match settings.gop_size {
            Some(g) => g,
            None => DEFAULT_GOP_SIZE,
        },
        crf: settings.crf,
        preset: match settings.preset {
            Some(p) => p,
            None => X264Preset::Medium,
        },
        global_header: container_global_header,
    }
}

/// One option handed to the encoder when it is opened.
#[derive(Clone, Copy, Debug, PartialEq, Eq, Structural)]
pub enum EncoderOption {
    /// The `preset` key with the preset's token.
    Preset(X264Preset),
    /// The `crf` key with an integer value.
    Crf(i64),
}

/// The options the encoder is opened with: always the preset, and the CRF
/// only when one is set, in that order.
pub open spec fn encoder_options(c: EncoderConfig) -> Seq<EncoderOption> {
    match c.crf {
        Some(crf) => seq![EncoderOption::Preset(c.preset), EncoderOption::Crf(crf)],
        None => seq![EncoderOption::Preset(c.preset)],
    }
}

/// The key of an option.
pub open spec fn option_key(o: EncoderOption) -> Seq<char> {
    match o {
        EncoderOption::Preset(_) => "preset"@,
        EncoderOption::Crf(_) => "crf"@,
    }
}

impl EncoderOption {
    /// The option's key.
    pub fn key(&self) -> (r: &'static str)
        ensures
            r@ == option_key(*self),
    {
        match self {
            EncoderOption::Preset(_) => "preset",
            EncoderOption::Crf(_) => "crf",
        }
    }
}

impl EncoderConfig {
    /// The options to open the encoder with.
    pub fn options(&self) -> (r: Vec<EncoderOption>)
        ensures
            r@ == encoder_options(*self),
    {
        let mut v: Vec<EncoderOption> = Vec::new();
        v.push(EncoderOption::Preset(self.preset));
        match self.crf {
            Some(crf) => v.push(EncoderOption::Crf(crf)),
            None => {},
        }
        assert(v@ =~= encoder_options(*self));
        v
    }
}

/// A file name that can be handed to the native library: it holds no NUL byte.
pub open spec fn valid_filename(name: Seq<u8>) -> bool {
    forall|i: int| 0 <= i < name.len() ==> name[i] != 0
}

/// What the container holds and which of its lifecycle steps are done.
pub ghost struct ContainerView {
    pub filename: Seq<char>,
    pub streams: nat,
    pub file_open: bool,
    pub header_written: bool,
    pub trailer_written: bool,
}

/// The container: the destination file and its lifecycle. Streams are added,
/// the file is opened and the header written, in that order, before any
/// packet; the trailer is written once, last.
pub struct OutputFormatContext {
    filename: String,
    streams: u32,
    file_open: bool,
    header_written: bool,
    trailer_written: bool,
}

impl View for OutputFormatContext {
    type V = ContainerView;

    closed spec fn view(&self) -> ContainerView {
        ContainerView {
            filename: self.filename@,
            streams: self.streams as nat,
            file_open: self.file_open,
            header_written: self.header_written,
            trailer_written: self.trailer_written,
        }
    }
}

/// How creating the container ends, given whether the muxer library knows a
/// format for the file name, and whether it then allocated the container and
/// the status it returned.
pub open spec fn context_result(name: Seq<u8>, format_known: bool, allocated: bool, status: i32) -> Result<(), VideoError> {
    if !valid_filename(name) {
        Err(VideoError::InvalidFilename)
    } else if !format_known {
        Err(VideoError::UnrecognizedFormat)
    } else if allocated {
        Ok(())
    } else {
        Err(native_error(Action::AllocatingContext, status))
    }
}

/// How adding a stream ends, given what the codec lookup found and whether the
/// native stream slot was allocated.
pub open spec fn add_stream_result(encoder_found: bool, is_video: bool, stream_allocated: bool) -> Result<(), VideoError> {
    if !encoder_found {
        Err(VideoError::EncoderNotFound)
    } else if !is_video {
        Err(VideoError::InvalidCodec)
    } else if !stream_allocated {
        Err(VideoError::AllocationFailure { action: Action::AllocatingStream, code: 0 })
    } else {
        Ok(())
    }
}

impl OutputFormatContext {
    /// Checks that a file name can be handed to the native library.
    pub fn check_filename(filename: &str) -> (r: Result<(), VideoError>)
        ensures
            r is Ok <==> valid_filename(filename.spec_bytes()),
            r is Err ==> r == Err::<(), VideoError>(VideoError::InvalidFilename),
    {
        let bytes = filename.as_bytes();
        let mut i: usize = 0;
        while i < bytes.len()
            invariant
                i <= bytes@.len(),
                bytes@ == filename.spec_bytes(),
                forall|k: int| 0 <= k < i ==> bytes@[k] != 0,
            decreases bytes@.len() - i,
        {
            if bytes[i] == 0 {
                return Err(VideoError::InvalidFilename);
            }
            i = i + 1;
        }
        Ok(())
    }

    /// Creates the container for a file. The format follows from the file
    /// name's extension: `format_known` says whether the muxer library knows
    /// one, asked before anything is allocated. Only then do `allocated` and
    /// `status` count, the outcome of allocating the container.
    ///
    /// An unknown format fails with `UnrecognizedFormat`, apart from a failed
    /// allocation. No file is opened here.
    pub fn new(filename: &str, format_known: bool, allocated: bool, status: i32) -> (r: Result<Self, VideoError>)
        ensures
            r is Ok <==> context_result(filename.spec_bytes(), format_known, allocated, status) is Ok,
            r matches Err(e) ==> context_result(filename.spec_bytes(), format_known, allocated, status)
                == Err::<(), VideoError>(e),
            valid_filename(filename.spec_bytes()) ==> (!format_known <==> r == Err::<Self, VideoError>(
                VideoError::UnrecognizedFormat,
            )),
            r matches Ok(c) ==> c@ == (ContainerView {
                filename: filename@,
                streams: 0,
                file_open: false,
                header_written: false,
                trailer_written: false,
            }),
    {
        match Self::check_filename(filename) {
            Err(e) => {
                return Err(e);
            },
            Ok(()) => {},
        }
        if !format_known {
            return Err(VideoError::UnrecognizedFormat);
        }
        if !allocated {
            return Err(crate::error::make_av_error(Action::AllocatingContext, status));
        }
        Ok(OutputFormatContext {
            filename: filename.to_string(),
            streams: 0,
            file_open: false,
            header_written: false,
            trailer_written: false,
        })
    }

    /// The path of the destination file.
    pub fn filename(&self) -> (r: &str)
        ensures
            r@ == self@.filename,
    {
        self.filename.as_str()
    }

    /// Adds the video stream, given what the lookup of an encoder for the codec
    /// found and whether the native stream slot was allocated. The stream's
    /// encoder configuration applies the defaults to `settings`, with a time
    /// base of one over `framerate`, and asks for global codec headers exactly
    /// when the container format does (`container_global_header`).
    pub fn add_stream(
        &mut self,
        encoder_found: bool,
        is_video: bool,
        stream_allocated: bool,
        width: i32,
        height: i32,
        framerate: i32,
        pixel_format: PixelFormat,
        settings: &OptionalSettings,
        container_global_header: bool,
    ) -> (r: Result<OutputStream, VideoError>)
        requires
            !old(self)@.header_written,
            old(self)@.streams < u32::MAX,
        ensures
            r is Ok <==> add_stream_result(encoder_found, is_video, stream_allocated) is Ok,
            r matches Err(e) ==> add_stream_result(encoder_found, is_video, stream_allocated)
                == Err::<(), VideoError>(e) && final(self)@ == old(self)@,
            r matches Ok(s) ==> {
                &&& s@ == configured_stream(
                    old(self)@.streams,
                    resolved_config(*settings, width, height, framerate, pixel_format, container_global_header),
                )
                &&& final(self)@ == (ContainerView { streams: old(self)@.streams + 1, ..old(self)@ })
            },
    {
        if !encoder_found {
            return Err(VideoError::EncoderNotFound);
        }
        if !is_video {
            return Err(VideoError::InvalidCodec);
        }
        if !stream_allocated {
            return Err(VideoError::AllocationFailure { action: Action::AllocatingStream, code: 0 });
        }
        let config = resolve_config(settings, width, height, framerate, pixel_format, container_global_header);
        let stream = OutputStream::new(self.streams, config);
        self.streams = self.streams + 1;
        Ok(stream)
    }

    /// Records the outcome of opening the destination file.
    pub fn open_file(&mut self, status: i32) -> (r: Result<(), VideoError>)
        requires
            !old(self)@.file_open,
        ensures
            r == status_result(Action::OpeningFile, status),
            final(self)@ == (ContainerView { file_open: status >= 0, ..old(self)@ }),
    {
        let r = check_status(Action::OpeningFile, status);
        self.file_open = r.is_ok();
        r
    }

    /// Records the outcome of writing the header; it follows opening the file
    /// and adding and opening the stream.
    pub fn write_header(&mut self, status: i32) -> (r: Result<(), VideoError>)
        requires
            old(self)@.file_open,
            old(self)@.streams > 0,
            !old(self)@.header_written,
        ensures
            r == status_result(Action::WritingHeader, status),
            final(self)@ == (ContainerView { header_written: status >= 0, ..old(self)@ }),
    {
        let r = check_status(Action::WritingHeader, status);
        self.header_written = r.is_ok();
        r
    }

    /// Records the outcome of writing the trailer. It is written at most once:
    /// after this call it counts as written whatever the outcome.
    pub fn write_trailer(&mut self, status: i32) -> (r: Result<(), VideoError>)
        requires
            old(self)@.header_written,
            !old(self)@.trailer_written,
        ensures
            r == status_result(Action::WritingTrailer, status),
            final(self)@ == (ContainerView { trailer_written: true, ..old(self)@ }),
    {
        self.trailer_written = true;
        check_status(Action::WritingTrailer, status)
    }

    /// Whether the file has been opened.
    pub fn is_file_open(&self) -> (r: bool)
        ensures
            r == self@.file_open,
    {
        self.file_open
    }

    /// Whether the header has been written.
    pub fn is_header_written(&self) -> (r: bool)
        ensures
            r == self@.header_written,
    {
        self.header_written
    }

    /// Whether the trailer has been written.
    pub fn is_trailer_written(&self) -> (r: bool)
        ensures
            r == self@.trailer_written,
    {
        self.trailer_written
    }
}

/// The lifecycle of an output stream's encoder session.
#[derive(Clone, Copy, Debug, PartialEq, Eq, Structural)]
pub enum StreamPhase {
    /// Configured, with the encoder not yet opened.
    Configured,
    /// Accepting frames.
    Open,
    /// Finishing was asked for: end of stream is to be signalled.
    Ending,
    /// End of stream was signalled: only packets are collected.
    Draining,
    /// The final drain reached the encoder's end of stream.
    Drained,
    /// A step failed; the stream can no longer be used.
    Failed,
}

/// The phases after finishing was asked for.
pub open spec fn is_finished(phase: StreamPhase) -> bool {
    phase == StreamPhase::Ending || phase == StreamPhase::Draining || phase == StreamPhase::Drained
}

/// The source format and geometry that a conversion stage was built for.
#[derive(Clone, Copy, Debug, PartialEq, Eq, Structural)]
pub struct ConverterKey {
    pub format: PixelFormat,
    pub width: i32,
    pub height: i32,
}

/// What the program around the library does for one submitted frame.
#[derive(Clone, Copy, Debug, PartialEq, Eq, Structural)]
pub struct WritePlan {
    /// Build the conversion stage now, from the submitted frame's format and
    /// geometry to the stream's, before converting.
    pub build_converter: bool,
    /// Convert the frame into the stream's destination frame and send that one;
    /// otherwise send the submitted frame itself.
    pub convert: bool,
    /// The presentation timestamp of the frame that is sent.
    pub pts: i64,
}

/// What one request for an encoded packet returned.
#[derive(Clone, Copy, Debug, PartialEq, Eq, Structural)]
pub enum ReceiveStatus {
    /// A packet was produced.
    Packet,
    /// No packet is ready until more input arrives.
    TryAgain,
    /// The encoder is fully drained.
    EndOfStream,
    /// Any other failure, with its native status.
    Failed { code: i32 },
}

/// What to do after one request for an encoded packet.
#[derive(Clone, Copy, Debug, PartialEq, Eq, Structural)]
pub enum DrainStep {
    /// Rescale the packet's timestamps to the stream's time base, tag it with
    /// this stream index, write it to the container and report the outcome.
    WritePacket { stream_index: u32 },
    /// The drain is over.
    Done,
}

/// What an output stream holds.
pub ghost struct StreamView {
    pub index: nat,
    pub config: EncoderConfig,
    pub phase: StreamPhase,
    /// The timestamp that the next frame sent to the encoder gets.
    pub next_pts: int,
    pub converter: Option<ConverterKey>,
    /// A packet was received and its write is not yet reported.
    pub pending_packet: bool,
    /// Packets received from the encoder.
    pub received: nat,
    /// Packets written to the container.
    pub written: nat,
}

impl StreamView {
    /// Every packet received, but one whose write is pending, was written,
    /// while no step has failed.
    pub open spec fn wf(self) -> bool {
        &&& 0 <= self.next_pts
        &&& self.phase != StreamPhase::Failed ==> self.written + (if self.pending_packet {
            1nat
        } else {
            0nat
        }) == self.received
    }

    /// The timestamps handed to the encoder so far, in order.
    pub open spec fn sent_pts(self) -> Seq<int> {
        Seq::new(self.next_pts as nat, |i: int| i)
    }
}

/// A stream just added to a container.
pub open spec fn configured_stream(index: nat, config: EncoderConfig) -> StreamView {
    StreamView {
        index,
        config,
        phase: StreamPhase::Configured,
        next_pts: 0,
        converter: None,
        pending_packet: false,
        received: 0,
        written: 0,
    }
}

/// The plan for submitting a frame to an open stream.
pub open spec fn write_plan(s: StreamView, f: FrameView) -> WritePlan {
    let convert = f.format != s.config.pixel_format;
    WritePlan { build_converter: convert && s.converter is None, convert, pts: s.next_pts as i64 }
}

/// The stream after a frame was submitted: the timestamp counter moves on by
/// one, and the first frame to need conversion fixes the conversion stage.
pub open spec fn after_write(s: StreamView, f: FrameView) -> StreamView {
    let plan = write_plan(s, f);
    StreamView {
        next_pts: s.next_pts + 1,
        converter: if plan.build_converter {
            Some(ConverterKey { format: f.format, width: f.width as i32, height: f.height as i32 })
        } else {
            s.converter
        },
        ..s
    }
}

/// The frame after it was submitted: one that is sent as it is carries the
/// stream's timestamp; one that is converted is left alone.
pub open spec fn frame_after_write(s: StreamView, f: FrameView) -> FrameView {
    if write_plan(s, f).convert {
        f
    } else {
        FrameView { pts: s.next_pts, ..f }
    }
}

/// The output stream: the encoder session's configuration and the decisions
/// of the encode loop. The native encoder, conversion stage and packet buffer
/// live with the caller, which performs each step that this type decides.
pub struct OutputStream {
    index: u32,
    config: EncoderConfig,
    phase: StreamPhase,
    next_pts: i64,
    converter: Option<ConverterKey>,
    pending_packet: bool,
    received: Ghost<nat>,
    written: Ghost<nat>,
}

impl View for OutputStream {
    type V = StreamView;

    closed spec fn view(&self) -> StreamView {
        StreamView {
            index: self.index as nat,
            config: self.config,
            phase: self.phase,
            next_pts: self.next_pts as int,
            converter: self.converter,
            pending_packet: self.pending_packet,
            received: self.received@,
            written: self.written@,
        }
    }
}

impl OutputStream {
    fn new(index: u32, config: EncoderConfig) -> (r: Self)
        ensures
            r@ == configured_stream(index as nat, config),
    {
        OutputStream {
            index,
            config,
            phase: StreamPhase::Configured,
            next_pts: 0,
            converter: None,
            pending_packet: false,
            received: Ghost(0),
            written: Ghost(0),
        }
    }

    /// The encoder configuration, with every default applied.
    pub fn config(&self) -> (r: EncoderConfig)
        ensures
            r == self@.config,
    {
        self.config
    }

    /// The stream's index within its container.
    pub fn index(&self) -> (r: u32)
        ensures
            r as nat == self@.index,
    {
        self.index
    }

    /// The lifecycle phase.
    pub fn phase(&self) -> (r: StreamPhase)
        ensures
            r == self@.phase,
    {
        self.phase
    }

    /// The number of frames sent to the encoder so far, which is also the
    /// timestamp of the next one.
    pub fn frames_sent(&self) -> (r: i64)
        ensures
            r as int == self@.next_pts,
    {
        self.next_pts
    }

    /// Records the outcome of opening the encoder with the preset and CRF
    /// options.
    pub fn open_video(&mut self, status: i32) -> (r: Result<(), VideoError>)
        requires
            old(self)@.phase == StreamPhase::Configured,
        ensures
            r == status_result(Action::OpeningCodec, status),
            final(self)@ == (StreamView {
                phase: if status < 0 {
                    StreamPhase::Failed
                } else {
                    StreamPhase::Open
                },
                ..old(self)@
            }),
    {
        let r = check_status(Action::OpeningCodec, status);
        self.phase = if status < 0 {
            StreamPhase::Failed
        } else {
            StreamPhase::Open
        };
        r
    }

    /// Records the outcome of a native step that changes nothing here when it
    /// succeeds (copying parameters, sending a frame); a failure leaves the
    /// stream unusable.
    pub fn record_status(&mut self, action: Action, status: i32) -> (r: Result<(), VideoError>)
        ensures
            r == status_result(action, status),
            final(self)@ == if status < 0 {
                StreamView { phase: StreamPhase::Failed, ..old(self)@ }
            } else {
                old(self)@
            },
    {
        let r = check_status(action, status);
        if status < 0 {
            self.phase = StreamPhase::Failed;
        }
        r
    }

    /// Decides how a submitted frame goes to the encoder.
    ///
    /// A frame in the stream's pixel format is stamped with the next timestamp
    /// and sent as it is. Any other frame is converted into the stream's
    /// destination frame, which gets the timestamp; the conversion stage is
    /// built for the first such frame and reused after. Either way the counter
    /// moves on by one, whatever timestamp the frame carried.
    ///
    /// Fails with `AlreadyFinished` once finishing was asked for and with
    /// `Unusable` after a failed step; then nothing changes.
    pub fn write_frame(&mut self, frame: &mut Frame) -> (r: Result<WritePlan, VideoError>)
        requires
            old(self)@.wf(),
            old(self)@.phase != StreamPhase::Configured,
            !old(self)@.pending_packet,
            old(self)@.next_pts < i64::MAX,
        ensures
            final(self)@.wf(),
            is_finished(old(self)@.phase) ==> r == Err::<WritePlan, VideoError>(
                VideoError::AlreadyFinished,
            ),
            old(self)@.phase == StreamPhase::Failed ==> r == Err::<WritePlan, VideoError>(
                VideoError::Unusable,
            ),
            r is Err ==> final(self)@ == old(self)@ && final(frame)@ == old(frame)@,
            old(self)@.phase == StreamPhase::Open ==> {
                &&& r == Ok::<WritePlan, VideoError>(write_plan(old(self)@, old(frame)@))
                &&& final(self)@ == after_write(old(self)@, old(frame)@)
                &&& final(frame)@ == frame_after_write(old(self)@, old(frame)@)
            },
    {
        match self.phase {
            StreamPhase::Ending | StreamPhase::Draining | StreamPhase::Drained => {
                return Err(VideoError::AlreadyFinished);
            },
            StreamPhase::Failed => {
                return Err(VideoError::Unusable);
            },
            _ => {},
        }
        let pts = self.next_pts;
        let convert = frame.pixel_format() != self.config.pixel_format;
        let build_converter = convert && self.converter.is_none();
        if build_converter {
            self.converter = Some(
                ConverterKey { format: frame.pixel_format(), width: frame.width(), height: frame.height() },
            );
        }
        if !convert {
            frame.set_pts(pts);
        }
        self.next_pts = pts + 1;
        Ok(WritePlan { build_converter, convert, pts })
    }

    /// Decides what follows one request for an encoded packet. A packet is to
    /// be written; "try again" and "end of stream" both end the drain
    /// successfully, and end of stream after it was signalled marks the stream
    /// drained; any other status fails with `EncoderRejected`.
    pub fn drain_step(&mut self, status: ReceiveStatus) -> (r: Result<DrainStep, VideoError>)
        requires
            old(self)@.wf(),
            old(self)@.phase == StreamPhase::Open || old(self)@.phase == StreamPhase::Draining,
            !old(self)@.pending_packet,
        ensures
            final(self)@.wf(),
            r == drain_result(old(self)@, status),
            final(self)@ == after_drain_step(old(self)@, status),
    {
        match status {
            ReceiveStatus::Packet => {
                self.pending_packet = true;
                self.received = Ghost(self.received@ + 1);
                Ok(DrainStep::WritePacket { stream_index: self.index })
            },
            ReceiveStatus::TryAgain => Ok(DrainStep::Done),
            ReceiveStatus::EndOfStream => {
                if self.phase == StreamPhase::Draining {
                    self.phase = StreamPhase::Drained;
                }
                Ok(DrainStep::Done)
            },
            ReceiveStatus::Failed { code } => {
                self.phase = StreamPhase::Failed;
                Err(crate::error::make_av_error(Action::Encoding, code))
            },
        }
    }

    /// Records the outcome of writing the pending packet to the container.
    pub fn packet_written(&mut self, status: i32) -> (r: Result<(), VideoError>)
        requires
            old(self)@.wf(),
            old(self)@.pending_packet,
        ensures
            final(self)@.wf(),
            r == status_result(Action::WritingPacket, status),
            final(self)@ == if status < 0 {
                StreamView { phase: StreamPhase::Failed, pending_packet: false, ..old(self)@ }
            } else {
                StreamView { pending_packet: false, written: old(self)@.written + 1, ..old(self)@ }
            },
    {
        self.pending_packet = false;
        if status < 0 {
            self.phase = StreamPhase::Failed;
            return Err(crate::error::make_av_error(Action::WritingPacket, status));
        }
        self.written = Ghost(self.written@ + 1);
        Ok(())
    }

    /// Starts the end of the stream: end of stream is to be signalled to the
    /// encoder (see `end_of_stream_sent`) and the last packets drained. Fails
    /// with `AlreadyFinished` the second time and with `Unusable` after a
    /// failed step; then nothing changes.
    pub fn finish(&mut self) -> (r: Result<(), VideoError>)
        requires
            old(self)@.phase != StreamPhase::Configured,
            !old(self)@.pending_packet,
        ensures
            r == finish_result(old(self)@.phase),
            final(self)@ == if r is Ok {
                StreamView { phase: StreamPhase::Ending, ..old(self)@ }
            } else {
                old(self)@
            },
    {
        match self.phase {
            StreamPhase::Ending | StreamPhase::Draining | StreamPhase::Drained => Err(
                VideoError::AlreadyFinished,
            ),
            StreamPhase::Failed => Err(VideoError::Unusable),
            _ => {
                self.phase = StreamPhase::Ending;
                Ok(())
            },
        }
    }

    /// Records the outcome of signalling end of stream to the encoder: on
    /// success the last packets are to be drained, on failure the stream can no
    /// longer be used.
    pub fn end_of_stream_sent(&mut self, status: i32) -> (r: Result<(), VideoError>)
        requires
            old(self)@.phase == StreamPhase::Ending,
        ensures
            r == status_result(Action::SendingEndOfStream, status),
            final(self)@ == (StreamView {
                phase: if status < 0 {
                    StreamPhase::Failed
                } else {
                    StreamPhase::Draining
                },
                ..old(self)@
            }),
    {
        let r = check_status(Action::SendingEndOfStream, status);
        self.phase = if status < 0 {
            StreamPhase::Failed
        } else {
            StreamPhase::Draining
        };
        r
    }
}

/// What one request for a packet leads to.
pub open spec fn drain_result(s: StreamView, status: ReceiveStatus) -> Result<DrainStep, VideoError> {
    match status {
        ReceiveStatus::Packet => Ok(DrainStep::WritePacket { stream_index: s.index as u32 }),
        ReceiveStatus::TryAgain | ReceiveStatus::EndOfStream => Ok(DrainStep::Done),
        ReceiveStatus::Failed { code } => Err(native_error(Action::Encoding, code)),
    }
}

/// The stream after one request for a packet.
pub open spec fn after_drain_step(s: StreamView, status: ReceiveStatus) -> StreamView {
    match status {
        ReceiveStatus::Packet => StreamView { pending_packet: true, received: s.received + 1, ..s },
        ReceiveStatus::TryAgain => s,
        ReceiveStatus::EndOfStream => if s.phase == StreamPhase::Draining {
            StreamView { phase: StreamPhase::Drained, ..s }
        } else {
            s
        },
        ReceiveStatus::Failed { .. } => StreamView { phase: StreamPhase::Failed, ..s },
    }
}

/// How starting the end of the stream ends in each phase.
pub open spec fn finish_result(phase: StreamPhase) -> Result<(), VideoError> {
    match phase {
        StreamPhase::Ending | StreamPhase::Draining | StreamPhase::Drained => Err(
            VideoError::AlreadyFinished,
        ),
        StreamPhase::Failed => Err(VideoError::Unusable),
        _ => Ok(()),
    }
}

/// The stream after a run of frames was submitted, in order.
pub open spec fn after_writes(s: StreamView, frames: Seq<FrameView>) -> StreamView
    decreases frames.len(),
{
    if frames.len() == 0 {
        s
    } else {
        after_write(after_writes(s, frames.drop_last()), frames.last())
    }
}

/// The plans for a run of frames submitted in order, one per frame.
pub open spec fn plans_for(s: StreamView, frames: Seq<FrameView>) -> Seq<WritePlan>
    decreases frames.len(),
{
    if frames.len() == 0 {
        Seq::empty()
    } else {
        plans_for(s, frames.drop_last()).push(
            write_plan(after_writes(s, frames.drop_last()), frames.last()),
        )
    }
}

/// The timestamps that a fresh stream hands to the encoder for a run of `N`
/// frames are 0, 1, ..., N - 1, one per frame in submission order, whatever
/// timestamps the frames carried.
pub proof fn lemma_timestamps_count_from_zero(s: StreamView, frames: Seq<FrameView>)
    requires
        s.next_pts == 0,
        frames.len() < i64::MAX,
    ensures
        plans_for(s, frames).len() == frames.len(),
        forall|i: int| 0 <= i < frames.len() ==> #[trigger] plans_for(s, frames)[i].pts == i,
        after_writes(s, frames).next_pts == frames.len(),
    decreases frames.len(),
{
    if frames.len() > 0 {
        lemma_timestamps_count_from_zero(s, frames.drop_last());
    }
}

/// The timestamp a frame carries plays no part in how it is submitted.
pub proof fn lemma_caller_timestamp_ignored(s: StreamView, f: FrameView, pts: int)
    ensures
        write_plan(s, f) == write_plan(s, FrameView { pts, ..f }),
        after_write(s, f) == after_write(s, FrameView { pts, ..f }),
{
}

/// Every one of `N` submitted frames is sent to the encoder, in order: the
/// run yields exactly `N` send plans and moves the counter on by `N`; and
/// while no step has failed and no write is pending, every packet that the
/// encoder produced has been written to the container.
pub proof fn lemma_every_frame_and_packet_reaches_muxer(s: StreamView, frames: Seq<FrameView>)
    requires
        s.wf(),
    ensures
        plans_for(s, frames).len() == frames.len(),
        after_writes(s, frames).next_pts == s.next_pts + frames.len(),
        after_writes(s, frames).received == s.received,
        after_writes(s, frames).written == s.written,
        after_writes(s, frames).phase == s.phase,
        s.phase != StreamPhase::Failed && !s.pending_packet ==> s.written == s.received,
    decreases frames.len(),
{
    if frames.len() > 0 {
        lemma_every_frame_and_packet_reaches_muxer(s, frames.drop_last());
    }
}

/// Submitting a frame in another pixel format is the same, to the encoder, as
/// submitting that frame already converted to the stream's format: the frame
/// sent is in the stream's format with the same timestamp, and the stream
/// moves to the same state but for the cached conversion stage.
pub proof fn lemma_conversion_transparent(s: StreamView, f: FrameView, converted: FrameView)
    requires
        s.wf(),
        s.next_pts < i64::MAX,
        f.format != s.config.pixel_format,
        converted.format == s.config.pixel_format,
    ensures
        write_plan(s, f).convert,
        !write_plan(s, converted).convert,
        write_plan(s, f).pts == write_plan(s, converted).pts,
        frame_after_write(s, converted).pts == write_plan(s, f).pts,
        frame_after_write(s, converted).format == s.config.pixel_format,
        after_write(s, f) == (StreamView { converter: after_write(s, f).converter, ..after_write(s, converted) }),
{
}

/// The conversion stage is built once, for the first frame that needs it, and
/// reused for every later one.
pub proof fn lemma_converter_built_once(s: StreamView, frames: Seq<FrameView>, i: int, j: int)
    requires
        0 <= i < j < frames.len(),
        plans_for(s, frames).len() == frames.len(),
        plans_for(s, frames)[i].build_converter,
    ensures
        !plans_for(s, frames)[j].build_converter,
    decreases frames.len(),
{
    lemma_plans_prefix(s, frames, j);
    lemma_plans_prefix(s, frames, i);
    assert(frames.subrange(0, j).subrange(0, i) =~= frames.subrange(0, i));
    assert(frames.subrange(0, j)[i] == frames[i]);
    lemma_converter_kept(s, frames.subrange(0, j), i);
}

proof fn lemma_plans_prefix(s: StreamView, frames: Seq<FrameView>, k: int)
    requires
        0 <= k < frames.len(),
    ensures
        plans_for(s, frames).len() == frames.len(),
        plans_for(s, frames)[k] == write_plan(after_writes(s, frames.subrange(0, k)), frames[k]),
    decreases frames.len(),
{
    lemma_plans_prefix_len(s, frames);
    lemma_plans_prefix_len(s, frames.drop_last());
    if k < frames.len() - 1 {
        lemma_plans_prefix(s, frames.drop_last(), k);
        assert(frames.drop_last().subrange(0, k) =~= frames.subrange(0, k));
        assert(frames.drop_last()[k] == frames[k]);
    } else {
        assert(frames.drop_last() =~= frames.subrange(0, k));
    }
}

proof fn lemma_plans_prefix_len(s: StreamView, frames: Seq<FrameView>)
    ensures
        plans_for(s, frames).len() == frames.len(),
    decreases frames.len(),
{
    if frames.len() > 0 {
        lemma_plans_prefix_len(s, frames.drop_last());
    }
}

proof fn lemma_converter_kept(s: StreamView, frames: Seq<FrameView>, i: int)
    requires
        0 <= i < frames.len(),
        write_plan(after_writes(s, frames.subrange(0, i)), frames[i]).build_converter,
    ensures
        after_writes(s, frames).converter is Some,
    decreases frames.len(),
{
    if i < frames.len() - 1 {
        assert(frames.drop_last().subrange(0, i) =~= frames.subrange(0, i));
        lemma_converter_kept(s, frames.drop_last(), i);
    } else {
        assert(frames.drop_last() =~= frames.subrange(0, i));
    }
}

} // verus!
