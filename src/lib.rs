//! A simple video encoder: a series of images goes in, a compressed and muxed
//! video file comes out.
//!
//! This crate holds the verified core of the encoder: frame buffers and how
//! they are filled from images, the encoder configuration, and the state
//! machines that decide how frames, timestamps and packets move between the
//! native codec library and the container writer. The native calls themselves
//! are made by the program around the crate, which reports each outcome back.
use vstd::prelude::*;

pub mod error;
pub mod frame;
pub mod output;

pub use error::{Action, VideoError};
pub use frame::{CairoSurface, Frame, PixelFormat, SurfaceFormat};
pub use output::{
    DrainStep, EncoderConfig, OutputFormatContext, OutputStream, ReceiveStatus, StreamPhase,
    WritePlan,
};

use error::status_result;
use frame::{cairo_fill_result, FrameView};
use output::{
    after_drain_step, after_write, drain_result, finish_result, frame_after_write, is_finished,
    write_plan,
    ContainerView, StreamView,
};

verus! {

/// The possible presets for libx264, in descending order of speed.
#[derive(Clone, Copy, Debug, PartialEq, Eq, Structural)]
pub enum X264Preset {
    /// The fastest preset
    UltraFast,
    SuperFast,
    VeryFast,
    Faster,
    Fast,
    /// The default preset
    Medium,
    Slow,
    Slower,
    /// The slowest preset
    VerySlow,
}

/// The token that names a preset in the encoder's option set.
pub open spec fn preset_name(p: X264Preset) -> Seq<char> {
    match p {
        X264Preset::UltraFast => "ultrafast"@,
        X264Preset::SuperFast => "superfast"@,
        X264Preset::VeryFast => "veryfast"@,
        X264Preset::Faster => "faster"@,
        X264Preset::Fast => "fast"@,
        X264Preset::Medium => "medium"@,
        X264Preset::Slow => "slow"@,
        X264Preset::Slower => "slower"@,
        X264Preset::VerySlow => "veryslow"@,
    }
}

impl X264Preset {
    /// The preset's option token.
    pub fn name(&self) -> (r: &'static str)
        ensures
            r@ == preset_name(*self),
    {
        match self {
            X264Preset::UltraFast => "ultrafast",
            X264Preset::SuperFast => "superfast",
            X264Preset::VeryFast => "veryfast",
            X264Preset::Faster => "faster",
            X264Preset::Fast => "fast",
            X264Preset::Medium => "medium",
            X264Preset::Slow => "slow",
            X264Preset::Slower => "slower",
            X264Preset::VerySlow => "veryslow",
        }
    }

    /// The preset's option token followed by a terminating NUL, as the native
    /// option set expects it.
    pub fn as_bytes_with_nul(&self) -> (r: &'static str)
        ensures
            r@ == preset_name(*self).push('\0'),
    {
        match self {
            X264Preset::UltraFast => {
                proof {
                    reveal_strlit("ultrafast\0");
                    reveal_strlit("ultrafast");
                }
                assert("ultrafast\0"@ =~= "ultrafast"@.push('\0'));
                "ultrafast\0"
            },
            X264Preset::SuperFast => {
                proof {
                    reveal_strlit("superfast\0");
                    reveal_strlit("superfast");
                }
                assert("superfast\0"@ =~= "superfast"@.push('\0'));
                "superfast\0"
            },
            X264Preset::VeryFast => {
                proof {
                    reveal_strlit("veryfast\0");
                    reveal_strlit("veryfast");
                }
                assert("veryfast\0"@ =~= "veryfast"@.push('\0'));
                "veryfast\0"
            },
            X264Preset::Faster => {
                proof {
                    reveal_strlit("faster\0");
                    reveal_strlit("faster");
                }
                assert("faster\0"@ =~= "faster"@.push('\0'));
                "faster\0"
            },
            X264Preset::Fast => {
                proof {
                    reveal_strlit("fast\0");
                    reveal_strlit("fast");
                }
                assert("fast\0"@ =~= "fast"@.push('\0'));
                "fast\0"
            },
            X264Preset::Medium => {
                proof {
                    reveal_strlit("medium\0");
                    reveal_strlit("medium");
                }
                assert("medium\0"@ =~= "medium"@.push('\0'));
                "medium\0"
            },
            X264Preset::Slow => {
                proof {
                    reveal_strlit("slow\0");
                    reveal_strlit("slow");
                }
                assert("slow\0"@ =~= "slow"@.push('\0'));
                "slow\0"
            },
            X264Preset::Slower => {
                proof {
                    reveal_strlit("slower\0");
                    reveal_strlit("slower");
                }
                assert("slower\0"@ =~= "slower"@.push('\0'));
                "slower\0"
            },
            X264Preset::VerySlow => {
                proof {
                    reveal_strlit("veryslow\0");
                    reveal_strlit("veryslow");
                }
                assert("veryslow\0"@ =~= "veryslow"@.push('\0'));
                "veryslow\0"
            },
        }
    }
}

/// Settings that a caller may give; each one left out takes its default.
#[derive(Clone, Copy, Debug, PartialEq, Eq, Structural)]
pub struct OptionalSettings {
    pub crf: Option<i64>,
    pub bitrate: Option<i64>,
    pub gop_size: Option<i32>,
    pub preset: Option<X264Preset>,
}

impl Default for OptionalSettings {
    fn default() -> (r: Self)
        ensures
            r == (OptionalSettings { crf: None, bitrate: None, gop_size: None, preset: None }),
    {
        OptionalSettings { crf: None, bitrate: None, gop_size: None, preset: None }
    }
}

/// Helper to build a `SimpleVideoEncoder`, allowing additional options.
pub struct SimpleVideoEncoderBuilder {
    filename: String,
    width: i32,
    height: i32,
    framerate: i32,
    settings: OptionalSettings,
}

impl SimpleVideoEncoderBuilder {
    /// The path of the file to write.
    pub closed spec fn spec_filename(&self) -> Seq<char> {
        self.filename@
    }

    pub closed spec fn spec_width(&self) -> i32 {
        self.width
    }

    pub closed spec fn spec_height(&self) -> i32 {
        self.height
    }

    pub closed spec fn spec_framerate(&self) -> i32 {
        self.framerate
    }

    /// The settings given so far.
    pub closed spec fn spec_settings(&self) -> OptionalSettings {
        self.settings
    }

    /// Starts a builder with every optional setting left out.
    pub fn new(filename: &str, width: i32, height: i32, framerate: i32) -> (r: Self)
        ensures
            r.spec_filename() == filename@,
            r.spec_width() == width,
            r.spec_height() == height,
            r.spec_framerate() == framerate,
            r.spec_settings() == (OptionalSettings { crf: None, bitrate: None, gop_size: None, preset: None }),
    {
        SimpleVideoEncoderBuilder {
            filename: filename.to_string(),
            width,
            height,
            framerate,
            settings: OptionalSettings::default(),
        }
    }

    /// Sets the CRF, the constant rate factor (0 to 51; lower values give
    /// higher quality). When it is set, the bitrate setting has no effect.
    pub fn crf(self, crf: i64) -> (r: Self)
        ensures
            r.spec_filename() == self.spec_filename(),
            r.spec_width() == self.spec_width(),
            r.spec_height() == self.spec_height(),
            r.spec_framerate() == self.spec_framerate(),
            r.spec_settings() == (OptionalSettings { crf: Some(crf), ..self.spec_settings() }),
    {
        let mut b = self;
        b.settings.crf = Some(crf);
        b
    }

    /// Sets the preset, which trades encoding speed against output size.
    pub fn preset(self, preset: X264Preset) -> (r: Self)
        ensures
            r.spec_filename() == self.spec_filename(),
            r.spec_width() == self.spec_width(),
            r.spec_height() == self.spec_height(),
            r.spec_framerate() == self.spec_framerate(),
            r.spec_settings() == (OptionalSettings { preset: Some(preset), ..self.spec_settings() }),
    {
        let mut b = self;
        b.settings.preset = Some(preset);
        b
    }

    /// Sets the target bitrate in bits per second; it has no effect when a CRF
    /// is set.
    pub fn bitrate(self, bitrate: i64) -> (r: Self)
        ensures
            r.spec_filename() == self.spec_filename(),
            r.spec_width() == self.spec_width(),
            r.spec_height() == self.spec_height(),
            r.spec_framerate() == self.spec_framerate(),
            r.spec_settings() == (OptionalSettings { bitrate: Some(bitrate), ..self.spec_settings() }),
    {
        let mut b = self;
        b.settings.bitrate = Some(bitrate);
        b
    }

    /// Sets the group-of-pictures size, the largest number of frames between
    /// keyframes.
    pub fn set_gop_size(self, gop_size: i32) -> (r: Self)
        ensures
            r.spec_filename() == self.spec_filename(),
            r.spec_width() == self.spec_width(),
            r.spec_height() == self.spec_height(),
            r.spec_framerate() == self.spec_framerate(),
            r.spec_settings() == (OptionalSettings { gop_size: Some(gop_size), ..self.spec_settings() }),
    {
        let mut b = self;
        b.settings.gop_size = Some(gop_size);
        b
    }

    /// The path of the file to write.
    pub fn filename(&self) -> (r: &str)
        ensures
            r@ == self.spec_filename(),
    {
        self.filename.as_str()
    }

    /// The frame width in pixels.
    pub fn width(&self) -> (r: i32)
        ensures
            r == self.spec_width(),
    {
        self.width
    }

    /// The frame height in pixels.
    pub fn height(&self) -> (r: i32)
        ensures
            r == self.spec_height(),
    {
        self.height
    }

    /// The frame rate in frames per second.
    pub fn framerate(&self) -> (r: i32)
        ensures
            r == self.spec_framerate(),
    {
        self.framerate
    }

    /// The settings given so far.
    pub fn settings(&self) -> (r: OptionalSettings)
        ensures
            r == self.spec_settings(),
    {
        self.settings
    }
}

/// What an encoder holds.
pub ghost struct EncoderView {
    /// The frame that surfaces are copied into before they are submitted.
    pub frame: FrameView,
    pub stream: StreamView,
    pub container: ContainerView,
}

impl EncoderView {
    /// The parts fit together: the copy frame is packed RGB of the stream's
    /// geometry, the stream was opened, the header is written, and once the
    /// trailer is written the stream is drained (or a later step failed).
    pub open spec fn wf(self) -> bool {
        &&& self.frame.wf()
        &&& self.frame.format == PixelFormat::Rgb24
        &&& self.frame.width == self.stream.config.width
        &&& self.frame.height == self.stream.config.height
        &&& self.stream.wf()
        &&& self.stream.phase != StreamPhase::Configured
        &&& self.container.header_written
        &&& self.container.trailer_written ==> (self.stream.phase == StreamPhase::Drained
            || self.stream.phase == StreamPhase::Failed)
    }
}

/// A video encoder session: frames go in and are encoded and written into a
/// video file. This type decides every step; the program around it performs
/// the native calls and reports their outcomes.
pub struct SimpleVideoEncoder {
    temp_rgb_frame: Frame,
    output_stream: OutputStream,
    format_context: OutputFormatContext,
}

impl View for SimpleVideoEncoder {
    type V = EncoderView;

    closed spec fn view(&self) -> EncoderView {
        EncoderView {
            frame: self.temp_rgb_frame@,
            stream: self.output_stream@,
            container: self.format_context@,
        }
    }
}

impl SimpleVideoEncoder {
    /// Starts a builder for the file, which allows additional settings. The
    /// container format follows from the file name's extension.
    pub fn builder(filename: &str, width: i32, height: i32, framerate: i32) -> (r: SimpleVideoEncoderBuilder)
        ensures
            r.spec_filename() == filename@,
            r.spec_width() == width,
            r.spec_height() == height,
            r.spec_framerate() == framerate,
            r.spec_settings() == (OptionalSettings { crf: None, bitrate: None, gop_size: None, preset: None }),
    {
        SimpleVideoEncoderBuilder::new(filename, width, height, framerate)
    }

    /// Puts an encoder together from a container whose header is written and
    /// its opened stream, and allocates the frame that surfaces are copied
    /// into. Fails with `AllocationFailure` when the stream's geometry cannot
    /// be allocated.
    pub fn from_parts(format_context: OutputFormatContext, output_stream: OutputStream) -> (r: Result<Self, VideoError>)
        requires
            format_context@.header_written,
            !format_context@.trailer_written,
            output_stream@.wf(),
            output_stream@.phase == StreamPhase::Open,
            !output_stream@.pending_packet,
        ensures
            r is Ok <==> frame::valid_dims(
                output_stream@.config.width as int,
                output_stream@.config.height as int,
            ),
            r is Err ==> r == Err::<Self, VideoError>(
                VideoError::AllocationFailure { action: Action::AllocatingFrameBuffer, code: 0 },
            ),
            r matches Ok(e) ==> {
                &&& e@.wf()
                &&& e@.stream == output_stream@
                &&& e@.container == format_context@
            },
    {
        let config = output_stream.config();
        let temp_rgb_frame = Frame::new(PixelFormat::Rgb24, config.width, config.height)?;
        Ok(SimpleVideoEncoder { temp_rgb_frame, output_stream, format_context })
    }

    /// A new packed RGB frame of the encoder's geometry, ready to be filled
    /// and appended.
    pub fn new_frame(&self) -> (r: Result<Frame, VideoError>)
        requires
            self@.wf(),
        ensures
            r matches Ok(f) && f@ == (FrameView {
                format: PixelFormat::Rgb24,
                width: self@.frame.width,
                height: self@.frame.height,
                data: Seq::new(self@.frame.data.len(), |i| 0u8),
                pts: 0,
            }),
    {
        Frame::new(PixelFormat::Rgb24, self.temp_rgb_frame.width(), self.temp_rgb_frame.height())
    }

    /// The frame that the last surface was copied into.
    pub fn temp_frame(&self) -> (r: &Frame)
        ensures
            r@ == self@.frame,
    {
        &self.temp_rgb_frame
    }

    /// The output stream.
    pub fn output_stream(&self) -> (r: &OutputStream)
        ensures
            r@ == self@.stream,
    {
        &self.output_stream
    }

    /// The container.
    pub fn format_context(&self) -> (r: &OutputFormatContext)
        ensures
            r@ == self@.container,
    {
        &self.format_context
    }

    /// Appends a frame: decides how it goes to the encoder (see
    /// `OutputStream::write_frame`). After `finish` it fails with
    /// `AlreadyFinished` and nothing changes.
    pub fn append_frame(&mut self, frame: &mut Frame) -> (r: Result<WritePlan, VideoError>)
        requires
            old(self)@.wf(),
            !old(self)@.stream.pending_packet,
            old(self)@.stream.next_pts < i64::MAX,
        ensures
            final(self)@.wf(),
            final(self)@.frame == old(self)@.frame,
            final(self)@.container == old(self)@.container,
            is_finished(old(self)@.stream.phase) ==> r == Err::<WritePlan, VideoError>(
                VideoError::AlreadyFinished,
            ),
            old(self)@.stream.phase == StreamPhase::Failed ==> r == Err::<WritePlan, VideoError>(
                VideoError::Unusable,
            ),
            r is Err ==> final(self)@ == old(self)@ && final(frame)@ == old(frame)@,
            old(self)@.stream.phase == StreamPhase::Open ==> {
                &&& r == Ok::<WritePlan, VideoError>(write_plan(old(self)@.stream, old(frame)@))
                &&& final(self)@.stream == after_write(old(self)@.stream, old(frame)@)
                &&& final(frame)@ == frame_after_write(old(self)@.stream, old(frame)@)
            },
    {
        self.output_stream.write_frame(frame)
    }

    /// Appends a frame copied from a cairo image surface, alpha dropped.
    ///
    /// After `finish` it fails with `AlreadyFinished`, after a failed step
    /// with `Unusable`; otherwise a surface that cannot fill the copy frame
    /// fails as `Frame::fill_from_cairo_rgb` says. On failure nothing changes.
    /// Otherwise the copy frame is filled and submitted as `append_frame`
    /// says; the program then sends `temp_frame`, or its conversion.
    pub fn append_frame_cairo(&mut self, surface: &CairoSurface) -> (r: Result<WritePlan, VideoError>)
        requires
            old(self)@.wf(),
            surface.wf(),
            !old(self)@.stream.pending_packet,
            old(self)@.stream.next_pts < i64::MAX,
        ensures
            final(self)@.wf(),
            final(self)@.container == old(self)@.container,
            is_finished(old(self)@.stream.phase) ==> r == Err::<WritePlan, VideoError>(
                VideoError::AlreadyFinished,
            ),
            old(self)@.stream.phase == StreamPhase::Failed ==> r == Err::<WritePlan, VideoError>(
                VideoError::Unusable,
            ),
            old(self)@.stream.phase == StreamPhase::Open ==> (r is Err <==> cairo_fill_result(
                old(self)@.frame,
                surface,
            ) is Err),
            old(self)@.stream.phase == StreamPhase::Open ==> (r matches Err(e) ==> cairo_fill_result(
                old(self)@.frame,
                surface,
            ) == Err::<(), VideoError>(e)),
            r is Err ==> final(self)@ == old(self)@,
            old(self)@.stream.phase == StreamPhase::Open && cairo_fill_result(old(self)@.frame, surface) is Ok
                ==> {
                &&& final(self)@.frame.format == old(self)@.frame.format
                &&& final(self)@.frame.width == old(self)@.frame.width
                &&& final(self)@.frame.height == old(self)@.frame.height
                &&& forall|y: int, x: int, c: int|
                    0 <= y < surface.height && 0 <= x < surface.width && 0 <= c < 3
                        ==> #[trigger] final(self)@.frame.data[3 * (y * surface.width + x) + c]
                        == frame::surface_channel(surface, y, x, c)
                &&& r == Ok::<WritePlan, VideoError>(write_plan(old(self)@.stream, old(self)@.frame))
                &&& final(self)@.stream == after_write(old(self)@.stream, old(self)@.frame)
            },
    {
        match self.output_stream.phase() {
            StreamPhase::Ending | StreamPhase::Draining | StreamPhase::Drained => {
                return Err(VideoError::AlreadyFinished);
            },
            StreamPhase::Failed => {
                return Err(VideoError::Unusable);
            },
            _ => {},
        }
        self.temp_rgb_frame.fill_from_cairo_rgb(surface)?;
        self.output_stream.write_frame(&mut self.temp_rgb_frame)
    }

    /// Decides what follows one request for an encoded packet (see
    /// `OutputStream::drain_step`).
    pub fn drain_step(&mut self, status: ReceiveStatus) -> (r: Result<DrainStep, VideoError>)
        requires
            old(self)@.wf(),
            old(self)@.stream.phase == StreamPhase::Open || old(self)@.stream.phase == StreamPhase::Draining,
            !old(self)@.stream.pending_packet,
            !old(self)@.container.trailer_written,
        ensures
            final(self)@.wf(),
            r == drain_result(old(self)@.stream, status),
            final(self)@ == (EncoderView { stream: after_drain_step(old(self)@.stream, status), ..old(self)@ }),
    {
        self.output_stream.drain_step(status)
    }

    /// Records the outcome of writing the pending packet.
    pub fn packet_written(&mut self, status: i32) -> (r: Result<(), VideoError>)
        requires
            old(self)@.wf(),
            old(self)@.stream.pending_packet,
        ensures
            final(self)@.wf(),
            r == status_result(Action::WritingPacket, status),
            final(self)@ == (EncoderView {
                stream: if status < 0 {
                    StreamView { phase: StreamPhase::Failed, pending_packet: false, ..old(self)@.stream }
                } else {
                    StreamView {
                        pending_packet: false,
                        written: old(self)@.stream.written + 1,
                        ..old(self)@.stream
                    }
                },
                ..old(self)@
            }),
    {
        self.output_stream.packet_written(status)
    }

    /// Records the outcome of a native step that changes nothing here when it
    /// succeeds (sending a frame); a failure leaves the encoder unusable.
    pub fn record_status(&mut self, action: Action, status: i32) -> (r: Result<(), VideoError>)
        requires
            old(self)@.wf(),
        ensures
            final(self)@.wf(),
            r == status_result(action, status),
            final(self)@ == if status < 0 {
                EncoderView { stream: StreamView { phase: StreamPhase::Failed, ..old(self)@.stream }, ..old(self)@ }
            } else {
                old(self)@
            },
    {
        self.output_stream.record_status(action, status)
    }

    /// Starts finishing the video: end of stream is to be signalled
    /// (`end_of_stream_sent`), the last packets drained until the encoder's
    /// end of stream (`drain_step`) and then the trailer written
    /// (`write_trailer`). The second call fails with `AlreadyFinished`, a call
    /// after a failed step with `Unusable`, and then nothing changes.
    pub fn finish(&mut self) -> (r: Result<(), VideoError>)
        requires
            old(self)@.wf(),
            !old(self)@.stream.pending_packet,
        ensures
            final(self)@.wf(),
            r == finish_result(old(self)@.stream.phase),
            final(self)@ == if r is Ok {
                EncoderView { stream: StreamView { phase: StreamPhase::Ending, ..old(self)@.stream }, ..old(self)@ }
            } else {
                old(self)@
            },
    {
        self.output_stream.finish()
    }

    /// Records the outcome of signalling end of stream to the encoder, after
    /// `finish`.
    pub fn end_of_stream_sent(&mut self, status: i32) -> (r: Result<(), VideoError>)
        requires
            old(self)@.wf(),
            old(self)@.stream.phase == StreamPhase::Ending,
        ensures
            final(self)@.wf(),
            r == status_result(Action::SendingEndOfStream, status),
            final(self)@ == (EncoderView {
                stream: StreamView {
                    phase: if status < 0 {
                        StreamPhase::Failed
                    } else {
                        StreamPhase::Draining
                    },
                    ..old(self)@.stream
                },
                ..old(self)@
            }),
    {
        self.output_stream.end_of_stream_sent(status)
    }

    /// Records the outcome of writing the trailer. It comes only after end of
    /// stream was signalled and the final drain reached the encoder's end of
    /// stream, and only once.
    pub fn write_trailer(&mut self, status: i32) -> (r: Result<(), VideoError>)
        requires
            old(self)@.wf(),
            old(self)@.stream.phase == StreamPhase::Drained,
            !old(self)@.stream.pending_packet,
            !old(self)@.container.trailer_written,
        ensures
            final(self)@.wf(),
            r == status_result(Action::WritingTrailer, status),
            final(self)@ == (EncoderView {
                container: ContainerView { trailer_written: true, ..old(self)@.container },
                ..old(self)@
            }),
    {
        self.format_context.write_trailer(status)
    }
}

} // verus!
