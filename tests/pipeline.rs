use simple_video_encoder::error::{check_status, make_av_error};
use simple_video_encoder::{
    Action, CairoSurface, DrainStep, Frame, OptionalSettings, OutputFormatContext, PixelFormat,
    ReceiveStatus, SimpleVideoEncoder, StreamPhase, SurfaceFormat, VideoError, WritePlan,
};

fn open_encoder(width: i32, height: i32, framerate: i32) -> SimpleVideoEncoder {
    let mut ctx = OutputFormatContext::new("out.mp4", true, true, 0).unwrap();
    let mut stream = ctx
        .add_stream(true, true, true, width, height, framerate, PixelFormat::Yuv420p, &OptionalSettings::default(), false)
        .unwrap();
    stream.open_video(0).unwrap();
    stream.record_status(Action::CopyingStreamParameters, 0).unwrap();
    ctx.open_file(0).unwrap();
    ctx.write_header(0).unwrap();
    SimpleVideoEncoder::from_parts(ctx, stream).unwrap()
}

/// Drains as an encoder that holds back nothing would: one packet, then "try again".
fn drain_one(enc: &mut SimpleVideoEncoder) -> usize {
    let mut written = 0;
    let mut statuses = vec![ReceiveStatus::TryAgain, ReceiveStatus::Packet];
    while let Some(status) = statuses.pop() {
        match enc.drain_step(status).unwrap() {
            DrainStep::WritePacket { stream_index } => {
                assert_eq!(stream_index, 0);
                enc.packet_written(0).unwrap();
                written += 1;
            }
            DrainStep::Done => break,
        }
    }
    written
}

fn solid_surface(width: i32, height: i32, rgb: [u8; 3]) -> CairoSurface {
    let mut data = Vec::new();
    for _ in 0..(width * height) {
        data.extend_from_slice(&[rgb[2], rgb[1], rgb[0], 255]);
    }
    CairoSurface { format: SurfaceFormat::Rgb24, width, height, stride: 4 * width, big_endian: false, data }
}

#[test]
fn unrecognized_extension() {
    // the muxer library knows no format for the name, so nothing is allocated
    assert_eq!(OutputFormatContext::new("video.notaformat", false, false, -22).err(), Some(VideoError::UnrecognizedFormat));
    assert_eq!(OutputFormatContext::new("video.notaformat", false, false, 0).err(), Some(VideoError::UnrecognizedFormat));
}

#[test]
fn container_allocation_failure() {
    assert_eq!(
        OutputFormatContext::new("video.mp4", true, false, -12).err(),
        Some(VideoError::AllocationFailure { action: Action::AllocatingContext, code: -12 })
    );
}

#[test]
fn filename_with_nul() {
    assert_eq!(OutputFormatContext::check_filename("a\0b.mp4"), Err(VideoError::InvalidFilename));
    assert_eq!(OutputFormatContext::check_filename("ab.mp4"), Ok(()));
    assert_eq!(OutputFormatContext::new("a\0b.mp4", true, true, 0).err(), Some(VideoError::InvalidFilename));
}

#[test]
fn fresh_container() {
    let ctx = OutputFormatContext::new("clip.mkv", true, true, 0).unwrap();
    assert_eq!(ctx.filename(), "clip.mkv");
    assert!(!ctx.is_file_open());
    assert!(!ctx.is_header_written());
    assert!(!ctx.is_trailer_written());
}

#[test]
fn add_stream_failures() {
    let mut ctx = OutputFormatContext::new("clip.mkv", true, true, 0).unwrap();
    let s = OptionalSettings::default();
    assert_eq!(ctx.add_stream(false, true, true, 8, 8, 30, PixelFormat::Yuv420p, &s, false).err(), Some(VideoError::EncoderNotFound));
    assert_eq!(ctx.add_stream(true, false, true, 8, 8, 30, PixelFormat::Yuv420p, &s, false).err(), Some(VideoError::InvalidCodec));
    assert_eq!(
        ctx.add_stream(true, true, false, 8, 8, 30, PixelFormat::Yuv420p, &s, false).err(),
        Some(VideoError::AllocationFailure { action: Action::AllocatingStream, code: 0 })
    );
    let stream = ctx.add_stream(true, true, true, 8, 8, 30, PixelFormat::Yuv420p, &s, false).unwrap();
    assert_eq!(stream.index(), 0);
    assert_eq!(stream.phase(), StreamPhase::Configured);
    assert_eq!(stream.config().bit_rate, 800_000);
}

#[test]
fn lifecycle_failures() {
    let mut ctx = OutputFormatContext::new("clip.mkv", true, true, 0).unwrap();
    let mut stream = ctx
        .add_stream(true, true, true, 8, 8, 30, PixelFormat::Yuv420p, &OptionalSettings::default(), false)
        .unwrap();
    assert_eq!(stream.open_video(-22), Err(VideoError::EncoderRejected { action: Action::OpeningCodec, code: -22 }));
    assert_eq!(stream.phase(), StreamPhase::Failed);
    assert_eq!(ctx.open_file(-2), Err(VideoError::MuxerWriteFailure { action: Action::OpeningFile, code: -2 }));
    assert!(!ctx.is_file_open());
    assert_eq!(ctx.open_file(0), Ok(()));
    assert_eq!(ctx.write_header(-5), Err(VideoError::MuxerWriteFailure { action: Action::WritingHeader, code: -5 }));
    assert!(!ctx.is_header_written());
}

#[test]
fn native_error_kinds() {
    assert_eq!(make_av_error(Action::SendingFrame, -1), VideoError::EncoderRejected { action: Action::SendingFrame, code: -1 });
    assert_eq!(make_av_error(Action::WritingTrailer, -1), VideoError::MuxerWriteFailure { action: Action::WritingTrailer, code: -1 });
    assert_eq!(make_av_error(Action::AllocatingPacket, -12), VideoError::AllocationFailure { action: Action::AllocatingPacket, code: -12 });
    assert_eq!(check_status(Action::Encoding, 0), Ok(()));
    assert_eq!(check_status(Action::Encoding, 5), Ok(()));
    assert_eq!(check_status(Action::Encoding, -1), Err(VideoError::EncoderRejected { action: Action::Encoding, code: -1 }));
    assert_eq!(Action::SendingFrame.describe(), "sending frame to encoder");
    assert_eq!(Action::WritingTrailer.describe(), "writing trailer to output file");
}

#[test]
fn native_format_frame_gets_stream_timestamp() {
    let mut enc = open_encoder(4, 4, 30);
    let mut frame = Frame::new(PixelFormat::Yuv420p, 4, 4).unwrap();
    frame.set_pts(1000);
    let plan = enc.append_frame(&mut frame).unwrap();
    assert_eq!(plan, WritePlan { build_converter: false, convert: false, pts: 0 });
    assert_eq!(frame.pts(), 0);
}

#[test]
fn timestamps_ignore_caller_values() {
    let mut enc = open_encoder(4, 4, 30);
    let mut frame = enc.new_frame().unwrap();
    for (i, caller_pts) in [50i64, 3, -7, 50, 0].iter().enumerate() {
        frame.set_pts(*caller_pts);
        let plan = enc.append_frame(&mut frame).unwrap();
        assert_eq!(plan.pts, i as i64);
        drain_one(&mut enc);
    }
    assert_eq!(enc.output_stream().frames_sent(), 5);
}

#[test]
fn converter_built_once() {
    let mut enc = open_encoder(4, 4, 30);
    let mut rgb = enc.new_frame().unwrap();
    let first = enc.append_frame(&mut rgb).unwrap();
    assert_eq!(first, WritePlan { build_converter: true, convert: true, pts: 0 });
    // a converted frame is left alone: the destination frame carries the timestamp
    assert_eq!(rgb.pts(), 0);
    rgb.set_pts(99);
    let second = enc.append_frame(&mut rgb).unwrap();
    assert_eq!(second, WritePlan { build_converter: false, convert: true, pts: 1 });
    assert_eq!(rgb.pts(), 99);
    let mut native = Frame::new(PixelFormat::Yuv420p, 4, 4).unwrap();
    let third = enc.append_frame(&mut native).unwrap();
    assert_eq!(third, WritePlan { build_converter: false, convert: false, pts: 2 });
}

#[test]
fn conversion_same_timestamps_as_native() {
    let mut a = open_encoder(4, 4, 30);
    let mut b = open_encoder(4, 4, 30);
    let mut rgb = Frame::new(PixelFormat::Rgb24, 4, 4).unwrap();
    let mut yuv = Frame::new(PixelFormat::Yuv420p, 4, 4).unwrap();
    for _ in 0..3 {
        let pa = a.append_frame(&mut rgb).unwrap();
        let pb = b.append_frame(&mut yuv).unwrap();
        assert!(pa.convert && !pb.convert);
        assert_eq!(pa.pts, pb.pts);
        assert_eq!(pb.pts, yuv.pts());
    }
}

#[test]
fn drain_statuses() {
    let mut enc = open_encoder(4, 4, 30);
    assert_eq!(enc.drain_step(ReceiveStatus::TryAgain), Ok(DrainStep::Done));
    assert_eq!(enc.drain_step(ReceiveStatus::EndOfStream), Ok(DrainStep::Done));
    assert_eq!(enc.drain_step(ReceiveStatus::Packet), Ok(DrainStep::WritePacket { stream_index: 0 }));
    assert_eq!(enc.packet_written(0), Ok(()));
    assert_eq!(
        enc.drain_step(ReceiveStatus::Failed { code: -1094995529 }),
        Err(VideoError::EncoderRejected { action: Action::Encoding, code: -1094995529 })
    );
    assert_eq!(enc.output_stream().phase(), StreamPhase::Failed);
    let mut frame = enc.new_frame().unwrap();
    assert_eq!(enc.append_frame(&mut frame), Err(VideoError::Unusable));
    assert_eq!(enc.finish(), Err(VideoError::Unusable));
}

#[test]
fn packet_write_failure() {
    let mut enc = open_encoder(4, 4, 30);
    assert_eq!(enc.drain_step(ReceiveStatus::Packet), Ok(DrainStep::WritePacket { stream_index: 0 }));
    assert_eq!(enc.packet_written(-32), Err(VideoError::MuxerWriteFailure { action: Action::WritingPacket, code: -32 }));
    assert_eq!(enc.output_stream().phase(), StreamPhase::Failed);
}

#[test]
fn send_failure_makes_unusable() {
    let mut enc = open_encoder(4, 4, 30);
    assert_eq!(
        enc.record_status(Action::SendingFrame, -22),
        Err(VideoError::EncoderRejected { action: Action::SendingFrame, code: -22 })
    );
    let mut frame = enc.new_frame().unwrap();
    assert_eq!(enc.append_frame(&mut frame), Err(VideoError::Unusable));
}

#[test]
fn finish_twice_and_append_after_finish() {
    let mut enc = open_encoder(4, 4, 30);
    let mut frame = enc.new_frame().unwrap();
    enc.append_frame(&mut frame).unwrap();
    drain_one(&mut enc);
    assert_eq!(enc.finish(), Ok(()));
    assert_eq!(enc.output_stream().phase(), StreamPhase::Ending);
    enc.end_of_stream_sent(0).unwrap();
    assert_eq!(enc.output_stream().phase(), StreamPhase::Draining);
    assert_eq!(enc.drain_step(ReceiveStatus::Packet), Ok(DrainStep::WritePacket { stream_index: 0 }));
    enc.packet_written(0).unwrap();
    assert_eq!(enc.drain_step(ReceiveStatus::EndOfStream), Ok(DrainStep::Done));
    assert_eq!(enc.output_stream().phase(), StreamPhase::Drained);
    assert_eq!(enc.write_trailer(0), Ok(()));
    assert!(enc.format_context().is_trailer_written());
    assert_eq!(enc.finish(), Err(VideoError::AlreadyFinished));
    frame.set_pts(12);
    assert_eq!(enc.append_frame(&mut frame), Err(VideoError::AlreadyFinished));
    assert_eq!(frame.pts(), 12);
    let s = solid_surface(4, 4, [1, 2, 3]);
    assert_eq!(enc.append_frame_cairo(&s), Err(VideoError::AlreadyFinished));
    assert!(enc.temp_frame().data().iter().all(|b| *b == 0));
    assert_eq!(enc.output_stream().frames_sent(), 1);
}

#[test]
fn trailer_failure() {
    let mut enc = open_encoder(4, 4, 30);
    enc.finish().unwrap();
    enc.end_of_stream_sent(0).unwrap();
    enc.drain_step(ReceiveStatus::EndOfStream).unwrap();
    assert_eq!(enc.write_trailer(-5), Err(VideoError::MuxerWriteFailure { action: Action::WritingTrailer, code: -5 }));
    assert!(enc.format_context().is_trailer_written());
}

#[test]
fn cairo_append_size_mismatch_changes_nothing() {
    let mut enc = open_encoder(4, 4, 30);
    let s = solid_surface(4, 5, [1, 2, 3]);
    assert_eq!(enc.append_frame_cairo(&s), Err(VideoError::SizeMismatch));
    assert_eq!(enc.output_stream().frames_sent(), 0);
}

#[test]
fn new_frame_is_rgb_of_encoder_size() {
    let enc = open_encoder(6, 2, 30);
    let f = enc.new_frame().unwrap();
    assert_eq!(f.pixel_format(), PixelFormat::Rgb24);
    assert_eq!((f.width(), f.height()), (6, 2));
}

#[test]
fn from_parts_rejects_unallocatable_geometry() {
    let mut ctx = OutputFormatContext::new("out.mp4", true, true, 0).unwrap();
    let mut stream = ctx
        .add_stream(true, true, true, 0, 16, 30, PixelFormat::Yuv420p, &OptionalSettings::default(), false)
        .unwrap();
    stream.open_video(0).unwrap();
    ctx.open_file(0).unwrap();
    ctx.write_header(0).unwrap();
    assert_eq!(
        SimpleVideoEncoder::from_parts(ctx, stream).err(),
        Some(VideoError::AllocationFailure { action: Action::AllocatingFrameBuffer, code: 0 })
    );
}

#[test]
fn hundred_solid_frames() {
    let mut enc = open_encoder(256, 256, 30);
    assert_eq!(enc.output_stream().config().time_base_den, 30);
    let mut written = 0;
    for i in 0..100 {
        let s = solid_surface(256, 256, [200, 100, 50]);
        let plan = enc.append_frame_cairo(&s).unwrap();
        assert_eq!(plan.pts, i);
        assert_eq!(plan.convert, true);
        assert_eq!(plan.build_converter, i == 0);
        if i == 0 {
            let d = enc.temp_frame().data();
            assert_eq!(&d[0..3], &[200, 100, 50]);
            assert_eq!(&d[d.len() - 3..], &[200, 100, 50]);
        }
        written += drain_one(&mut enc);
    }
    enc.finish().unwrap();
    enc.end_of_stream_sent(0).unwrap();
    assert_eq!(enc.drain_step(ReceiveStatus::EndOfStream), Ok(DrainStep::Done));
    enc.write_trailer(0).unwrap();
    assert_eq!(written, 100);
    assert_eq!(enc.output_stream().frames_sent(), 100);
}

#[test]
fn end_of_stream_failure() {
    let mut enc = open_encoder(4, 4, 30);
    enc.finish().unwrap();
    assert_eq!(
        enc.end_of_stream_sent(-22),
        Err(VideoError::EncoderRejected { action: Action::SendingEndOfStream, code: -22 })
    );
    assert_eq!(enc.output_stream().phase(), StreamPhase::Failed);
    assert_eq!(enc.finish(), Err(VideoError::Unusable));
}

#[test]
fn try_again_while_draining_is_not_drained() {
    let mut enc = open_encoder(4, 4, 30);
    enc.finish().unwrap();
    enc.end_of_stream_sent(0).unwrap();
    assert_eq!(enc.drain_step(ReceiveStatus::TryAgain), Ok(DrainStep::Done));
    assert_eq!(enc.output_stream().phase(), StreamPhase::Draining);
    // end of stream before finishing ends a drain but finishes nothing
    let mut open = open_encoder(4, 4, 30);
    assert_eq!(open.drain_step(ReceiveStatus::EndOfStream), Ok(DrainStep::Done));
    assert_eq!(open.output_stream().phase(), StreamPhase::Open);
}

#[test]
fn global_header_follows_container() {
    let mut ctx = OutputFormatContext::new("out.mp4", true, true, 0).unwrap();
    let s = ctx
        .add_stream(true, true, true, 8, 8, 30, PixelFormat::Yuv420p, &OptionalSettings::default(), true)
        .unwrap();
    assert!(s.config().global_header);
    let mut ctx = OutputFormatContext::new("out.ts", true, true, 0).unwrap();
    let s = ctx
        .add_stream(true, true, true, 8, 8, 30, PixelFormat::Yuv420p, &OptionalSettings::default(), false)
        .unwrap();
    assert!(!s.config().global_header);
}

#[test]
fn error_messages() {
    let e = VideoError::EncoderRejected { action: Action::SendingFrame, code: -22 };
    assert_eq!(e.message("Invalid argument"), "Error sending frame to encoder: Invalid argument");
    let e = VideoError::AllocationFailure { action: Action::AllocatingStream, code: 0 };
    assert_eq!(e.message("ignored"), "Error allocating stream");
    assert_eq!(
        VideoError::UnrecognizedFormat.message(""),
        "Error: could not determine output format from file extension"
    );
    assert_eq!(VideoError::AlreadyFinished.message(""), "Error: the encoder was already finished");
}
