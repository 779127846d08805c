use simple_video_encoder::output::{resolve_config, EncoderOption, DEFAULT_BIT_RATE, DEFAULT_GOP_SIZE};
use simple_video_encoder::{OptionalSettings, PixelFormat, SimpleVideoEncoder, X264Preset};

#[test]
fn preset_names() {
    let all = [
        (X264Preset::UltraFast, "ultrafast"),
        (X264Preset::SuperFast, "superfast"),
        (X264Preset::VeryFast, "veryfast"),
        (X264Preset::Faster, "faster"),
        (X264Preset::Fast, "fast"),
        (X264Preset::Medium, "medium"),
        (X264Preset::Slow, "slow"),
        (X264Preset::Slower, "slower"),
        (X264Preset::VerySlow, "veryslow"),
    ];
    for (p, name) in all {
        assert_eq!(p.name(), name);
        assert_eq!(p.as_bytes_with_nul(), format!("{}\0", name));
    }
}

#[test]
fn builder_starts_empty() {
    let b = SimpleVideoEncoder::builder("out.mp4", 640, 480, 25);
    assert_eq!(b.filename(), "out.mp4");
    assert_eq!(b.width(), 640);
    assert_eq!(b.height(), 480);
    assert_eq!(b.framerate(), 25);
    assert_eq!(b.settings(), OptionalSettings::default());
}

#[test]
fn builder_setters() {
    let b = SimpleVideoEncoder::builder("out.mkv", 64, 48, 30)
        .crf(23)
        .preset(X264Preset::Slow)
        .bitrate(2_000_000)
        .set_gop_size(50);
    let s = b.settings();
    assert_eq!(s.crf, Some(23));
    assert_eq!(s.preset, Some(X264Preset::Slow));
    assert_eq!(s.bitrate, Some(2_000_000));
    assert_eq!(s.gop_size, Some(50));
    assert_eq!(b.filename(), "out.mkv");
    assert_eq!((b.width(), b.height(), b.framerate()), (64, 48, 30));
}

#[test]
fn later_setting_wins() {
    let b = SimpleVideoEncoder::builder("a.mp4", 8, 8, 30).crf(30).crf(18);
    assert_eq!(b.settings().crf, Some(18));
    assert_eq!(b.settings().bitrate, None);
}

#[test]
fn defaults_applied() {
    let c = resolve_config(&OptionalSettings::default(), 256, 128, 30, PixelFormat::Yuv420p, false);
    assert_eq!(c.bit_rate, 800_000);
    assert_eq!(DEFAULT_BIT_RATE, 800_000);
    assert_eq!(c.gop_size, 10);
    assert_eq!(DEFAULT_GOP_SIZE, 10);
    assert_eq!(c.preset, X264Preset::Medium);
    assert_eq!(c.crf, None);
    assert_eq!((c.width, c.height, c.time_base_den), (256, 128, 30));
    assert_eq!(c.pixel_format, PixelFormat::Yuv420p);
    assert!(!c.global_header);
}

#[test]
fn given_settings_kept() {
    let s = OptionalSettings { crf: Some(20), bitrate: Some(5), gop_size: Some(1), preset: Some(X264Preset::UltraFast) };
    let c = resolve_config(&s, 2, 2, 60, PixelFormat::Rgb24, true);
    assert_eq!(c.crf, Some(20));
    assert_eq!(c.bit_rate, 5);
    assert_eq!(c.gop_size, 1);
    assert_eq!(c.preset, X264Preset::UltraFast);
    assert_eq!(c.time_base_den, 60);
    assert!(c.global_header);
}

#[test]
fn encoder_options_preset_always_crf_when_set() {
    let c = resolve_config(&OptionalSettings::default(), 2, 2, 30, PixelFormat::Yuv420p, false);
    assert_eq!(c.options(), vec![EncoderOption::Preset(X264Preset::Medium)]);
    let s = OptionalSettings { crf: Some(18), bitrate: Some(9), gop_size: None, preset: Some(X264Preset::Fast) };
    let c = resolve_config(&s, 2, 2, 30, PixelFormat::Yuv420p, false);
    let opts = c.options();
    assert_eq!(opts, vec![EncoderOption::Preset(X264Preset::Fast), EncoderOption::Crf(18)]);
    assert_eq!(opts[0].key(), "preset");
    assert_eq!(opts[1].key(), "crf");
}
