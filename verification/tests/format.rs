use jarvis_code::speech::audio::format::PCMFormat;
use jarvis_code::speech::audio::format::SoundSpec;
use jarvis_code::speech::audio_format::AudioFormat;
use jarvis_code::text::push_decimal;

fn pcm(format: AudioFormat, sample_rate_hz: u32, num_channels: u32) -> SoundSpec {
    SoundSpec::PCM {
        format,
        sample_rate_hz,
        num_channels,
    }
}

#[test]
fn sound_spec_renders_for_a_human_reader() {
    let spec = pcm(AudioFormat::S16LE, 24000, 1);
    assert_eq!(spec.to_string(), "Audio format [s16le, 24000 Hz, 1 channels]");
}

#[test]
fn sound_spec_renders_the_extremes() {
    assert_eq!(
        pcm(AudioFormat::F64BE, 0, u32::MAX).to_string(),
        "Audio format [f64be, 0 Hz, 4294967295 channels]"
    );
    assert_eq!(
        pcm(AudioFormat::S24_32LE, 44100, 2).to_string(),
        "Audio format [s24_32le, 44100 Hz, 2 channels]"
    );
}

#[test]
fn sound_specs_are_equal_only_if_every_field_matches() {
    let spec = pcm(AudioFormat::S16LE, 24000, 1);
    assert_eq!(spec, pcm(AudioFormat::S16LE, 24000, 1));
    assert_ne!(spec, pcm(AudioFormat::S16BE, 24000, 1));
    assert_ne!(spec, pcm(AudioFormat::S16LE, 48000, 1));
    assert_ne!(spec, pcm(AudioFormat::S16LE, 24000, 2));
}

#[test]
fn audio_formats_have_their_conventional_names() {
    let expected = [
        (AudioFormat::S16LE, "s16le"),
        (AudioFormat::S16BE, "s16be"),
        (AudioFormat::U16LE, "u16le"),
        (AudioFormat::U16BE, "u16be"),
        (AudioFormat::S24_32LE, "s24_32le"),
        (AudioFormat::S24_32BE, "s24_32be"),
        (AudioFormat::U24_32LE, "u24_32le"),
        (AudioFormat::U24_32BE, "u24_32be"),
        (AudioFormat::S32LE, "s32le"),
        (AudioFormat::S32BE, "s32be"),
        (AudioFormat::U32LE, "u32le"),
        (AudioFormat::U32BE, "u32be"),
        (AudioFormat::S24LE, "s24le"),
        (AudioFormat::S24BE, "s24be"),
        (AudioFormat::U24LE, "u24le"),
        (AudioFormat::U24BE, "u24be"),
        (AudioFormat::S20LE, "s20le"),
        (AudioFormat::S20BE, "s20be"),
        (AudioFormat::U20LE, "u20le"),
        (AudioFormat::U20BE, "u20be"),
        (AudioFormat::S18LE, "s18le"),
        (AudioFormat::S18BE, "s18be"),
        (AudioFormat::U18LE, "u18le"),
        (AudioFormat::U18BE, "u18be"),
        (AudioFormat::F32LE, "f32le"),
        (AudioFormat::F32BE, "f32be"),
        (AudioFormat::F64LE, "f64le"),
        (AudioFormat::F64BE, "f64be"),
    ];
    for (format, name) in expected {
        assert_eq!(format.name(), name);
    }
}

#[test]
fn pcm_format_names_the_device_encoding() {
    assert_eq!(PCMFormat::S16LE.audio_format(), AudioFormat::S16LE);
    assert_eq!(PCMFormat::S16LE.name(), "s16le");
}

#[test]
fn decimal_digits_are_appended() {
    let mut out = String::from("n=");
    push_decimal(&mut out, 0);
    assert_eq!(out, "n=0");
    push_decimal(&mut out, 7);
    push_decimal(&mut out, 10);
    push_decimal(&mut out, 4096);
    assert_eq!(out, "n=07104096");
    let mut big = String::new();
    push_decimal(&mut big, 4_294_967_295);
    assert_eq!(big, "4294967295");
}
