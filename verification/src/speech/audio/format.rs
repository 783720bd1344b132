//! The description of an audio stream that a caller asks for and that a
//! capture backend settles on.

use vstd::prelude::*;
use crate::speech::audio_format::AudioFormat;
use crate::text::decimal;
use crate::text::push_decimal;

verus! {

/// The encoding, rate and channel count of a stream of raw samples.
///
/// Two descriptions are interchangeable only if every field matches.
#[derive(Clone, Copy, Debug, PartialEq, Eq, Structural)]
pub enum SoundSpec {
    PCM { format: AudioFormat, sample_rate_hz: u32, num_channels: u32 },
}

impl SoundSpec {
    /// The human-readable rendering, such as
    /// `Audio format [s16le, 24000 Hz, 1 channels]`.
    pub open spec fn text(&self) -> Seq<char> {
        match self {
            SoundSpec::PCM { format, sample_rate_hz, num_channels } => {
                "Audio format ["@ + format.name_text() + ", "@ + decimal(*sample_rate_hz as nat)
                    + " Hz, "@ + decimal(*num_channels as nat) + " channels"@ + "]"@
            },
        }
    }

    /// Renders the description for a human reader.
    pub fn to_string(&self) -> (res: String)
        ensures
            res@ == self.text(),
    {
        let mut out = String::from_str("Audio format [");
        match self {
            SoundSpec::PCM { format, sample_rate_hz, num_channels } => {
                out.append(format.name());
                out.append(", ");
                push_decimal(&mut out, *sample_rate_hz);
                out.append(" Hz, ");
                push_decimal(&mut out, *num_channels);
                out.append(" channels");
            },
        }
        out.append("]");
        out
    }
}

/// The sample encodings of raw PCM audio that a caller can ask a capture
/// backend for.
#[derive(Clone, Copy, Debug, PartialEq, Eq, Structural)]
pub enum PCMFormat {
    S16LE,
}

impl PCMFormat {
    /// The encoding as a device names it.
    pub open spec fn audio_format_of(&self) -> AudioFormat {
        match self {
            PCMFormat::S16LE => AudioFormat::S16LE,
        }
    }

    /// The encoding as a device names it.
    pub fn audio_format(&self) -> (res: AudioFormat)
        ensures
            res == self.audio_format_of(),
    {
        match self {
            PCMFormat::S16LE => AudioFormat::S16LE,
        }
    }

    /// The conventional lower-case name of the encoding.
    pub fn name(&self) -> (res: &'static str)
        ensures
            res@ == self.audio_format_of().name_text(),
    {
        match self {
            PCMFormat::S16LE => "s16le",
        }
    }
}

} // verus!
