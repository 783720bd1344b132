//! Capturing from the live device. The native audio server calls back on
//! its own thread; what each callback and each turn of the forwarding loop
//! decides is stated here, and the caller does what is decided.

use vstd::prelude::*;
use vstd::slice::slice_subrange;
use vstd::slice::slice_to_vec;
use crate::logger::Logger;
use crate::speech::audio::StopTrigger;
use crate::speech::audio::format::SoundSpec;
use crate::speech::audio::recorder::CaptureSource;
use crate::speech::audio::recorder::ListenResult;
use crate::speech::audio_format::AudioFormat;

verus! {

/// The name that the capture stream is registered under.
pub const STREAM_NAME: &'static str = "audio-capture";

/// The media type, category and role that the capture stream announces.
pub const MEDIA_TYPE: &'static str = "Audio";

pub const MEDIA_CATEGORY: &'static str = "Capture";

pub const MEDIA_ROLE: &'static str = "Music";

/// How long the forwarding loop sleeps when the relay holds no chunk.
pub const POLL_INTERVAL_MS: u64 = 1;

/// What is logged when the native runtime announces a buffer and has none.
pub const NO_BUFFER: &'static str = "No buffer";

/// What is logged when a chunk cannot be put on the relay.
pub const RELAY_FAILED: &'static str = "Failed to send audio data";

/// The format that the native stream is asked for. A field that is `None`
/// is left to the device.
#[derive(Clone, Copy, Debug, PartialEq, Eq, Structural)]
pub struct StreamRequest {
    pub format: Option<AudioFormat>,
    pub sample_rate_hz: Option<u32>,
    pub num_channels: Option<u32>,
}

/// The stream request for a caller's wish: the wish itself where there is
/// one, else the device's native format.
pub open spec fn stream_request_of(request_format: Option<SoundSpec>) -> StreamRequest {
    match request_format {
        Some(SoundSpec::PCM { format, sample_rate_hz, num_channels }) => StreamRequest {
            format: Some(format),
            sample_rate_hz: Some(sample_rate_hz),
            num_channels: Some(num_channels),
        },
        None => StreamRequest { format: None, sample_rate_hz: None, num_channels: None },
    }
}

/// The format to ask the native stream for.
pub fn stream_request(request_format: Option<SoundSpec>) -> (res: StreamRequest)
    ensures
        res == stream_request_of(request_format),
{
    match request_format {
        Some(SoundSpec::PCM { format, sample_rate_hz, num_channels }) => StreamRequest {
            format: Some(format),
            sample_rate_hz: Some(sample_rate_hz),
            num_channels: Some(num_channels),
        },
        None => StreamRequest { format: None, sample_rate_hz: None, num_channels: None },
    }
}

/// The raw audio format that a parameter of the native stream describes.
#[derive(Clone, Copy, Debug, PartialEq, Eq, Structural)]
pub struct RawAudioInfo {
    /// The sample encoding, or `None` for one that has no `AudioFormat`.
    pub format: Option<AudioFormat>,
    pub sample_rate_hz: u32,
    pub num_channels: u32,
}

/// What a changed parameter of the native stream holds, as far as the
/// capture reads it. The capture looks at `is_raw_audio` for the format
/// parameter only, and at `info` for raw audio only: what it does not look
/// at need not be read from the parameter.
#[derive(Clone, Copy, Debug, PartialEq, Eq, Structural)]
pub struct FormatParam {
    /// Whether the parameter is the stream's format.
    pub is_format: bool,
    /// Whether the parameter could be read as a media format, and describes
    /// raw audio.
    pub is_raw_audio: bool,
    /// The raw audio format, or `None` where it could not be read.
    pub info: Option<RawAudioInfo>,
}

/// Why a format that the device settled on cannot be used.
#[derive(Clone, Copy, Debug, PartialEq, Eq, Structural)]
pub enum NegotiationError {
    /// The parameter announces raw audio and cannot be read as such.
    Unreadable,
    /// The device's sample encoding is none that the capture knows.
    UnsupportedFormat,
}

/// The state of one capture from the live device.
#[derive(Clone, Copy, Debug, PartialEq, Eq, Structural)]
pub enum CaptureState {
    /// Nothing was asked of the audio server yet.
    Idle,
    /// The stream was asked for; its format is not settled yet.
    Connecting,
    /// The format is settled and chunks are forwarded.
    Streaming,
    /// The forwarding has ended.
    Stopped,
}

impl CaptureState {
    /// How far a capture in this state has come: 0 for `Idle`, up to 3 for
    /// `Stopped`.
    pub open spec fn order(&self) -> nat {
        match self {
            CaptureState::Idle => 0,
            CaptureState::Connecting => 1,
            CaptureState::Streaming => 2,
            CaptureState::Stopped => 3,
        }
    }
}

/// What one look at the relay found.
pub enum RelayPoll {
    /// A chunk that the process callback put there.
    Chunk(Vec<u8>),
    /// Nothing yet.
    Empty,
    /// The sending side is gone.
    Disconnected,
}

/// What the forwarding loop does next.
pub enum ForwardAction {
    /// Hand the chunk to the caller's channel and report whether it was taken.
    Forward(Vec<u8>),
    /// Sleep for `POLL_INTERVAL_MS` and look again.
    Wait,
    /// Leave the loop.
    Exit,
}

/// How far a capture has come, with the format that was settled on from
/// the moment there is one.
enum Progress {
    Idle,
    Connecting,
    Streaming(SoundSpec),
    Stopped(SoundSpec),
}

/// One capture from the live device: `Idle`, then `Connecting`, then
/// `Streaming`, then `Stopped`, never backwards.
pub struct LiveCapture {
    progress: Progress,
}

/// What a changed parameter means for a capture in state `state`: the
/// format to publish, nothing, or the reason why the device's format
/// cannot be used.
///
/// Only the format parameter of raw audio counts, and only while the
/// capture waits for it: a format that changes later is not negotiated
/// again.
pub open spec fn negotiation_of(state: CaptureState, param: Option<FormatParam>) -> Result<
    Option<SoundSpec>,
    NegotiationError,
> {
    match param {
        None => Ok(None),
        Some(p) => if !p.is_format || !p.is_raw_audio || state != CaptureState::Connecting {
            Ok(None)
        } else {
            match p.info {
                None => Err(NegotiationError::Unreadable),
                Some(info) => match info.format {
                    None => Err(NegotiationError::UnsupportedFormat),
                    Some(format) => Ok(
                        Some(
                            SoundSpec::PCM {
                                format,
                                sample_rate_hz: info.sample_rate_hz,
                                num_channels: info.num_channels,
                            },
                        ),
                    ),
                },
            }
        },
    }
}

impl LiveCapture {
    pub closed spec fn state(&self) -> CaptureState {
        match self.progress {
            Progress::Idle => CaptureState::Idle,
            Progress::Connecting => CaptureState::Connecting,
            Progress::Streaming(_) => CaptureState::Streaming,
            Progress::Stopped(_) => CaptureState::Stopped,
        }
    }

    /// The format that the device settled on, once it has.
    pub closed spec fn negotiated(&self) -> Option<SoundSpec> {
        match self.progress {
            Progress::Idle | Progress::Connecting => None,
            Progress::Streaming(spec) | Progress::Stopped(spec) => Some(spec),
        }
    }

    /// The format is known from the moment the capture streams, and not
    /// before.
    pub proof fn lemma_format_known_once_streaming(&self)
        ensures
            self.negotiated() is Some <==> (self.state() == CaptureState::Streaming
                || self.state() == CaptureState::Stopped),
    {
    }

    /// A capture that has not begun.
    pub fn new() -> (res: Self)
        ensures
            res.state() == CaptureState::Idle,
            res.negotiated() is None,
    {
        Self { progress: Progress::Idle }
    }

    /// The current state.
    pub fn current_state(&self) -> (res: CaptureState)
        ensures
            res == self.state(),
    {
        match self.progress {
            Progress::Idle => CaptureState::Idle,
            Progress::Connecting => CaptureState::Connecting,
            Progress::Streaming(_) => CaptureState::Streaming,
            Progress::Stopped(_) => CaptureState::Stopped,
        }
    }

    /// The format that the device settled on, once it has.
    pub fn negotiated_format(&self) -> (res: Option<SoundSpec>)
        ensures
            res == self.negotiated(),
    {
        match self.progress {
            Progress::Idle | Progress::Connecting => None,
            Progress::Streaming(spec) | Progress::Stopped(spec) => Some(spec),
        }
    }

    /// Begins the capture: an idle capture starts to connect, and the
    /// result is the format to ask the native stream for. A capture that
    /// has begun already is left as it is, and there is nothing to ask.
    pub fn open(&mut self, request_format: Option<SoundSpec>) -> (res: Option<StreamRequest>)
        ensures
            old(self).state().order() <= final(self).state().order(),
            final(self).negotiated() == old(self).negotiated(),
            old(self).state() == CaptureState::Idle ==> final(self).state()
                == CaptureState::Connecting && res == Some(stream_request_of(request_format)),
            old(self).state() != CaptureState::Idle ==> final(self).state() == old(self).state()
                && res is None,
    {
        match self.progress {
            Progress::Idle => {
                self.progress = Progress::Connecting;
                Some(stream_request(request_format))
            },
            _ => None,
        }
    }

    /// The format-changed callback. The first format that the device
    /// settles on is published, and the capture streams from then on. What
    /// comes later changes nothing.
    pub fn on_param_changed(&mut self, param: Option<FormatParam>) -> (res: Result<
        Option<SoundSpec>,
        NegotiationError,
    >)
        ensures
            old(self).state().order() <= final(self).state().order(),
            res == negotiation_of(old(self).state(), param),
            match res {
                Ok(Some(spec)) => final(self).state() == CaptureState::Streaming
                    && final(self).negotiated() == Some(spec),
                _ => final(self).state() == old(self).state() && final(self).negotiated()
                    == old(self).negotiated(),
            },
    {
        let p = match param {
            None => {
                return Ok(None);
            },
            Some(p) => p,
        };
        if !p.is_format || !p.is_raw_audio {
            return Ok(None);
        }
        match self.progress {
            Progress::Connecting => {},
            _ => {
                return Ok(None);
            },
        }
        let info = match p.info {
            None => {
                return Err(NegotiationError::Unreadable);
            },
            Some(info) => info,
        };
        let format = match info.format {
            None => {
                return Err(NegotiationError::UnsupportedFormat);
            },
            Some(format) => format,
        };
        let spec = SoundSpec::PCM {
            format,
            sample_rate_hz: info.sample_rate_hz,
            num_channels: info.num_channels,
        };
        self.progress = Progress::Streaming(spec);
        Ok(Some(spec))
    }

    /// The head of the forwarding loop: whether to look at the relay once
    /// more, given whether the stop trigger was found raised. A capture that
    /// streams goes on while the trigger is not raised, and is stopped once
    /// it is. A capture that does not stream has nothing to forward, and
    /// stays as it is.
    pub fn go_on(&mut self, stopped: bool) -> (res: bool)
        ensures
            old(self).state().order() <= final(self).state().order(),
            final(self).negotiated() == old(self).negotiated(),
            res == (old(self).state() == CaptureState::Streaming && !stopped),
            final(self).state() == (if old(self).state() == CaptureState::Streaming && stopped {
                CaptureState::Stopped
            } else {
                old(self).state()
            }),
    {
        match self.progress {
            Progress::Streaming(spec) => {
                if stopped {
                    self.progress = Progress::Stopped(spec);
                    false
                } else {
                    true
                }
            },
            _ => false,
        }
    }

    /// What to do with what the relay held: a chunk is forwarded as it is,
    /// an empty relay is looked at again after a pause, and a relay without
    /// a sender ends the forwarding. A capture that does not stream
    /// forwards nothing.
    pub fn on_poll(&mut self, polled: RelayPoll) -> (res: ForwardAction)
        ensures
            old(self).state().order() <= final(self).state().order(),
            final(self).negotiated() == old(self).negotiated(),
            old(self).state() != CaptureState::Streaming ==> res is Exit && final(self).state()
                == old(self).state(),
            old(self).state() == CaptureState::Streaming ==> match polled {
                RelayPoll::Chunk(chunk) => res == ForwardAction::Forward(chunk)
                    && final(self).state() == CaptureState::Streaming,
                RelayPoll::Empty => res is Wait && final(self).state() == CaptureState::Streaming,
                RelayPoll::Disconnected => res is Exit && final(self).state()
                    == CaptureState::Stopped,
            },
    {
        match self.progress {
            Progress::Streaming(spec) => match polled {
                RelayPoll::Chunk(chunk) => ForwardAction::Forward(chunk),
                RelayPoll::Empty => ForwardAction::Wait,
                RelayPoll::Disconnected => {
                    self.progress = Progress::Stopped(spec);
                    ForwardAction::Exit
                },
            },
            _ => ForwardAction::Exit,
        }
    }

    /// Takes note of whether the caller's channel took the chunk: where it
    /// did not, the receiver is gone and the forwarding ends. The result
    /// says whether the loop goes on.
    pub fn on_delivery(&mut self, delivered: bool) -> (res: bool)
        ensures
            old(self).state().order() <= final(self).state().order(),
            final(self).negotiated() == old(self).negotiated(),
            res == (delivered && old(self).state() == CaptureState::Streaming),
            final(self).state() == (if old(self).state() == CaptureState::Streaming && !delivered {
                CaptureState::Stopped
            } else {
                old(self).state()
            }),
    {
        match self.progress {
            Progress::Streaming(spec) => {
                if !delivered {
                    self.progress = Progress::Stopped(spec);
                }
                delivered
            },
            _ => false,
        }
    }
}

/// The active region of a native buffer: `size` bytes of `data` from
/// `offset` on, where `data` holds them. A buffer without data holds no
/// bytes.
pub open spec fn active_region(data: Option<Seq<u8>>, offset: u32, size: u32) -> Option<Seq<u8>> {
    let bytes = match data {
        Some(bytes) => bytes,
        None => Seq::<u8>::empty(),
    };
    if offset + size <= bytes.len() {
        Some(bytes.subrange(offset as int, offset + size))
    } else {
        None
    }
}

/// The process callback, for one data block of the buffer that the native
/// runtime handed over: the chunk to put on the relay, or `None` for a
/// block whose active region lies outside its data. Such a block cannot be
/// delivered and is dropped.
pub fn relay_chunk(data: Option<&[u8]>, offset: u32, size: u32) -> (res: Option<Vec<u8>>)
    ensures
        match active_region(
            match data {
                Some(bytes) => Some(bytes@),
                None => None,
            },
            offset,
            size,
        ) {
            Some(region) => res matches Some(chunk) && chunk@ == region,
            None => res is None,
        },
{
    let end: u64 = offset as u64 + size as u64;
    match data {
        Some(bytes) => {
            if end <= bytes.len() as u64 {
                let region = slice_subrange(bytes, offset as usize, end as usize);
                Some(slice_to_vec(region))
            } else {
                None
            }
        },
        None => {
            if end == 0 {
                let chunk: Vec<u8> = Vec::new();
                assert(chunk@ =~= Seq::<u8>::empty().subrange(0, 0));
                Some(chunk)
            } else {
                None
            }
        },
    }
}

pub struct PipewireAudioRecorder {
    logger: Logger,
}

impl PipewireAudioRecorder {
    pub closed spec fn logger(&self) -> Logger {
        self.logger
    }

    pub fn new(logger: Logger) -> (res: Self)
        ensures
            res.logger() == logger,
    {
        Self { logger }
    }

    /// Begins a capture from the live device. The result holds the capture,
    /// which waits for the device's format, the format to ask the native
    /// stream for, and the trigger whose raising ends the forwarding: the
    /// forwarding loop polls it and hands what it finds to `go_on`.
    pub fn listen(&mut self, request_format: Option<SoundSpec>) -> (res: ListenResult)
        ensures
            final(self).logger() == old(self).logger(),
            res.0 matches CaptureSource::Live { capture, request } && capture.state()
                == CaptureState::Connecting && request == stream_request_of(request_format),
    {
        let trigger = StopTrigger::new();
        let mut capture = LiveCapture::new();
        let request = capture.open(request_format).unwrap();
        (CaptureSource::Live { capture, request }, trigger)
    }
}

} // verus!
