//! The capture backends and the one interface that they share.

pub mod file;
pub mod pipewire;

use vstd::prelude::*;
use crate::logger::Logger;
use crate::speech::audio::StopTrigger;
use crate::speech::audio::format::SoundSpec;
use crate::speech::audio::recorder::file::FileAudioRecorder;
use crate::speech::audio::recorder::file::BLOCK_SIZE;
use crate::speech::audio::recorder::pipewire::CaptureState;
use crate::speech::audio::recorder::pipewire::LiveCapture;
use crate::speech::audio::recorder::pipewire::PipewireAudioRecorder;
use crate::speech::audio::recorder::pipewire::StreamRequest;
use crate::speech::audio::recorder::pipewire::stream_request_of;

verus! {

/// Where the audio of a capture comes from, and what the caller needs to
/// bring it in.
pub enum CaptureSource {
    /// The live device: `request` is the format to ask the native stream
    /// for, and `capture` decides on what the stream calls back with.
    Live { capture: LiveCapture, request: StreamRequest },
    /// The file at `path`, read in blocks of `block_size` bytes. Its format
    /// is not known.
    Replay { path: String, block_size: usize },
}

/// What a backend hands back when it is asked to listen: the source of the
/// chunks, and the trigger that stops their production.
pub type ListenResult = (CaptureSource, StopTrigger);

pub struct AudioRecorder(AudioRecorderImpl);

pub enum AudioRecorderImpl {
    Pipewire(PipewireAudioRecorder),
    SampleFile(FileAudioRecorder),
}

/// What listening with a backend yields for the request `request_format`.
pub open spec fn listens_as(
    backend: AudioRecorderImpl,
    request_format: Option<SoundSpec>,
    source: CaptureSource,
) -> bool {
    match backend {
        AudioRecorderImpl::Pipewire(_) => {
            &&& source matches CaptureSource::Live { capture, request }
            &&& capture.state() == CaptureState::Connecting
            &&& request == stream_request_of(request_format)
        },
        AudioRecorderImpl::SampleFile(rec) => {
            &&& source matches CaptureSource::Replay { path, block_size }
            &&& path@ == rec.0@
            &&& block_size == BLOCK_SIZE
        },
    }
}

/// Whether two backends are the same choice: both capture from the live
/// device with the same logger, or both replay the same file.
pub open spec fn same_backend(a: AudioRecorderImpl, b: AudioRecorderImpl) -> bool {
    match (a, b) {
        (AudioRecorderImpl::Pipewire(x), AudioRecorderImpl::Pipewire(y)) => x.logger()
            == y.logger(),
        (AudioRecorderImpl::SampleFile(x), AudioRecorderImpl::SampleFile(y)) => x.0@ == y.0@,
        _ => false,
    }
}

impl AudioRecorder {
    /// The backend that was chosen when the recorder was made.
    pub closed spec fn backend(&self) -> AudioRecorderImpl {
        self.0
    }

    /// A recorder that replays the file at `from_file` where there is one,
    /// and captures from the live device where there is none.
    pub fn new(logger: Logger, from_file: Option<&str>) -> (res: Self)
        ensures
            match from_file {
                Some(path) => res.backend() matches AudioRecorderImpl::SampleFile(rec) && rec.0@
                    == path@,
                None => res.backend() matches AudioRecorderImpl::Pipewire(rec) && rec.logger()
                    == logger,
            },
    {
        match from_file {
            Some(path) => Self(
                AudioRecorderImpl::SampleFile(FileAudioRecorder(String::from_str(path))),
            ),
            None => Self(AudioRecorderImpl::Pipewire(PipewireAudioRecorder::new(logger))),
        }
    }

    /// Whether the recorder replays a file.
    pub fn replays_file(&self) -> (res: bool)
        ensures
            res == (self.backend() is SampleFile),
    {
        match &self.0 {
            AudioRecorderImpl::SampleFile(_) => true,
            AudioRecorderImpl::Pipewire(_) => false,
        }
    }

    /// Asks the backend to listen. The backend stays the one that was chosen.
    pub fn listen(&mut self, request_format: Option<SoundSpec>) -> (res: ListenResult)
        ensures
            listens_as(old(self).backend(), request_format, res.0),
            same_backend(old(self).backend(), final(self).backend()),
    {
        self.0.listen(request_format)
    }
}

impl AudioRecorderImpl {
    pub fn listen(&mut self, request_format: Option<SoundSpec>) -> (res: ListenResult)
        ensures
            listens_as(*old(self), request_format, res.0),
            same_backend(*old(self), *final(self)),
    {
        match self {
            Self::Pipewire(rec) => rec.listen(request_format),
            Self::SampleFile(rec) => rec.listen(request_format),
        }
    }
}

} // verus!
