//! The parts of the program, put together from its configuration.

use vstd::prelude::*;
use crate::config::Config;
use crate::logger::Level;
use crate::logger::Logger;
use crate::speech::audio::recorder::AudioRecorder;
use crate::speech::audio::recorder::AudioRecorderImpl;
use crate::speech::input::SpeechListener;
use crate::speech::input::SpeechListenerImpl;

verus! {

pub struct AppComposite {
    pub speech_listener: SpeechListener,
    pub logger: Logger,
}

impl AppComposite {
    /// Whether the listener of these parts captures as the configuration
    /// asks: it replays the recording where one is configured, captures
    /// from the live device where none is, and holds the configured API
    /// key.
    pub open spec fn follows(&self, config: &Config) -> bool {
        &&& self.logger.verbosity() == Level::Debug
        &&& self.speech_listener.implementation() matches SpeechListenerImpl::OpenAI(listener)
        &&& listener.api_key() == config.openai_key@
        &&& match config.recording_file {
            Some(path) => listener.audio_recorder().backend() matches AudioRecorderImpl::SampleFile(
                rec,
            ) && rec.0@ == path@,
            None => listener.audio_recorder().backend() matches AudioRecorderImpl::Pipewire(rec)
                && rec.logger() == self.logger,
        }
    }

    pub fn new(config: &Config) -> (res: Self)
        ensures
            res.follows(config),
    {
        let logger = Logger::new();

        let audio_recorder = match &config.recording_file {
            Some(f) => AudioRecorder::new(logger, Some(f.as_str())),
            None => AudioRecorder::new(logger, None),
        };

        Self { speech_listener: SpeechListener::new(config, audio_recorder), logger }
    }
}

} // verus!
