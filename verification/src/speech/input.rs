//! A [`SpeechListener`] is able to listen to spoken words and transcribe them
//! to written text.
//! This module contains a [`SpeechListener`] struct which abstracts over the
//! different possible implementations.

pub mod openai;

use vstd::prelude::*;
use crate::config::Config;
use crate::speech::audio::StopTrigger;
use crate::speech::audio::format::SoundSpec;
use crate::speech::audio::recorder::AudioRecorder;
use crate::speech::audio::recorder::ListenResult;
use crate::speech::audio::recorder::listens_as;
use crate::speech::input::openai::ConnectRequest;
use crate::speech::input::openai::SpeechListener as OpenAISpeechListener;
use crate::speech::input::openai::desired_format_of;
use crate::speech::audio::recorder::same_backend;
use crate::speech::input::openai::is_opening;
use crate::speech::input::openai::session::SessionError;
use crate::speech::input::openai::session::TranscriptionSession;
use crate::speech::input::openai::wire::TranscriptionSessionUpdate;

verus! {

/// The result of one capture session: no speech was recognised, or the
/// text that was.
#[derive(Debug)]
pub enum Transcription {
    Empty,
    Text { text: String },
}

impl View for Transcription {
    type V = Option<Seq<char>>;

    open spec fn view(&self) -> Option<Seq<char>> {
        match self {
            Transcription::Empty => None,
            Transcription::Text { text } => Some(text@),
        }
    }
}

impl Transcription {
    /// What the user said: the recognised text, or the empty text where
    /// nothing was recognised.
    pub fn into_text(self) -> (res: String)
        ensures
            res@ == (match self@ {
                Some(text) => text,
                None => Seq::<char>::empty(),
            }),
    {
        match self {
            Transcription::Empty => String::new(),
            Transcription::Text { text } => text,
        }
    }

    /// The speech that was recognised, if any was.
    pub fn recognized(self) -> (res: Option<RecognizedSpeech>)
        ensures
            match self@ {
                Some(text) => res matches Some(speech) && speech.text@ == text,
                None => res is None,
            },
    {
        match self {
            Transcription::Empty => None,
            Transcription::Text { text } => Some(RecognizedSpeech { text }),
        }
    }
}

#[derive(Clone)]
pub struct RecognizedSpeech {
    pub text: String,
}

pub struct SpeechListener(SpeechListenerImpl);

pub enum SpeechListenerImpl {
    OpenAI(OpenAISpeechListener),
}

impl SpeechListenerImpl {
    /// The recorder that the listener captures with.
    pub open spec fn audio_recorder(&self) -> AudioRecorder {
        match self {
            SpeechListenerImpl::OpenAI(l) => l.audio_recorder(),
        }
    }

    /// The format that the listener asks the recorder for.
    pub open spec fn desired_format(&self) -> SoundSpec {
        match self {
            SpeechListenerImpl::OpenAI(_) => desired_format_of(),
        }
    }

    /// Whether `res` is what opening a session with this listener gives for
    /// a capture that settled on the format `negotiated`.
    pub open spec fn opens(
        &self,
        negotiated: Option<SoundSpec>,
        res: Result<(ConnectRequest, TranscriptionSession), SessionError>,
    ) -> bool {
        match self {
            SpeechListenerImpl::OpenAI(l) => is_opening(l.api_key(), negotiated, res),
        }
    }

    /// Whether `after` is this listener, as it was made.
    pub open spec fn same_as(&self, after: SpeechListenerImpl) -> bool {
        match (self, after) {
            (SpeechListenerImpl::OpenAI(l), SpeechListenerImpl::OpenAI(m)) => l.api_key()
                == m.api_key() && same_backend(
                l.audio_recorder().backend(),
                m.audio_recorder().backend(),
            ),
        }
    }

    pub fn listen_to_input(&mut self) -> (res: ListenResult)
        ensures
            listens_as(old(self).audio_recorder().backend(), Some(old(self).desired_format()), res.0),
            old(self).same_as(*final(self)),
    {
        match self {
            SpeechListenerImpl::OpenAI(l) => l.listen_to_input(),
        }
    }

    pub fn open_session(&self, negotiated: Option<SoundSpec>, stop: StopTrigger) -> (res: Result<
        (ConnectRequest, TranscriptionSession),
        SessionError,
    >)
        ensures
            self.opens(negotiated, res),
            res matches Ok((_, session)) ==> session.stop_trigger() == Some(stop),
    {
        match self {
            SpeechListenerImpl::OpenAI(l) => l.open_session(negotiated, stop),
        }
    }
}

impl SpeechListener {
    /// The implementation that was chosen when the listener was made.
    pub closed spec fn implementation(&self) -> SpeechListenerImpl {
        self.0
    }

    #[must_use]
    pub fn new(config: &Config, audio_recorder: AudioRecorder) -> (res: Self)
        ensures
            res.implementation() matches SpeechListenerImpl::OpenAI(l) && l.api_key()
                == config.openai_key@ && l.audio_recorder() == audio_recorder,
    {
        // If more speech listener backends are to be implemented, use the
        // config to decide which one to use at runtime.
        Self(SpeechListenerImpl::OpenAI(OpenAISpeechListener::new(config, audio_recorder)))
    }

    /// Begins to listen: asks the recorder for audio in the format that the
    /// listener needs. The listener stays as it was made.
    pub fn listen_to_input(&mut self) -> (res: ListenResult)
        ensures
            listens_as(
                old(self).implementation().audio_recorder().backend(),
                Some(old(self).implementation().desired_format()),
                res.0,
            ),
            old(self).implementation().same_as(final(self).implementation()),
    {
        self.0.listen_to_input()
    }

    /// The session update that the listener configures its session with.
    pub fn session_update(&self) -> (res: TranscriptionSessionUpdate)
        ensures
            match self.implementation() {
                SpeechListenerImpl::OpenAI(_) => OpenAISpeechListener::is_session_update(res),
            },
    {
        match &self.0 {
            SpeechListenerImpl::OpenAI(_) => OpenAISpeechListener::session_update(),
        }
    }

    /// Opens the session for a capture that settled on the format
    /// `negotiated`. A device that records in another format than the one
    /// asked for gets no session, and so nothing to stream audio with.
    pub fn open_session(&self, negotiated: Option<SoundSpec>, stop: StopTrigger) -> (res: Result<
        (ConnectRequest, TranscriptionSession),
        SessionError,
    >)
        ensures
            self.implementation().opens(negotiated, res),
            res matches Ok((_, session)) ==> session.stop_trigger() == Some(stop),
    {
        self.0.open_session(negotiated, stop)
    }
}

} // verus!
