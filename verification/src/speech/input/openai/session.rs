//! The transcription session: what each frame from the service means for
//! the running result, when the session ends, and with what.

use vstd::prelude::*;
use crate::speech::audio::StopTrigger;
use crate::speech::input::Transcription;
use crate::speech::input::openai::decode::decode_text;
use crate::speech::input::openai::decode::is_decoded_text;
use crate::speech::input::openai::events::EventKind;
use crate::speech::input::openai::events::TranscriptionMessage;
use crate::text::contains_text;
use crate::text::lemma_suffix_is_contained;

verus! {

/// The ways in which a session fails.
#[derive(Clone, Copy, Debug, PartialEq, Eq, Structural)]
pub enum SessionErrorKind {
    /// The device records in another format than the one asked for.
    FormatMismatch,
    /// The API key cannot be sent in a header.
    InvalidApiKey,
    /// The stream ended while an event was waited for.
    StreamClosed,
    /// The transport failed while an event was waited for.
    ReceiveFailed,
    /// A frame that holds no text came where an event was waited for.
    NotText,
    /// A text frame is no event that is known.
    MalformedFrame,
    /// The service answered the handshake with an error.
    Handshake,
    /// Another event came than the one waited for.
    UnexpectedEvent,
    /// The transport failed while events were streamed.
    Transport,
    /// The service reported an error while events were streamed.
    Api,
    /// Audio could not be sent.
    Send,
    /// The inbound activity did not run to its end.
    Interrupted,
}

/// A failure of the session, with the message for a human reader.
#[derive(Debug)]
pub struct SessionError {
    pub kind: SessionErrorKind,
    pub message: String,
}

/// A failure of the session, as contracts speak of it.
pub struct SessionErrorModel {
    pub kind: SessionErrorKind,
    pub message: Seq<char>,
}

impl View for SessionError {
    type V = SessionErrorModel;

    open spec fn view(&self) -> SessionErrorModel {
        SessionErrorModel { kind: self.kind, message: self.message@ }
    }
}

/// What the socket produced when it was read once.
#[derive(Debug)]
pub enum InboundFrame {
    /// A text frame; `event` is the event that the text decodes to, or
    /// `None` where it decodes to none.
    Text { text: String, event: Option<TranscriptionMessage> },
    /// A frame that holds no text; `shown` is how the frame prints.
    Other { shown: String },
    /// The transport failed to deliver a frame.
    Failed,
}

impl InboundFrame {
    /// The frame for a text that the socket produced: the text itself,
    /// with the event that it decodes to.
    pub fn text(text: String) -> (res: InboundFrame)
        ensures
            res matches InboundFrame::Text { text: held, event } && held@ == text@
                && is_decoded_text(text@, event),
    {
        let event = decode_text(text.as_str());
        InboundFrame::Text { text, event }
    }
}

/// What is logged for a frame: a text frame with its text, and a frame
/// without text as one that is passed over. For a transport that failed
/// there is no frame to log.
pub open spec fn frame_log_text(frame: InboundFrame) -> Option<Seq<char>> {
    match frame {
        InboundFrame::Text { text, .. } => Some("Received message "@ + text@),
        InboundFrame::Other { shown } => Some("Ignoring a message without text: "@ + shown@),
        InboundFrame::Failed => None,
    }
}

impl InboundFrame {
    /// The line to log for the frame, if there is one.
    pub fn log_line(&self) -> (res: Option<String>)
        ensures
            match frame_log_text(*self) {
                Some(line) => res matches Some(l) && l@ == line,
                None => res is None,
            },
    {
        match self {
            InboundFrame::Text { text, .. } => {
                let mut line = String::from_str("Received message ");
                line.append(text.as_str());
                Some(line)
            },
            InboundFrame::Other { shown } => {
                let mut line = String::from_str("Ignoring a message without text: ");
                line.append(shown.as_str());
                Some(line)
            },
            InboundFrame::Failed => None,
        }
    }
}

/// The message of the error that the service reports while it transcribes.
pub open spec fn api_error_text(message: Seq<char>) -> Seq<char> {
    "Transcription failed with an error from the API: "@ + message
}

/// The message for a text frame that is no known event, with the text of
/// the frame.
pub open spec fn malformed_text(text: Seq<char>) -> Seq<char> {
    "Failed to serialize message "@ + text
}

/// The message for a transport that fails while events are streamed.
pub open spec fn transport_text() -> Seq<char> {
    "Failed to consume websocket stream"@
}

/// The message for a stream that ends while the event `name` is waited
/// for.
pub open spec fn stream_closed_text(name: Seq<char>) -> Seq<char> {
    "Stream closed while waiting for "@ + name + " event"@
}

/// The message for a transport that fails while the event `name` is
/// waited for.
pub open spec fn receive_failed_text(name: Seq<char>) -> Seq<char> {
    "Failed to receive "@ + name + " event"@
}

/// The message for a frame without text, which prints as `shown`, where
/// an event is waited for.
pub open spec fn not_text_text(shown: Seq<char>) -> Seq<char> {
    "Message '"@ + shown
        + "' from the OpenAI transcription API does not appear to contain valid text data"@
}

/// The message for a text that is no known event, where an event is
/// waited for.
pub open spec fn unparsed_text(json: Seq<char>) -> Seq<char> {
    "Failed to parse transcription message "@ + json
}

/// The message for an error that the service reports where an event is
/// waited for: the type and the message of the error.
pub open spec fn handshake_error_text(kind: Seq<char>, message: Seq<char>) -> Seq<char> {
    "The OpenAI transcription API responded with an error: "@ + kind + ": "@ + message
}

/// The message for the event with the text `json` that comes where the
/// event `name` is waited for.
pub open spec fn unexpected_text(name: Seq<char>, json: Seq<char>) -> Seq<char> {
    "Expected "@ + name + " message from transcription API, but got "@ + json
}

/// The message for an inbound activity that did not run to its end.
pub open spec fn interrupted_text() -> Seq<char> {
    "Failed to run transcription"@
}

/// The message for audio that could not be sent, with the cause of the
/// first send that failed where there is one.
pub open spec fn send_failed_text(cause: Option<Seq<char>>) -> Seq<char> {
    match cause {
        Some(cause) => "Failed to send audio data: "@ + cause,
        None => "Failed to send audio data"@,
    }
}

/// A shorthand for the model of an error.
pub open spec fn failure(kind: SessionErrorKind, message: Seq<char>) -> SessionErrorModel {
    SessionErrorModel { kind, message }
}

/// What one event does to the running result: an error of the service
/// ends the session with its message, a completed transcription replaces
/// the result, and every other event leaves it as it is.
pub open spec fn fold_step_of(acc: Option<Seq<char>>, event: TranscriptionMessage) -> Result<
    Option<Seq<char>>,
    SessionErrorModel,
> {
    match event {
        TranscriptionMessage::Error(err) => Err(
            failure(SessionErrorKind::Api, api_error_text(err.error.message@)),
        ),
        TranscriptionMessage::TranscriptionCompleted(done) => Ok(Some(done.transcript@)),
        _ => Ok(acc),
    }
}

/// What one frame does to the running result while events are streamed:
/// a frame without text is passed over, a failed transport and a text that
/// is no event end the session, and an event does what `fold_step_of`
/// says.
pub open spec fn frame_effect(acc: Option<Seq<char>>, frame: InboundFrame) -> Result<
    Option<Seq<char>>,
    SessionErrorModel,
> {
    match frame {
        InboundFrame::Failed => Err(failure(SessionErrorKind::Transport, transport_text())),
        InboundFrame::Other { .. } => Ok(acc),
        InboundFrame::Text { text, event: None } => Err(
            failure(SessionErrorKind::MalformedFrame, malformed_text(text@)),
        ),
        InboundFrame::Text { event: Some(event), .. } => fold_step_of(acc, event),
    }
}

/// The result of a stream that delivers `frames` and then closes, from the
/// running result `acc` on: the frames are taken in order, and the first
/// one that ends the session decides.
pub open spec fn stream_result(acc: Option<Seq<char>>, frames: Seq<InboundFrame>) -> Result<
    Option<Seq<char>>,
    SessionErrorModel,
>
    decreases frames.len(),
{
    if frames.len() == 0 {
        Ok(acc)
    } else {
        match frame_effect(acc, frames[0]) {
            Ok(next) => stream_result(next, frames.drop_first()),
            Err(e) => Err(e),
        }
    }
}

/// What waiting for an event of kind `expected` makes of what the socket
/// produced, where `None` stands for a stream that has closed.
pub open spec fn expectation_of(frame: Option<InboundFrame>, expected: EventKind) -> Result<
    (),
    SessionErrorModel,
> {
    let name = expected.tag_text();
    match frame {
        None => Err(failure(SessionErrorKind::StreamClosed, stream_closed_text(name))),
        Some(InboundFrame::Failed) => Err(
            failure(SessionErrorKind::ReceiveFailed, receive_failed_text(name)),
        ),
        Some(InboundFrame::Other { shown }) => Err(
            failure(SessionErrorKind::NotText, not_text_text(shown@)),
        ),
        Some(InboundFrame::Text { text, event: None }) => Err(
            failure(SessionErrorKind::MalformedFrame, unparsed_text(text@)),
        ),
        Some(InboundFrame::Text { text, event: Some(event) }) => match event {
            TranscriptionMessage::Error(err) => Err(
                failure(
                    SessionErrorKind::Handshake,
                    handshake_error_text(err.error.type_@, err.error.message@),
                ),
            ),
            _ => if event.kind_of() == expected {
                Ok(())
            } else {
                Err(failure(SessionErrorKind::UnexpectedEvent, unexpected_text(name, text@)))
            },
        },
    }
}

fn fail(kind: SessionErrorKind, message: String) -> (res: SessionError)
    ensures
        res@ == failure(kind, message@),
{
    SessionError { kind, message }
}

fn fail_about(kind: SessionErrorKind, before: &str, subject: &str) -> (res: SessionError)
    ensures
        res@ == failure(kind, before@ + subject@),
{
    let mut message = String::from_str(before);
    message.append(subject);
    SessionError { kind, message }
}

fn fail_with(kind: SessionErrorKind, before: &str, middle: &str, after: &str) -> (res: SessionError)
    ensures
        res@ == failure(kind, before@ + middle@ + after@),
{
    let mut message = String::from_str(before);
    message.append(middle);
    message.append(after);
    SessionError { kind, message }
}

/// Folds one event into the running result.
pub fn fold_step(acc: Transcription, event: &TranscriptionMessage) -> (res: Result<
    Transcription,
    SessionError,
>)
    ensures
        match fold_step_of(acc@, *event) {
            Ok(next) => res matches Ok(t) && t@ == next,
            Err(e) => res matches Err(err) && err@ == e,
        },
{
    match event {
        TranscriptionMessage::Error(err) => Err(
            fail_about(
                SessionErrorKind::Api,
                "Transcription failed with an error from the API: ",
                err.error.message.as_str(),
            ),
        ),
        TranscriptionMessage::TranscriptionCompleted(transcription) => Ok(
            Transcription::Text { text: transcription.transcript.clone() },
        ),
        _ => Ok(acc),
    }
}

/// Waits for an event of kind `expected`: makes of what the socket
/// produced either the go-ahead or the failure of the handshake. `None`
/// stands for a stream that has closed.
pub fn expect_event(frame: Option<&InboundFrame>, expected: EventKind) -> (res: Result<
    (),
    SessionError,
>)
    ensures
        match expectation_of(
            match frame {
                Some(f) => Some(*f),
                None => None,
            },
            expected,
        ) {
            Ok(()) => res is Ok,
            Err(e) => res matches Err(err) && err@ == e,
        },
{
    let name = expected.tag();
    let frame = match frame {
        None => {
            return Err(
                fail_with(
                    SessionErrorKind::StreamClosed,
                    "Stream closed while waiting for ",
                    name,
                    " event",
                ),
            );
        },
        Some(frame) => frame,
    };
    match frame {
        InboundFrame::Failed => Err(
            fail_with(SessionErrorKind::ReceiveFailed, "Failed to receive ", name, " event"),
        ),
        InboundFrame::Other { shown } => Err(
            fail_with(
                SessionErrorKind::NotText,
                "Message '",
                shown.as_str(),
                "' from the OpenAI transcription API does not appear to contain valid text data",
            ),
        ),
        InboundFrame::Text { text, event: None } => Err(
            fail_about(
                SessionErrorKind::MalformedFrame,
                "Failed to parse transcription message ",
                text.as_str(),
            ),
        ),
        InboundFrame::Text { text, event: Some(event) } => {
            if let TranscriptionMessage::Error(err) = event {
                let mut message = String::from_str(
                    "The OpenAI transcription API responded with an error: ",
                );
                message.append(err.error.type_.as_str());
                message.append(": ");
                message.append(err.error.message.as_str());
                return Err(fail(SessionErrorKind::Handshake, message));
            }
            if event.kind() == expected {
                Ok(())
            } else {
                let mut message = String::from_str("Expected ");
                message.append(name);
                message.append(" message from transcription API, but got ");
                message.append(text.as_str());
                Err(fail(SessionErrorKind::UnexpectedEvent, message))
            }
        },
    }
}

/// Performs the handshake on what the socket produced, where `None`
/// stands for a stream that has closed.
pub fn handshake(frame: Option<&InboundFrame>) -> (res: Result<(), SessionError>)
    ensures
        match handshake_of(frame_of(frame)) {
            Ok(()) => res is Ok,
            Err(e) => res matches Err(err) && err@ == e,
        },
{
    let acknowledged = match frame {
        Some(InboundFrame::Text { event: Some(event), .. }) => match event.kind() {
            EventKind::SessionCreated | EventKind::SessionUpdated => true,
            _ => false,
        },
        _ => false,
    };
    if acknowledged {
        Ok(())
    } else {
        expect_event(frame, EventKind::SessionUpdated)
    }
}

/// Folds one frame into the running result while events are streamed.
pub fn fold_frame(acc: Transcription, frame: &InboundFrame) -> (res: Result<
    Transcription,
    SessionError,
>)
    ensures
        match frame_effect(acc@, *frame) {
            Ok(next) => res matches Ok(t) && t@ == next,
            Err(e) => res matches Err(err) && err@ == e,
        },
{
    match frame {
        InboundFrame::Failed => Err(
            fail(SessionErrorKind::Transport, String::from_str("Failed to consume websocket stream")),
        ),
        InboundFrame::Other { .. } => Ok(acc),
        InboundFrame::Text { text, event: None } => Err(
            fail_about(
                SessionErrorKind::MalformedFrame,
                "Failed to serialize message ",
                text.as_str(),
            ),
        ),
        InboundFrame::Text { event: Some(event), .. } => fold_step(acc, event),
    }
}

/// Where a session stands.
#[derive(Clone, Copy, Debug, PartialEq, Eq, Structural)]
pub enum SessionState {
    /// The session update was sent; the acknowledgement of the session is
    /// waited for.
    Configuring,
    /// Events are folded into the running result.
    Streaming,
    /// The session has ended and its result was handed out.
    Finished,
}

/// What the caller does after it has handed a frame to the session.
#[derive(Debug)]
pub enum SessionAction {
    /// Read the next frame.
    Receive,
    /// The session is over: raise `stop`, the trigger that the session was
    /// made with, so that the capture side stops producing; `result` is
    /// what the session ends with.
    Finish { result: Result<Transcription, SessionError>, stop: StopTrigger },
    /// The session was over before; there is nothing to do.
    Done,
}

/// An action, as contracts speak of it. The trigger that comes with the
/// end of a session is stated beside it, by `stop_trigger`.
pub enum ActionModel {
    Receive,
    Finish(Result<Option<Seq<char>>, SessionErrorModel>),
    Done,
}

impl View for SessionAction {
    type V = ActionModel;

    open spec fn view(&self) -> ActionModel {
        match self {
            SessionAction::Receive => ActionModel::Receive,
            SessionAction::Finish { result: Ok(t), .. } => ActionModel::Finish(Ok(t@)),
            SessionAction::Finish { result: Err(e), .. } => ActionModel::Finish(Err(e@)),
            SessionAction::Done => ActionModel::Done,
        }
    }
}

/// A session, as contracts speak of it: where it stands, and the result
/// that it has come to so far.
pub struct SessionModel {
    pub state: SessionState,
    pub running: Option<Seq<char>>,
}

/// The session after its end.
pub open spec fn finished() -> SessionModel {
    SessionModel { state: SessionState::Finished, running: None }
}

/// Whether a frame acknowledges the session: the service announces the
/// session as created or as updated.
pub open spec fn is_acknowledgement(frame: InboundFrame) -> bool {
    frame matches InboundFrame::Text { event: Some(event), .. } && (event.kind_of()
        == EventKind::SessionCreated || event.kind_of() == EventKind::SessionUpdated)
}

/// What the handshake makes of what the socket produced, where `None`
/// stands for a stream that has closed: an acknowledgement of the session
/// is the go-ahead, and anything else fails as it does where the update of
/// the session is waited for.
pub open spec fn handshake_of(frame: Option<InboundFrame>) -> Result<(), SessionErrorModel> {
    if frame matches Some(f) && is_acknowledgement(f) {
        Ok(())
    } else {
        expectation_of(frame, EventKind::SessionUpdated)
    }
}

/// The session and the action after one frame, where `None` stands for a
/// stream that has closed.
///
/// While the session is configured, the frame must acknowledge the
/// session: anything else ends the session with a failure. While
/// events are streamed, each frame is folded into the running result; the
/// session ends with that result when the stream closes, and with a
/// failure at the first frame that is fatal.
pub open spec fn next(m: SessionModel, frame: Option<InboundFrame>) -> (SessionModel, ActionModel) {
    match m.state {
        SessionState::Configuring => match handshake_of(frame) {
            Ok(()) => (
                SessionModel { state: SessionState::Streaming, running: m.running },
                ActionModel::Receive,
            ),
            Err(e) => (finished(), ActionModel::Finish(Err(e))),
        },
        SessionState::Streaming => match frame {
            None => (finished(), ActionModel::Finish(Ok(m.running))),
            Some(f) => match frame_effect(m.running, f) {
                Ok(running) => (
                    SessionModel { state: SessionState::Streaming, running },
                    ActionModel::Receive,
                ),
                Err(e) => (finished(), ActionModel::Finish(Err(e))),
            },
        },
        SessionState::Finished => (m, ActionModel::Done),
    }
}

/// The session and the action after the stream has delivered `frames` and
/// closed: the frames are handed over in order for as long as the session
/// asks for more.
pub open spec fn run_of(m: SessionModel, frames: Seq<InboundFrame>) -> (SessionModel, ActionModel)
    decreases frames.len(),
{
    if frames.len() == 0 {
        next(m, None)
    } else {
        let (after, action) = next(m, Some(frames[0]));
        if action is Receive {
            run_of(after, frames.drop_first())
        } else {
            (after, action)
        }
    }
}

/// One session with the transcription service, from the moment the
/// session update was sent.
pub struct TranscriptionSession {
    progress: Progress,
}

/// How far a session has come, with its trigger for as long as it has not
/// ended, and with the result that it has come to while it streams.
enum Progress {
    Configuring(StopTrigger),
    Streaming(StopTrigger, Transcription),
    Finished,
}

impl View for TranscriptionSession {
    type V = SessionModel;

    closed spec fn view(&self) -> SessionModel {
        match self.progress {
            Progress::Configuring(_) => SessionModel {
                state: SessionState::Configuring,
                running: None,
            },
            Progress::Streaming(_, running) => SessionModel {
                state: SessionState::Streaming,
                running: running@,
            },
            Progress::Finished => finished(),
        }
    }
}

/// The frame behind a reference that may be absent.
pub open spec fn frame_of(frame: Option<&InboundFrame>) -> Option<InboundFrame> {
    match frame {
        Some(f) => Some(*f),
        None => None,
    }
}

impl TranscriptionSession {
    /// The trigger that the session hands out when it ends: the one that it
    /// was made with, until it has handed it out.
    pub closed spec fn stop_trigger(&self) -> Option<StopTrigger> {
        match self.progress {
            Progress::Configuring(stop) => Some(stop),
            Progress::Streaming(stop, _) => Some(stop),
            Progress::Finished => None,
        }
    }

    /// A session holds its trigger exactly until it has ended.
    pub proof fn lemma_trigger_is_held_until_the_end(&self)
        ensures
            self.stop_trigger() is Some <==> self@.state != SessionState::Finished,
    {
    }

    /// A session that waits for its acknowledgement. `stop` is the trigger
    /// of the capture that feeds the session: the session hands it out when
    /// it ends, to be raised.
    pub fn new(stop: StopTrigger) -> (res: Self)
        ensures
            res@ == (SessionModel { state: SessionState::Configuring, running: None }),
            res.stop_trigger() == Some(stop),
    {
        Self { progress: Progress::Configuring(stop) }
    }

    /// Where the session stands.
    pub fn state(&self) -> (res: SessionState)
        ensures
            res == self@.state,
    {
        match self.progress {
            Progress::Configuring(_) => SessionState::Configuring,
            Progress::Streaming(_, _) => SessionState::Streaming,
            Progress::Finished => SessionState::Finished,
        }
    }

    /// Whether `action` comes with the trigger as it should, for a session
    /// that held `before` and holds `after`: the end of the session hands
    /// out the trigger that the session held, and every other action leaves
    /// it with the session.
    pub open spec fn hands_out(
        before: Option<StopTrigger>,
        after: Option<StopTrigger>,
        action: SessionAction,
    ) -> bool {
        match action {
            SessionAction::Finish { stop, .. } => before == Some(stop) && after is None,
            _ => after == before,
        }
    }

    /// Hands the session what the socket produced, where `None` stands for
    /// a stream that has closed, and says what to do next. Where the session
    /// ends, the action holds the trigger to raise.
    pub fn on_frame(&mut self, frame: Option<&InboundFrame>) -> (res: SessionAction)
        ensures
            (final(self)@, res@) == next(old(self)@, frame_of(frame)),
            Self::hands_out(old(self).stop_trigger(), final(self).stop_trigger(), res),
    {
        let mut progress = Progress::Finished;
        std::mem::swap(&mut self.progress, &mut progress);
        match progress {
            Progress::Configuring(stop) => match handshake(frame) {
                Ok(()) => {
                    self.progress = Progress::Streaming(stop, Transcription::Empty);
                    SessionAction::Receive
                },
                Err(e) => SessionAction::Finish { result: Err(e), stop },
            },
            Progress::Streaming(stop, running) => match frame {
                None => SessionAction::Finish { result: Ok(running), stop },
                Some(f) => match fold_frame(running, f) {
                    Ok(next) => {
                        self.progress = Progress::Streaming(stop, next);
                        SessionAction::Receive
                    },
                    Err(e) => SessionAction::Finish { result: Err(e), stop },
                },
            },
            Progress::Finished => SessionAction::Done,
        }
    }

    /// Hands the session the frames of a stream that closes after them, in
    /// order and for as long as it asks for more, and returns the action
    /// that it ends on.
    pub fn run(&mut self, frames: &[InboundFrame]) -> (res: SessionAction)
        ensures
            (final(self)@, res@) == run_of(old(self)@, frames@),
            Self::hands_out(old(self).stop_trigger(), final(self).stop_trigger(), res),
    {
        let mut i: usize = 0;
        assert(frames@.skip(0) =~= frames@);
        while i < frames.len()
            invariant
                i <= frames@.len(),
                self.stop_trigger() == old(self).stop_trigger(),
                run_of(old(self)@, frames@) == run_of(self@, frames@.skip(i as int)),
            decreases frames@.len() - i,
        {
            let ghost before = self@;
            let ghost rest = frames@.skip(i as int);
            assert(rest[0] == frames@[i as int]);
            assert(rest.drop_first() =~= frames@.skip(i + 1));
            let action = self.on_frame(Some(&frames[i]));
            match action {
                SessionAction::Receive => {},
                _ => {
                    return action;
                },
            }
            i = i + 1;
        }
        assert(frames@.skip(i as int).len() == 0);
        self.on_frame(None)
    }
}

/// Whether a frame ends the session with a failure while events are
/// streamed.
pub open spec fn is_fatal(frame: InboundFrame) -> bool {
    frame_effect(None, frame) is Err
}

/// Whether a frame is a completed transcription.
pub open spec fn is_completion(frame: InboundFrame) -> bool {
    frame matches InboundFrame::Text { event: Some(TranscriptionMessage::TranscriptionCompleted(_)), .. }
}

/// Whether a frame is an error that the service reports, with the given
/// message.
pub open spec fn is_api_error(frame: InboundFrame, message: Seq<char>) -> bool {
    frame matches InboundFrame::Text { event: Some(TranscriptionMessage::Error(err)), .. }
        && err.error.message@ == message
}

/// A session that streams ends when the stream closes or fails, and its
/// result is that of the stream.
pub proof fn lemma_streaming_session_ends_with_stream_result(
    running: Option<Seq<char>>,
    frames: Seq<InboundFrame>,
)
    ensures
        run_of(SessionModel { state: SessionState::Streaming, running }, frames) == (
            finished(),
            ActionModel::Finish(stream_result(running, frames)),
        ),
    decreases frames.len(),
{
    if frames.len() > 0 {
        match frame_effect(running, frames[0]) {
            Ok(next) => {
                lemma_streaming_session_ends_with_stream_result(next, frames.drop_first());
            },
            Err(_) => {},
        }
    }
}

/// A new session that is acknowledged streams what follows the
/// acknowledgement: it ends with the result of that stream, from the
/// empty transcription on.
pub proof fn lemma_acknowledged_session_streams(frames: Seq<InboundFrame>)
    requires
        frames.len() > 0,
        is_acknowledgement(frames[0]),
    ensures
        run_of(SessionModel { state: SessionState::Configuring, running: None }, frames) == (
            finished(),
            ActionModel::Finish(stream_result(None, frames.drop_first())),
        ),
{
    lemma_streaming_session_ends_with_stream_result(None, frames.drop_first());
}

/// A new session that gets anything but an acknowledgement ends at once,
/// with a failure.
pub proof fn lemma_unacknowledged_session_fails(frames: Seq<InboundFrame>)
    requires
        frames.len() == 0 || !is_acknowledgement(frames[0]),
    ensures
        run_of(SessionModel { state: SessionState::Configuring, running: None }, frames).0
            == finished(),
        run_of(
            SessionModel { state: SessionState::Configuring, running: None },
            frames,
        ).1 matches ActionModel::Finish(Err(_)),
{
}

impl SessionState {
    /// How far a session in this state has come: 0 for `Configuring`, 1
    /// for `Streaming`, 2 for `Finished`.
    pub open spec fn order(&self) -> nat {
        match self {
            SessionState::Configuring => 0,
            SessionState::Streaming => 1,
            SessionState::Finished => 2,
        }
    }
}

/// A session never goes back: a frame leaves it where it stands or takes
/// it further. It asks for another frame only while it has not ended, and
/// it hands out a result exactly when it ends.
pub proof fn lemma_session_only_advances(m: SessionModel, frame: Option<InboundFrame>)
    ensures
        m.state.order() <= next(m, frame).0.state.order(),
        next(m, frame).1 is Receive ==> next(m, frame).0.state != SessionState::Finished,
        next(m, frame).1 is Finish <==> (m.state != SessionState::Finished && next(m, frame).0.state
            == SessionState::Finished),
        next(m, frame).1 is Done <==> m.state == SessionState::Finished,
{
}

/// A session that has ended stays ended, whatever it is handed.
pub proof fn lemma_finished_session_stays_finished(frames: Seq<InboundFrame>)
    ensures
        run_of(finished(), frames) == (finished(), ActionModel::Done),
{
}

/// A stream that holds neither a fatal frame nor a completed
/// transcription leaves the running result as it was. From the start of a
/// session that result is the empty transcription.
pub proof fn lemma_no_completion_leaves_result(acc: Option<Seq<char>>, frames: Seq<InboundFrame>)
    requires
        forall|i: int| 0 <= i < frames.len() ==> !is_fatal(#[trigger] frames[i]),
        forall|i: int| 0 <= i < frames.len() ==> !is_completion(#[trigger] frames[i]),
    ensures
        stream_result(acc, frames) == Ok::<Option<Seq<char>>, SessionErrorModel>(acc),
    decreases frames.len(),
{
    if frames.len() > 0 {
        let rest = frames.drop_first();
        assert(!is_fatal(frames[0]) && !is_completion(frames[0]));
        assert forall|i: int| 0 <= i < rest.len() implies !is_fatal(#[trigger] rest[i])
            && !is_completion(rest[i]) by {
            assert(rest[i] == frames[i + 1]);
        }
        lemma_no_completion_leaves_result(acc, rest);
    }
}

/// A stream without a fatal frame ends with the text of its last completed
/// transcription, whatever came before it.
pub proof fn lemma_last_completion_is_the_result(
    acc: Option<Seq<char>>,
    frames: Seq<InboundFrame>,
    last: int,
    text: Seq<char>,
)
    requires
        0 <= last < frames.len(),
        forall|i: int| 0 <= i < frames.len() ==> !is_fatal(#[trigger] frames[i]),
        frames[last] matches InboundFrame::Text {
            event: Some(TranscriptionMessage::TranscriptionCompleted(done)),
            ..
        } && done.transcript@ == text,
        forall|i: int| last < i < frames.len() ==> !is_completion(#[trigger] frames[i]),
    ensures
        stream_result(acc, frames) == Ok::<Option<Seq<char>>, SessionErrorModel>(Some(text)),
    decreases frames.len(),
{
    let rest = frames.drop_first();
    assert(!is_fatal(frames[0]));
    assert forall|i: int| 0 <= i < rest.len() implies !is_fatal(#[trigger] rest[i]) by {
        assert(rest[i] == frames[i + 1]);
    }
    if last == 0 {
        assert forall|i: int| 0 <= i < rest.len() implies !is_completion(#[trigger] rest[i]) by {
            assert(rest[i] == frames[i + 1]);
        }
        lemma_no_completion_leaves_result(Some(text), rest);
    } else {
        assert(rest[last - 1] == frames[last]);
        assert forall|i: int| last - 1 < i < rest.len() implies !is_completion(
            #[trigger] rest[i],
        ) by {
            assert(rest[i] == frames[i + 1]);
        }
        let next = frame_effect(acc, frames[0])->Ok_0;
        lemma_last_completion_is_the_result(next, rest, last - 1, text);
    }
}

/// The first error that the service reports ends the stream with a failure
/// whose message contains the service's message, whatever transcriptions
/// were completed before it and whatever comes after it.
pub proof fn lemma_api_error_fails_the_stream(
    acc: Option<Seq<char>>,
    frames: Seq<InboundFrame>,
    at: int,
    message: Seq<char>,
)
    requires
        0 <= at < frames.len(),
        is_api_error(frames[at], message),
        forall|i: int| 0 <= i < at ==> !is_fatal(#[trigger] frames[i]),
    ensures
        stream_result(acc, frames) == Err::<Option<Seq<char>>, SessionErrorModel>(
            failure(SessionErrorKind::Api, api_error_text(message)),
        ),
        contains_text(api_error_text(message), message),
    decreases frames.len(),
{
    lemma_suffix_is_contained("Transcription failed with an error from the API: "@, message);
    if at > 0 {
        let rest = frames.drop_first();
        assert(!is_fatal(frames[0]));
        assert(rest[at - 1] == frames[at]);
        assert forall|i: int| 0 <= i < at - 1 implies !is_fatal(#[trigger] rest[i]) by {
            assert(rest[i] == frames[i + 1]);
        }
        let next = frame_effect(acc, frames[0])->Ok_0;
        lemma_api_error_fails_the_stream(next, rest, at - 1, message);
    }
}

/// A stream that holds an error of the service fails, wherever the error
/// stands.
pub proof fn lemma_api_error_is_never_a_success(
    acc: Option<Seq<char>>,
    frames: Seq<InboundFrame>,
    at: int,
    message: Seq<char>,
)
    requires
        0 <= at < frames.len(),
        is_api_error(frames[at], message),
    ensures
        stream_result(acc, frames) is Err,
    decreases frames.len(),
{
    if at > 0 {
        let rest = frames.drop_first();
        assert(rest[at - 1] == frames[at]);
        match frame_effect(acc, frames[0]) {
            Ok(next) => {
                lemma_api_error_is_never_a_success(next, rest, at - 1, message);
            },
            Err(_) => {},
        }
    }
}

/// How the session as a whole ends, given how its two activities ended:
/// `inbound` is the result of the fold over the events, `outbound` that
/// of sending the audio, with the cause of the first send that failed.
/// `None` stands for an activity that did not run to its end.
///
/// A failure of the fold is the failure of the session. A fold that
/// succeeded gives the session's result only if the audio was sent too:
/// else the session fails with the failure to send.
pub open spec fn conclusion_of(
    inbound: Option<Result<Option<Seq<char>>, SessionErrorModel>>,
    outbound: Option<Result<(), Seq<char>>>,
) -> Result<Option<Seq<char>>, SessionErrorModel> {
    match inbound {
        None => Err(failure(SessionErrorKind::Interrupted, interrupted_text())),
        Some(Err(e)) => Err(e),
        Some(Ok(result)) => match outbound {
            Some(Ok(())) => Ok(result),
            Some(Err(cause)) => Err(failure(SessionErrorKind::Send, send_failed_text(Some(cause)))),
            None => Err(failure(SessionErrorKind::Send, send_failed_text(None))),
        },
    }
}

/// The view of the result of the inbound activity.
pub open spec fn inbound_of(inbound: Option<Result<Transcription, SessionError>>) -> Option<
    Result<Option<Seq<char>>, SessionErrorModel>,
> {
    match inbound {
        None => None,
        Some(Ok(t)) => Some(Ok(t@)),
        Some(Err(e)) => Some(Err(e@)),
    }
}

/// The view of the result of the outbound activity.
pub open spec fn outbound_of(outbound: Option<Result<(), String>>) -> Option<
    Result<(), Seq<char>>,
> {
    match outbound {
        None => None,
        Some(Ok(())) => Some(Ok(())),
        Some(Err(cause)) => Some(Err(cause@)),
    }
}

/// Joins the results of the two activities into the result of the session.
pub fn conclude(
    inbound: Option<Result<Transcription, SessionError>>,
    outbound: Option<Result<(), String>>,
) -> (res: Result<Transcription, SessionError>)
    ensures
        match conclusion_of(inbound_of(inbound), outbound_of(outbound)) {
            Ok(result) => res matches Ok(t) && t@ == result,
            Err(e) => res matches Err(err) && err@ == e,
        },
{
    let transcription = match inbound {
        None => {
            return Err(
                fail(SessionErrorKind::Interrupted, String::from_str("Failed to run transcription")),
            );
        },
        Some(Err(e)) => {
            return Err(e);
        },
        Some(Ok(transcription)) => transcription,
    };
    match outbound {
        Some(Ok(())) => Ok(transcription),
        Some(Err(cause)) => Err(
            fail_about(SessionErrorKind::Send, "Failed to send audio data: ", cause.as_str()),
        ),
        None => Err(fail(SessionErrorKind::Send, String::from_str("Failed to send audio data"))),
    }
}

/// The outbound activity: what became of the sends so far.
pub struct Outbound {
    first_failure: Option<String>,
}

/// The line that is logged for a send that failed.
pub open spec fn send_log_text(cause: Seq<char>) -> Seq<char> {
    "Could not send audio data: "@ + cause
}

impl Outbound {
    /// The cause of the first send that failed, if one did.
    pub closed spec fn first_failure(&self) -> Option<Seq<char>> {
        match self.first_failure {
            Some(cause) => Some(cause@),
            None => None,
        }
    }

    /// An activity that has sent nothing yet.
    pub fn new() -> (res: Self)
        ensures
            res.first_failure() is None,
    {
        Self { first_failure: None }
    }

    /// Takes note of how one send ended, and returns the line to log where
    /// it failed. The activity goes on either way; the first failure is the
    /// one that is kept.
    pub fn record(&mut self, sent: Result<(), String>) -> (res: Option<String>)
        ensures
            match sent {
                Ok(()) => res is None && final(self).first_failure() == old(self).first_failure(),
                Err(cause) => (res matches Some(line) && line@ == send_log_text(cause@)) && final(self).first_failure() == (match old(self).first_failure() {
                    Some(first) => Some(first),
                    None => Some(cause@),
                }),
            },
    {
        match sent {
            Ok(()) => None,
            Err(cause) => {
                let mut line = String::from_str("Could not send audio data: ");
                line.append(cause.as_str());
                if self.first_failure.is_none() {
                    self.first_failure = Some(cause);
                }
                Some(line)
            },
        }
    }

    /// How the activity ended, once the source of the chunks is exhausted.
    pub fn outcome(self) -> (res: Result<(), String>)
        ensures
            match self.first_failure() {
                Some(cause) => res matches Err(c) && c@ == cause,
                None => res is Ok,
            },
    {
        match self.first_failure {
            Some(cause) => Err(cause),
            None => Ok(()),
        }
    }
}

} // verus!
