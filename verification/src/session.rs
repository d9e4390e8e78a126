//! The transcription session: what it sends to the provider and what it
//! hands on, event by event.
//!
//! The connection belongs to the caller, who waits for whichever of three
//! things is ready first: the keep-alive timer, an audio chunk, a response
//! of the provider. Each is handed to the session as an event, and the
//! session answers with what is to be done.

use vstd::prelude::*;
use vstd::string::*;

use crate::transcribers::deepgram::{
    response_results, DeepgramTranscriber, Language, Model, ResponseView, StreamResponse,
    TranscriberView,
};
use crate::transcribers::{result_views, ResultView, TranscriptionResult};

verus! {

/// Seconds between two keep-alive messages.
pub const KEEP_ALIVE_INTERVAL_SECS: u64 = 3;

/// How audio is encoded.
#[derive(Debug, Clone, Copy, PartialEq, Eq, Structural)]
pub enum Encoding {
    /// 16-bit signed PCM, little-endian.
    Linear16,
}

/// What the provider is asked for when a session opens.
#[derive(Debug, Clone, Copy, PartialEq, Eq, Structural)]
pub struct OpenRequest {
    pub sample_rate: u32,
    pub channels: u16,
    pub encoding: Encoding,
    pub diarize: bool,
    pub language: Option<Language>,
    pub model: Option<Model>,
}

impl DeepgramTranscriber {
    /// The request that opens a session with these parameters: PCM audio
    /// with speakers told apart, in the language and with the model that were
    /// configured.
    pub open spec fn request(view: TranscriberView) -> OpenRequest {
        OpenRequest {
            sample_rate: view.sample_rate,
            channels: view.channels,
            encoding: Encoding::Linear16,
            diarize: true,
            language: view.language,
            model: view.model,
        }
    }

    /// The request that opens a session with these parameters.
    pub fn open_request(&self) -> (request: OpenRequest)
        ensures
            request == Self::request(self@),
    {
        OpenRequest {
            sample_rate: self.sample_rate(),
            channels: self.channels(),
            encoding: Encoding::Linear16,
            diarize: true,
            language: self.language(),
            model: self.model(),
        }
    }
}

/// Something that happened to a session.
#[derive(Debug, Clone)]
pub enum SessionEvent {
    /// The keep-alive timer fired.
    KeepAliveDue,
    /// A keep-alive message could not be sent.
    KeepAliveFailed,
    /// An audio chunk arrived from capture.
    Audio(Vec<u8>),
    /// An audio chunk could not be sent.
    SendFailed,
    /// Capture closed its queue: no more audio will come.
    AudioClosed,
    /// The provider sent a response.
    Response(StreamResponse),
    /// A response could not be received.
    ReceiveFailed,
    /// The provider closed the connection.
    ProviderClosed,
}

/// An event as plain values.
pub enum SessionEventView {
    KeepAliveDue,
    KeepAliveFailed,
    Audio(Seq<u8>),
    SendFailed,
    AudioClosed,
    Response(ResponseView),
    ReceiveFailed,
    ProviderClosed,
}

impl View for SessionEvent {
    type V = SessionEventView;

    open spec fn view(&self) -> SessionEventView {
        match self {
            SessionEvent::KeepAliveDue => SessionEventView::KeepAliveDue,
            SessionEvent::KeepAliveFailed => SessionEventView::KeepAliveFailed,
            SessionEvent::Audio(chunk) => SessionEventView::Audio(chunk@),
            SessionEvent::SendFailed => SessionEventView::SendFailed,
            SessionEvent::AudioClosed => SessionEventView::AudioClosed,
            SessionEvent::Response(response) => SessionEventView::Response(response@),
            SessionEvent::ReceiveFailed => SessionEventView::ReceiveFailed,
            SessionEvent::ProviderClosed => SessionEventView::ProviderClosed,
        }
    }
}

/// What the caller does for a session.
#[derive(Debug, Clone)]
pub enum SessionAction {
    /// Send a keep-alive message.
    SendKeepAlive,
    /// Send an audio chunk.
    SendAudio(Vec<u8>),
    /// Tell the provider that no more audio will come.
    Finalize,
    /// Hand transcription results on, in order.
    Emit(Vec<TranscriptionResult>),
    /// Close the connection.
    CloseStream,
}

/// An action as plain values.
pub enum SessionActionView {
    SendKeepAlive,
    SendAudio(Seq<u8>),
    Finalize,
    Emit(Seq<ResultView>),
    CloseStream,
}

impl View for SessionAction {
    type V = SessionActionView;

    open spec fn view(&self) -> SessionActionView {
        match self {
            SessionAction::SendKeepAlive => SessionActionView::SendKeepAlive,
            SessionAction::SendAudio(chunk) => SessionActionView::SendAudio(chunk@),
            SessionAction::Finalize => SessionActionView::Finalize,
            SessionAction::Emit(results) => SessionActionView::Emit(result_views(results@)),
            SessionAction::CloseStream => SessionActionView::CloseStream,
        }
    }
}

/// The actions as plain values.
pub open spec fn action_views(actions: Seq<SessionAction>) -> Seq<SessionActionView> {
    Seq::new(actions.len(), |i: int| actions[i]@)
}

/// Why a chunk was not taken.
#[derive(Debug, Clone, Copy, PartialEq, Eq, Structural)]
pub enum SessionError {
    /// The session is closed.
    Closed,
}

/// A streaming session with the provider.
#[derive(Debug, Clone, Copy, PartialEq, Eq, Structural)]
pub struct TranscriptionSession {
    /// Whether the connection was closed.
    pub closed: bool,
}

/// What an open session does for an event. An audio chunk is sent on, a
/// response is turned into results, the timer sends a keep-alive message.
/// When capture has closed its queue the provider is told so, and the
/// connection is closed; it is closed too when anything failed or the
/// provider closed it.
pub open spec fn actions_for(event: SessionEventView) -> Seq<SessionActionView> {
    match event {
        SessionEventView::KeepAliveDue => seq![SessionActionView::SendKeepAlive],
        SessionEventView::Audio(chunk) => seq![SessionActionView::SendAudio(chunk)],
        SessionEventView::Response(response) => seq![
            SessionActionView::Emit(response_results(response)),
        ],
        SessionEventView::AudioClosed => seq![
            SessionActionView::Finalize,
            SessionActionView::CloseStream,
        ],
        _ => seq![SessionActionView::CloseStream],
    }
}

/// Whether an event ends the session.
pub open spec fn ends_session(event: SessionEventView) -> bool {
    match event {
        SessionEventView::KeepAliveDue => false,
        SessionEventView::Audio(_) => false,
        SessionEventView::Response(_) => false,
        _ => true,
    }
}

impl TranscriptionSession {
    /// An open session.
    pub fn open() -> (session: Self)
        ensures
            !session.closed,
    {
        TranscriptionSession { closed: false }
    }

    /// Whether the session is closed.
    pub fn is_closed(&self) -> (closed: bool)
        ensures
            closed == self.closed,
    {
        self.closed
    }

    /// Takes an audio chunk for sending; fails if the session is closed.
    pub fn push(&self, chunk: Vec<u8>) -> (taken: Result<SessionAction, SessionError>)
        ensures
            self.closed ==> taken == Err::<SessionAction, SessionError>(SessionError::Closed),
            !self.closed ==> taken is Ok && taken->Ok_0@ == SessionActionView::SendAudio(chunk@),
    {
        if self.closed {
            Err(SessionError::Closed)
        } else {
            Ok(SessionAction::SendAudio(chunk))
        }
    }

    /// Hard shutdown: the connection is closed, unless it is closed already.
    pub fn close(&mut self) -> (actions: Vec<SessionAction>)
        ensures
            final(self).closed,
            action_views(actions@) == if old(self).closed {
                Seq::<SessionActionView>::empty()
            } else {
                seq![SessionActionView::CloseStream]
            },
    {
        let mut actions: Vec<SessionAction> = Vec::new();
        if !self.closed {
            actions.push(SessionAction::CloseStream);
            self.closed = true;
        }
        assert(action_views(actions@) =~= if old(self).closed {
            Seq::<SessionActionView>::empty()
        } else {
            seq![SessionActionView::CloseStream]
        });
        actions
    }

    /// Handles an event: says what is to be done, in order. A closed session
    /// does nothing.
    pub fn on_event(&mut self, event: SessionEvent) -> (actions: Vec<SessionAction>)
        ensures
            action_views(actions@) == if old(self).closed {
                Seq::<SessionActionView>::empty()
            } else {
                actions_for(event@)
            },
            final(self).closed == (old(self).closed || ends_session(event@)),
    {
        let mut actions: Vec<SessionAction> = Vec::new();
        if self.closed {
            assert(action_views(actions@) =~= Seq::<SessionActionView>::empty());
            return actions;
        }
        match event {
            SessionEvent::KeepAliveDue => {
                actions.push(SessionAction::SendKeepAlive);
            },
            SessionEvent::Audio(chunk) => {
                actions.push(SessionAction::SendAudio(chunk));
            },
            SessionEvent::Response(response) => {
                actions.push(SessionAction::Emit(DeepgramTranscriber::format_response(&response)));
            },
            SessionEvent::AudioClosed => {
                actions.push(SessionAction::Finalize);
                actions.push(SessionAction::CloseStream);
                self.closed = true;
            },
            _ => {
                actions.push(SessionAction::CloseStream);
                self.closed = true;
            },
        }
        assert(action_views(actions@) =~= actions_for(event@));
        actions
    }
}

/// The actions of a session for a sequence of events.
pub open spec fn session_actions(closed: bool, events: Seq<SessionEventView>) -> Seq<
    SessionActionView,
>
    decreases events.len(),
{
    if events.len() == 0 {
        Seq::empty()
    } else {
        session_actions(closed, events.drop_last()) + if session_closed(closed, events.drop_last()) {
            Seq::<SessionActionView>::empty()
        } else {
            actions_for(events.last())
        }
    }
}

/// Whether a session is closed after a sequence of events.
pub open spec fn session_closed(closed: bool, events: Seq<SessionEventView>) -> bool
    decreases events.len(),
{
    if events.len() == 0 {
        closed
    } else {
        session_closed(closed, events.drop_last()) || ends_session(events.last())
    }
}

/// Whatever events reach a session, it closes the connection at most once,
/// and does nothing after that: the actions of a session that is still open
/// hold no close, and those of a session that closed end with the only one.
pub proof fn lemma_close_is_last(events: Seq<SessionEventView>)
    ensures
        forall|i: int|
            0 <= i < session_actions(false, events).len() - 1 ==> !(#[trigger] session_actions(
                false,
                events,
            )[i] is CloseStream),
        !session_closed(false, events) ==> forall|i: int|
            0 <= i < session_actions(false, events).len() ==> !(#[trigger] session_actions(
                false,
                events,
            )[i] is CloseStream),
        session_closed(false, events) ==> session_actions(false, events).len() > 0
            && session_actions(false, events).last() is CloseStream,
    decreases events.len(),
{
    if events.len() > 0 {
        lemma_close_is_last(events.drop_last());
    }
}

} // verus!
