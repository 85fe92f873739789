use vstd::prelude::*;
use tokio::sync::mpsc::{Receiver, Sender};
use crate::error::SessionError;
use crate::pump::{PumpView, SessionPump};
use crate::request::{
    audio_request, is_config_for, streaming_config_request, StreamingRecognitionConfig,
    StreamingRecognizeRequest, StreamingRecognizeResponse, RecognizeResponse,
};

verus! {

#[verifier::external_type_specification]
#[verifier::external_body]
#[verifier::reject_recursive_types(T)]
pub struct ExSender<T>(tokio::sync::mpsc::Sender<T>);

#[verifier::external_type_specification]
#[verifier::external_body]
#[verifier::reject_recursive_types(T)]
pub struct ExReceiver<T>(tokio::sync::mpsc::Receiver<T>);

/// What `Sender::max_capacity` reports for an audio sender: the bound its
/// channel was made with.
pub uninterp spec fn audio_sink_bound(tx: Sender<StreamingRecognizeRequest>) -> nat;

/// What `Receiver::max_capacity` reports for a result receiver: the bound
/// its channel was made with.
pub uninterp spec fn result_source_bound(rx: Receiver<StreamingRecognizeResponse>) -> nat;

/// Relies on tokio::sync::mpsc::channel: it builds a bounded channel whose
/// `max_capacity` is `buffer`, and panics when the buffer is zero or above
/// the semaphore's maximum of `usize::MAX >> 3` permits.
#[verifier::external_body]
fn audio_channel(buffer: usize) -> (r: (Sender<StreamingRecognizeRequest>, Receiver<StreamingRecognizeRequest>))
    requires
        0 < buffer <= MAX_BUFFER_SIZE,
    ensures
        audio_sink_bound(r.0) == buffer,
{
    tokio::sync::mpsc::channel(buffer)
}

/// Relies on tokio::sync::mpsc::channel, as `audio_channel` does, for the
/// result channel: its receiver's `max_capacity` is `buffer`.
#[verifier::external_body]
fn result_channel(buffer: usize) -> (r: (Sender<StreamingRecognizeResponse>, Receiver<StreamingRecognizeResponse>))
    requires
        0 < buffer <= MAX_BUFFER_SIZE,
    ensures
        result_source_bound(r.1) == buffer,
{
    tokio::sync::mpsc::channel(buffer)
}

/// Relies on tokio's Sender::try_send: queues the item without waiting and
/// reports whether the channel accepted it.
#[verifier::external_body]
fn try_enqueue<T>(sender: &Sender<T>, item: T) -> (accepted: bool) {
    sender.try_send(item).is_ok()
}

/// Capacity of a channel when the caller names none.
pub const DEFAULT_BUFFER_SIZE: usize = 1000;

/// The largest capacity a channel can have: tokio's semaphore limit,
/// `usize::MAX >> 3`, which equals `usize::MAX / 8`.
pub const MAX_BUFFER_SIZE: usize = usize::MAX / 8;

/// The capacity that a requested buffer size gives.
pub open spec fn buffer_capacity(buffer_size: Option<usize>) -> usize {
    match buffer_size {
        Some(n) => n,
        None => DEFAULT_BUFFER_SIZE,
    }
}

/// A buffer size that a channel can be made with.
pub open spec fn valid_buffer_size(buffer_size: Option<usize>) -> bool {
    0 < buffer_capacity(buffer_size) <= MAX_BUFFER_SIZE
}

fn capacity_of(buffer_size: Option<usize>) -> (r: usize)
    ensures
        r == buffer_capacity(buffer_size),
{
    match buffer_size {
        Some(n) => n,
        None => DEFAULT_BUFFER_SIZE,
    }
}

/// A streaming or synchronous recognition session over a transport client
/// of type `C`. The audio sender and the audio receiver can each be taken
/// out once; the result sender is installed by the consumer.
pub struct RecognizerV2<C> {
    speech_client: C,
    audio_sender: Option<Sender<StreamingRecognizeRequest>>,
    audio_receiver: Option<Receiver<StreamingRecognizeRequest>>,
    result_sender: Option<Sender<StreamingRecognizeResponse>>,
    envelope: Ghost<Option<StreamingRecognizeRequest>>,
}

impl<C> RecognizerV2<C> {
    pub closed spec fn client(&self) -> C {
        self.speech_client
    }

    /// The audio sender, while it has not been taken.
    pub closed spec fn audio_sink(&self) -> Option<Sender<StreamingRecognizeRequest>> {
        self.audio_sender
    }

    /// The receiving end of the audio channel, while no pump has taken it.
    pub closed spec fn audio_source(&self) -> Option<Receiver<StreamingRecognizeRequest>> {
        self.audio_receiver
    }

    /// The installed result sender, if any.
    pub closed spec fn result_sink(&self) -> Option<Sender<StreamingRecognizeResponse>> {
        self.result_sender
    }

    /// The configuration envelope handed to the audio channel as its first
    /// item when the session was created.
    pub closed spec fn envelope(&self) -> Option<StreamingRecognizeRequest> {
        self.envelope@
    }

    /// Creates a streaming session over an open, authenticated transport
    /// client. The configuration envelope is handed to the fresh audio
    /// channel before the handle is returned, so the transport sees it
    /// first. A fresh channel has room for it, so nothing can fail here.
    pub fn create_streaming_recognizer(
        speech_client: C,
        config: StreamingRecognitionConfig,
        buffer_size: Option<usize>,
        recognizer_name: String,
    ) -> (r: Result<Self, SessionError>)
        requires
            valid_buffer_size(buffer_size),
        ensures
            r matches Ok(h) && {
                &&& h.client() == speech_client
                &&& h.audio_sink() matches Some(tx) && audio_sink_bound(tx) == buffer_capacity(buffer_size)
                &&& h.audio_source() is Some
                &&& h.result_sink() is None
                &&& h.envelope() matches Some(e) && is_config_for(e, recognizer_name@, config)
            },
    {
        let capacity = capacity_of(buffer_size);
        let (audio_sender, audio_receiver) = audio_channel(capacity);
        let streaming_config = streaming_config_request(config, recognizer_name);
        let ghost queued = streaming_config;
        // The channel is fresh and holds its receiver, so it accepts the item.
        let _ = try_enqueue(&audio_sender, streaming_config);
        Ok(RecognizerV2 {
            speech_client,
            audio_sender: Some(audio_sender),
            audio_receiver: Some(audio_receiver),
            result_sender: None,
            envelope: Ghost(Some(queued)),
        })
    }

    /// Creates a session for single request/response calls: it has no
    /// audio or result channel.
    pub fn create_synchronous_recognizer(speech_client: C) -> (r: Self)
        ensures
            r.client() == speech_client,
            r.audio_sink() is None,
            r.audio_source() is None,
            r.result_sink() is None,
            r.envelope() is None,
    {
        RecognizerV2 {
            speech_client,
            audio_sender: None,
            audio_receiver: None,
            result_sender: None,
            envelope: Ghost(None),
        }
    }

    /// Wraps raw audio bytes into an outbound item for `recognizer_name`.
    pub fn streaming_request_from_bytes(audio_bytes: Vec<u8>, recognizer_name: String) -> (r:
        StreamingRecognizeRequest)
        ensures
            r.recognizer == recognizer_name,
            r.streaming_request == Some(crate::request::StreamingRequest::Audio(audio_bytes)),
    {
        audio_request(audio_bytes, recognizer_name)
    }

    /// Creates the result channel and installs its sender. It can be
    /// installed once: a second call changes nothing and reports the
    /// endpoint as taken. Results that the pump reads while no sender is
    /// installed are dropped; those read afterwards are forwarded.
    pub fn get_streaming_result_receiver(&mut self, buffer_size: Option<usize>) -> (r: Result<
        Receiver<StreamingRecognizeResponse>,
        SessionError,
    >)
        requires
            valid_buffer_size(buffer_size),
        ensures
            old(self).result_sink() is Some ==> {
                &&& r matches Err(e) && e == SessionError::ChannelClosedError
                &&& *final(self) == *old(self)
            },
            old(self).result_sink() is None ==> {
                &&& r matches Ok(rx) && result_source_bound(rx) == buffer_capacity(buffer_size)
                &&& final(self).result_sink() is Some
                &&& final(self).client() == old(self).client()
                &&& final(self).audio_sink() == old(self).audio_sink()
                &&& final(self).audio_source() == old(self).audio_source()
                &&& final(self).envelope() == old(self).envelope()
            },
    {
        if self.result_sender.is_some() {
            return Err(SessionError::ChannelClosedError);
        }
        let capacity = capacity_of(buffer_size);
        let (result_sender, result_receiver) = result_channel(capacity);
        self.result_sender = Some(result_sender);
        Ok(result_receiver)
    }

    /// Hands the audio sender to the caller; it can be taken once only, and
    /// every later call returns `None`. Dropping it ends the outbound stream.
    pub fn take_audio_sink(&mut self) -> (r: Option<Sender<StreamingRecognizeRequest>>)
        ensures
            r == old(self).audio_sink(),
            final(self).audio_sink() is None,
            final(self).client() == old(self).client(),
            final(self).audio_source() == old(self).audio_source(),
            final(self).result_sink() == old(self).result_sink(),
            final(self).envelope() == old(self).envelope(),
    {
        self.audio_sender.take()
    }

    /// The installed result sender, through which the pump forwards results.
    pub fn result_sender(&self) -> (r: Option<&Sender<StreamingRecognizeResponse>>)
        ensures
            r is None <==> self.result_sink() is None,
            r matches Some(s) ==> self.result_sink() == Some(*s),
    {
        self.result_sender.as_ref()
    }

    /// Starts the duplex exchange: takes the audio receiver out of the handle
    /// and returns it with a fresh pump. Returns `None` when the receiver is
    /// gone (a synchronous session, or a pump already started).
    pub fn start_streaming(&mut self) -> (r: Option<(Receiver<StreamingRecognizeRequest>, SessionPump)>)
        ensures
            r is None <==> old(self).audio_source() is None,
            r matches Some((rx, p)) ==> old(self).audio_source() == Some(rx) && p@ == PumpView::initial(),
            final(self).audio_source() is None,
            final(self).client() == old(self).client(),
            final(self).audio_sink() == old(self).audio_sink(),
            final(self).result_sink() == old(self).result_sink(),
            final(self).envelope() == old(self).envelope(),
    {
        match self.audio_receiver.take() {
            Some(rx) => Some((rx, SessionPump::new())),
            None => None,
        }
    }

    /// The transport client, for the calls that the session makes. The
    /// channel endpoints stay as they are.
    pub fn speech_client(&mut self) -> (r: &mut C)
        ensures
            *r == old(self).client(),
            final(self).client() == *final(r),
            final(self).audio_sink() == old(self).audio_sink(),
            final(self).audio_source() == old(self).audio_source(),
            final(self).result_sink() == old(self).result_sink(),
            final(self).envelope() == old(self).envelope(),
    {
        &mut self.speech_client
    }
}

/// The setup step shared by both factories: the channel is opened first,
/// then the credentials are resolved. A failed channel is a connection
/// error, whatever the credentials gave; a failed resolution on an open
/// channel is an authentication error; only when both succeed does setup
/// hand back the channel and the token.
pub fn open_session<Ch, E1, E2>(channel: Result<Ch, E1>, token: Result<String, E2>) -> (r: Result<(Ch, String), SessionError>)
    ensures
        channel is Err ==> r == Err::<(Ch, String), SessionError>(SessionError::ConnectionError),
        channel is Ok && token is Err ==> r == Err::<(Ch, String), SessionError>(SessionError::AuthenticationError),
        channel matches Ok(ch) ==> (token matches Ok(t) ==> r == Ok::<(Ch, String), SessionError>((ch, t))),
{
    match channel {
        Err(_) => Err(SessionError::ConnectionError),
        Ok(ch) => match token {
            Err(_) => Err(SessionError::AuthenticationError),
            Ok(t) => Ok((ch, t)),
        },
    }
}

/// The outcome of a single-shot call, from the transport's answer: the
/// response itself, or the status code of its failure as a stream error.
/// Exactly one of the two comes back.
pub fn recognize_outcome(answer: Result<RecognizeResponse, i32>) -> (r: Result<RecognizeResponse, SessionError>)
    ensures
        answer matches Ok(resp) ==> r == Ok::<RecognizeResponse, SessionError>(resp),
        answer matches Err(code) ==> r == Err::<RecognizeResponse, SessionError>(SessionError::StreamError { code }),
{
    match answer {
        Ok(resp) => Ok(resp),
        Err(code) => Err(SessionError::StreamError { code }),
    }
}

} // verus!
