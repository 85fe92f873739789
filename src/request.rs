use vstd::prelude::*;

verus! {

/// How the service should decode the audio bytes.
#[derive(Debug, Clone, PartialEq, Eq)]
pub enum DecodingMode {
    /// The service detects the encoding itself.
    Automatic,
    /// The encoding is given explicitly.
    ExplicitFormat { encoding: u32, sample_rate_hertz: u32, audio_channel_count: u32 },
}

/// Optional recognition features.
#[derive(Debug, Clone, Copy, PartialEq, Eq)]
pub struct FeatureFlags {
    pub profanity_filter: bool,
    pub enable_word_time_offsets: bool,
    pub enable_automatic_punctuation: bool,
    pub interim_results: bool,
}

/// Configuration of one streaming session, sent once as the first item.
#[derive(Debug, Clone, PartialEq, Eq)]
pub struct StreamingRecognitionConfig {
    pub language_codes: Vec<String>,
    pub model: String,
    pub decoding: DecodingMode,
    pub features: Option<FeatureFlags>,
}

/// Payload of one item on the outbound stream.
#[derive(Debug, Clone, PartialEq, Eq)]
pub enum StreamingRequest {
    StreamingConfig(StreamingRecognitionConfig),
    Audio(Vec<u8>),
}

/// One item on the outbound stream, addressed to a recognizer resource.
#[derive(Debug, Clone, PartialEq, Eq)]
pub struct StreamingRecognizeRequest {
    pub recognizer: String,
    pub streaming_request: Option<StreamingRequest>,
}

/// One recognition hypothesis for a stretch of audio.
#[derive(Debug, Clone, PartialEq, Eq)]
pub struct StreamingRecognitionResult {
    pub transcript: String,
    pub is_final: bool,
    pub language_code: String,
}

/// One item on the inbound stream; forwarded to the consumer unchanged.
#[derive(Debug, Clone, PartialEq, Eq)]
pub struct StreamingRecognizeResponse {
    pub results: Vec<StreamingRecognitionResult>,
    pub speech_event_type: i32,
}

/// A single-shot request: configuration and the whole audio payload.
#[derive(Debug, Clone, PartialEq, Eq)]
pub struct RecognizeRequest {
    pub recognizer: String,
    pub config: StreamingRecognitionConfig,
    pub content: Vec<u8>,
}

/// The answer to a single-shot request.
#[derive(Debug, Clone, PartialEq, Eq)]
pub struct RecognizeResponse {
    pub results: Vec<StreamingRecognitionResult>,
}

/// `r` is the envelope that opens a session with `config` on `recognizer`.
pub open spec fn is_config_for(
    r: StreamingRecognizeRequest,
    recognizer: Seq<char>,
    config: StreamingRecognitionConfig,
) -> bool {
    &&& r.recognizer@ == recognizer
    &&& r.streaming_request == Some(StreamingRequest::StreamingConfig(config))
}

/// `r` carries the audio bytes `frame` for `recognizer`.
pub open spec fn is_audio_for(r: StreamingRecognizeRequest, recognizer: Seq<char>, frame: Seq<u8>) -> bool {
    &&& r.recognizer@ == recognizer
    &&& match r.streaming_request {
        Some(StreamingRequest::Audio(bytes)) => bytes@ == frame,
        _ => false,
    }
}

pub open spec fn is_config_item(r: StreamingRecognizeRequest) -> bool {
    r.streaming_request matches Some(StreamingRequest::StreamingConfig(_))
}

pub open spec fn is_audio_item(r: StreamingRecognizeRequest) -> bool {
    r.streaming_request matches Some(StreamingRequest::Audio(_))
}

/// An outbound sequence is well formed when exactly its first item is a
/// configuration and every later item is audio.
pub open spec fn well_formed_outbound(s: Seq<StreamingRecognizeRequest>) -> bool {
    &&& s.len() >= 1
    &&& is_config_item(s[0])
    &&& forall|i: int| 1 <= i < s.len() ==> #[trigger] is_audio_item(s[i])
}

/// `s` is the configuration envelope followed by exactly `frames`, in order.
pub open spec fn outbound_carries(
    s: Seq<StreamingRecognizeRequest>,
    recognizer: Seq<char>,
    config: StreamingRecognitionConfig,
    frames: Seq<Seq<u8>>,
) -> bool {
    &&& s.len() == frames.len() + 1
    &&& is_config_for(s[0], recognizer, config)
    &&& forall|i: int| 0 <= i < frames.len() ==> #[trigger] is_audio_for(s[i + 1], recognizer, frames[i])
}

/// Builds the envelope that opens a session.
pub fn streaming_config_request(
    config: StreamingRecognitionConfig,
    recognizer_name: String,
) -> (r: StreamingRecognizeRequest)
    ensures
        is_config_for(r, recognizer_name@, config),
{
    StreamingRecognizeRequest {
        recognizer: recognizer_name,
        streaming_request: Some(StreamingRequest::StreamingConfig(config)),
    }
}

/// Wraps raw audio bytes into an outbound item for `recognizer_name`.
pub fn audio_request(audio_bytes: Vec<u8>, recognizer_name: String) -> (r: StreamingRecognizeRequest)
    ensures
        is_audio_for(r, recognizer_name@, audio_bytes@),
        r.recognizer == recognizer_name,
        r.streaming_request == Some(StreamingRequest::Audio(audio_bytes)),
{
    StreamingRecognizeRequest {
        recognizer: recognizer_name,
        streaming_request: Some(StreamingRequest::Audio(audio_bytes)),
    }
}

/// The envelope followed by audio items built from `frames`, in that
/// order, carries exactly the configuration and then those frames, and is
/// well formed, whatever the frames are.
pub proof fn lemma_outbound_order(
    envelope: StreamingRecognizeRequest,
    pushed: Seq<StreamingRecognizeRequest>,
    recognizer: Seq<char>,
    config: StreamingRecognitionConfig,
    frames: Seq<Seq<u8>>,
)
    requires
        is_config_for(envelope, recognizer, config),
        pushed.len() == frames.len(),
        forall|i: int| 0 <= i < frames.len() ==> #[trigger] is_audio_for(pushed[i], recognizer, frames[i]),
    ensures
        outbound_carries(seq![envelope] + pushed, recognizer, config, frames),
        well_formed_outbound(seq![envelope] + pushed),
{
    let s = seq![envelope] + pushed;
    assert forall|i: int| 0 <= i < frames.len() implies #[trigger] is_audio_for(s[i + 1], recognizer, frames[i]) by {
        assert(s[i + 1] == pushed[i]);
    }
    assert forall|i: int| 1 <= i < s.len() implies #[trigger] is_audio_item(s[i]) by {
        assert(s[i] == pushed[i - 1]);
        assert(is_audio_for(pushed[i - 1], recognizer, frames[i - 1]));
    }
}

/// The envelope alone, with no frame after it, carries the configuration
/// and no audio, and is still well formed.
pub proof fn lemma_config_only_outbound(
    envelope: StreamingRecognizeRequest,
    recognizer: Seq<char>,
    config: StreamingRecognitionConfig,
)
    requires
        is_config_for(envelope, recognizer, config),
    ensures
        outbound_carries(seq![envelope], recognizer, config, Seq::empty()),
        well_formed_outbound(seq![envelope]),
        seq![envelope].len() == 1,
{
}

} // verus!
