use speechtotext::error::SessionError;
use speechtotext::pump::{PumpAction, PumpPhase, SessionPump};
use speechtotext::request::{
    DecodingMode, RecognizeResponse, StreamingRecognitionConfig, StreamingRecognitionResult,
    StreamingRecognizeRequest, StreamingRecognizeResponse, StreamingRequest,
};
use speechtotext::session::{open_session, recognize_outcome, RecognizerV2};
use tokio::sync::mpsc::error::TryRecvError;

const RECOGNIZER: &str = "projects/p/locations/global/recognizers/_";

fn en_us_config() -> StreamingRecognitionConfig {
    StreamingRecognitionConfig {
        language_codes: vec!["en-US".to_string()],
        model: "long".to_string(),
        decoding: DecodingMode::Automatic,
        features: None,
    }
}

fn response(text: &str) -> StreamingRecognizeResponse {
    StreamingRecognizeResponse {
        results: vec![StreamingRecognitionResult {
            transcript: text.to_string(),
            is_final: true,
            language_code: "en-US".to_string(),
        }],
        speech_event_type: 0,
    }
}

fn streaming_handle(buffer: Option<usize>) -> RecognizerV2<()> {
    RecognizerV2::create_streaming_recognizer((), en_us_config(), buffer, RECOGNIZER.to_string())
        .expect("fresh channel accepts the envelope")
}

fn expect_config(item: StreamingRecognizeRequest) {
    assert_eq!(item.recognizer, RECOGNIZER);
    assert_eq!(item.streaming_request, Some(StreamingRequest::StreamingConfig(en_us_config())));
}

fn expect_audio(item: StreamingRecognizeRequest, bytes: &[u8]) {
    assert_eq!(item.recognizer, RECOGNIZER);
    assert_eq!(item.streaming_request, Some(StreamingRequest::Audio(bytes.to_vec())));
}

#[test]
fn config_then_frames_in_push_order() {
    let mut handle = streaming_handle(None);
    let sink = handle.take_audio_sink().expect("first take succeeds");
    for frame in [b"A".to_vec(), b"BB".to_vec(), b"CCC".to_vec()] {
        let req = RecognizerV2::<()>::streaming_request_from_bytes(frame, RECOGNIZER.to_string());
        sink.try_send(req).expect("room in the channel");
    }
    drop(sink);
    let (mut rx, pump) = handle.start_streaming().expect("receiver present");
    assert_eq!(pump.phase(), PumpPhase::Opening);
    expect_config(rx.try_recv().unwrap());
    expect_audio(rx.try_recv().unwrap(), b"A");
    expect_audio(rx.try_recv().unwrap(), b"BB");
    expect_audio(rx.try_recv().unwrap(), b"CCC");
    assert_eq!(rx.try_recv().unwrap_err(), TryRecvError::Disconnected);
}

#[test]
fn audio_sink_taken_once() {
    let mut handle = streaming_handle(Some(4));
    assert!(handle.take_audio_sink().is_some());
    assert!(handle.take_audio_sink().is_none());
    assert!(handle.take_audio_sink().is_none());
}

#[test]
fn zero_frames_gives_config_only_stream() {
    let mut handle = streaming_handle(Some(1));
    drop(handle.take_audio_sink());
    let (mut rx, _pump) = handle.start_streaming().unwrap();
    expect_config(rx.try_recv().unwrap());
    assert_eq!(rx.try_recv().unwrap_err(), TryRecvError::Disconnected);
}

#[test]
fn pump_starts_once() {
    let mut handle = streaming_handle(None);
    assert!(handle.start_streaming().is_some());
    assert!(handle.start_streaming().is_none());
}

#[test]
fn synchronous_session_has_no_channels() {
    let mut handle = RecognizerV2::create_synchronous_recognizer(7u32);
    assert!(handle.take_audio_sink().is_none());
    assert!(handle.start_streaming().is_none());
    assert!(handle.result_sender().is_none());
    assert_eq!(*handle.speech_client(), 7);
    assert!(handle.take_audio_sink().is_none());
}

#[test]
fn request_from_bytes_wraps_audio() {
    let req = RecognizerV2::<()>::streaming_request_from_bytes(vec![1, 2, 3], "r".to_string());
    assert_eq!(req.recognizer, "r");
    assert_eq!(req.streaming_request, Some(StreamingRequest::Audio(vec![1, 2, 3])));
}

#[test]
fn results_forwarded_in_order_then_clean_end() {
    let mut handle = streaming_handle(None);
    let mut results = handle.get_streaming_result_receiver(Some(8)).unwrap();
    assert_eq!(results.max_capacity(), 8);
    let (_rx, mut pump) = handle.start_streaming().unwrap();
    assert_eq!(pump.on_open(Ok(())), PumpAction::AwaitNext);
    for text in ["one", "two", "three"] {
        match pump.on_read(Ok(Some(response(text))), true) {
            PumpAction::Forward(r) => handle.result_sender().unwrap().try_send(r).unwrap(),
            other => panic!("unexpected action {:?}", other),
        }
    }
    assert_eq!(pump.on_read(Ok(None), handle.result_sender().is_some()), PumpAction::Finish(Ok(())));
    assert_eq!(pump.phase(), PumpPhase::Finished);
    drop(handle);
    assert_eq!(results.try_recv().unwrap(), response("one"));
    assert_eq!(results.try_recv().unwrap(), response("two"));
    assert_eq!(results.try_recv().unwrap(), response("three"));
    assert_eq!(results.try_recv().unwrap_err(), TryRecvError::Disconnected);
}

#[test]
fn read_failure_after_two_results() {
    let mut handle = streaming_handle(None);
    let mut results = handle.get_streaming_result_receiver(None).unwrap();
    assert_eq!(results.max_capacity(), 1000);
    let (_rx, mut pump) = handle.start_streaming().unwrap();
    pump.on_open(Ok(()));
    for text in ["first", "second"] {
        if let PumpAction::Forward(r) = pump.on_read(Ok(Some(response(text))), true) {
            handle.result_sender().unwrap().try_send(r).unwrap();
        } else {
            panic!("result not forwarded");
        }
    }
    assert_eq!(pump.on_read(Err(14), true), PumpAction::Finish(Err(SessionError::StreamError { code: 14 })));
    drop(handle);
    assert_eq!(results.try_recv().unwrap(), response("first"));
    assert_eq!(results.try_recv().unwrap(), response("second"));
    assert_eq!(results.try_recv().unwrap_err(), TryRecvError::Disconnected);
}

#[test]
fn late_consumer_loses_only_earlier_results() {
    let mut handle = streaming_handle(None);
    let (_rx, mut pump) = handle.start_streaming().unwrap();
    pump.on_open(Ok(()));
    let installed = handle.result_sender().is_some();
    assert_eq!(pump.on_read(Ok(Some(response("lost"))), installed), PumpAction::Discard);
    let mut late = handle.get_streaming_result_receiver(Some(2)).unwrap();
    let installed = handle.result_sender().is_some();
    match pump.on_read(Ok(Some(response("kept"))), installed) {
        PumpAction::Forward(r) => handle.result_sender().unwrap().try_send(r).unwrap(),
        other => panic!("unexpected action {:?}", other),
    }
    assert_eq!(pump.on_read(Ok(None), installed), PumpAction::Finish(Ok(())));
    drop(handle);
    assert_eq!(late.try_recv().unwrap(), response("kept"));
    assert_eq!(late.try_recv().unwrap_err(), TryRecvError::Disconnected);
}

#[test]
fn result_receiver_installed_once() {
    let mut handle = streaming_handle(None);
    let first = handle.get_streaming_result_receiver(Some(3)).unwrap();
    assert_eq!(first.max_capacity(), 3);
    assert_eq!(handle.get_streaming_result_receiver(None).unwrap_err(), SessionError::ChannelClosedError);
    assert!(!first.is_closed());
}

#[test]
fn audio_channel_capacity() {
    let mut handle = streaming_handle(Some(5));
    assert_eq!(handle.take_audio_sink().unwrap().max_capacity(), 5);
    let mut default = streaming_handle(None);
    assert_eq!(default.take_audio_sink().unwrap().max_capacity(), 1000);
}

#[test]
fn open_failure_is_stream_error() {
    let mut pump = SessionPump::new();
    assert_eq!(pump.on_open(Err(16)), PumpAction::Finish(Err(SessionError::StreamError { code: 16 })));
    assert_eq!(pump.phase(), PumpPhase::Finished);
}

#[test]
fn synchronous_outcome_is_response_or_error() {
    let resp = RecognizeResponse {
        results: vec![StreamingRecognitionResult {
            transcript: "hello".to_string(),
            is_final: true,
            language_code: "en-US".to_string(),
        }],
    };
    assert_eq!(recognize_outcome(Ok(resp.clone())), Ok(resp));
    assert_eq!(recognize_outcome(Err(3)), Err(SessionError::StreamError { code: 3 }));
}

#[test]
fn explicit_decoding_in_envelope() {
    let config = StreamingRecognitionConfig {
        language_codes: vec!["de-DE".to_string(), "en-US".to_string()],
        model: "short".to_string(),
        decoding: DecodingMode::ExplicitFormat { encoding: 1, sample_rate_hertz: 16000, audio_channel_count: 1 },
        features: None,
    };
    let mut handle =
        RecognizerV2::create_streaming_recognizer(0u8, config.clone(), Some(2), "r".to_string()).unwrap();
    let (mut rx, _) = handle.start_streaming().unwrap();
    let first = rx.try_recv().unwrap();
    assert_eq!(first.streaming_request, Some(StreamingRequest::StreamingConfig(config)));
    assert_eq!(first.recognizer, "r");
}

#[test]
fn transport_open_failure_is_connection_error() {
    let outcome = open_session::<u8, &str, &str>(Err("unreachable"), Ok("token".to_string()));
    assert_eq!(outcome.unwrap_err(), SessionError::ConnectionError);
    let outcome = open_session::<u8, &str, &str>(Err("unreachable"), Err("expired"));
    assert_eq!(outcome.unwrap_err(), SessionError::ConnectionError);
}

#[test]
fn bad_credentials_are_authentication_error() {
    let outcome = open_session::<u8, &str, &str>(Ok(5), Err("expired"));
    assert_eq!(outcome.unwrap_err(), SessionError::AuthenticationError);
    let outcome = open_session::<u8, &str, &str>(Ok(5), Ok("Bearer t".to_string()));
    assert_eq!(outcome.unwrap(), (5, "Bearer t".to_string()));
}
