use whis_core::provider::{
    deepgram_request_plan, deepgram_transcript, dispatch_mode, elevenlabs_request_plan,
    openai_compatible_request_plan, text_response_transcript, CallProgress, DeepgramAlternative,
    DeepgramChannel, DeepgramProvider, DeepgramResponse, DeepgramResults, DispatchMode,
    ElevenLabsProvider, LocalParakeetProvider, LocalWhisperProvider, RequestBody, TextResponse,
    TranscriptionProvider, TranscriptionRequest, TranscriptionStage,
};
use whis_core::errors::TranscribeError;

fn sample_request(language: Option<&str>) -> TranscriptionRequest {
    TranscriptionRequest {
        audio_data: vec![1, 2, 3],
        filename: "audio.mp3".to_string(),
        mime_type: "audio/mp3".to_string(),
        language: language.map(|l| l.to_string()),
    }
}

#[test]
fn test_openai_compatible_plan() {
    let request = sample_request(Some("de"));
    let plan = openai_compatible_request_plan(
        "https://api.openai.com/v1/audio/transcriptions",
        "whisper-1",
        "KEY",
        &request,
    );
    assert_eq!(plan.url, "https://api.openai.com/v1/audio/transcriptions");
    assert!(plan.query.is_empty());
    assert_eq!(plan.headers.len(), 1);
    assert_eq!(plan.headers[0].0, "Authorization");
    assert_eq!(plan.headers[0].1, "Bearer KEY");
    match plan.body {
        RequestBody::Multipart { fields, file_field_name, filename, mime_type } => {
            assert_eq!(file_field_name, "file");
            assert_eq!(filename, "audio.mp3");
            assert_eq!(mime_type, "audio/mp3");
            assert_eq!(
                fields,
                vec![
                    ("model".to_string(), "whisper-1".to_string()),
                    ("language".to_string(), "de".to_string()),
                ]
            );
        }
        RequestBody::Raw { .. } => panic!("expected a multipart body"),
    }
}

#[test]
fn test_openai_compatible_plan_without_language() {
    let request = sample_request(None);
    let plan = openai_compatible_request_plan("https://example.test", "whisper-1", "K", &request);
    match plan.body {
        RequestBody::Multipart { fields, .. } => {
            assert_eq!(fields, vec![("model".to_string(), "whisper-1".to_string())]);
        }
        RequestBody::Raw { .. } => panic!("expected a multipart body"),
    }
}

#[test]
fn test_deepgram_plan() {
    let request = sample_request(Some("en"));
    let plan = deepgram_request_plan("KEY", &request);
    assert_eq!(plan.url, "https://api.deepgram.com/v1/listen");
    assert_eq!(
        plan.query,
        vec![
            ("model".to_string(), "nova-2".to_string()),
            ("smart_format".to_string(), "true".to_string()),
            ("language".to_string(), "en".to_string()),
        ]
    );
    assert_eq!(plan.headers, vec![("Authorization".to_string(), "Token KEY".to_string())]);
    match plan.body {
        RequestBody::Raw { content_type } => assert_eq!(content_type, "audio/mp3"),
        RequestBody::Multipart { .. } => panic!("expected a raw body"),
    }
}

#[test]
fn test_elevenlabs_plan() {
    let request = sample_request(Some("fr"));
    let plan = elevenlabs_request_plan("KEY", &request);
    assert_eq!(plan.url, "https://api.elevenlabs.io/v1/speech-to-text");
    assert_eq!(plan.headers, vec![("xi-api-key".to_string(), "KEY".to_string())]);
    match plan.body {
        RequestBody::Multipart { fields, file_field_name, .. } => {
            assert_eq!(file_field_name, "file");
            assert_eq!(
                fields,
                vec![
                    ("model_id".to_string(), "scribe_v1".to_string()),
                    ("language_code".to_string(), "fr".to_string()),
                ]
            );
        }
        RequestBody::Raw { .. } => panic!("expected a multipart body"),
    }
}

#[test]
fn test_deepgram_transcript_extraction() {
    let resp = DeepgramResponse {
        results: DeepgramResults {
            channels: vec![DeepgramChannel {
                alternatives: vec![
                    DeepgramAlternative { transcript: "hello there".to_string() },
                    DeepgramAlternative { transcript: "hollow here".to_string() },
                ],
            }],
        },
    };
    assert_eq!(deepgram_transcript(&resp).unwrap().text, "hello there");
}

#[test]
fn test_deepgram_missing_transcript_is_format_error() {
    let empty = DeepgramResponse { results: DeepgramResults { channels: vec![] } };
    assert_eq!(deepgram_transcript(&empty), Err(TranscribeError::ResponseFormat));

    let no_alternatives = DeepgramResponse {
        results: DeepgramResults { channels: vec![DeepgramChannel { alternatives: vec![] }] },
    };
    assert_eq!(
        deepgram_transcript(&no_alternatives),
        Err(TranscribeError::ResponseFormat)
    );
}

#[test]
fn test_text_response_transcript() {
    let r = text_response_transcript(TextResponse { text: "spoken words".to_string() });
    assert_eq!(r.text, "spoken words");
}

#[test]
fn test_dispatch_modes() {
    assert_eq!(dispatch_mode(&TranscriptionProvider::OpenAI), DispatchMode::Parallel);
    assert_eq!(dispatch_mode(&TranscriptionProvider::Deepgram), DispatchMode::Parallel);
    assert_eq!(dispatch_mode(&TranscriptionProvider::ElevenLabs), DispatchMode::Parallel);
    assert_eq!(dispatch_mode(&TranscriptionProvider::LocalWhisper), DispatchMode::Sequential);
    assert_eq!(dispatch_mode(&TranscriptionProvider::LocalParakeet), DispatchMode::Sequential);
}

#[test]
fn test_provider_names() {
    assert_eq!(DeepgramProvider.name(), "deepgram");
    assert_eq!(DeepgramProvider.display_name(), "Deepgram Nova");
    assert_eq!(ElevenLabsProvider.name(), "elevenlabs");
    assert_eq!(ElevenLabsProvider.display_name(), "ElevenLabs Scribe");
    assert_eq!(LocalWhisperProvider.name(), "local-whisper");
    assert_eq!(LocalWhisperProvider.display_name(), "Local Whisper");
    assert_eq!(LocalParakeetProvider.name(), "local-parakeet");
    assert_eq!(LocalParakeetProvider.display_name(), "Local Parakeet");
}

#[test]
fn test_progress_reports_once_in_order() {
    let mut progress = CallProgress::new();
    assert_eq!(progress.next_report(), Some(TranscriptionStage::Uploading));
    assert_eq!(progress.next_report(), Some(TranscriptionStage::Transcribing));
    // Nothing further, however many attempts the retry loop makes.
    assert_eq!(progress.next_report(), None);
    assert_eq!(progress.next_report(), None);
}

#[test]
fn test_request_for_chunk_names_by_index() {
    let chunk = whis_core::encoder::AudioChunk {
        data: vec![9, 8, 7],
        index: 12,
        has_leading_overlap: true,
    };
    let request = whis_core::provider::request_for_chunk(&chunk, Some("en".to_string()));
    assert_eq!(request.audio_data, vec![9, 8, 7]);
    assert_eq!(request.filename, "chunk-12.mp3");
    assert_eq!(request.mime_type, "audio/mp3");
    assert_eq!(request.language.as_deref(), Some("en"));

    let zero = whis_core::encoder::AudioChunk { data: vec![], index: 0, has_leading_overlap: false };
    assert_eq!(whis_core::provider::request_for_chunk(&zero, None).filename, "chunk-0.mp3");
}

#[test]
fn test_local_transcript_joins_and_trims() {
    let segments = vec![
        " Hello".to_string(),
        " there,".to_string(),
        " general listener. ".to_string(),
    ];
    let result = whis_core::provider::local_transcript_text(&segments);
    assert_eq!(result.text, "Hello there, general listener.");

    assert_eq!(whis_core::provider::local_transcript_text(&vec![]).text, "");
}
