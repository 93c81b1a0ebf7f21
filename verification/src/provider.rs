//! Transcription backends: the capability contract each provider
//! implements, the exact wire formats of the remote providers, and the
//! response-shape logic that digs the transcript out of each provider's
//! reply.
//!
//! Remote calls themselves are I/O and live with the caller; this module
//! computes everything around them: the request plan (URL, headers, query
//! parameters, form fields) that must be reproduced exactly per provider,
//! the progress-event discipline (exactly one `Uploading`, then exactly one
//! `Transcribing`, before resolution), and the extraction of the transcript
//! from the parsed response, where a well-formed reply without a transcript
//! is a response-format error, never a silent empty result.

use vstd::prelude::*;
use crate::encoder::AudioChunk;
use crate::errors::TranscribeError;
use crate::text::{push_decimal, spec_decimal, spec_trim_ws, trim_ws};

verus! {

/// Progress stages reported to observers during one transcription call.
#[derive(Debug, Clone, Copy, PartialEq, Eq, Structural)]
pub enum TranscriptionStage {
    /// The audio payload is being sent.
    Uploading,
    /// The request is sent; awaiting the transcript.
    Transcribing,
}

/// One transcription request: the encoded audio and its metadata.  Scoped
/// to one dispatch.
#[derive(Debug, Clone, PartialEq, Eq)]
pub struct TranscriptionRequest {
    /// Encoded audio bytes.
    pub audio_data: Vec<u8>,
    /// File name reported to multipart providers.
    pub filename: String,
    /// MIME type of `audio_data`.
    pub mime_type: String,
    /// Optional language hint.
    pub language: Option<String>,
}

/// The transcript of one resolved request.
#[derive(Debug, Clone, PartialEq, Eq)]
pub struct TranscriptionResult {
    /// The transcribed text.
    pub text: String,
}

/// The transcription providers the pipeline can dispatch to.
#[derive(Debug, Clone, Copy, PartialEq, Eq, Structural)]
pub enum TranscriptionProvider {
    /// OpenAI Whisper API (multipart, bearer auth).
    OpenAI,
    /// Groq Whisper API (multipart, bearer auth).
    Groq,
    /// Mistral Voxtral API (multipart, bearer auth).
    Mistral,
    /// Deepgram Nova (raw body, token auth, query options).
    Deepgram,
    /// ElevenLabs Scribe (multipart, header auth).
    ElevenLabs,
    /// Local whisper.cpp inference.
    LocalWhisper,
    /// Local Parakeet inference.
    LocalParakeet,
}

impl TranscriptionProvider {
    /// Whether this provider runs in-process on a local model.
    pub open spec fn spec_is_local(self) -> bool {
        self == TranscriptionProvider::LocalWhisper || self == TranscriptionProvider::LocalParakeet
    }

    /// Whether this provider runs in-process on a local model.
    pub fn is_local(&self) -> (r: bool)
        ensures
            r == self.spec_is_local(),
    {
        matches!(self, TranscriptionProvider::LocalWhisper | TranscriptionProvider::LocalParakeet)
    }
}

/// How concurrently dispatched chunks may run on a provider.
#[derive(Debug, Clone, Copy, PartialEq, Eq, Structural)]
pub enum DispatchMode {
    /// Remote providers: chunks are dispatched concurrently and may
    /// complete out of order.
    Parallel,
    /// Local providers: one model instance, strictly one chunk at a time.
    Sequential,
}

/// Remote providers dispatch in parallel; local inference is serialized to
/// bound resource use.
pub fn dispatch_mode(provider: &TranscriptionProvider) -> (m: DispatchMode)
    ensures
        m == (if provider.spec_is_local() {
            DispatchMode::Sequential
        } else {
            DispatchMode::Parallel
        }),
{
    if provider.is_local() {
        DispatchMode::Sequential
    } else {
        DispatchMode::Parallel
    }
}

/// Deepgram Nova transcription provider: raw-body upload with query
/// options.
#[derive(Debug, Default, Clone, PartialEq, Eq, Structural)]
pub struct DeepgramProvider;

impl DeepgramProvider {
    /// The provider's identifier.
    pub fn name(&self) -> (r: &'static str)
        ensures
            r@ == "deepgram"@,
    {
        "deepgram"
    }

    /// The provider's human-readable name.
    pub fn display_name(&self) -> (r: &'static str)
        ensures
            r@ == "Deepgram Nova"@,
    {
        "Deepgram Nova"
    }
}

/// ElevenLabs Scribe transcription provider: multipart upload with
/// `xi-api-key` auth.
#[derive(Debug, Default, Clone, PartialEq, Eq, Structural)]
pub struct ElevenLabsProvider;

impl ElevenLabsProvider {
    /// The provider's identifier.
    pub fn name(&self) -> (r: &'static str)
        ensures
            r@ == "elevenlabs"@,
    {
        "elevenlabs"
    }

    /// The provider's human-readable name.
    pub fn display_name(&self) -> (r: &'static str)
        ensures
            r@ == "ElevenLabs Scribe"@,
    {
        "ElevenLabs Scribe"
    }
}

/// Local whisper.cpp transcription provider.
#[derive(Debug, Default, Clone, PartialEq, Eq, Structural)]
pub struct LocalWhisperProvider;

impl LocalWhisperProvider {
    /// The provider's identifier.
    pub fn name(&self) -> (r: &'static str)
        ensures
            r@ == "local-whisper"@,
    {
        "local-whisper"
    }

    /// The provider's human-readable name.
    pub fn display_name(&self) -> (r: &'static str)
        ensures
            r@ == "Local Whisper"@,
    {
        "Local Whisper"
    }
}

/// Local Parakeet transcription provider.
#[derive(Debug, Default, Clone, PartialEq, Eq, Structural)]
pub struct LocalParakeetProvider;

impl LocalParakeetProvider {
    /// The provider's identifier.
    pub fn name(&self) -> (r: &'static str)
        ensures
            r@ == "local-parakeet"@,
    {
        "local-parakeet"
    }

    /// The provider's human-readable name.
    pub fn display_name(&self) -> (r: &'static str)
        ensures
            r@ == "Local Parakeet"@,
    {
        "Local Parakeet"
    }
}

/// How the audio payload is attached to the HTTP request.
#[derive(Debug, Clone, PartialEq, Eq)]
pub enum RequestBody {
    /// Multipart form upload: the given text fields, plus one file part
    /// holding the audio bytes under `file_field_name`.
    Multipart {
        /// Plain text form fields, in order.
        fields: Vec<(String, String)>,
        /// Name of the file part.
        file_field_name: String,
        /// File name of the file part.
        filename: String,
        /// MIME type of the file part.
        mime_type: String,
    },
    /// The audio bytes are the request body, with this content type.
    Raw {
        /// Value of the `Content-Type` header.
        content_type: String,
    },
}

/// Everything the transport needs to perform one provider request, with the
/// audio bytes supplied separately by the owning request.
#[derive(Debug, Clone, PartialEq, Eq)]
pub struct HttpRequestPlan {
    /// The endpoint URL.
    pub url: String,
    /// Query parameters, in order.
    pub query: Vec<(String, String)>,
    /// HTTP headers, in order.
    pub headers: Vec<(String, String)>,
    /// How the audio payload travels.
    pub body: RequestBody,
}

/// The endpoint of the Deepgram listen API.
pub fn deepgram_api_url() -> (r: &'static str)
    ensures
        r@ == "https://api.deepgram.com/v1/listen"@,
{
    "https://api.deepgram.com/v1/listen"
}

/// The Deepgram model the pipeline requests.
pub fn deepgram_model() -> (r: &'static str)
    ensures
        r@ == "nova-2"@,
{
    "nova-2"
}

/// The endpoint of the ElevenLabs speech-to-text API.
pub fn elevenlabs_api_url() -> (r: &'static str)
    ensures
        r@ == "https://api.elevenlabs.io/v1/speech-to-text"@,
{
    "https://api.elevenlabs.io/v1/speech-to-text"
}

/// The ElevenLabs model the pipeline requests.
pub fn elevenlabs_model() -> (r: &'static str)
    ensures
        r@ == "scribe_v1"@,
{
    "scribe_v1"
}

/// The request plan of an OpenAI-compatible provider (OpenAI, Groq,
/// Mistral): multipart form with `model` and `file` fields (plus `language`
/// when given), authorized by `Authorization: Bearer <key>`.
pub fn openai_compatible_request_plan(
    api_url: &str,
    model: &str,
    api_key: &str,
    request: &TranscriptionRequest,
) -> (r: HttpRequestPlan)
    ensures
        r.url@ == api_url@,
        r.query@.len() == 0,
        r.headers@.len() == 1,
        r.headers@[0].0@ == "Authorization"@,
        r.headers@[0].1@ == "Bearer "@ + api_key@,
        r.body matches RequestBody::Multipart { fields, file_field_name, filename, mime_type } && {
            &&& file_field_name@ == "file"@
            &&& filename@ == request.filename@
            &&& mime_type@ == request.mime_type@
            &&& fields@[0].0@ == "model"@ && fields@[0].1@ == model@
            &&& request.language matches Option::Some(lang) ==> fields@.len() == 2
                && fields@[1].0@ == "language"@ && fields@[1].1@ == lang@
            &&& request.language is None ==> fields@.len() == 1
        },
{
    let mut auth = String::from_str("Bearer ");
    auth.append(api_key);
    let mut headers: Vec<(String, String)> = Vec::new();
    headers.push((String::from_str("Authorization"), auth));

    let mut fields: Vec<(String, String)> = Vec::new();
    fields.push((String::from_str("model"), String::from_str(model)));
    match &request.language {
        Option::Some(lang) => {
            fields.push((String::from_str("language"), lang.clone()));
        },
        Option::None => {},
    }
    HttpRequestPlan {
        url: String::from_str(api_url),
        query: Vec::new(),
        headers,
        body: RequestBody::Multipart {
            fields,
            file_field_name: String::from_str("file"),
            filename: request.filename.clone(),
            mime_type: request.mime_type.clone(),
        },
    }
}

/// The Deepgram request plan: the audio bytes as the raw body, `model` and
/// `smart_format` (plus `language` when given) as query parameters, and
/// `Authorization: Token <key>`.
pub fn deepgram_request_plan(api_key: &str, request: &TranscriptionRequest) -> (r: HttpRequestPlan)
    ensures
        r.url@ == "https://api.deepgram.com/v1/listen"@,
        r.query@[0].0@ == "model"@ && r.query@[0].1@ == "nova-2"@,
        r.query@[1].0@ == "smart_format"@ && r.query@[1].1@ == "true"@,
        request.language matches Option::Some(lang) ==> r.query@.len() == 3 && r.query@[2].0@
            == "language"@ && r.query@[2].1@ == lang@,
        request.language is None ==> r.query@.len() == 2,
        r.headers@.len() == 1,
        r.headers@[0].0@ == "Authorization"@,
        r.headers@[0].1@ == "Token "@ + api_key@,
        r.body matches RequestBody::Raw { content_type } && content_type@ == request.mime_type@,
{
    let mut auth = String::from_str("Token ");
    auth.append(api_key);
    let mut headers: Vec<(String, String)> = Vec::new();
    headers.push((String::from_str("Authorization"), auth));

    let mut query: Vec<(String, String)> = Vec::new();
    query.push((String::from_str("model"), String::from_str(deepgram_model())));
    query.push((String::from_str("smart_format"), String::from_str("true")));
    match &request.language {
        Option::Some(lang) => {
            query.push((String::from_str("language"), lang.clone()));
        },
        Option::None => {},
    }
    HttpRequestPlan {
        url: String::from_str(deepgram_api_url()),
        query,
        headers,
        body: RequestBody::Raw { content_type: request.mime_type.clone() },
    }
}

/// The ElevenLabs request plan: multipart form with `model_id` and `file`
/// fields (plus `language_code` when given), authorized by the `xi-api-key`
/// header.
pub fn elevenlabs_request_plan(api_key: &str, request: &TranscriptionRequest) -> (r:
    HttpRequestPlan)
    ensures
        r.url@ == "https://api.elevenlabs.io/v1/speech-to-text"@,
        r.query@.len() == 0,
        r.headers@.len() == 1,
        r.headers@[0].0@ == "xi-api-key"@,
        r.headers@[0].1@ == api_key@,
        r.body matches RequestBody::Multipart { fields, file_field_name, filename, mime_type } && {
            &&& file_field_name@ == "file"@
            &&& filename@ == request.filename@
            &&& mime_type@ == request.mime_type@
            &&& fields@[0].0@ == "model_id"@ && fields@[0].1@ == "scribe_v1"@
            &&& request.language matches Option::Some(lang) ==> fields@.len() == 2
                && fields@[1].0@ == "language_code"@ && fields@[1].1@ == lang@
            &&& request.language is None ==> fields@.len() == 1
        },
{
    let mut headers: Vec<(String, String)> = Vec::new();
    headers.push((String::from_str("xi-api-key"), String::from_str(api_key)));

    let mut fields: Vec<(String, String)> = Vec::new();
    fields.push((String::from_str("model_id"), String::from_str(elevenlabs_model())));
    match &request.language {
        Option::Some(lang) => {
            fields.push((String::from_str("language_code"), lang.clone()));
        },
        Option::None => {},
    }
    HttpRequestPlan {
        url: String::from_str(elevenlabs_api_url()),
        query: Vec::new(),
        headers,
        body: RequestBody::Multipart {
            fields,
            file_field_name: String::from_str("file"),
            filename: request.filename.clone(),
            mime_type: request.mime_type.clone(),
        },
    }
}

/// The response shape of OpenAI-compatible providers and of ElevenLabs: a
/// JSON object with a `text` field.
#[derive(Debug, Clone, PartialEq, Eq)]
pub struct TextResponse {
    /// The transcript.
    pub text: String,
}

/// Extract the transcript from an OpenAI-compatible (or ElevenLabs)
/// response.
pub fn text_response_transcript(resp: TextResponse) -> (r: TranscriptionResult)
    ensures
        r.text == resp.text,
{
    TranscriptionResult { text: resp.text }
}

/// One alternative of one Deepgram channel.
#[derive(Debug, Clone, PartialEq, Eq)]
pub struct DeepgramAlternative {
    /// The transcript of this alternative.
    pub transcript: String,
}

/// One Deepgram channel: alternatives ordered by confidence.
#[derive(Debug, Clone, PartialEq, Eq)]
pub struct DeepgramChannel {
    /// The channel's alternatives.
    pub alternatives: Vec<DeepgramAlternative>,
}

/// The `results` object of a Deepgram response.
#[derive(Debug, Clone, PartialEq, Eq)]
pub struct DeepgramResults {
    /// One entry per audio channel.
    pub channels: Vec<DeepgramChannel>,
}

/// A parsed Deepgram response.
#[derive(Debug, Clone, PartialEq, Eq)]
pub struct DeepgramResponse {
    /// The response's `results` object.
    pub results: DeepgramResults,
}

/// Extract the transcript of the first alternative of the first channel of
/// a Deepgram response.  A reply without channels or without alternatives
/// is well formed but holds no transcript: that is a response-format error,
/// never an empty success.
pub fn deepgram_transcript(resp: &DeepgramResponse) -> (r: Result<
    TranscriptionResult,
    TranscribeError,
>)
    ensures
        resp.results.channels@.len() > 0 && resp.results.channels@[0].alternatives@.len() > 0
            ==> (r matches Result::Ok(t) && t.text
            == resp.results.channels@[0].alternatives@[0].transcript),
        resp.results.channels@.len() == 0 || resp.results.channels@[0].alternatives@.len() == 0
            ==> r == Result::<TranscriptionResult, TranscribeError>::Err(
            TranscribeError::ResponseFormat,
        ),
{
    if resp.results.channels.len() == 0 {
        return Result::Err(TranscribeError::ResponseFormat);
    }
    let channel = &resp.results.channels[0];
    if channel.alternatives.len() == 0 {
        return Result::Err(TranscribeError::ResponseFormat);
    }
    Result::Ok(TranscriptionResult { text: channel.alternatives[0].transcript.clone() })
}

/// The progress-event discipline of one transcription call: exactly one
/// `Uploading` report, then exactly one `Transcribing` report, then the
/// resolution — never more, never reordered.  The caller asks which stage
/// to report next; retries report nothing further.
#[derive(Debug, Clone, Copy, PartialEq, Eq, Structural)]
pub struct CallProgress {
    /// Whether `Uploading` was reported.
    pub uploading_reported: bool,
    /// Whether `Transcribing` was reported.
    pub transcribing_reported: bool,
}

impl CallProgress {
    /// `Transcribing` never precedes `Uploading`.
    pub open spec fn wf(self) -> bool {
        self.transcribing_reported ==> self.uploading_reported
    }

    /// A call that has reported nothing yet.
    pub fn new() -> (p: Self)
        ensures
            p == (CallProgress { uploading_reported: false, transcribing_reported: false }),
    {
        CallProgress { uploading_reported: false, transcribing_reported: false }
    }

    /// The stage to report now, if any: `Uploading` first, `Transcribing`
    /// second, nothing afterwards.  Each stage is handed out exactly once.
    pub fn next_report(&mut self) -> (r: Option<TranscriptionStage>)
        requires
            old(self).wf(),
        ensures
            final(self).wf(),
            !old(self).uploading_reported ==> r == Option::Some(TranscriptionStage::Uploading)
                && final(self).uploading_reported && !final(self).transcribing_reported,
            old(self).uploading_reported && !old(self).transcribing_reported ==> r == Option::Some(
                TranscriptionStage::Transcribing,
            ) && final(self).transcribing_reported,
            old(self).uploading_reported && old(self).transcribing_reported ==> r is None
                && *final(self) == *old(self),
    {
        if !self.uploading_reported {
            self.uploading_reported = true;
            Option::Some(TranscriptionStage::Uploading)
        } else if !self.transcribing_reported {
            self.transcribing_reported = true;
            Option::Some(TranscriptionStage::Transcribing)
        } else {
            Option::None
        }
    }
}


/// Build the transcription request of one encoded chunk: the encoded
/// bytes travel as an MP3 file named after the chunk's index.
pub fn request_for_chunk(chunk: &AudioChunk, language: Option<String>) -> (r:
    TranscriptionRequest)
    ensures
        r.audio_data@ == chunk.data@,
        r.filename@ == "chunk-"@ + spec_decimal(chunk.index as nat) + ".mp3"@,
        r.mime_type@ == "audio/mp3"@,
        r.language == language,
{
    let mut filename = String::from_str("chunk-");
    push_decimal(&mut filename, chunk.index as u64);
    filename.append(".mp3");
    TranscriptionRequest {
        audio_data: chunk.data.clone(),
        filename,
        mime_type: String::from_str("audio/mp3"),
        language,
    }
}


/// The concatenation of a list of text segments, in order.
pub open spec fn spec_joined(segments: Seq<Seq<char>>) -> Seq<char>
    decreases segments.len(),
{
    if segments.len() == 0 {
        Seq::empty()
    } else {
        spec_joined(segments.drop_last()) + segments.last()
    }
}

/// Assemble a local backend's transcript from the text segments its
/// inference engine produced: the segments concatenated in order, with
/// surrounding whitespace trimmed.  Verified for whatever segments the
/// engine returns.
#[verifier::loop_isolation(false)]
pub fn local_transcript_text(segments: &Vec<String>) -> (r: TranscriptionResult)
    ensures
        r.text@ == spec_trim_ws(spec_joined(segments.deep_view())),
{
    let mut acc = String::new();
    let mut i: usize = 0;
    while i < segments.len()
        invariant
            i <= segments@.len(),
            acc@ == spec_joined(segments.deep_view().subrange(0, i as int)),
        decreases segments@.len() - i,
    {
        acc.append(segments[i].as_str());
        i = i + 1;
        proof {
            assert(segments.deep_view().subrange(0, i as int).drop_last() =~= segments.deep_view()
                .subrange(0, i - 1));
            assert(acc@ =~= spec_joined(segments.deep_view().subrange(0, i as int)));
        }
    }
    proof {
        assert(segments.deep_view().subrange(0, segments@.len() as int) =~= segments.deep_view());
    }
    let trimmed = trim_ws(acc.as_str());
    TranscriptionResult { text: trimmed.to_owned() }
}

} // verus!


