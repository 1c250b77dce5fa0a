//! The OpenRouter chat-completions transcription request: its body, and
//! the reading of the reply.
use vstd::prelude::*;
use crate::credentials::{CredentialsView, bearer, bearer_authorization};
use crate::encoding::{base64_encode, base64_standard, base64_input_fits, base64_fits, base64_decode, lemma_base64_round_trip};
use crate::error::{TranscriptionError, ErrorView};
use crate::json::{JsonStep, JsonStepView, read_json_strings, json_string_fields, json_quote, json_string_literal, fields_view, opt_str_view, path_view, paths_view};
use crate::pcm::{samples_to_wav, wav_pcm16, s16le_samples, lemma_s16le_round_trip, lemma_wav_layout, CHANNELS, SAMPLE_RATE_HZ, MAX_WAV_SAMPLES, WAV_HEADER_LEN};
use crate::text::{trim_white_space, trim_white_space_str};

verus! {

/// The chat-completions endpoint.
pub const OPENROUTER_API_URL: &'static str = "https://openrouter.ai/api/v1/chat/completions";

/// Seconds to wait for the reply.
pub const TIMEOUT_SECS: u64 = 60;

/// The instruction sent with the audio.
pub const TRANSCRIPTION_PROMPT: &'static str = "Transcribe this audio exactly as spoken. Output only the transcription text, nothing else.";

/// The JSON body of a request asking `model` to transcribe the WAV file
/// whose base64 text is `audio` (members in sorted order, as `serde_json`
/// writes them).
pub open spec fn request_body_text(model: Seq<char>, audio: Seq<char>) -> Seq<char> {
    "{\"messages\":[{\"content\":[{\"text\":\""@ + TRANSCRIPTION_PROMPT@
        + "\",\"type\":\"text\"},{\"input_audio\":{\"data\":\""@ + audio
        + "\",\"format\":\"wav\"},\"type\":\"input_audio\"}],\"role\":\"user\"}],\"model\":"@
        + json_string_literal(model) + "}"@
}

/// Whether an HTTP status reports success (200 to 299).
pub open spec fn is_success(status: u16) -> bool {
    200 <= status < 300
}

/// The reason phrase that `http` gives a status code, if it knows one.
pub uninterp spec fn canonical_reason(code: u16) -> Option<Seq<char>>;

/// The decimal digit `d` (below 10).
pub open spec fn digit_char(d: u16) -> char {
    (0x30 + d) as char
}

/// How a status code between 100 and 999 is displayed: its three digits, a
/// space, and its reason phrase or `<unknown status code>`.
pub open spec fn status_line(code: u16) -> Seq<char> {
    status_line_with(code, canonical_reason(code))
}

/// The place of the message in an error reply.
pub open spec fn error_paths() -> Seq<Seq<JsonStepView>> {
    seq![seq![JsonStepView::Field("error"@), JsonStepView::Field("message"@)]]
}

/// The places of the transcription in a reply: the first choice's message
/// `content`, then its `audio.transcript`.
pub open spec fn completion_paths() -> Seq<Seq<JsonStepView>> {
    seq![
        seq![
            JsonStepView::Field("choices"@),
            JsonStepView::Item(0),
            JsonStepView::Field("message"@),
            JsonStepView::Field("content"@),
        ],
        seq![
            JsonStepView::Field("choices"@),
            JsonStepView::Item(0),
            JsonStepView::Field("message"@),
            JsonStepView::Field("audio"@),
            JsonStepView::Field("transcript"@),
        ],
    ]
}

/// The transcription in a reply whose strings at [`completion_paths`] are
/// `fields`: the content if it is a non-empty string, else the audio
/// transcript, else nothing.
pub open spec fn reply_text(fields: Seq<Option<Seq<char>>>) -> Seq<char> {
    match fields[0] {
        Some(content) if content.len() > 0 => content,
        _ => match fields[1] {
            Some(transcript) => transcript,
            None => Seq::empty(),
        },
    }
}

/// What a reply with `status` and `body` comes to.
pub open spec fn response_outcome(status: u16, body: Seq<char>) -> Result<Seq<char>, ErrorView> {
    if !is_success(status) {
        match json_string_fields(body, error_paths()) {
            Ok(fields) => Err(
                ErrorView::OpenRouterApi(
                    match fields[0] {
                        Some(message) => message,
                        None => body,
                    },
                ),
            ),
            Err(_) => Err(ErrorView::OpenRouterStatus(status_line(status), body)),
        }
    } else {
        match json_string_fields(body, completion_paths()) {
            Ok(fields) => Ok(trim_white_space(reply_text(fields))),
            Err(e) => Err(ErrorView::OpenRouterBadResponse(e)),
        }
    }
}

/// A reply whose status reports no success is always an error, and a
/// successful reply is an error only when its body is no JSON document.
pub proof fn lemma_status_decides_failure(status: u16, body: Seq<char>)
    ensures
        !is_success(status) ==> response_outcome(status, body) is Err,
        is_success(status) && response_outcome(status, body) is Err ==> response_outcome(
            status,
            body,
        )->Err_0 is OpenRouterBadResponse,
{
}

/// The samples are recoverable from a request: decoding the base64 text
/// sent gives the WAV file, whose bytes after the header decode to the
/// samples.
pub proof fn lemma_request_audio_recoverable(samples: Seq<i16>)
    requires
        samples.len() <= MAX_WAV_SAMPLES,
    ensures
        ({
            let wav = wav_pcm16(CHANNELS, SAMPLE_RATE_HZ, samples);
            &&& base64_decode(base64_standard(wav)) == wav
            &&& s16le_samples(wav.subrange(WAV_HEADER_LEN as int, wav.len() as int)) == samples
        }),
{
    let wav = wav_pcm16(CHANNELS, SAMPLE_RATE_HZ, samples);
    lemma_base64_round_trip(wav);
    lemma_wav_layout(CHANNELS, SAMPLE_RATE_HZ, samples);
    lemma_s16le_round_trip(samples);
}

/// The request body carries the whole recording: it holds `"data":"`,
/// then the complete base64 text of the WAV file, then
/// `","format":"wav"`; decoding that text gives back the WAV file, whose
/// bytes after the header are the samples.
pub proof fn lemma_request_body_carries_audio(model: Seq<char>, samples: Seq<i16>)
    requires
        samples.len() <= MAX_WAV_SAMPLES,
    ensures
        ({
            let wav = wav_pcm16(CHANNELS, SAMPLE_RATE_HZ, samples);
            let body = request_body_text(model, base64_standard(wav));
            exists|i: int, j: int|
                {
                    &&& 8 <= i <= j
                    &&& j + 16 <= body.len()
                    &&& body.subrange(i - 8, i) == "\"data\":\""@
                    &&& body.subrange(j, j + 16) == "\",\"format\":\"wav\""@
                    &&& base64_decode(body.subrange(i, j)) == wav
                    &&& s16le_samples(
                        base64_decode(body.subrange(i, j)).subrange(
                            WAV_HEADER_LEN as int,
                            wav.len() as int,
                        ),
                    ) == samples
                }
        }),
{
    let wav = wav_pcm16(CHANNELS, SAMPLE_RATE_HZ, samples);
    let audio = base64_standard(wav);
    let body = request_body_text(model, audio);
    let head = "{\"messages\":[{\"content\":[{\"text\":\""@ + TRANSCRIPTION_PROMPT@
        + "\",\"type\":\"text\"},{\"input_audio\":{\"data\":\""@;
    let tail = "\",\"format\":\"wav\"},\"type\":\"input_audio\"}],\"role\":\"user\"}],\"model\":"@
        + json_string_literal(model) + "}"@;
    assert(body =~= head + audio + tail);
    let i = head.len() as int;
    let j = i + audio.len();
    reveal_strlit("\",\"type\":\"text\"},{\"input_audio\":{\"data\":\"");
    reveal_strlit("\"data\":\"");
    reveal_strlit("\",\"format\":\"wav\"},\"type\":\"input_audio\"}],\"role\":\"user\"}],\"model\":");
    reveal_strlit("\",\"format\":\"wav\"");
    assert(body.subrange(i, j) =~= audio);
    assert(body.subrange(i - 8, i) =~= "\"data\":\""@);
    assert(body.subrange(j, j + 16) =~= "\",\"format\":\"wav\""@);
    lemma_request_audio_recoverable(samples);
}

/// A non-empty `content` is the transcription, whatever the audio
/// transcript holds.
pub proof fn lemma_content_preferred(content: Seq<char>, transcript: Option<Seq<char>>)
    requires
        content.len() > 0,
    ensures
        reply_text(seq![Some(content), transcript]) == content,
{
}

/// A transcription outcome, by its characters.
pub open spec fn outcome_view(res: Result<String, TranscriptionError>) -> Result<Seq<char>, ErrorView> {
    match res {
        Ok(text) => Ok(text@),
        Err(e) => Err(e@),
    }
}

/// An OpenRouter transcription engine: an API key and a model name.
pub struct OpenRouterEngine {
    api_key: String,
    model: String,
}

impl View for OpenRouterEngine {
    type V = CredentialsView;

    closed spec fn view(&self) -> CredentialsView {
        CredentialsView { api_key: self.api_key@, model: self.model@ }
    }
}

impl OpenRouterEngine {
    /// An engine that authenticates with `api_key` and asks for `model`.
    pub fn new(api_key: String, model: String) -> (res: Self)
        ensures
            res@.api_key == api_key@,
            res@.model == model@,
    {
        OpenRouterEngine { api_key, model }
    }

    /// The `Authorization` header value for this engine's key.
    pub fn authorization(&self) -> (res: String)
        ensures
            res@ == bearer(self@.api_key),
    {
        bearer_authorization(self.api_key.as_str())
    }

    /// The model name.
    pub fn model(&self) -> (res: &str)
        ensures
            res@ == self@.model,
    {
        self.model.as_str()
    }

    /// The body of a request that asks this engine's model to transcribe
    /// the WAV file `wav`.
    pub fn request_body(&self, wav: &[u8]) -> (res: String)
        requires
            base64_input_fits(wav@.len()),
        ensures
            res@ == request_body_text(self@.model, base64_standard(wav@)),
    {
        let audio = base64_encode(wav);
        let mut s = String::from_str("{\"messages\":[{\"content\":[{\"text\":\"");
        s.append(TRANSCRIPTION_PROMPT);
        s.append("\",\"type\":\"text\"},{\"input_audio\":{\"data\":\"");
        s.append(audio.as_str());
        s.append("\",\"format\":\"wav\"},\"type\":\"input_audio\"}],\"role\":\"user\"}],\"model\":");
        let model = json_quote(self.model.as_str());
        s.append(model.as_str());
        s.append("}");
        s
    }

    /// The body of a request that asks this engine's model to transcribe
    /// `samples`, sent as a mono 16 kHz WAV file.
    pub fn request_body_for_samples(&self, samples: &[i16]) -> (res: String)
        requires
            samples@.len() <= MAX_WAV_SAMPLES,
            base64_input_fits(44 + 2 * samples@.len()),
        ensures
            res@ == request_body_text(
                self@.model,
                base64_standard(wav_pcm16(CHANNELS, SAMPLE_RATE_HZ, samples@)),
            ),
    {
        let wav = samples_to_wav(samples);
        proof {
            lemma_wav_layout(CHANNELS, SAMPLE_RATE_HZ, samples@);
        }
        self.request_body(wav.as_slice())
    }
}

/// Whether a request for `n` samples can be built: their WAV file fits the
/// 32-bit sizes of its header and can be base64-encoded.
pub fn samples_fit_request(n: usize) -> (res: bool)
    ensures
        res == (n <= MAX_WAV_SAMPLES && base64_input_fits(44 + 2 * n as nat)),
{
    if n <= MAX_WAV_SAMPLES && n <= (usize::MAX - 44) / 2 {
        base64_fits(44 + 2 * n)
    } else {
        proof {
            let m: int = 44 + 2 * (n as int);
            assert(4 * ((m + 2) / 3) >= m) by (nonlinear_arith)
                requires
                    m >= 0,
            ;
        }
        false
    }
}

/// Whether `status` reports success.
pub fn is_success_status(status: u16) -> (res: bool)
    ensures
        res == is_success(status),
{
    200 <= status && status < 300
}

/// `reqwest::StatusCode::from_u16` and `canonical_reason`, which the `http`
/// crate takes from its table of registered phrases. Named, not stated.
#[verifier::external_body]
fn status_reason(code: u16) -> (res: Option<String>)
    requires
        100 <= code <= 999,
    ensures
        opt_str_view(res) == canonical_reason(code),
{
    match reqwest::StatusCode::from_u16(code) {
        Ok(status) => status.canonical_reason().map(String::from),
        Err(_) => None,
    }
}

fn digit_str(d: u16) -> (res: &'static str)
    requires
        d < 10,
    ensures
        res@ == seq![digit_char(d)],
{
    proof {
        reveal_strlit("0");
        reveal_strlit("1");
        reveal_strlit("2");
        reveal_strlit("3");
        reveal_strlit("4");
        reveal_strlit("5");
        reveal_strlit("6");
        reveal_strlit("7");
        reveal_strlit("8");
        reveal_strlit("9");
    }
    let res = match d {
        0 => "0",
        1 => "1",
        2 => "2",
        3 => "3",
        4 => "4",
        5 => "5",
        6 => "6",
        7 => "7",
        8 => "8",
        _ => "9",
    };
    assert(res@ =~= seq![digit_char(d)]);
    res
}

/// How a status code between 100 and 999 is displayed with the reason
/// phrase `reason`, if any.
pub open spec fn status_line_with(code: u16, reason: Option<Seq<char>>) -> Seq<char> {
    seq![digit_char(code / 100), digit_char((code / 10) % 10), digit_char(code % 10)] + " "@
        + match reason {
        Some(r) => r,
        None => "<unknown status code>"@,
    }
}

/// The status line of `code` with the reason phrase `reason`.
pub fn format_status_line(code: u16, reason: Option<String>) -> (res: String)
    requires
        100 <= code <= 999,
    ensures
        res@ == status_line_with(code, opt_str_view(reason)),
{
    let mut s = String::from_str(digit_str(code / 100));
    s.append(digit_str((code / 10) % 10));
    s.append(digit_str(code % 10));
    s.append(" ");
    match reason {
        Some(r) => s.append(r.as_str()),
        None => s.append("<unknown status code>"),
    }
    s
}

/// The status line of a code between 100 and 999, as `reqwest` displays it.
pub fn status_line_of(code: u16) -> (res: String)
    requires
        100 <= code <= 999,
    ensures
        res@ == status_line(code),
{
    format_status_line(code, status_reason(code))
}

fn error_path_list() -> (res: Vec<Vec<JsonStep>>)
    ensures
        paths_view(res@) == error_paths(),
        res@.len() == 1,
{
    let mut path = Vec::new();
    path.push(JsonStep::Field(String::from_str("error")));
    path.push(JsonStep::Field(String::from_str("message")));
    assert(path_view(path) =~= seq![JsonStepView::Field("error"@), JsonStepView::Field("message"@)]);
    let mut paths = Vec::new();
    paths.push(path);
    assert(paths_view(paths@) =~= error_paths());
    paths
}

fn completion_path_list() -> (res: Vec<Vec<JsonStep>>)
    ensures
        paths_view(res@) == completion_paths(),
        res@.len() == 2,
{
    let mut content = Vec::new();
    content.push(JsonStep::Field(String::from_str("choices")));
    content.push(JsonStep::Item(0));
    content.push(JsonStep::Field(String::from_str("message")));
    content.push(JsonStep::Field(String::from_str("content")));
    assert(path_view(content) =~= completion_paths()[0]);
    let mut transcript = Vec::new();
    transcript.push(JsonStep::Field(String::from_str("choices")));
    transcript.push(JsonStep::Item(0));
    transcript.push(JsonStep::Field(String::from_str("message")));
    transcript.push(JsonStep::Field(String::from_str("audio")));
    transcript.push(JsonStep::Field(String::from_str("transcript")));
    assert(path_view(transcript) =~= completion_paths()[1]);
    let mut paths = Vec::new();
    paths.push(content);
    paths.push(transcript);
    assert(paths_view(paths@) =~= completion_paths());
    paths
}

/// The transcription in a successful reply whose strings at
/// [`completion_paths`] are `fields`, trimmed.
pub fn transcription_from_fields(fields: &Vec<Option<String>>) -> (res: String)
    requires
        fields@.len() == 2,
    ensures
        res@ == trim_white_space(reply_text(fields_view(fields@))),
{
    let ghost f = fields_view(fields@);
    assert(opt_str_view(fields@[0]) == f[0]);
    assert(opt_str_view(fields@[1]) == f[1]);
    match &fields[0] {
        Some(content) => {
            if content.as_str().unicode_len() > 0 {
                return trim_white_space_str(content.as_str());
            }
        },
        None => {},
    }
    match &fields[1] {
        Some(transcript) => trim_white_space_str(transcript.as_str()),
        None => {
            assert(trim_white_space(Seq::<char>::empty()) =~= Seq::<char>::empty());
            String::new()
        },
    }
}

/// The error reported for an error reply whose body is a JSON document with
/// the strings `fields` at [`error_paths`].
pub fn api_error_from_fields(fields: &Vec<Option<String>>, body: &str) -> (res: TranscriptionError)
    requires
        fields@.len() == 1,
    ensures
        res@ == ErrorView::OpenRouterApi(
            match fields_view(fields@)[0] {
                Some(message) => message,
                None => body@,
            },
        ),
{
    assert(opt_str_view(fields@[0]) == fields_view(fields@)[0]);
    match &fields[0] {
        Some(message) => TranscriptionError::OpenRouterApi(message.clone()),
        None => TranscriptionError::OpenRouterApi(String::from_str(body)),
    }
}

/// What a reply with `status` and `body` comes to: the trimmed
/// transcription, or the error to report.
pub fn interpret_response(status: u16, body: &str) -> (res: Result<String, TranscriptionError>)
    requires
        100 <= status <= 999,
    ensures
        outcome_view(res) == response_outcome(status, body@),
{
    if !is_success_status(status) {
        let paths = error_path_list();
        match read_json_strings(body, paths.as_slice()) {
            Ok(fields) => Err(api_error_from_fields(&fields, body)),
            Err(_) => Err(
                TranscriptionError::OpenRouterStatus {
                    status: status_line_of(status),
                    body: String::from_str(body),
                },
            ),
        }
    } else {
        let paths = completion_path_list();
        match read_json_strings(body, paths.as_slice()) {
            Ok(fields) => Ok(transcription_from_fields(&fields)),
            Err(e) => Err(TranscriptionError::OpenRouterBadResponse(e)),
        }
    }
}

} // verus!
