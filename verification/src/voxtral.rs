//! The Voxtral realtime transcription protocol: the socket address, the
//! messages that upload audio, and the decisions taken on server messages.
use vstd::prelude::*;
use vstd::slice::slice_subrange;
use crate::credentials::{CredentialsView, bearer, bearer_authorization};
use crate::encoding::{base64_encode, base64_standard, base64_input_fits, is_base64_char, base64_decode, lemma_base64_round_trip, lemma_base64_shape};
use crate::json::{JsonStep, JsonStepView, json_string_literal, lemma_plain_json_string, needs_no_escape, read_json_strings, json_string_fields, fields_view, opt_str_view, path_view, paths_view};

verus! {

/// Address of the realtime transcription socket.
pub const VOXTRAL_WS_BASE: &'static str = "wss://api.mistral.ai/v1/audio/transcriptions/realtime";

/// Largest number of PCM bytes that one upload message carries.
pub const CHUNK_SIZE: usize = 32768;

/// Seconds to wait for the connection and for each server message.
pub const TIMEOUT_SECS: u64 = 30;

/// Tells the service that the audio is 16-bit little-endian PCM at 16 kHz.
pub const SESSION_UPDATE_MESSAGE: &'static str = "{\"session\":{\"audio_format\":{\"encoding\":\"pcm_s16le\",\"sample_rate\":16000}},\"type\":\"session.update\"}";

/// Tells the service that no more audio follows.
pub const END_OF_AUDIO_MESSAGE: &'static str = "{\"type\":\"input_audio.end\"}";

/// The socket address for `model`.
pub open spec fn realtime_url(model: Seq<char>) -> Seq<char> {
    VOXTRAL_WS_BASE@ + "?model="@ + model
}

/// The message that uploads audio whose base64 text is `audio`.
pub open spec fn append_message_text(audio: Seq<char>) -> Seq<char> {
    "{\"audio\":\""@ + audio + "\",\"type\":\"input_audio.append\"}"@
}

/// Number of upload messages for `n` bytes of PCM.
pub open spec fn chunk_count(n: nat) -> nat {
    n / (CHUNK_SIZE as nat) + if n % (CHUNK_SIZE as nat) == 0 {
        0nat
    } else {
        1nat
    }
}

/// The `k`-th piece of `pcm` cut into pieces of `CHUNK_SIZE` bytes (the last
/// one shorter).
pub open spec fn pcm_chunk(pcm: Seq<u8>, k: int) -> Seq<u8> {
    let start = k * CHUNK_SIZE;
    let end = if start + CHUNK_SIZE <= pcm.len() {
        start + CHUNK_SIZE
    } else {
        pcm.len() as int
    };
    pcm.subrange(start, end)
}

/// A Voxtral transcription engine: an API key and a model name.
pub struct VoxtralEngine {
    api_key: String,
    model: String,
}

impl View for VoxtralEngine {
    type V = CredentialsView;

    closed spec fn view(&self) -> CredentialsView {
        CredentialsView { api_key: self.api_key@, model: self.model@ }
    }
}

impl VoxtralEngine {
    /// An engine that authenticates with `api_key` and asks for `model`.
    pub fn new(api_key: String, model: String) -> (res: Self)
        ensures
            res@.api_key == api_key@,
            res@.model == model@,
    {
        VoxtralEngine { api_key, model }
    }

    /// The address of the realtime socket for this engine's model.
    pub fn ws_url(&self) -> (res: String)
        ensures
            res@ == realtime_url(self@.model),
    {
        let mut s = String::from_str(VOXTRAL_WS_BASE);
        s.append("?model=");
        s.append(self.model.as_str());
        s
    }

    /// The `Authorization` header value for this engine's key.
    pub fn authorization(&self) -> (res: String)
        ensures
            res@ == bearer(self@.api_key),
    {
        bearer_authorization(self.api_key.as_str())
    }

    /// The model name.
    pub fn model(&self) -> (res: &str)
        ensures
            res@ == self@.model,
    {
        self.model.as_str()
    }
}

/// The socket address names the configured model in full: it is the base
/// address and `?model=`, followed by exactly the model name, which can be
/// read back from it; different models give different addresses.
pub proof fn lemma_url_names_model(model: Seq<char>, other: Seq<char>)
    ensures
        realtime_url(model).take((VOXTRAL_WS_BASE@.len() + "?model="@.len()) as int)
            == VOXTRAL_WS_BASE@ + "?model="@,
        realtime_url(model).skip((VOXTRAL_WS_BASE@.len() + "?model="@.len()) as int) == model,
        realtime_url(model).len() == VOXTRAL_WS_BASE@.len() + "?model="@.len() + model.len(),
        realtime_url(model) == realtime_url(other) ==> model == other,
{
    let k = (VOXTRAL_WS_BASE@.len() + "?model="@.len()) as int;
    assert(realtime_url(model).take(k) =~= VOXTRAL_WS_BASE@ + "?model="@);
    assert(realtime_url(model).skip(k) =~= model);
    assert(realtime_url(other).skip(k) =~= other);
}

/// The message that uploads `pcm`, base64-encoded.
pub fn append_message(pcm: &[u8]) -> (res: String)
    requires
        base64_input_fits(pcm@.len()),
    ensures
        res@ == append_message_text(base64_standard(pcm@)),
{
    let audio = base64_encode(pcm);
    let mut s = String::from_str("{\"audio\":\"");
    s.append(audio.as_str());
    s.append("\",\"type\":\"input_audio.append\"}");
    s
}

/// The messages that upload recorded PCM: one for each piece of at most
/// `CHUNK_SIZE` bytes, in order, then the end-of-audio message.
pub fn upload_messages(pcm: &[u8]) -> (res: Vec<String>)
    ensures
        res@.len() == chunk_count(pcm@.len()) + 1,
        forall|k: int|
            0 <= k < chunk_count(pcm@.len()) ==> #[trigger] res@[k]@ == append_message_text(
                base64_standard(pcm_chunk(pcm@, k)),
            ),
        res@[chunk_count(pcm@.len()) as int]@ == END_OF_AUDIO_MESSAGE@,
{
    let n = pcm.len();
    let count = n / CHUNK_SIZE + if n % CHUNK_SIZE == 0 {
        0
    } else {
        1
    };
    let mut out: Vec<String> = Vec::new();
    let mut k: usize = 0;
    while k < count
        invariant
            n == pcm@.len(),
            count == chunk_count(n as nat),
            k <= count,
            out@.len() == k,
            forall|j: int|
                0 <= j < k ==> #[trigger] out@[j]@ == append_message_text(
                    base64_standard(pcm_chunk(pcm@, j)),
                ),
        decreases count - k,
    {
        assert(k * CHUNK_SIZE < n) by (nonlinear_arith)
            requires
                k < count,
                count == n / 32768 + if n % 32768 == 0 {
                    0int
                } else {
                    1int
                },
                CHUNK_SIZE == 32768,
        ;
        let start = k * CHUNK_SIZE;
        let end = if n - start > CHUNK_SIZE {
            start + CHUNK_SIZE
        } else {
            n
        };
        let chunk = slice_subrange(pcm, start, end);
        assert(chunk@ == pcm_chunk(pcm@, k as int));
        out.push(append_message(chunk));
        k = k + 1;
    }
    out.push(String::from_str(END_OF_AUDIO_MESSAGE));
    out
}

/// The first `k` pieces of `pcm`, joined in order.
pub open spec fn joined_chunks(pcm: Seq<u8>, k: nat) -> Seq<u8>
    decreases k,
{
    if k == 0 {
        Seq::empty()
    } else {
        joined_chunks(pcm, (k - 1) as nat) + pcm_chunk(pcm, k - 1)
    }
}

proof fn lemma_chunk_count_bounds(n: nat, k: nat)
    ensures
        k < chunk_count(n) ==> k * CHUNK_SIZE < n,
        k + 1 == chunk_count(n) ==> n <= (k + 1) * CHUNK_SIZE,
        chunk_count(n) == 0 ==> n == 0,
{
    assert(k < chunk_count(n) ==> k * 32768 < n) by (nonlinear_arith)
        requires
            chunk_count(n) == n / 32768 + if n % 32768 == 0 {
                0nat
            } else {
                1nat
            },
    ;
    assert(k + 1 == chunk_count(n) ==> n <= (k + 1) * 32768) by (nonlinear_arith)
        requires
            chunk_count(n) == n / 32768 + if n % 32768 == 0 {
                0nat
            } else {
                1nat
            },
    ;
}

proof fn lemma_joined_prefix(pcm: Seq<u8>, k: nat)
    requires
        k <= chunk_count(pcm.len()),
    ensures
        joined_chunks(pcm, k) == pcm.take(
            if k * CHUNK_SIZE <= pcm.len() {
                k * CHUNK_SIZE
            } else {
                pcm.len() as int
            },
        ),
    decreases k,
{
    if k > 0 {
        lemma_joined_prefix(pcm, (k - 1) as nat);
        lemma_chunk_count_bounds(pcm.len(), (k - 1) as nat);
        assert(joined_chunks(pcm, k) =~= pcm.take(
            if k * CHUNK_SIZE <= pcm.len() {
                k * CHUNK_SIZE
            } else {
                pcm.len() as int
            },
        ));
    } else {
        assert(joined_chunks(pcm, 0) =~= pcm.take(0));
    }
}

/// Cutting PCM into upload pieces loses, repeats and reorders nothing: the
/// pieces joined in order are the PCM; every piece but the last holds
/// `CHUNK_SIZE` bytes, and the last holds between one and `CHUNK_SIZE`.
pub proof fn lemma_chunks_cover(pcm: Seq<u8>)
    ensures
        joined_chunks(pcm, chunk_count(pcm.len())) == pcm,
        forall|k: int|
            0 <= k < chunk_count(pcm.len()) - 1 ==> (#[trigger] pcm_chunk(pcm, k)).len()
                == CHUNK_SIZE,
        chunk_count(pcm.len()) > 0 ==> 0 < pcm_chunk(pcm, chunk_count(pcm.len()) - 1).len()
            <= CHUNK_SIZE,
{
    let n = pcm.len();
    let c = chunk_count(n);
    lemma_joined_prefix(pcm, c);
    if c > 0 {
        lemma_chunk_count_bounds(n, (c - 1) as nat);
        assert(n <= c * CHUNK_SIZE);
    } else {
        lemma_chunk_count_bounds(n, 0);
    }
    assert(pcm.take(n as int) =~= pcm);
    assert forall|k: int| 0 <= k < c - 1 implies (#[trigger] pcm_chunk(pcm, k)).len()
        == CHUNK_SIZE by {
        lemma_chunk_count_bounds(n, (k + 1) as nat);
    }
    if c > 0 {
        lemma_chunk_count_bounds(n, (c - 1) as nat);
    }
}

/// The uploaded audio is recoverable: decoding the base64 text of each
/// upload message gives its piece back, and the pieces joined in order are
/// the PCM.
pub proof fn lemma_upload_recoverable(pcm: Seq<u8>)
    ensures
        forall|k: int|
            0 <= k < chunk_count(pcm.len()) ==> base64_decode(
                base64_standard(#[trigger] pcm_chunk(pcm, k)),
            ) == pcm_chunk(pcm, k),
        joined_chunks(pcm, chunk_count(pcm.len())) == pcm,
{
    assert forall|k: int| 0 <= k < chunk_count(pcm.len()) implies base64_decode(
        base64_standard(#[trigger] pcm_chunk(pcm, k)),
    ) == pcm_chunk(pcm, k) by {
        lemma_base64_round_trip(pcm_chunk(pcm, k));
    }
    lemma_chunks_cover(pcm);
}

/// The upload message is the JSON object whose `audio` member is the base64
/// text, written as a JSON string, and whose `type` is
/// `input_audio.append`.
pub proof fn lemma_append_message_is_json(audio: Seq<char>)
    requires
        forall|i: int| 0 <= i < audio.len() ==> is_base64_char(#[trigger] audio[i]),
    ensures
        append_message_text(audio) == "{\"audio\":"@ + json_string_literal(audio)
            + ",\"type\":\"input_audio.append\"}"@,
{
    assert forall|i: int| 0 <= i < audio.len() implies needs_no_escape(#[trigger] audio[i]) by {
        assert(is_base64_char(audio[i]));
    }
    lemma_plain_json_string(audio);
    reveal_strlit("{\"audio\":\"");
    reveal_strlit("{\"audio\":");
    reveal_strlit("\",\"type\":\"input_audio.append\"}");
    reveal_strlit(",\"type\":\"input_audio.append\"}");
    assert(append_message_text(audio) =~= "{\"audio\":"@ + json_string_literal(audio)
        + ",\"type\":\"input_audio.append\"}"@);
}

/// Every upload message of audio is such a JSON object.
pub proof fn lemma_upload_message_is_json(pcm: Seq<u8>)
    ensures
        append_message_text(base64_standard(pcm)) == "{\"audio\":"@ + json_string_literal(
            base64_standard(pcm),
        ) + ",\"type\":\"input_audio.append\"}"@,
{
    lemma_base64_shape(pcm);
    lemma_append_message_is_json(base64_standard(pcm));
}

/// PCM of at most `CHUNK_SIZE` bytes, and more than none, goes up in a
/// single piece: itself.
pub proof fn lemma_single_piece(pcm: Seq<u8>)
    requires
        0 < pcm.len() <= CHUNK_SIZE,
    ensures
        chunk_count(pcm.len()) == 1,
        pcm_chunk(pcm, 0) == pcm,
{
    assert(pcm_chunk(pcm, 0) =~= pcm);
}

/// What a server message announces.
pub enum ServerEvent {
    /// The session is ready for audio.
    SessionCreated,
    /// More text, if the message carries a string `text`.
    TextDelta(Option<String>),
    /// The transcription is complete; the final text, if given.
    Done(Option<String>),
    /// The service reports an error, with the message to show.
    Failed(String),
    /// Any other event.
    Other,
}

/// The mathematical form of a [`ServerEvent`].
pub ghost enum ServerEventView {
    SessionCreated,
    TextDelta(Option<Seq<char>>),
    Done(Option<Seq<char>>),
    Failed(Seq<char>),
    Other,
}

impl View for ServerEvent {
    type V = ServerEventView;

    open spec fn view(&self) -> ServerEventView {
        match self {
            ServerEvent::SessionCreated => ServerEventView::SessionCreated,
            ServerEvent::TextDelta(t) => ServerEventView::TextDelta(opt_str_view(*t)),
            ServerEvent::Done(t) => ServerEventView::Done(opt_str_view(*t)),
            ServerEvent::Failed(m) => ServerEventView::Failed(m@),
            ServerEvent::Other => ServerEventView::Other,
        }
    }
}

/// The places of a server message that the decisions read: `type`, `text`,
/// `message` and `error.message`.
pub open spec fn event_paths() -> Seq<Seq<JsonStepView>> {
    seq![
        seq![JsonStepView::Field("type"@)],
        seq![JsonStepView::Field("text"@)],
        seq![JsonStepView::Field("message"@)],
        seq![JsonStepView::Field("error"@), JsonStepView::Field("message"@)],
    ]
}

/// The event that a message announces, from the strings at
/// [`event_paths`].
pub open spec fn event_from_fields(fields: Seq<Option<Seq<char>>>) -> ServerEventView {
    if fields[0] == Some("session.created"@) {
        ServerEventView::SessionCreated
    } else if fields[0] == Some("transcription.text.delta"@) {
        ServerEventView::TextDelta(fields[1])
    } else if fields[0] == Some("transcription.done"@) {
        ServerEventView::Done(fields[1])
    } else if fields[0] == Some("error"@) {
        ServerEventView::Failed(
            match fields[2] {
                Some(m) => m,
                None => match fields[3] {
                    Some(m) => m,
                    None => "Unknown error"@,
                },
            },
        )
    } else {
        ServerEventView::Other
    }
}

/// What a text message announces, or the parser's message when it is no
/// JSON document.
pub open spec fn decoded_event(text: Seq<char>) -> Result<ServerEventView, Seq<char>> {
    match json_string_fields(text, event_paths()) {
        Ok(fields) => Ok(event_from_fields(fields)),
        Err(e) => Err(e),
    }
}

/// Whether `a` holds the characters of `b`.
pub fn string_is(a: &String, b: &str) -> (res: bool)
    ensures
        res == (a@ == b@),
{
    let other = String::from_str(b);
    *a == other
}

fn field_path(name: &str) -> (res: Vec<JsonStep>)
    ensures
        path_view(res) == seq![JsonStepView::Field(name@)],
{
    let mut path = Vec::new();
    path.push(JsonStep::Field(String::from_str(name)));
    assert(path_view(path) =~= seq![JsonStepView::Field(name@)]);
    path
}

fn event_path_list() -> (res: Vec<Vec<JsonStep>>)
    ensures
        paths_view(res@) == event_paths(),
        res@.len() == 4,
{
    let mut error_message = Vec::new();
    error_message.push(JsonStep::Field(String::from_str("error")));
    error_message.push(JsonStep::Field(String::from_str("message")));
    assert(path_view(error_message) =~= seq![
        JsonStepView::Field("error"@),
        JsonStepView::Field("message"@),
    ]);
    let mut paths = Vec::new();
    paths.push(field_path("type"));
    paths.push(field_path("text"));
    paths.push(field_path("message"));
    paths.push(error_message);
    assert(paths_view(paths@) =~= event_paths());
    paths
}

fn take_field(fields: &mut Vec<Option<String>>, i: usize) -> (res: Option<String>)
    requires
        i < old(fields)@.len(),
    ensures
        opt_str_view(res) == opt_str_view(old(fields)@[i as int]),
        final(fields)@.len() == old(fields)@.len(),
        forall|j: int|
            0 <= j < old(fields)@.len() && j != i ==> #[trigger] final(fields)@[j] == old(
                fields,
            )@[j],
{
    let mut taken = None;
    std::mem::swap(&mut taken, &mut fields[i]);
    taken
}

/// The event announced by a message whose strings at [`event_paths`] are
/// `fields`.
pub fn classify_event_fields(fields: Vec<Option<String>>) -> (res: ServerEvent)
    requires
        fields@.len() == 4,
    ensures
        res@ == event_from_fields(fields_view(fields@)),
{
    let ghost f = fields_view(fields@);
    let mut fields = fields;
    let kind = take_field(&mut fields, 0);
    let text = take_field(&mut fields, 1);
    let message = take_field(&mut fields, 2);
    let error_message = take_field(&mut fields, 3);
    assert(opt_str_view(kind) == f[0]);
    assert(opt_str_view(text) == f[1]);
    assert(opt_str_view(message) == f[2]);
    assert(opt_str_view(error_message) == f[3]);
    match kind {
        Some(k) => {
            if string_is(&k, "session.created") {
                ServerEvent::SessionCreated
            } else if string_is(&k, "transcription.text.delta") {
                ServerEvent::TextDelta(text)
            } else if string_is(&k, "transcription.done") {
                ServerEvent::Done(text)
            } else if string_is(&k, "error") {
                match message {
                    Some(m) => ServerEvent::Failed(m),
                    None => match error_message {
                        Some(m) => ServerEvent::Failed(m),
                        None => ServerEvent::Failed(String::from_str("Unknown error")),
                    },
                }
            } else {
                ServerEvent::Other
            }
        },
        None => ServerEvent::Other,
    }
}

/// What a text message from the service announces; `Err` with the parser's
/// message when it is no JSON document.
pub fn decode_server_event(text: &str) -> (res: Result<ServerEvent, String>)
    ensures
        match res {
            Ok(ev) => decoded_event(text@) == Ok::<ServerEventView, Seq<char>>(ev@),
            Err(e) => decoded_event(text@) == Err::<ServerEventView, Seq<char>>(e@),
        },
{
    let paths = event_path_list();
    match read_json_strings(text, paths.as_slice()) {
        Ok(fields) => Ok(classify_event_fields(fields)),
        Err(e) => Err(e),
    }
}

} // verus!
