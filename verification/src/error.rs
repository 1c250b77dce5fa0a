//! Why a transcription failed, and the message that reports it.
use vstd::prelude::*;

verus! {

/// Whether a Voxtral session uploads recorded audio at once or streams it.
#[derive(Clone, Copy, PartialEq, Eq, Structural, Debug)]
pub enum Mode {
    Batch,
    Streaming,
}

/// Why a transcription failed.
#[derive(Debug)]
pub enum TranscriptionError {
    /// A server message or reply that is no JSON document, with the parser's
    /// message.
    MalformedJson(String),
    /// A failure of the connection, reported as it is.
    Transport(String),
    /// A failure to read from a streaming session's socket.
    StreamRead(String),
    /// A failure to write to a streaming session's socket.
    StreamWrite(String),
    /// An `error` event of the Voxtral service, with its message.
    Server { mode: Mode, message: String },
    /// The socket ended before the service announced the session.
    NoSessionCreated(Mode),
    /// The user cancelled a streaming session.
    Cancelled,
    /// The WebSocket connection was not made in time.
    ConnectTimedOut(Mode),
    /// The service did not announce the session in time.
    SessionTimedOut(Mode),
    /// No transcription message came in time.
    TranscriptionTimedOut,
    /// The OpenRouter request got no reply in time.
    RequestTimedOut,
    /// An OpenRouter error reply with a JSON body, with the message found
    /// in it (or the whole body).
    OpenRouterApi(String),
    /// An OpenRouter error reply whose body is no JSON document, with the
    /// status line and the body.
    OpenRouterStatus { status: String, body: String },
    /// A successful OpenRouter reply whose body is no JSON document, with
    /// the parser's message.
    OpenRouterBadResponse(String),
}

/// The mathematical form of a [`TranscriptionError`].
pub ghost enum ErrorView {
    MalformedJson(Seq<char>),
    Transport(Seq<char>),
    StreamRead(Seq<char>),
    StreamWrite(Seq<char>),
    Server(Mode, Seq<char>),
    NoSessionCreated(Mode),
    Cancelled,
    ConnectTimedOut(Mode),
    SessionTimedOut(Mode),
    TranscriptionTimedOut,
    RequestTimedOut,
    OpenRouterApi(Seq<char>),
    OpenRouterStatus(Seq<char>, Seq<char>),
    OpenRouterBadResponse(Seq<char>),
}

impl View for TranscriptionError {
    type V = ErrorView;

    open spec fn view(&self) -> ErrorView {
        match self {
            TranscriptionError::MalformedJson(e) => ErrorView::MalformedJson(e@),
            TranscriptionError::Transport(e) => ErrorView::Transport(e@),
            TranscriptionError::StreamRead(e) => ErrorView::StreamRead(e@),
            TranscriptionError::StreamWrite(e) => ErrorView::StreamWrite(e@),
            TranscriptionError::Server { mode, message } => ErrorView::Server(*mode, message@),
            TranscriptionError::NoSessionCreated(mode) => ErrorView::NoSessionCreated(*mode),
            TranscriptionError::Cancelled => ErrorView::Cancelled,
            TranscriptionError::ConnectTimedOut(mode) => ErrorView::ConnectTimedOut(*mode),
            TranscriptionError::SessionTimedOut(mode) => ErrorView::SessionTimedOut(*mode),
            TranscriptionError::TranscriptionTimedOut => ErrorView::TranscriptionTimedOut,
            TranscriptionError::RequestTimedOut => ErrorView::RequestTimedOut,
            TranscriptionError::OpenRouterApi(m) => ErrorView::OpenRouterApi(m@),
            TranscriptionError::OpenRouterStatus { status, body } => ErrorView::OpenRouterStatus(
                status@,
                body@,
            ),
            TranscriptionError::OpenRouterBadResponse(e) => ErrorView::OpenRouterBadResponse(e@),
        }
    }
}

/// The prefix of the Voxtral messages of a mode.
pub open spec fn voxtral_prefix(mode: Mode) -> Seq<char> {
    match mode {
        Mode::Batch => "Voxtral: "@,
        Mode::Streaming => "Voxtral streaming: "@,
    }
}

/// The message that reports an error.
pub open spec fn error_text(e: ErrorView) -> Seq<char> {
    match e {
        ErrorView::MalformedJson(m) => m,
        ErrorView::Transport(m) => m,
        ErrorView::StreamRead(m) => "Voxtral streaming: WebSocket read error: "@ + m,
        ErrorView::StreamWrite(m) => "Voxtral streaming: WebSocket write failed: "@ + m,
        ErrorView::Server(Mode::Batch, m) => "Voxtral API error: "@ + m,
        ErrorView::Server(Mode::Streaming, m) => "Voxtral streaming API error: "@ + m,
        ErrorView::NoSessionCreated(mode) => voxtral_prefix(mode) + "did not receive session.created"@,
        ErrorView::Cancelled => "Voxtral streaming: cancelled by user"@,
        ErrorView::ConnectTimedOut(mode) => voxtral_prefix(mode) + "WebSocket connection timed out"@,
        ErrorView::SessionTimedOut(mode) => voxtral_prefix(mode)
            + "timed out waiting for session.created"@,
        ErrorView::TranscriptionTimedOut => "Voxtral: timed out waiting for transcription"@,
        ErrorView::RequestTimedOut => "OpenRouter: request timed out"@,
        ErrorView::OpenRouterApi(m) => "OpenRouter API error: "@ + m,
        ErrorView::OpenRouterStatus(status, body) => "OpenRouter API error ("@ + status + "): "@
            + body,
        ErrorView::OpenRouterBadResponse(m) => "OpenRouter: failed to parse response: "@ + m,
    }
}

/// `head` followed by `tail`.
pub fn concat_str(head: &str, tail: &str) -> (res: String)
    ensures
        res@ == head@ + tail@,
{
    let mut s = String::from_str(head);
    s.append(tail);
    s
}

fn voxtral_prefix_str(mode: Mode) -> (res: &'static str)
    ensures
        res@ == voxtral_prefix(mode),
{
    match mode {
        Mode::Batch => "Voxtral: ",
        Mode::Streaming => "Voxtral streaming: ",
    }
}

impl TranscriptionError {
    /// The message that reports this error.
    pub fn message(&self) -> (res: String)
        ensures
            res@ == error_text(self@),
    {
        match self {
            TranscriptionError::MalformedJson(m) => m.clone(),
            TranscriptionError::Transport(m) => m.clone(),
            TranscriptionError::StreamRead(m) => concat_str(
                "Voxtral streaming: WebSocket read error: ",
                m.as_str(),
            ),
            TranscriptionError::StreamWrite(m) => concat_str(
                "Voxtral streaming: WebSocket write failed: ",
                m.as_str(),
            ),
            TranscriptionError::Server { mode, message } => match mode {
                Mode::Batch => concat_str("Voxtral API error: ", message.as_str()),
                Mode::Streaming => concat_str("Voxtral streaming API error: ", message.as_str()),
            },
            TranscriptionError::NoSessionCreated(mode) => concat_str(
                voxtral_prefix_str(*mode),
                "did not receive session.created",
            ),
            TranscriptionError::Cancelled => String::from_str(
                "Voxtral streaming: cancelled by user",
            ),
            TranscriptionError::ConnectTimedOut(mode) => concat_str(
                voxtral_prefix_str(*mode),
                "WebSocket connection timed out",
            ),
            TranscriptionError::SessionTimedOut(mode) => concat_str(
                voxtral_prefix_str(*mode),
                "timed out waiting for session.created",
            ),
            TranscriptionError::TranscriptionTimedOut => String::from_str(
                "Voxtral: timed out waiting for transcription",
            ),
            TranscriptionError::RequestTimedOut => String::from_str(
                "OpenRouter: request timed out",
            ),
            TranscriptionError::OpenRouterApi(m) => concat_str(
                "OpenRouter API error: ",
                m.as_str(),
            ),
            TranscriptionError::OpenRouterStatus { status, body } => {
                let mut s = String::from_str("OpenRouter API error (");
                s.append(status.as_str());
                s.append("): ");
                s.append(body.as_str());
                s
            },
            TranscriptionError::OpenRouterBadResponse(m) => concat_str(
                "OpenRouter: failed to parse response: ",
                m.as_str(),
            ),
        }
    }
}

} // verus!
