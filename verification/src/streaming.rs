//! The decisions of a streaming Voxtral session: what to send for each
//! piece of audio, and what to report for each server message.
use vstd::prelude::*;
use crate::encoding::{base64_standard, base64_input_fits, base64_fits, base64_decode, lemma_base64_round_trip};
use crate::error::{Mode, TranscriptionError, ErrorView};
use crate::pcm::{pcm16_to_s16le, s16le_bytes, s16le_samples, lemma_s16le_round_trip};
use crate::session::{message_into, CollectStep, CollectStepView, Incoming, IncomingView, collect_message, is_terminal};
use crate::voxtral::{append_message, append_message_text, END_OF_AUDIO_MESSAGE};

verus! {

/// Text that a streaming session reports while it runs.
#[derive(Debug)]
pub enum StreamingTextEvent {
    /// More transcribed text.
    Delta(String),
    /// The service announced the end of the transcription.
    Done,
}

/// The mathematical form of a [`StreamingTextEvent`].
pub ghost enum StreamingTextEventView {
    Delta(Seq<char>),
    Done,
}

impl View for StreamingTextEvent {
    type V = StreamingTextEventView;

    open spec fn view(&self) -> StreamingTextEventView {
        match self {
            StreamingTextEvent::Delta(d) => StreamingTextEventView::Delta(d@),
            StreamingTextEvent::Done => StreamingTextEventView::Done,
        }
    }
}

/// What the recorder hands a streaming session.
pub enum AudioInput {
    /// Recorded 16-bit samples.
    Chunk(Vec<i16>),
    /// The recording is over.
    EndOfAudio,
    /// The user cancelled.
    Cancel,
    /// The recorder's channel closed.
    Closed,
}

/// The mathematical form of an [`AudioInput`].
pub ghost enum AudioInputView {
    Chunk(Seq<i16>),
    EndOfAudio,
    Cancel,
    Closed,
}

impl View for AudioInput {
    type V = AudioInputView;

    open spec fn view(&self) -> AudioInputView {
        match self {
            AudioInput::Chunk(s) => AudioInputView::Chunk(s@),
            AudioInput::EndOfAudio => AudioInputView::EndOfAudio,
            AudioInput::Cancel => AudioInputView::Cancel,
            AudioInput::Closed => AudioInputView::Closed,
        }
    }
}

/// What to do with the socket after an audio input.
pub enum AudioAction {
    /// Send this text message.
    Send(String),
    /// Nothing.
    Nothing,
    /// Close the socket and fail with this error.
    Abort(TranscriptionError),
}

/// The mathematical form of an [`AudioAction`].
pub ghost enum AudioActionView {
    Send(Seq<char>),
    Nothing,
    Abort(ErrorView),
}

impl View for AudioAction {
    type V = AudioActionView;

    open spec fn view(&self) -> AudioActionView {
        match self {
            AudioAction::Send(m) => AudioActionView::Send(m@),
            AudioAction::Nothing => AudioActionView::Nothing,
            AudioAction::Abort(e) => AudioActionView::Abort(e@),
        }
    }
}

/// What to do after a server message.
pub enum ServerAction {
    /// Keep going.
    Nothing,
    /// Report this text event.
    Forward(StreamingTextEvent),
    /// Report `Done` if `notify_done`, close the socket, and succeed with
    /// `text`.
    Complete { text: String, notify_done: bool },
    /// Fail with this error.
    Fail(TranscriptionError),
}

/// The mathematical form of a [`ServerAction`].
pub ghost enum ServerActionView {
    Nothing,
    Forward(StreamingTextEventView),
    Complete(Seq<char>, bool),
    Fail(ErrorView),
}

impl View for ServerAction {
    type V = ServerActionView;

    open spec fn view(&self) -> ServerActionView {
        match self {
            ServerAction::Nothing => ServerActionView::Nothing,
            ServerAction::Forward(ev) => ServerActionView::Forward(ev@),
            ServerAction::Complete { text, notify_done } => ServerActionView::Complete(
                text@,
                *notify_done,
            ),
            ServerAction::Fail(e) => ServerActionView::Fail(e@),
        }
    }
}

/// Whether a chunk of `n` samples can be encoded and sent.
pub open spec fn chunk_fits(n: nat) -> bool {
    2 * n <= usize::MAX && base64_input_fits(2 * n)
}

/// Whether a chunk of `n` samples can be encoded and sent.
pub fn chunk_fits_len(n: usize) -> (res: bool)
    ensures
        res == chunk_fits(n as nat),
{
    n <= usize::MAX / 2 && base64_fits(2 * n)
}

/// Whether `input` can be taken in.
pub open spec fn audio_input_fits(input: AudioInputView) -> bool {
    match input {
        AudioInputView::Chunk(s) => chunk_fits(s.len()),
        _ => true,
    }
}

/// Whether audio input is still read after `input`, and what to do.
pub open spec fn audio_outcome(audio_ended: bool, input: AudioInputView) -> (bool, AudioActionView) {
    match input {
        AudioInputView::Chunk(s) => (
            audio_ended,
            AudioActionView::Send(append_message_text(base64_standard(s16le_bytes(s)))),
        ),
        AudioInputView::EndOfAudio => (true, AudioActionView::Send(END_OF_AUDIO_MESSAGE@)),
        AudioInputView::Cancel => (audio_ended, AudioActionView::Abort(ErrorView::Cancelled)),
        AudioInputView::Closed => (true, AudioActionView::Nothing),
    }
}

/// The action that reports a step of gathering the transcript.
pub open spec fn server_action_of(step: CollectStepView) -> ServerActionView {
    match step {
        CollectStepView::Continue => ServerActionView::Nothing,
        CollectStepView::Appended(d) => ServerActionView::Forward(StreamingTextEventView::Delta(d)),
        CollectStepView::Finished(text, done) => ServerActionView::Complete(text, done),
        CollectStepView::Failed(e) => ServerActionView::Fail(e),
    }
}

/// Once the audio has ended, no input makes the session read audio again.
pub proof fn lemma_audio_end_is_final(input: AudioInputView)
    ensures
        audio_outcome(true, input).0,
{
}

/// The deltas a streaming session reports are exactly what it appends to
/// its text, and a completion reports the text it gathered or the final
/// text, trimmed.
pub proof fn lemma_reports_follow_text(text: Seq<char>, msg: IncomingView)
    ensures
        ({
            let (after, step) = collect_message(text, Mode::Streaming, msg);
            let action = server_action_of(step);
            &&& action matches ServerActionView::Forward(StreamingTextEventView::Delta(d)) ==> after
                == text + d
            &&& action matches ServerActionView::Complete(t, _) ==> t == crate::text::trim_white_space(after)
        }),
{
}

/// The samples of a streamed chunk are recoverable from the message sent:
/// decoding its base64 text and then its little-endian bytes gives them
/// back.
pub proof fn lemma_streamed_chunk_recoverable(samples: Seq<i16>)
    ensures
        s16le_samples(base64_decode(base64_standard(s16le_bytes(samples)))) == samples,
{
    lemma_base64_round_trip(s16le_bytes(samples));
    lemma_s16le_round_trip(samples);
}

/// Every recorded chunk is sent whole: the message for a chunk is an
/// `input_audio.append` message whose audio text, base64-decoded and read
/// as little-endian 16-bit samples, is exactly the chunk; sending it does
/// not change whether audio is still read.
pub proof fn lemma_chunk_sent_whole(audio_ended: bool, samples: Seq<i16>)
    ensures
        audio_outcome(audio_ended, AudioInputView::Chunk(samples)).0 == audio_ended,
        audio_outcome(audio_ended, AudioInputView::Chunk(samples)).1 is Send,
        exists|audio: Seq<char>|
            {
                &&& audio_outcome(audio_ended, AudioInputView::Chunk(samples)).1->Send_0
                    == "{\"audio\":\""@ + audio + "\",\"type\":\"input_audio.append\"}"@
                &&& s16le_samples(base64_decode(audio)) == samples
            },
{
    let audio = base64_standard(s16le_bytes(samples));
    lemma_streamed_chunk_recoverable(samples);
    assert(audio_outcome(audio_ended, AudioInputView::Chunk(samples)).1->Send_0
        == "{\"audio\":\""@ + audio + "\",\"type\":\"input_audio.append\"}"@);
}

/// A streaming session completes or fails, and so stops reading the socket,
/// exactly on a terminal message.
pub proof fn lemma_streaming_stops_on_terminal(text: Seq<char>, msg: IncomingView)
    ensures
        ({
            let action = server_action_of(collect_message(text, Mode::Streaming, msg).1);
            action is Complete || action is Fail
        }) <==> is_terminal(msg),
{
}

/// The state of a streaming session once its socket is open: the transcript
/// gathered so far and whether the audio has ended.
pub struct StreamingTranscription {
    text: String,
    audio_ended: bool,
}

/// The mathematical form of a [`StreamingTranscription`].
pub ghost struct StreamingView {
    pub text: Seq<char>,
    pub audio_ended: bool,
}

impl View for StreamingTranscription {
    type V = StreamingView;

    closed spec fn view(&self) -> StreamingView {
        StreamingView { text: self.text@, audio_ended: self.audio_ended }
    }
}

impl StreamingTranscription {
    /// A session with no text, still reading audio.
    pub fn new() -> (res: Self)
        ensures
            res@.text == Seq::<char>::empty(),
            !res@.audio_ended,
    {
        StreamingTranscription { text: String::new(), audio_ended: false }
    }

    /// Whether audio input is still read.
    pub fn accepts_audio(&self) -> (res: bool)
        ensures
            res == !self@.audio_ended,
    {
        !self.audio_ended
    }

    /// The text gathered so far.
    pub fn text(&self) -> (res: &str)
        ensures
            res@ == self@.text,
    {
        self.text.as_str()
    }

    /// Takes in what the recorder handed over.
    pub fn on_audio(&mut self, input: AudioInput) -> (res: AudioAction)
        requires
            audio_input_fits(input@),
        ensures
            (final(self)@.audio_ended, res@) == audio_outcome(old(self)@.audio_ended, input@),
            final(self)@.text == old(self)@.text,
    {
        match input {
            AudioInput::Chunk(samples) => {
                let pcm = pcm16_to_s16le(samples.as_slice());
                AudioAction::Send(append_message(pcm.as_slice()))
            },
            AudioInput::EndOfAudio => {
                self.audio_ended = true;
                AudioAction::Send(String::from_str(END_OF_AUDIO_MESSAGE))
            },
            AudioInput::Cancel => AudioAction::Abort(TranscriptionError::Cancelled),
            AudioInput::Closed => {
                self.audio_ended = true;
                AudioAction::Nothing
            },
        }
    }

    /// Takes in what reading the socket gave.
    pub fn on_server(&mut self, msg: Incoming) -> (res: ServerAction)
        ensures
            ({
                let (text, step) = collect_message(old(self)@.text, Mode::Streaming, msg@);
                &&& final(self)@.text == text
                &&& res@ == server_action_of(step)
            }),
            final(self)@.audio_ended == old(self)@.audio_ended,
    {
        let step = message_into(&mut self.text, Mode::Streaming, msg);
        match step {
            CollectStep::Continue => ServerAction::Nothing,
            CollectStep::Appended(d) => ServerAction::Forward(StreamingTextEvent::Delta(d)),
            CollectStep::Finished { text, done } => ServerAction::Complete {
                text,
                notify_done: done,
            },
            CollectStep::Failed(e) => ServerAction::Fail(e),
        }
    }
}

} // verus!
