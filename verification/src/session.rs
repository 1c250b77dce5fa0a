//! The decisions of a Voxtral session on what the socket delivers: waiting
//! for the session to open, then gathering the transcript.
use vstd::prelude::*;
use crate::error::{Mode, TranscriptionError, ErrorView};
use crate::text::{trim_white_space, trim_white_space_str};
use crate::voxtral::{ServerEvent, ServerEventView, decoded_event, decode_server_event};

verus! {

/// What reading the socket gave.
pub enum Incoming {
    /// A text message.
    Text(String),
    /// A close frame.
    Close,
    /// A failed read, with the failure's message.
    ReadError(String),
    /// The end of the stream.
    Ended,
    /// Any other frame (binary, ping, pong).
    Other,
}

/// The mathematical form of an [`Incoming`].
pub ghost enum IncomingView {
    Text(Seq<char>),
    Close,
    ReadError(Seq<char>),
    Ended,
    Other,
}

impl View for Incoming {
    type V = IncomingView;

    open spec fn view(&self) -> IncomingView {
        match self {
            Incoming::Text(t) => IncomingView::Text(t@),
            Incoming::Close => IncomingView::Close,
            Incoming::ReadError(e) => IncomingView::ReadError(e@),
            Incoming::Ended => IncomingView::Ended,
            Incoming::Other => IncomingView::Other,
        }
    }
}

/// Where the opening of a session stands.
pub enum HandshakeStep {
    /// Keep reading.
    Waiting,
    /// The service created the session.
    Ready,
    /// The session cannot open.
    Failed(TranscriptionError),
}

/// The mathematical form of a [`HandshakeStep`].
pub ghost enum HandshakeView {
    Waiting,
    Ready,
    Failed(ErrorView),
}

impl View for HandshakeStep {
    type V = HandshakeView;

    open spec fn view(&self) -> HandshakeView {
        match self {
            HandshakeStep::Waiting => HandshakeView::Waiting,
            HandshakeStep::Ready => HandshakeView::Ready,
            HandshakeStep::Failed(e) => HandshakeView::Failed(e@),
        }
    }
}

/// What a session does with `msg` while it waits for `session.created`.
pub open spec fn handshake_outcome(msg: IncomingView, mode: Mode) -> HandshakeView {
    match msg {
        IncomingView::Text(t) => match decoded_event(t) {
            Err(e) => HandshakeView::Failed(ErrorView::MalformedJson(e)),
            Ok(ServerEventView::SessionCreated) => HandshakeView::Ready,
            Ok(_) => HandshakeView::Waiting,
        },
        IncomingView::ReadError(e) => HandshakeView::Failed(ErrorView::Transport(e)),
        IncomingView::Ended => HandshakeView::Failed(ErrorView::NoSessionCreated(mode)),
        IncomingView::Close => HandshakeView::Waiting,
        IncomingView::Other => HandshakeView::Waiting,
    }
}

/// Decides what a session in `mode` does with `msg` while it waits for the
/// service to create the session.
pub fn handshake_step(msg: Incoming, mode: Mode) -> (res: HandshakeStep)
    ensures
        res@ == handshake_outcome(msg@, mode),
{
    match msg {
        Incoming::Text(t) => match decode_server_event(t.as_str()) {
            Err(e) => HandshakeStep::Failed(TranscriptionError::MalformedJson(e)),
            Ok(ServerEvent::SessionCreated) => HandshakeStep::Ready,
            Ok(_) => HandshakeStep::Waiting,
        },
        Incoming::ReadError(e) => HandshakeStep::Failed(TranscriptionError::Transport(e)),
        Incoming::Ended => HandshakeStep::Failed(TranscriptionError::NoSessionCreated(mode)),
        Incoming::Close => HandshakeStep::Waiting,
        Incoming::Other => HandshakeStep::Waiting,
    }
}

/// What gathering the transcript does after a message.
pub enum CollectStep {
    /// Keep reading.
    Continue,
    /// The text grew by this delta.
    Appended(String),
    /// The transcript is complete: its text, trimmed, and whether the
    /// service announced the completion (rather than closing).
    Finished { text: String, done: bool },
    /// The transcription failed.
    Failed(TranscriptionError),
}

/// The mathematical form of a [`CollectStep`].
pub ghost enum CollectStepView {
    Continue,
    Appended(Seq<char>),
    Finished(Seq<char>, bool),
    Failed(ErrorView),
}

impl View for CollectStep {
    type V = CollectStepView;

    open spec fn view(&self) -> CollectStepView {
        match self {
            CollectStep::Continue => CollectStepView::Continue,
            CollectStep::Appended(d) => CollectStepView::Appended(d@),
            CollectStep::Finished { text, done } => CollectStepView::Finished(text@, *done),
            CollectStep::Failed(e) => CollectStepView::Failed(e@),
        }
    }
}

/// The text gathered so far and the step taken, after `ev` arrives with
/// `text` gathered.
pub open spec fn apply_event(text: Seq<char>, mode: Mode, ev: ServerEventView) -> (
    Seq<char>,
    CollectStepView,
) {
    match ev {
        ServerEventView::TextDelta(Some(d)) => (text + d, CollectStepView::Appended(d)),
        ServerEventView::Done(Some(t)) => (t, CollectStepView::Finished(trim_white_space(t), true)),
        ServerEventView::Done(None) => (
            text,
            CollectStepView::Finished(trim_white_space(text), true),
        ),
        ServerEventView::Failed(m) => (text, CollectStepView::Failed(ErrorView::Server(mode, m))),
        _ => (text, CollectStepView::Continue),
    }
}

/// The error a failed read is reported as in `mode`.
pub open spec fn read_error(mode: Mode, e: Seq<char>) -> ErrorView {
    match mode {
        Mode::Batch => ErrorView::Transport(e),
        Mode::Streaming => ErrorView::StreamRead(e),
    }
}

/// The text gathered so far and the step taken, after `msg` is read with
/// `text` gathered.
pub open spec fn collect_message(text: Seq<char>, mode: Mode, msg: IncomingView) -> (
    Seq<char>,
    CollectStepView,
) {
    match msg {
        IncomingView::Text(t) => match decoded_event(t) {
            Err(e) => (text, CollectStepView::Failed(ErrorView::MalformedJson(e))),
            Ok(ev) => apply_event(text, mode, ev),
        },
        IncomingView::Close => (text, CollectStepView::Finished(trim_white_space(text), false)),
        IncomingView::Ended => (text, CollectStepView::Finished(trim_white_space(text), false)),
        IncomingView::ReadError(e) => (text, CollectStepView::Failed(read_error(mode, e))),
        IncomingView::Other => (text, CollectStepView::Continue),
    }
}

/// The text gathered from `text` after `events`, in order.
pub open spec fn gathered_after(text: Seq<char>, mode: Mode, events: Seq<ServerEventView>) -> Seq<
    char,
>
    decreases events.len(),
{
    if events.len() == 0 {
        text
    } else {
        apply_event(gathered_after(text, mode, events.drop_last()), mode, events.last()).0
    }
}

/// The pieces of text joined in order.
pub open spec fn joined(pieces: Seq<Seq<char>>) -> Seq<char>
    decreases pieces.len(),
{
    if pieces.len() == 0 {
        Seq::empty()
    } else {
        joined(pieces.drop_last()) + pieces.last()
    }
}

/// The events that carry the deltas, in order.
pub open spec fn delta_events(deltas: Seq<Seq<char>>) -> Seq<ServerEventView> {
    deltas.map_values(|d: Seq<char>| ServerEventView::TextDelta(Some(d)))
}

/// Text deltas accumulate in order: after deltas d1 ... dn the gathered
/// text is what was there followed by d1 ... dn, and a close frame then
/// completes the transcript with that text, trimmed.
pub proof fn lemma_deltas_accumulate(text: Seq<char>, mode: Mode, deltas: Seq<Seq<char>>)
    ensures
        gathered_after(text, mode, delta_events(deltas)) == text + joined(deltas),
        collect_message(text + joined(deltas), mode, IncomingView::Close) == (
            text + joined(deltas),
            CollectStepView::Finished(trim_white_space(text + joined(deltas)), false),
        ),
        collect_message(text + joined(deltas), mode, IncomingView::Ended) == (
            text + joined(deltas),
            CollectStepView::Finished(trim_white_space(text + joined(deltas)), false),
        ),
    decreases deltas.len(),
{
    if deltas.len() == 0 {
        assert(text + joined(deltas) =~= text);
    } else {
        let init = deltas.drop_last();
        lemma_deltas_accumulate(text, mode, init);
        assert(delta_events(deltas).drop_last() =~= delta_events(init));
        assert(text + joined(init) + deltas.last() =~= text + joined(deltas));
    }
}

/// The end of the stream completes the gathering, in both modes and
/// whatever was gathered: with the text gathered so far, trimmed, not
/// announced by the service, exactly as a close frame does; it never fails
/// and never changes the text.
pub proof fn lemma_stream_end_completes(text: Seq<char>, mode: Mode)
    ensures
        collect_message(text, mode, IncomingView::Ended) == (
            text,
            CollectStepView::Finished(trim_white_space(text), false),
        ),
        collect_message(text, mode, IncomingView::Ended) == collect_message(
            text,
            mode,
            IncomingView::Close,
        ),
        !(collect_message(text, mode, IncomingView::Ended).1 is Failed),
{
}

/// A `transcription.done` event that carries text completes the transcript
/// with that text, trimmed, whatever was gathered before.
pub proof fn lemma_final_text_wins(before: Seq<char>, mode: Mode, final_text: Seq<char>)
    ensures
        apply_event(before, mode, ServerEventView::Done(Some(final_text))) == (
            final_text,
            CollectStepView::Finished(trim_white_space(final_text), true),
        ),
{
}

/// Only a delta or a final text changes what is gathered; every other
/// message, a failure among them, leaves it as it was.
pub proof fn lemma_text_changes_only_by_events(text: Seq<char>, mode: Mode, msg: IncomingView)
    ensures
        ({
            let (after, step) = collect_message(text, mode, msg);
            &&& step is Appended ==> after == text + step->Appended_0
            &&& !(step is Appended) && after != text ==> msg is Text && step is Finished
            &&& step is Failed ==> after == text
        }),
{
}

/// The batch and the streaming session gather the same text from the same
/// message and take the same step, but for how a failed read is reported
/// and which service error is named.
pub proof fn lemma_modes_agree(text: Seq<char>, msg: IncomingView)
    ensures
        collect_message(text, Mode::Batch, msg).0 == collect_message(text, Mode::Streaming, msg).0,
        !(collect_message(text, Mode::Batch, msg).1 is Failed) ==> collect_message(
            text,
            Mode::Batch,
            msg,
        ).1 == collect_message(text, Mode::Streaming, msg).1,
{
}

/// The session opens exactly on a text message that announces
/// `session.created`.
pub proof fn lemma_ready_only_on_session_created(msg: IncomingView, mode: Mode)
    ensures
        handshake_outcome(msg, mode) is Ready <==> (msg is Text && decoded_event(msg->Text_0)
            == Ok::<ServerEventView, Seq<char>>(ServerEventView::SessionCreated)),
{
}

/// Whether a step ends the gathering: a completion or a failure.
pub open spec fn ends_session(step: CollectStepView) -> bool {
    step is Finished || step is Failed
}

/// Whether a message ends the gathering of the transcript whatever was
/// gathered before: a close frame, the end of the stream, a failed read, a
/// text that is no JSON document, or a `transcription.done` or `error`
/// event.
pub open spec fn is_terminal(msg: IncomingView) -> bool {
    match msg {
        IncomingView::Text(t) => match decoded_event(t) {
            Err(_) => true,
            Ok(ServerEventView::Done(_)) => true,
            Ok(ServerEventView::Failed(_)) => true,
            Ok(_) => false,
        },
        IncomingView::Close => true,
        IncomingView::Ended => true,
        IncomingView::ReadError(_) => true,
        IncomingView::Other => false,
    }
}

/// A step ends the session exactly on a terminal message.
pub proof fn lemma_step_ends_session(text: Seq<char>, mode: Mode, msg: IncomingView)
    ensures
        ends_session(collect_message(text, mode, msg).1) <==> is_terminal(msg),
{
}

/// The gathered text and the step that ended the session, after the
/// messages `msgs` are read in order from `text`; `None` when none of them
/// ends it.
pub open spec fn collect_run(text: Seq<char>, mode: Mode, msgs: Seq<IncomingView>) -> Option<
    (Seq<char>, CollectStepView),
>
    decreases msgs.len(),
{
    if msgs.len() == 0 {
        None
    } else {
        let (after, step) = collect_message(text, mode, msgs[0]);
        if ends_session(step) {
            Some((after, step))
        } else {
            collect_run(after, mode, msgs.drop_first())
        }
    }
}

/// Messages after the one that ends the gathering are never taken in:
/// reading more messages afterwards changes neither the text nor the final
/// step.
pub proof fn lemma_messages_after_end_unread(
    text: Seq<char>,
    mode: Mode,
    msgs: Seq<IncomingView>,
    extra: Seq<IncomingView>,
)
    requires
        collect_run(text, mode, msgs) is Some,
    ensures
        collect_run(text, mode, msgs + extra) == collect_run(text, mode, msgs),
    decreases msgs.len(),
{
    let all = msgs + extra;
    assert(all[0] == msgs[0]);
    let (after, step) = collect_message(text, mode, msgs[0]);
    if !ends_session(step) {
        assert(all.drop_first() =~= msgs.drop_first() + extra);
        lemma_messages_after_end_unread(after, mode, msgs.drop_first(), extra);
    }
}

/// What a whole session comes to when it reads `msgs` in order from its
/// opening: waiting for `session.created`, then gathering the transcript.
/// `None` when the messages end before the session does.
pub open spec fn session_run(mode: Mode, msgs: Seq<IncomingView>) -> Option<Result<Seq<char>, ErrorView>>
    decreases msgs.len(),
{
    if msgs.len() == 0 {
        None
    } else {
        match handshake_outcome(msgs[0], mode) {
            HandshakeView::Waiting => session_run(mode, msgs.drop_first()),
            HandshakeView::Failed(e) => Some(Err(e)),
            HandshakeView::Ready => match collect_run(Seq::empty(), mode, msgs.drop_first()) {
                Some((_, CollectStepView::Finished(t, _))) => Some(Ok(t)),
                Some((_, CollectStepView::Failed(e))) => Some(Err(e)),
                _ => None,
            },
        }
    }
}

/// Frames after the one that ends a session are never read: a session that
/// has come to an outcome on `msgs` comes to the same outcome whatever
/// frames follow.
pub proof fn lemma_frames_after_end_unread(mode: Mode, msgs: Seq<IncomingView>, extra: Seq<IncomingView>)
    requires
        session_run(mode, msgs) is Some,
    ensures
        session_run(mode, msgs + extra) == session_run(mode, msgs),
    decreases msgs.len(),
{
    let all = msgs + extra;
    assert(all[0] == msgs[0]);
    assert(all.drop_first() =~= msgs.drop_first() + extra);
    match handshake_outcome(msgs[0], mode) {
        HandshakeView::Waiting => {
            lemma_frames_after_end_unread(mode, msgs.drop_first(), extra);
        },
        HandshakeView::Failed(_) => {},
        HandshakeView::Ready => {
            lemma_messages_after_end_unread(Seq::empty(), mode, msgs.drop_first(), extra);
        },
    }
}

/// Gathers the transcript of a Voxtral session from its messages.
pub struct TranscriptCollector {
    text: String,
    mode: Mode,
}

/// The mathematical form of a [`TranscriptCollector`].
pub ghost struct CollectorView {
    pub text: Seq<char>,
    pub mode: Mode,
}

impl View for TranscriptCollector {
    type V = CollectorView;

    closed spec fn view(&self) -> CollectorView {
        CollectorView { text: self.text@, mode: self.mode }
    }
}

impl TranscriptCollector {
    /// A collector in `mode` with no text yet.
    pub fn new(mode: Mode) -> (res: Self)
        ensures
            res@.text == Seq::<char>::empty(),
            res@.mode == mode,
    {
        TranscriptCollector { text: String::new(), mode }
    }

    /// The text gathered so far.
    pub fn text(&self) -> (res: &str)
        ensures
            res@ == self@.text,
    {
        self.text.as_str()
    }

    /// Takes in an event that a server message announced.
    pub fn on_event(&mut self, ev: ServerEvent) -> (res: CollectStep)
        ensures
            (final(self)@.text, res@) == apply_event(old(self)@.text, old(self)@.mode, ev@),
            final(self)@.mode == old(self)@.mode,
    {
        event_into(&mut self.text, self.mode, ev)
    }

    /// Takes in what reading the socket gave.
    pub fn on_message(&mut self, msg: Incoming) -> (res: CollectStep)
        ensures
            (final(self)@.text, res@) == collect_message(old(self)@.text, old(self)@.mode, msg@),
            final(self)@.mode == old(self)@.mode,
    {
        message_into(&mut self.text, self.mode, msg)
    }
}

/// Applies `ev` to the transcript `text` of a session in `mode`.
pub(crate) fn event_into(text: &mut String, mode: Mode, ev: ServerEvent) -> (res: CollectStep)
    ensures
        (final(text)@, res@) == apply_event(old(text)@, mode, ev@),
{
    match ev {
        ServerEvent::TextDelta(Some(d)) => {
            text.append(d.as_str());
            CollectStep::Appended(d)
        },
        ServerEvent::Done(Some(t)) => {
            let trimmed = trim_white_space_str(t.as_str());
            *text = t;
            CollectStep::Finished { text: trimmed, done: true }
        },
        ServerEvent::Done(None) => {
            let trimmed = trim_white_space_str(text.as_str());
            CollectStep::Finished { text: trimmed, done: true }
        },
        ServerEvent::Failed(m) => CollectStep::Failed(
            TranscriptionError::Server { mode, message: m },
        ),
        _ => CollectStep::Continue,
    }
}

/// Applies `msg` to the transcript `text` of a session in `mode`.
pub(crate) fn message_into(text: &mut String, mode: Mode, msg: Incoming) -> (res: CollectStep)
    ensures
        (final(text)@, res@) == collect_message(old(text)@, mode, msg@),
{
    match msg {
        Incoming::Text(t) => match decode_server_event(t.as_str()) {
            Err(e) => CollectStep::Failed(TranscriptionError::MalformedJson(e)),
            Ok(ev) => event_into(text, mode, ev),
        },
        Incoming::Close => CollectStep::Finished {
            text: trim_white_space_str(text.as_str()),
            done: false,
        },
        Incoming::Ended => CollectStep::Finished {
            text: trim_white_space_str(text.as_str()),
            done: false,
        },
        Incoming::ReadError(e) => match mode {
            Mode::Batch => CollectStep::Failed(TranscriptionError::Transport(e)),
            Mode::Streaming => CollectStep::Failed(TranscriptionError::StreamRead(e)),
        },
        Incoming::Other => CollectStep::Continue,
    }
}

} // verus!
