//! The decisions of one WebSocket session, as a state machine.
//!
//! The caller owns the socket, the clock and the recognizer stream. It hands
//! each event to [`Session`], performs the returned [`Step`]s in order, and
//! stops when the reaction says the session is done. A `Finalize` step is
//! performed by flushing the recognizer stream, passing what it decoded to
//! [`Session::complete_round`], sending the frame that comes back (if any)
//! and resetting the stream.
use vstd::prelude::*;

use crate::protocol::{
    connection_error_frame, idle_error_frame, protocol_error_frame, strings_view, ClientMessage,
    CommandView, MessageView, ServerMessage,
};
use crate::span::Span;

verus! {

/// The shortest idle timeout a client may ask for: 5 s.
pub open spec fn min_idle_nanos() -> int {
    5_000_000_000
}

/// The longest idle timeout a client may ask for: 600 s.
pub open spec fn max_idle_nanos() -> int {
    600_000_000_000
}

/// A suggested idle timeout, brought into [5 s, 600 s].
pub open spec fn clamped_idle(d: int) -> int {
    if d < min_idle_nanos() {
        min_idle_nanos()
    } else if d > max_idle_nanos() {
        max_idle_nanos()
    } else {
        d
    }
}

/// Brings a client-suggested idle timeout into the range [5 s, 600 s].
pub fn clamp_idle(d: Span) -> (r: Span)
    ensures
        r@ == clamped_idle(d@),
{
    let min_idle = Span::from_secs(5);
    let max_idle = Span::from_secs(600);
    if d.shorter_than(&min_idle) {
        min_idle
    } else if max_idle.shorter_than(&d) {
        max_idle
    } else {
        d
    }
}

/// The signed 16-bit sample whose little-endian bytes are `lo`, `hi`.
pub open spec fn sample_of(lo: u8, hi: u8) -> i16 {
    let v = (hi as int) * 256 + (lo as int);
    if v >= 32768 {
        (v - 65536) as i16
    } else {
        v as i16
    }
}

/// The samples of 16-bit little-endian PCM audio; a trailing odd byte is ignored.
pub open spec fn pcm_samples(data: Seq<u8>) -> Seq<i16> {
    Seq::new(data.len() / 2, |i: int| sample_of(data[2 * i], data[2 * i + 1]))
}

/// Decodes 16-bit little-endian PCM audio into samples.
pub fn decode_pcm(data: &[u8]) -> (r: Vec<i16>)
    ensures
        r@ == pcm_samples(data@),
{
    let len = data.len();
    let n = len / 2;
    let mut out: Vec<i16> = Vec::new();
    let mut i: usize = 0;
    while i < n
        invariant
            len == data@.len(),
            n == len / 2,
            2 * n <= len,
            i <= n,
            out@.len() == i,
            forall|k: int| 0 <= k < i ==> out@[k] == sample_of(data@[2 * k], data@[2 * k + 1]),
        decreases n - i,
    {
        let lo = data[2 * i];
        let hi = data[2 * i + 1];
        let v: u32 = (hi as u32) * 256 + (lo as u32);
        let s: i16 = if v >= 32768 {
            (v as i32 - 65536) as i16
        } else {
            v as i16
        };
        out.push(s);
        i = i + 1;
    }
    assert(out@ =~= pcm_samples(data@));
    out
}

/// What a decoding pass produced: the text, its tokens, and the tokens'
/// start times (seconds as `f64` bit patterns).
pub type Transcript = (String, Vec<String>, Vec<u64>);

/// The `final` frame for segment `segment` built from a decoding result.
pub open spec fn final_frame(t: (Seq<char>, Seq<Seq<char>>, Seq<u64>), segment: u32) -> MessageView {
    MessageView::Final { text: t.0, segment, tokens: t.1, timestamps: t.2 }
}

/// The `final` frame with no text, which marks a round boundary.
pub open spec fn empty_final_frame(segment: u32) -> MessageView {
    MessageView::Final { text: Seq::empty(), segment, tokens: Seq::empty(), timestamps: Seq::empty() }
}

pub open spec fn transcript_view(t: Transcript) -> (Seq<char>, Seq<Seq<char>>, Seq<u64>) {
    (t.0@, strings_view(t.1@), t.2@)
}

pub open spec fn transcript_option_view(t: Option<Transcript>) -> Option<(Seq<char>, Seq<Seq<char>>, Seq<u64>)> {
    match t {
        Some(t) => Some(transcript_view(t)),
        None => None,
    }
}

pub open spec fn message_option_view(m: Option<ServerMessage>) -> Option<MessageView> {
    match m {
        Some(m) => Some(m@),
        None => None,
    }
}

/// The `final` frame for what the recognizer decoded: only when it
/// recognized some text.
pub open spec fn decoded_frame(
    flushed: Option<(Seq<char>, Seq<Seq<char>>, Seq<u64>)>,
    segment: u32,
) -> Option<MessageView> {
    match flushed {
        Some(t) if t.0.len() > 0 => Some(final_frame(t, segment)),
        _ => None,
    }
}

/// Builds the `final` frame from what the recognizer decoded; `None` when it
/// recognized no text (nothing decoded, or empty text).
pub fn build_final(flushed: Option<Transcript>, segment: u32) -> (r: Option<ServerMessage>)
    ensures
        message_option_view(r) == decoded_frame(transcript_option_view(flushed), segment),
{
    match flushed {
        Some((text, tokens, timestamps)) => {
            if text.as_str().is_empty() {
                None
            } else {
                Some(ServerMessage::Final { text, segment, tokens, timestamps })
            }
        },
        None => None,
    }
}

/// The frame sent when a round is finalized: the `final` for the recognized
/// text; when there is none, an empty `final` if `always_emit` holds, else
/// nothing.
pub open spec fn round_frame(
    flushed: Option<(Seq<char>, Seq<Seq<char>>, Seq<u64>)>,
    segment: u32,
    always_emit: bool,
) -> Option<MessageView> {
    match decoded_frame(flushed, segment) {
        Some(f) => Some(f),
        None => if always_emit {
            Some(empty_final_frame(segment))
        } else {
            None
        },
    }
}

/// Something that happened on the connection.
pub enum ClientEvent {
    /// The client went away without a close frame.
    Closed,
    /// Reading from the socket failed.
    Failed,
    /// A binary frame of audio.
    Audio(Vec<u8>),
    /// A text frame that holds a command.
    Command(ClientMessage),
    /// A text frame that is no valid command; the text says why.
    Malformed(String),
    /// A ping or pong frame.
    Control,
    /// A close frame.
    CloseRequested,
}

pub enum EventView {
    Closed,
    Failed,
    Audio(Seq<u8>),
    Command(CommandView),
    Malformed(Seq<char>),
    Control,
    CloseRequested,
}

impl View for ClientEvent {
    type V = EventView;

    open spec fn view(&self) -> EventView {
        match self {
            ClientEvent::Closed => EventView::Closed,
            ClientEvent::Failed => EventView::Failed,
            ClientEvent::Audio(data) => EventView::Audio(data@),
            ClientEvent::Command(cmd) => EventView::Command(cmd@),
            ClientEvent::Malformed(why) => EventView::Malformed(why@),
            ClientEvent::Control => EventView::Control,
            ClientEvent::CloseRequested => EventView::CloseRequested,
        }
    }
}

/// One thing for the caller to do.
pub enum Step {
    /// End the open round: flush the stream, send what
    /// [`Session::complete_round`] returns, reset the stream.
    Finalize { always_emit: bool },
    /// Open a recognizer stream at this sample rate, replacing any other.
    OpenStream { sample_rate: i32 },
    /// Feed these samples to the open stream; send [`Session::partial`] of
    /// the text it returns, if any.
    Feed { samples: Vec<i16> },
    /// Send this frame.
    Send(ServerMessage),
    /// Send a WebSocket ping to probe the link.
    Probe,
    /// Send a close frame with this reason.
    Close { reason: String },
}

pub enum StepView {
    Finalize { always_emit: bool },
    OpenStream { sample_rate: i32 },
    Feed { samples: Seq<i16> },
    Send(MessageView),
    Probe,
    Close { reason: Seq<char> },
}

impl View for Step {
    type V = StepView;

    open spec fn view(&self) -> StepView {
        match self {
            Step::Finalize { always_emit } => StepView::Finalize { always_emit: *always_emit },
            Step::OpenStream { sample_rate } => StepView::OpenStream { sample_rate: *sample_rate },
            Step::Feed { samples } => StepView::Feed { samples: samples@ },
            Step::Send(m) => StepView::Send(m@),
            Step::Probe => StepView::Probe,
            Step::Close { reason } => StepView::Close { reason: reason@ },
        }
    }
}

/// What the caller must do after an event, and whether the session ends.
pub struct Reaction {
    pub steps: Vec<Step>,
    pub done: bool,
}

pub open spec fn steps_view(steps: Seq<Step>) -> Seq<StepView> {
    steps.map_values(|s: Step| s@)
}

/// The state of one session.
pub struct Session {
    listening: bool,
    segment: u32,
    idle_timeout: Span,
    idle_default: Span,
}

/// The state of a session: whether a round has been started (a stream is
/// open), the number of the current segment, the idle timeout in force and
/// the server's default idle timeout, both in nanoseconds.
pub struct SessionView {
    pub listening: bool,
    pub segment: u32,
    pub idle_timeout: int,
    pub idle_default: int,
}

impl View for Session {
    type V = SessionView;

    closed spec fn view(&self) -> SessionView {
        SessionView {
            listening: self.listening,
            segment: self.segment,
            idle_timeout: self.idle_timeout@,
            idle_default: self.idle_default@,
        }
    }
}

/// The steps that end the open round, if one is open.
pub open spec fn finalize_steps(s: SessionView, always_emit: bool) -> Seq<StepView> {
    if s.listening {
        seq![StepView::Finalize { always_emit }]
    } else {
        Seq::empty()
    }
}

pub open spec fn send(m: MessageView) -> StepView {
    StepView::Send(m)
}

pub open spec fn close(reason: Seq<char>) -> StepView {
    StepView::Close { reason }
}

/// How a session reacts to an event: the next state, the steps, and whether
/// the session ends.
pub open spec fn react(s: SessionView, e: EventView) -> (SessionView, Seq<StepView>, bool) {
    match e {
        EventView::Closed => (s, seq![close("bye"@)], true),
        EventView::CloseRequested => (s, seq![close("bye"@)], true),
        EventView::Failed => (
            s,
            finalize_steps(s, false) + seq![
                send(connection_error_frame("connection closed"@)),
                close("connection error"@),
            ],
            true,
        ),
        EventView::Audio(data) => if s.listening {
            (s, seq![StepView::Feed { samples: pcm_samples(data) }], false)
        } else {
            (s, seq![send(protocol_error_frame("not listening, send start first"@))], false)
        },
        EventView::Command(CommandView::Start { sample_rate, idle }) => (
            SessionView {
                listening: true,
                idle_timeout: match idle {
                    Some(d) => clamped_idle(d),
                    None => s.idle_default,
                },
                ..s
            },
            finalize_steps(s, false) + seq![
                StepView::OpenStream { sample_rate },
                send(MessageView::Status { state: "listening"@ }),
            ],
            false,
        ),
        EventView::Command(CommandView::Finish) => (
            s,
            finalize_steps(s, false) + seq![send(MessageView::Status { state: "ready"@ })],
            false,
        ),
        EventView::Command(CommandView::Ping) => (s, seq![send(MessageView::Pong)], false),
        EventView::Malformed(why) => (
            s,
            seq![send(protocol_error_frame("invalid message: "@ + why))],
            false,
        ),
        EventView::Control => (s, Seq::empty(), false),
    }
}

/// How a session reacts to a heartbeat tick, `elapsed` nanoseconds after the
/// last activity.
pub open spec fn react_to_heartbeat(s: SessionView, elapsed: int) -> (SessionView, Seq<StepView>, bool) {
    if elapsed >= s.idle_timeout {
        (
            s,
            finalize_steps(s, true) + seq![send(idle_error_frame("idle timeout"@)), close("bye"@)],
            true,
        )
    } else {
        (s, seq![StepView::Probe], false)
    }
}

fn text(s: &str) -> (r: String)
    ensures
        r@ == s@,
{
    s.to_owned()
}

fn push_finalize(steps: &mut Vec<Step>, listening: bool, always_emit: bool)
    requires
        old(steps)@.len() == 0,
    ensures
        steps_view(final(steps)@) == (if listening {
            seq![StepView::Finalize { always_emit }]
        } else {
            Seq::<StepView>::empty()
        }),
{
    if listening {
        steps.push(Step::Finalize { always_emit });
    }
    assert(steps_view(steps@) =~= (if listening {
        seq![StepView::Finalize { always_emit }]
    } else {
        Seq::<StepView>::empty()
    }));
}

impl Session {
    /// A fresh session: no round open, segment 0, the default idle timeout.
    pub fn new(idle_default: Span) -> (r: Session)
        ensures
            r@ == (SessionView {
                listening: false,
                segment: 0,
                idle_timeout: idle_default@,
                idle_default: idle_default@,
            }),
    {
        Session { listening: false, segment: 0, idle_timeout: idle_default, idle_default }
    }

    /// The frame that greets a new connection.
    pub fn greeting() -> (r: ServerMessage)
        ensures
            r@ == (MessageView::Status { state: "ready"@ }),
    {
        ServerMessage::ready()
    }

    /// Whether a round is open.
    pub fn is_listening(&self) -> (r: bool)
        ensures
            r == self@.listening,
    {
        self.listening
    }

    /// The number of the current segment.
    pub fn segment(&self) -> (r: u32)
        ensures
            r == self@.segment,
    {
        self.segment
    }

    /// The idle timeout in force.
    pub fn idle_timeout(&self) -> (r: Span)
        ensures
            r@ == self@.idle_timeout,
    {
        self.idle_timeout
    }

    /// Reacts to an event on the connection.
    pub fn on_event(&mut self, event: ClientEvent) -> (r: Reaction)
        ensures
            (final(self)@, steps_view(r.steps@), r.done) == react(old(self)@, event@),
    {
        let ghost s = self@;
        let mut steps: Vec<Step> = Vec::new();
        match event {
            ClientEvent::Closed | ClientEvent::CloseRequested => {
                steps.push(Step::Close { reason: text("bye") });
                assert(steps_view(steps@) =~= seq![close("bye"@)]);
                Reaction { steps, done: true }
            },
            ClientEvent::Failed => {
                push_finalize(&mut steps, self.listening, false);
                let ghost head = steps_view(steps@);
                steps.push(Step::Send(ServerMessage::error_connection(text("connection closed"))));
                steps.push(Step::Close { reason: text("connection error") });
                assert(steps_view(steps@) =~= head + seq![
                    send(connection_error_frame("connection closed"@)),
                    close("connection error"@),
                ]);
                Reaction { steps, done: true }
            },
            ClientEvent::Audio(data) => {
                if self.listening {
                    let samples = decode_pcm(data.as_slice());
                    steps.push(Step::Feed { samples });
                    assert(steps_view(steps@) =~= seq![StepView::Feed { samples: pcm_samples(data@) }]);
                } else {
                    steps.push(Step::Send(ServerMessage::error_protocol(text("not listening, send start first"))));
                    assert(steps_view(steps@) =~= seq![
                        send(protocol_error_frame("not listening, send start first"@)),
                    ]);
                }
                Reaction { steps, done: false }
            },
            ClientEvent::Command(ClientMessage::Start(cmd)) => {
                push_finalize(&mut steps, self.listening, false);
                let ghost head = steps_view(steps@);
                steps.push(Step::OpenStream { sample_rate: cmd.sample_rate });
                self.idle_timeout = match cmd.idle {
                    Some(d) => clamp_idle(d),
                    None => self.idle_default,
                };
                self.listening = true;
                steps.push(Step::Send(ServerMessage::listening()));
                assert(steps_view(steps@) =~= head + seq![
                    StepView::OpenStream { sample_rate: cmd.sample_rate },
                    send(MessageView::Status { state: "listening"@ }),
                ]);
                Reaction { steps, done: false }
            },
            ClientEvent::Command(ClientMessage::Finish) => {
                push_finalize(&mut steps, self.listening, false);
                let ghost head = steps_view(steps@);
                steps.push(Step::Send(ServerMessage::ready()));
                assert(steps_view(steps@) =~= head + seq![send(MessageView::Status { state: "ready"@ })]);
                Reaction { steps, done: false }
            },
            ClientEvent::Command(ClientMessage::Ping) => {
                steps.push(Step::Send(ServerMessage::Pong));
                assert(steps_view(steps@) =~= seq![send(MessageView::Pong)]);
                Reaction { steps, done: false }
            },
            ClientEvent::Malformed(why) => {
                let message = text("invalid message: ").concat(why.as_str());
                steps.push(Step::Send(ServerMessage::error_protocol(message)));
                assert(steps_view(steps@) =~= seq![
                    send(protocol_error_frame("invalid message: "@ + why@)),
                ]);
                Reaction { steps, done: false }
            },
            ClientEvent::Control => {
                assert(steps_view(steps@) =~= Seq::<StepView>::empty());
                Reaction { steps, done: false }
            },
        }
    }

    /// Reacts to a heartbeat tick, `elapsed` after the last activity: ends
    /// the session when it has been idle for the idle timeout, else probes
    /// the link.
    pub fn on_heartbeat(&mut self, elapsed: Span) -> (r: Reaction)
        ensures
            (final(self)@, steps_view(r.steps@), r.done) == react_to_heartbeat(old(self)@, elapsed@),
    {
        let mut steps: Vec<Step> = Vec::new();
        if elapsed.shorter_than(&self.idle_timeout) {
            steps.push(Step::Probe);
            assert(steps_view(steps@) =~= seq![StepView::Probe]);
            Reaction { steps, done: false }
        } else {
            push_finalize(&mut steps, self.listening, true);
            let ghost head = steps_view(steps@);
            steps.push(Step::Send(ServerMessage::error_idle(text("idle timeout"))));
            steps.push(Step::Close { reason: text("bye") });
            assert(steps_view(steps@) =~= head + seq![
                send(idle_error_frame("idle timeout"@)),
                close("bye"@),
            ]);
            Reaction { steps, done: true }
        }
    }

    /// The `partial` frame for text decoded so far in the current segment.
    pub fn partial(&self, text: String) -> (r: ServerMessage)
        ensures
            r@ == (MessageView::Partial { text: text@, segment: self@.segment }),
    {
        ServerMessage::Partial { text, segment: self.segment }
    }

    /// Completes a `Finalize` step: returns the frame to send for what the
    /// recognizer decoded, and moves on to the next segment.
    pub fn complete_round(&mut self, flushed: Option<Transcript>, always_emit: bool) -> (r: Option<ServerMessage>)
        requires
            old(self)@.listening,
            old(self)@.segment < u32::MAX,
        ensures
            message_option_view(r) == round_frame(
                transcript_option_view(flushed),
                old(self)@.segment,
                always_emit,
            ),
            final(self)@ == (SessionView { segment: (old(self)@.segment + 1) as u32, ..old(self)@ }),
    {
        let final_msg = build_final(flushed, self.segment);
        let to_send = if always_emit {
            match final_msg {
                Some(m) => Some(m),
                None => Some(
                    ServerMessage::Final {
                        text: String::new(),
                        segment: self.segment,
                        tokens: Vec::new(),
                        timestamps: Vec::new(),
                    },
                ),
            }
        } else {
            final_msg
        };
        proof {
            if to_send is Some && final_msg is None {
                assert(strings_view(Seq::<String>::empty()) =~= Seq::empty());
            }
        }
        self.segment = self.segment + 1;
        to_send
    }
}

/// Events and heartbeats never change the segment number or the default
/// idle timeout: only a completed round moves to the next segment.
pub proof fn lemma_events_keep_segment(s: SessionView, e: EventView, elapsed: int)
    ensures
        react(s, e).0.segment == s.segment,
        react(s, e).0.idle_default == s.idle_default,
        react_to_heartbeat(s, elapsed).0 == s,
{
}

/// Once a round has been started the session keeps an open stream: no event
/// closes it.
pub proof fn lemma_listening_persists(s: SessionView, e: EventView)
    ensures
        s.listening ==> react(s, e).0.listening,
{
}

/// A session ends exactly when its last step is a close frame; a session
/// that goes on sends no close frame.
pub proof fn lemma_end_sends_close(s: SessionView, e: EventView, elapsed: int)
    ensures
        ({
            let (_, steps, done) = react(s, e);
            &&& done ==> steps.len() > 0 && steps.last() is Close
            &&& !done ==> forall|i: int| 0 <= i < steps.len() ==> !(steps[i] is Close)
        }),
        ({
            let (_, steps, done) = react_to_heartbeat(s, elapsed);
            &&& done ==> steps.len() > 0 && steps.last() is Close
            &&& !done ==> forall|i: int| 0 <= i < steps.len() ==> !(steps[i] is Close)
        }),
{
    let (_, steps, done) = react(s, e);
    if !done {
        assert forall|i: int| 0 <= i < steps.len() implies !(steps[i] is Close) by {
            if s.listening {
                assert(finalize_steps(s, false)[0] is Finalize);
            }
        }
    }
}

/// A `Finalize` step is only ever asked for while a round is open, so the
/// caller can always complete it.
pub proof fn lemma_finalize_needs_open_round(s: SessionView, e: EventView, elapsed: int)
    ensures
        forall|i: int|
            0 <= i < react(s, e).1.len() && (#[trigger] react(s, e).1[i]) is Finalize ==> s.listening,
        forall|i: int|
            0 <= i < react_to_heartbeat(s, elapsed).1.len()
                && (#[trigger] react_to_heartbeat(s, elapsed).1[i]) is Finalize ==> s.listening,
{
}

/// Audio that arrives before any `start` is never fed to the recognizer: it
/// is answered with a recoverable protocol error.
pub proof fn lemma_audio_needs_start(s: SessionView, data: Seq<u8>)
    requires
        !s.listening,
    ensures
        react(s, EventView::Audio(data)).1 == seq![
            send(protocol_error_frame("not listening, send start first"@)),
        ],
        !react(s, EventView::Audio(data)).2,
{
}

/// A `start` first finalizes the round in flight, and afterwards the idle
/// timeout is the client's suggestion clamped to [5 s, 600 s], or the
/// server's default when the client suggested none.
pub proof fn lemma_start_restarts_round(s: SessionView, rate: i32, idle: Option<int>)
    ensures
        ({
            let (n, steps, done) = react(s, EventView::Command(CommandView::Start { sample_rate: rate, idle }));
            &&& n.listening
            &&& !done
            &&& s.listening ==> steps[0] == (StepView::Finalize { always_emit: false })
            &&& match idle {
                Some(_) => min_idle_nanos() <= n.idle_timeout <= max_idle_nanos(),
                None => n.idle_timeout == s.idle_default,
            }
        }),
{
}

/// An idle timeout always ends the open round with a `final` frame, empty
/// when nothing was recognized, so the client never loses the round boundary.
pub proof fn lemma_idle_end_emits_final(
    s: SessionView,
    elapsed: int,
    flushed: Option<(Seq<char>, Seq<Seq<char>>, Seq<u64>)>,
)
    requires
        elapsed >= s.idle_timeout,
        s.listening,
    ensures
        react_to_heartbeat(s, elapsed).1[0] == (StepView::Finalize { always_emit: true }),
        react_to_heartbeat(s, elapsed).2,
        round_frame(flushed, s.segment, true) is Some,
        round_frame(flushed, s.segment, true).unwrap() is Final,
{
}

/// Clamping a timeout twice gives what clamping it once gives, and a timeout
/// already in range is kept.
pub proof fn lemma_clamp_idempotent(d: int)
    ensures
        clamped_idle(clamped_idle(d)) == clamped_idle(d),
        min_idle_nanos() <= d <= max_idle_nanos() ==> clamped_idle(d) == d,
{
}

/// A round without recognized text sends no `final`, unless it ends by
/// idleness, when the `final` is empty.
pub proof fn lemma_no_text_no_final(
    flushed: Option<(Seq<char>, Seq<Seq<char>>, Seq<u64>)>,
    segment: u32,
)
    requires
        flushed matches Some(t) ==> t.0.len() == 0,
    ensures
        round_frame(flushed, segment, false) is None,
        round_frame(flushed, segment, true) == Some(empty_final_frame(segment)),
{
}

/// A heartbeat that comes before the idle timeout in force has run out only
/// probes the link and keeps the session, whatever the server's default
/// timeout is; once the timeout in force has run out, the session ends with
/// the idle error and a `bye` close, after finalizing the open round.
pub proof fn lemma_heartbeat_follows_timeout_in_force(s: SessionView, elapsed: int)
    ensures
        elapsed < s.idle_timeout ==> react_to_heartbeat(s, elapsed) == (s, seq![StepView::Probe], false),
        elapsed >= s.idle_timeout ==> ({
            let (n, steps, done) = react_to_heartbeat(s, elapsed);
            &&& done
            &&& n == s
            &&& steps.len() == (if s.listening { 3int } else { 2int })
            &&& s.listening ==> steps[0] == (StepView::Finalize { always_emit: true })
            &&& steps[steps.len() - 2] == StepView::Send(
                MessageView::Error { code: "idle"@, message: "idle timeout"@, fatal: false, retry: true },
            )
            &&& steps[steps.len() - 1] == (StepView::Close { reason: "bye"@ })
        }),
{
}

/// After a `start` that suggests an idle timeout between 5 s and 600 s, the
/// round keeps going on every heartbeat until that much time has passed,
/// whatever the server's default; a shorter suggestion counts as 5 s and a
/// longer one as 600 s.
pub proof fn lemma_client_idle_governs_heartbeats(
    s: SessionView,
    rate: i32,
    d: int,
    elapsed: int,
)
    ensures
        ({
            let n = react(s, EventView::Command(CommandView::Start { sample_rate: rate, idle: Some(d) })).0;
            &&& (5_000_000_000 <= d <= 600_000_000_000) ==> n.idle_timeout == d
            &&& d < 5_000_000_000 ==> n.idle_timeout == 5_000_000_000
            &&& d > 600_000_000_000 ==> n.idle_timeout == 600_000_000_000
            &&& (elapsed < d && elapsed < 600_000_000_000) ==> react_to_heartbeat(n, elapsed) == (
                n,
                seq![StepView::Probe],
                false,
            )
            &&& elapsed >= n.idle_timeout ==> react_to_heartbeat(n, elapsed).2
        }),
        ({
            let n = react(s, EventView::Command(CommandView::Start { sample_rate: rate, idle: None })).0;
            n.idle_timeout == s.idle_default
        }),
{
}

/// A `start` always opens the stream at the sample rate it names, then
/// reports `listening`; when a round was open, it is finalized first.
pub proof fn lemma_start_opens_at_named_rate(s: SessionView, rate: i32, idle: Option<int>)
    ensures
        ({
            let steps = react(s, EventView::Command(CommandView::Start { sample_rate: rate, idle })).1;
            &&& steps.len() == (if s.listening { 3int } else { 2int })
            &&& s.listening ==> steps[0] == (StepView::Finalize { always_emit: false })
            &&& steps[steps.len() - 2] == (StepView::OpenStream { sample_rate: rate })
            &&& steps[steps.len() - 1] == StepView::Send(MessageView::Status { state: "listening"@ })
        }),
{
}

/// Whatever non-empty text the recognizer decoded is sent as the `final` of
/// the current segment, with its tokens and timestamps, whether or not the
/// round ends by idleness; without text, a `final` goes out only on an idle
/// end, and then it is empty.
pub proof fn lemma_decoded_text_reaches_final(
    text: Seq<char>,
    tokens: Seq<Seq<char>>,
    timestamps: Seq<u64>,
    segment: u32,
    always_emit: bool,
)
    ensures
        text.len() > 0 ==> decoded_frame(Some((text, tokens, timestamps)), segment) == Some(
            MessageView::Final { text, segment, tokens, timestamps },
        ),
        text.len() > 0 ==> round_frame(Some((text, tokens, timestamps)), segment, always_emit) == Some(
            MessageView::Final { text, segment, tokens, timestamps },
        ),
        text.len() == 0 ==> decoded_frame(Some((text, tokens, timestamps)), segment) is None,
        decoded_frame(None, segment) is None,
        round_frame(None, segment, true) == Some(
            MessageView::Final { text: Seq::empty(), segment, tokens: Seq::empty(), timestamps: Seq::empty() },
        ),
        round_frame(None, segment, false) is None,
{
}

/// A suggested idle timeout is brought into [5 s, 600 s] and is kept when
/// already there; clamping never reverses the order of two suggestions.
pub proof fn lemma_clamp_range(d: int, e: int)
    ensures
        5_000_000_000 <= clamped_idle(d) <= 600_000_000_000,
        (5_000_000_000 <= d <= 600_000_000_000) ==> clamped_idle(d) == d,
        d <= 5_000_000_000 ==> clamped_idle(d) == 5_000_000_000,
        d >= 600_000_000_000 ==> clamped_idle(d) == 600_000_000_000,
        d <= e ==> clamped_idle(d) <= clamped_idle(e),
{
}

/// How a session answers each kind of client event, frame by frame: `finish`
/// ends the open round and reports `ready`; `ping` gets `pong`; a malformed
/// command gets a recoverable protocol error that quotes the reason; a broken
/// link ends the open round, reports the fatal connection error and closes;
/// a close from the client, or its going away, is answered with a `bye`
/// close; control frames need nothing; audio in an open round is fed as its
/// samples. Only the last three kinds of ending events end the session.
pub proof fn lemma_event_answers(s: SessionView, why: Seq<char>, data: Seq<u8>)
    ensures
        ({
            let (n, steps, done) = react(s, EventView::Command(CommandView::Finish));
            &&& !done && n == s
            &&& steps.len() == (if s.listening { 2int } else { 1int })
            &&& s.listening ==> steps[0] == (StepView::Finalize { always_emit: false })
            &&& steps[steps.len() - 1] == StepView::Send(MessageView::Status { state: "ready"@ })
        }),
        react(s, EventView::Command(CommandView::Ping)) == (s, seq![StepView::Send(MessageView::Pong)], false),
        react(s, EventView::Malformed(why)) == (
            s,
            seq![
                StepView::Send(
                    MessageView::Error {
                        code: "protocol"@,
                        message: "invalid message: "@ + why,
                        fatal: false,
                        retry: false,
                    },
                ),
            ],
            false,
        ),
        ({
            let (n, steps, done) = react(s, EventView::Failed);
            &&& done && n == s
            &&& steps.len() == (if s.listening { 3int } else { 2int })
            &&& s.listening ==> steps[0] == (StepView::Finalize { always_emit: false })
            &&& steps[steps.len() - 2] == StepView::Send(
                MessageView::Error { code: "connection"@, message: "connection closed"@, fatal: true, retry: true },
            )
            &&& steps[steps.len() - 1] == (StepView::Close { reason: "connection error"@ })
        }),
        react(s, EventView::Closed) == (s, seq![StepView::Close { reason: "bye"@ }], true),
        react(s, EventView::CloseRequested) == (s, seq![StepView::Close { reason: "bye"@ }], true),
        react(s, EventView::Control) == (s, Seq::<StepView>::empty(), false),
        s.listening ==> react(s, EventView::Audio(data)) == (
            s,
            seq![StepView::Feed { samples: pcm_samples(data) }],
            false,
        ),
{
}

/// Each decoded sample is the signed 16-bit number whose little-endian bytes
/// are the pair it comes from, and every whole pair gives one sample.
pub proof fn lemma_pcm_little_endian(data: Seq<u8>, i: int)
    ensures
        pcm_samples(data).len() * 2 <= data.len() < pcm_samples(data).len() * 2 + 2,
        0 <= i < pcm_samples(data).len() ==> ({
            let v = pcm_samples(data)[i] as int;
            &&& -32768 <= v < 32768
            &&& (v + 65536) % 65536 == data[2 * i] as int + 256 * (data[2 * i + 1] as int)
        }),
{
}

} // verus!
