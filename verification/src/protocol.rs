//! Messages exchanged with clients, and the error bodies of rejected upgrades.
pub mod error_code;

use vstd::prelude::*;
use crate::span::Span;

verus! {

/// The sample rate assumed when a `start` command names none.
pub fn default_sample_rate() -> (r: i32)
    ensures
        r == 16000,
{
    16000
}

/// The `start` command, which opens a recognition round.
pub struct StartCommand {
    pub sample_rate: i32,
    /// The idle timeout that the client suggests for this round, when it
    /// suggested a positive number of seconds.
    pub idle: Option<Span>,
}

/// A command that a client sends as a text frame.
pub enum ClientMessage {
    Start(StartCommand),
    Finish,
    Ping,
}

/// What a client command means.
pub enum CommandView {
    Start { sample_rate: i32, idle: Option<int> },
    Finish,
    Ping,
}

pub open spec fn span_option_view(o: Option<Span>) -> Option<int> {
    match o {
        Some(d) => Some(d@),
        None => None,
    }
}

impl View for ClientMessage {
    type V = CommandView;

    open spec fn view(&self) -> CommandView {
        match self {
            ClientMessage::Start(cmd) => CommandView::Start {
                sample_rate: cmd.sample_rate,
                idle: span_option_view(cmd.idle),
            },
            ClientMessage::Finish => CommandView::Finish,
            ClientMessage::Ping => CommandView::Ping,
        }
    }
}

/// A frame that the server sends to a client.
///
/// The `timestamps` of a `final` frame are seconds held as the IEEE-754 bit
/// patterns of `f64` values; the library passes them through untouched.
pub enum ServerMessage {
    Status { state: String },
    Partial { text: String, segment: u32 },
    Final { text: String, segment: u32, tokens: Vec<String>, timestamps: Vec<u64> },
    Error { code: String, message: String, fatal: bool, retry: bool },
    Pong,
}

/// The content of a server frame.
pub enum MessageView {
    Status { state: Seq<char> },
    Partial { text: Seq<char>, segment: u32 },
    Final { text: Seq<char>, segment: u32, tokens: Seq<Seq<char>>, timestamps: Seq<u64> },
    Error { code: Seq<char>, message: Seq<char>, fatal: bool, retry: bool },
    Pong,
}

pub open spec fn strings_view(v: Seq<String>) -> Seq<Seq<char>> {
    v.map_values(|s: String| s@)
}

impl View for ServerMessage {
    type V = MessageView;

    open spec fn view(&self) -> MessageView {
        match self {
            ServerMessage::Status { state } => MessageView::Status { state: state@ },
            ServerMessage::Partial { text, segment } => MessageView::Partial {
                text: text@,
                segment: *segment,
            },
            ServerMessage::Final { text, segment, tokens, timestamps } => MessageView::Final {
                text: text@,
                segment: *segment,
                tokens: strings_view(tokens@),
                timestamps: timestamps@,
            },
            ServerMessage::Error { code, message, fatal, retry } => MessageView::Error {
                code: code@,
                message: message@,
                fatal: *fatal,
                retry: *retry,
            },
            ServerMessage::Pong => MessageView::Pong,
        }
    }
}

/// The error frame with the given fields.
pub open spec fn error_frame(code: Seq<char>, message: Seq<char>, fatal: bool, retry: bool) -> MessageView {
    MessageView::Error { code, message, fatal, retry }
}

/// The error frame for a recoverable protocol mistake.
pub open spec fn protocol_error_frame(message: Seq<char>) -> MessageView {
    error_frame("protocol"@, message, false, false)
}

/// The error frame that ends a round for idleness.
pub open spec fn idle_error_frame(message: Seq<char>) -> MessageView {
    error_frame("idle"@, message, false, true)
}

/// The error frame for a broken link.
pub open spec fn connection_error_frame(message: Seq<char>) -> MessageView {
    error_frame("connection"@, message, true, true)
}

/// The error frame for failed authentication.
pub open spec fn auth_error_frame(message: Seq<char>) -> MessageView {
    error_frame("auth"@, message, true, false)
}

/// The error frame for an internal failure.
pub open spec fn internal_error_frame(message: Seq<char>) -> MessageView {
    error_frame("internal"@, message, true, false)
}

/// Whether an error code marks the session as lost.
pub open spec fn code_is_fatal(code: Seq<char>) -> bool {
    code == "connection"@ || code == "auth"@ || code == "internal"@
}

/// Whether a client should try again after an error with this code.
pub open spec fn code_invites_retry(code: Seq<char>) -> bool {
    code == "idle"@ || code == "connection"@ || code == "overload"@
}

fn owned(s: &str) -> (r: String)
    ensures
        r@ == s@,
{
    s.to_owned()
}

impl ServerMessage {
    /// The `status` frame that says the server waits for `start`.
    pub fn ready() -> (r: ServerMessage)
        ensures
            r@ == (MessageView::Status { state: "ready"@ }),
    {
        ServerMessage::Status { state: owned("ready") }
    }

    /// The `status` frame that says a round is open.
    pub fn listening() -> (r: ServerMessage)
        ensures
            r@ == (MessageView::Status { state: "listening"@ }),
    {
        ServerMessage::Status { state: owned("listening") }
    }

    /// The error frame with every field given.
    pub fn error(code: &str, message: String, fatal: bool, retry: bool) -> (r: ServerMessage)
        ensures
            r@ == error_frame(code@, message@, fatal, retry),
    {
        ServerMessage::Error { code: owned(code), message, fatal, retry }
    }

    /// A recoverable client-protocol mistake, such as audio before `start`
    /// or a malformed command: not fatal, no retry needed.
    pub fn error_protocol(msg: String) -> (r: ServerMessage)
        ensures
            r@ == protocol_error_frame(msg@),
    {
        Self::error(error_code::PROTOCOL, msg, false, false)
    }

    /// The idle timeout: a recoverable end of the round.
    pub fn error_idle(msg: String) -> (r: ServerMessage)
        ensures
            r@ == idle_error_frame(msg@),
    {
        Self::error(error_code::IDLE, msg, false, true)
    }

    /// A broken link: fatal, but the client may reconnect.
    pub fn error_connection(msg: String) -> (r: ServerMessage)
        ensures
            r@ == connection_error_frame(msg@),
    {
        Self::error(error_code::CONNECTION, msg, true, true)
    }

    /// An authentication failure: fatal, not to be retried with the same token.
    pub fn error_auth(msg: String) -> (r: ServerMessage)
        ensures
            r@ == auth_error_frame(msg@),
    {
        Self::error(error_code::AUTH, msg, true, false)
    }

    /// An internal failure: fatal.
    pub fn error_internal(msg: String) -> (r: ServerMessage)
        ensures
            r@ == internal_error_frame(msg@),
    {
        Self::error(error_code::INTERNAL, msg, true, false)
    }
}

/// The body returned when an upgrade request is refused at the HTTP layer.
/// It has the fields of the `error` frame, so that clients share one parser.
pub struct HttpError {
    pub error: String,
    pub code: String,
    pub message: String,
    pub fatal: bool,
    pub retry: bool,
}

/// The content of an HTTP error body.
pub struct HttpErrorView {
    pub error: Seq<char>,
    pub code: Seq<char>,
    pub message: Seq<char>,
    pub fatal: bool,
    pub retry: bool,
}

impl View for HttpError {
    type V = HttpErrorView;

    open spec fn view(&self) -> HttpErrorView {
        HttpErrorView {
            error: self.error@,
            code: self.code@,
            message: self.message@,
            fatal: self.fatal,
            retry: self.retry,
        }
    }
}

/// The HTTP error body with the given fields; `error` repeats the code for
/// clients that read the older field.
pub open spec fn http_error_body(code: Seq<char>, message: Seq<char>, fatal: bool, retry: bool) -> HttpErrorView {
    HttpErrorView { error: code, code, message, fatal, retry }
}

impl HttpError {
    /// Every recognition slot is taken: recoverable, the client should back off and retry.
    pub fn busy() -> (r: HttpError)
        ensures
            r@ == http_error_body("overload"@, "All ASR slots occupied"@, false, true),
    {
        Self::error(error_code::OVERLOAD, owned("All ASR slots occupied"), false, true)
    }

    /// A bad or missing token: fatal, the client must fix its token.
    pub fn auth() -> (r: HttpError)
        ensures
            r@ == http_error_body("auth"@, "Unauthorized"@, true, false),
    {
        Self::error(error_code::AUTH, owned("Unauthorized"), true, false)
    }

    fn error(code: &str, message: String, fatal: bool, retry: bool) -> (r: HttpError)
        ensures
            r@ == http_error_body(code@, message@, fatal, retry),
    {
        HttpError { error: owned(code), code: owned(code), message, fatal, retry }
    }
}

/// Every error frame that the named constructors build is fatal exactly when
/// its code is `connection`, `auth` or `internal`, and asks for a retry
/// exactly when its code is `idle` or `connection`; the HTTP rejections
/// follow the same rule, `overload` inviting a retry.
pub open spec fn flags_follow_code(f: MessageView) -> bool {
    match f {
        MessageView::Error { code, fatal, retry, .. } => fatal == code_is_fatal(code) && retry
            == code_invites_retry(code),
        _ => true,
    }
}

pub open spec fn body_flags_follow_code(b: HttpErrorView) -> bool {
    b.fatal == code_is_fatal(b.code) && b.retry == code_invites_retry(b.code)
}

pub proof fn lemma_error_flags_follow_code(message: Seq<char>)
    ensures
        flags_follow_code(protocol_error_frame(message)),
        flags_follow_code(idle_error_frame(message)),
        flags_follow_code(connection_error_frame(message)),
        flags_follow_code(auth_error_frame(message)),
        flags_follow_code(internal_error_frame(message)),
        body_flags_follow_code(http_error_body("overload"@, message, false, true)),
        body_flags_follow_code(http_error_body("auth"@, message, true, false)),
{
    reveal_strlit("protocol");
    reveal_strlit("idle");
    reveal_strlit("connection");
    reveal_strlit("auth");
    reveal_strlit("internal");
    reveal_strlit("overload");
    assert("protocol"@.len() != "connection"@.len());
    assert("protocol"@.len() != "auth"@.len());
    assert("protocol"@.len() != "internal"@.len() || "protocol"@[0] != "internal"@[0]);
    assert("protocol"@.len() != "idle"@.len());
    assert("protocol"@.len() != "overload"@.len() || "protocol"@[0] != "overload"@[0]);
    assert("idle"@.len() != "connection"@.len());
    assert("idle"@[0] != "auth"@[0]);
    assert("idle"@.len() != "internal"@.len());
    assert("idle"@.len() != "overload"@.len());
}

} // verus!
