//! The per-connection relay, as a state machine.
//!
//! One `SessionState` value exists per accepted connection; sessions share
//! nothing. The driver outside the library performs the I/O (the peek, the
//! SOCKS5 dial, the two pumps, the closes) and feeds each outcome back as a
//! `SessionEvent`; `session_step` decides, and its `SessionAction` tells the
//! driver what to do next. The step relation `step_spec` pins every
//! transition: the peek is parsed before any dial, the dial succeeds before
//! pumps start, the first pump to finish ends the session, and teardown
//! closes both connections whatever the outcome.

use vstd::prelude::*;

use crate::sni::spec_extract_sni;
use crate::sni::ExtractError;

verus! {

/// Why a relay session ended without (or before) carrying traffic.
#[derive(Clone, Copy, Debug, PartialEq, Eq, Structural)]
pub enum RelayError {
    /// The peeked bytes yielded no SNI host name.
    Extraction(ExtractError),
    /// A read, write or peek on a connection failed.
    IoError,
    /// The SOCKS5 dial to the upstream failed.
    DialError,
}

/// Where one relay session stands.
pub enum SessionState {
    /// Waiting for the driver to peek the inbound connection's first bytes.
    AwaitingPeek,
    /// The SNI was extracted; waiting for the SOCKS5 dial to `host`.
    Dialing { host: String },
    /// Both pumps are running.
    Pumping,
    /// The session is over; `error` is what the relay reports, `None` on a
    /// clean end of stream.
    Closed { error: Option<RelayError> },
}

/// What the driver observed, handed to `session_step`.
pub enum SessionEvent {
    /// The peek returned these bytes (the whole peek window, unconsumed).
    PeekArrived { data: Vec<u8> },
    /// The peek itself failed.
    PeekFailed,
    /// The SOCKS5 dial handed back an outbound connection.
    DialSucceeded,
    /// The SOCKS5 dial failed.
    DialFailed,
    /// One of the two pumps finished: `failed` when it ended in a read or
    /// write error rather than a clean end of stream.
    PumpFinished { failed: bool },
}

/// What the driver must do next.
pub enum SessionAction {
    /// Dial `host:port` through the SOCKS5 upstream.
    Dial { host: String, port: u16 },
    /// Close the inbound connection; the session is over before any dial
    /// completed, reporting `error`.
    CloseInbound { error: RelayError },
    /// Start the two pumps, inbound-to-outbound and outbound-to-inbound.
    StartPumps,
    /// Close both connections, best effort, each regardless of the other.
    CloseBoth,
    /// The event does not belong to this state; do nothing.
    Ignore,
}

/// The destination port every extracted host is dialed on.
pub const TLS_PORT: u16 = 443;

/// How many bytes the driver peeks from the inbound connection before the
/// extraction: one bounded, stack-local window per session. A ClientHello
/// that does not fit is truncated and so rejected by the extractor, never
/// misparsed.
pub const PEEK_WINDOW_LEN: usize = 2048;

/// The session transition relation: `step_spec(pre, e, post, a)` holds
/// exactly of the transitions `session_step` takes.
pub open spec fn step_spec(
    pre: SessionState,
    e: SessionEvent,
    post: SessionState,
    a: SessionAction,
) -> bool {
    match (pre, e) {
        (SessionState::AwaitingPeek, SessionEvent::PeekArrived { data }) => {
            match spec_extract_sni(data@) {
                Result::Ok(h) => {
                    &&& post matches SessionState::Dialing { host } && host@ == h
                    &&& a matches SessionAction::Dial { host, port } && host@ == h && port
                        == TLS_PORT
                },
                Result::Err(err) => {
                    &&& post == (SessionState::Closed {
                        error: Some(RelayError::Extraction(err)),
                    })
                    &&& a == (SessionAction::CloseInbound { error: RelayError::Extraction(err) })
                },
            }
        },
        (SessionState::AwaitingPeek, SessionEvent::PeekFailed) => {
            &&& post == (SessionState::Closed { error: Some(RelayError::IoError) })
            &&& a == (SessionAction::CloseInbound { error: RelayError::IoError })
        },
        (SessionState::Dialing { host: _ }, SessionEvent::DialSucceeded) => {
            post is Pumping && a is StartPumps
        },
        (SessionState::Dialing { host: _ }, SessionEvent::DialFailed) => {
            &&& post == (SessionState::Closed { error: Some(RelayError::DialError) })
            &&& a == (SessionAction::CloseInbound { error: RelayError::DialError })
        },
        (SessionState::Pumping, SessionEvent::PumpFinished { failed }) => {
            &&& post == (SessionState::Closed {
                error: if failed {
                    Some(RelayError::IoError)
                } else {
                    None
                },
            })
            &&& a is CloseBoth
        },
        (pre, _) => post == pre && a is Ignore,
    }
}

/// Advances one session by one observed event and says what to do next.
/// Consumes the state and returns its successor; the transition taken is
/// exactly the one `step_spec` allows.
pub fn session_step(state: SessionState, event: SessionEvent) -> (r: (SessionState, SessionAction))
    ensures
        step_spec(state, event, r.0, r.1),
{
    match (state, event) {
        (SessionState::AwaitingPeek, SessionEvent::PeekArrived { data }) => {
            match crate::sni::extract_sni(data.as_slice()) {
                Result::Ok(h) => {
                    let action = SessionAction::Dial { host: h.clone(), port: TLS_PORT };
                    (SessionState::Dialing { host: h }, action)
                },
                Result::Err(err) => (
                    SessionState::Closed { error: Some(RelayError::Extraction(err)) },
                    SessionAction::CloseInbound { error: RelayError::Extraction(err) },
                ),
            }
        },
        (SessionState::AwaitingPeek, SessionEvent::PeekFailed) => (
            SessionState::Closed { error: Some(RelayError::IoError) },
            SessionAction::CloseInbound { error: RelayError::IoError },
        ),
        (SessionState::Dialing { host: _ }, SessionEvent::DialSucceeded) => (
            SessionState::Pumping,
            SessionAction::StartPumps,
        ),
        (SessionState::Dialing { host: _ }, SessionEvent::DialFailed) => (
            SessionState::Closed { error: Some(RelayError::DialError) },
            SessionAction::CloseInbound { error: RelayError::DialError },
        ),
        (SessionState::Pumping, SessionEvent::PumpFinished { failed }) => (
            SessionState::Closed {
                error: if failed {
                    Some(RelayError::IoError)
                } else {
                    None
                },
            },
            SessionAction::CloseBoth,
        ),
        (s, _) => (s, SessionAction::Ignore),
    }
}

/// Law: a closed session is terminal; no event moves it or makes the driver
/// act.
pub proof fn lemma_closed_is_terminal(
    pre: SessionState,
    e: SessionEvent,
    post: SessionState,
    a: SessionAction,
)
    requires
        pre is Closed,
        step_spec(pre, e, post, a),
    ensures
        post == pre,
        a is Ignore,
{
}

/// Law: pumps start only after a successful dial: `Pumping` is entered only
/// from `Dialing`, on `DialSucceeded`.
pub proof fn lemma_pumping_only_after_dial(
    pre: SessionState,
    e: SessionEvent,
    post: SessionState,
    a: SessionAction,
)
    requires
        step_spec(pre, e, post, a),
        post is Pumping,
        !(pre is Pumping),
    ensures
        pre is Dialing,
        e is DialSucceeded,
        a is StartPumps,
{
}

/// Law: a dial is requested only for a host name extracted from the peeked
/// bytes, and always on port 443.
pub proof fn lemma_dial_only_with_extracted_host(
    pre: SessionState,
    e: SessionEvent,
    post: SessionState,
    a: SessionAction,
)
    requires
        step_spec(pre, e, post, a),
        a is Dial,
    ensures
        pre is AwaitingPeek,
        e is PeekArrived,
        a matches SessionAction::Dial { host, port } ==> port == TLS_PORT && (
        e matches SessionEvent::PeekArrived { data } ==> spec_extract_sni(data@) == Ok::<
            Seq<char>,
            ExtractError,
        >(host@)),
{
}

/// Law: when extraction fails on the peeked bytes, the session closes at
/// once, reporting that extraction error; no dial is attempted.
pub proof fn lemma_no_dial_on_bad_bytes(
    e: SessionEvent,
    post: SessionState,
    a: SessionAction,
    err: ExtractError,
)
    requires
        step_spec(SessionState::AwaitingPeek, e, post, a),
        e matches SessionEvent::PeekArrived { data } && spec_extract_sni(data@) == Err::<
            Seq<char>,
            ExtractError,
        >(err),
    ensures
        post == (SessionState::Closed { error: Some(RelayError::Extraction(err)) }),
        a == (SessionAction::CloseInbound { error: RelayError::Extraction(err) }),
        !(a is Dial),
        !(a is StartPumps),
{
}

/// Law: the first pump to finish ends the session (race to first
/// completion), and teardown closes both connections whether or not that
/// pump failed.
pub proof fn lemma_first_pump_finish_closes_both(
    e: SessionEvent,
    post: SessionState,
    a: SessionAction,
)
    requires
        step_spec(SessionState::Pumping, e, post, a),
        e is PumpFinished,
    ensures
        post is Closed,
        a is CloseBoth,
        (e matches SessionEvent::PumpFinished { failed } ==> post == (SessionState::Closed {
            error: if failed {
                Some(RelayError::IoError)
            } else {
                None
            },
        })),
{
}

} // verus!
