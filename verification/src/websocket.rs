//! Connection manager for the realtime experiment-run stream.
//!
//! The manager owns at most one connection at a time and decides every step of
//! the connection lifecycle: when a connection is recorded, when a reconnect
//! may reuse the retained endpoint and credential, how a failed transmission
//! is recovered (one fixed delay, one reconnect, one retry — never more), how
//! each received frame is interpreted, and when the drain that follows a close
//! terminates.
//!
//! The transport handle itself — a socket doing network I/O — lives with the
//! caller. The caller carries out each directive against the real transport
//! and reports the outcome back as plain data; every decision taken on those
//! outcomes is verified here, whatever the transport did.

use vstd::prelude::*;

use crate::errors::WebSocketError;

verus! {

/// How long `send` waits before its single reconnect attempt, in milliseconds.
pub const RECONNECT_DELAY_MS: u64 = 1000;

/// The endpoint and credential a connection was opened with, retained verbatim
/// so that a later reconnect can recreate an equivalent connection without
/// caller input.
#[derive(Debug, Clone)]
pub struct ConnectionParams {
    /// The websocket URL the transport was opened against.
    pub url: String,
    /// The opaque session credential attached as a header on the handshake.
    pub cookie: String,
}

/// What the transport reported for a connection handshake followed by the
/// switch of the new handle to non-blocking reads.
#[derive(Debug, Clone)]
pub enum HandshakeOutcome {
    /// The handshake completed and the handle accepted non-blocking mode.
    Established,
    /// The handshake itself failed, with the transport's message.
    HandshakeFailed(String),
    /// The handshake completed but the handle refused non-blocking mode.
    ModeChangeFailed(String),
}

/// What the transport reported for one non-blocking transmission of a frame.
#[derive(Debug, Clone)]
pub enum TransmitOutcome {
    /// The frame was handed to the transport.
    Sent,
    /// The frame could not be transmitted, with the transport's message.
    TransmitFailed(String),
}

/// What the transport reported for switching the handle's blocking mode.
#[derive(Debug, Clone)]
pub enum ModeChangeOutcome {
    /// The mode was switched.
    Changed,
    /// The handle refused the switch, with the transport's message.
    ChangeFailed(String),
}

/// What the transport reported for initiating a close handshake.
#[derive(Debug, Clone)]
pub enum CloseOutcome {
    /// The close handshake was initiated.
    Initiated,
    /// The close could not be initiated, with the transport's message.
    CloseFailed(String),
}

/// The kind of frame one read produced.
#[derive(Debug, Clone)]
pub enum FrameKind {
    /// A text frame and its payload.
    Text(String),
    /// A binary frame; this component never sends one and ignores it on receipt.
    Binary,
    /// A ping control frame.
    Ping,
    /// A pong control frame.
    Pong,
    /// A close control frame.
    Close,
    /// Any other frame the transport surfaced.
    Other,
}

/// Why one read failed.
#[derive(Debug, Clone)]
pub enum ReadFailureKind {
    /// No data was available to a non-blocking read; not an error.
    WouldBlock,
    /// The connection was reported closed — whether it closed just now or
    /// had already been closed earlier.
    Closed,
    /// Any other transport-level failure.
    Other,
}

/// What the transport reported for one read.
#[derive(Debug, Clone)]
pub enum ReadOutcome {
    /// A frame arrived.
    Frame(FrameKind),
    /// The read failed, with why and the transport's message.
    ReadFailed(ReadFailureKind, String),
}

/// Whether the caller's encoder produced a text payload for a message.
#[derive(Debug, Clone)]
pub enum EncodeOutcome {
    /// The message was encoded to this text payload.
    Encoded(String),
    /// The message could not be encoded, with the encoder's message.
    EncodeFailed(String),
}

/// Whether the caller's decoder accepted a received text payload.
#[derive(Debug, Clone)]
pub enum DecodeOutcome {
    /// The payload decoded to a value, which the caller holds.
    Decoded,
    /// The payload could not be decoded, with the decoder's message.
    DecodeFailed(String),
}

/// What `connect` records and returns for a given prior state and handshake
/// outcome: a completed handshake replaces the state with the new parameters;
/// a failure leaves the state as it was and is wrapped as a `ConnectionError`.
pub open spec fn connect_transition(
    connection: Option<ConnectionParams>,
    url: String,
    cookie: String,
    outcome: HandshakeOutcome,
) -> (Option<ConnectionParams>, Result<(), WebSocketError>) {
    match outcome {
        HandshakeOutcome::Established => (Some(ConnectionParams { url, cookie }), Ok(())),
        HandshakeOutcome::HandshakeFailed(m) => (
            connection,
            Err(WebSocketError::ConnectionError(m)),
        ),
        HandshakeOutcome::ModeChangeFailed(m) => (
            connection,
            Err(WebSocketError::ConnectionError(m)),
        ),
    }
}

/// What `reconnect` does to the state and hands back as the target: the
/// retained parameters leave the manager (the old handle is discarded), and
/// they are the target of the new handshake; with nothing retained there is
/// no target.
pub open spec fn reconnect_transition(connection: Option<ConnectionParams>) -> (
    Option<ConnectionParams>,
    Option<ConnectionParams>,
) {
    (None, connection)
}

/// Connection manager for the realtime experiment-run stream.
///
/// Created disconnected; holds at most one connection record at a time. The
/// caller owns the transport handle matching the record and reports every
/// transport outcome back through the methods below.
pub struct WebSocketClient {
    state: Option<ConnectionParams>,
}

impl WebSocketClient {
    /// The endpoint and credential of the current connection, when one is held.
    pub closed spec fn connection(&self) -> Option<ConnectionParams> {
        self.state
    }

    /// Whether a connection is currently held.
    pub open spec fn connected(&self) -> bool {
        self.connection() is Some
    }

    /// A new manager, holding no connection.
    pub fn new() -> (c: Self)
        ensures
            !c.connected(),
    {
        WebSocketClient { state: None }
    }

    /// Whether a connection is currently held.
    pub fn is_connected(&self) -> (r: bool)
        ensures
            r == self.connected(),
    {
        self.state.is_some()
    }

    /// Record the outcome of opening a transport to `url` — with `cookie`
    /// attached as the credential header on the handshake request — and
    /// switching the new handle to non-blocking reads.
    ///
    /// On success the parameters are retained, discarding any prior
    /// connection; on either failure nothing is retained and the prior state
    /// is untouched.
    pub fn connect(&mut self, url: String, cookie: String, outcome: HandshakeOutcome) -> (r: Result<
        (),
        WebSocketError,
    >)
        ensures
            (final(self).connection(), r) == connect_transition(
                old(self).connection(),
                url,
                cookie,
                outcome,
            ),
    {
        match outcome {
            HandshakeOutcome::Established => {
                self.state = Some(ConnectionParams { url, cookie });
                Ok(())
            },
            HandshakeOutcome::HandshakeFailed(m) => Err(WebSocketError::ConnectionError(m)),
            HandshakeOutcome::ModeChangeFailed(m) => Err(WebSocketError::ConnectionError(m)),
        }
    }

    /// Begin a reconnect: release the retained connection record and hand it
    /// back as the target of the new handshake. The caller opens a transport
    /// to that target and reports the outcome through `connect`.
    ///
    /// Valid only if a connection was previously established; a manager that
    /// was never connected has no target and the call fails with
    /// `CannotReconnect`, touching nothing.
    pub fn reconnect(&mut self) -> (r: Result<ConnectionParams, WebSocketError>)
        ensures
            final(self).connection() == reconnect_transition(old(self).connection()).0,
            old(self).connection() matches Some(p) ==> r == Ok::<_, WebSocketError>(p),
            old(self).connection() is None ==> (r matches Err(
                WebSocketError::CannotReconnect(m),
            ) && m@ == "The websocket was never opened so it cannot be reconnected"@),
    {
        match self.state.take() {
            Some(p) => Ok(p),
            None => Err(
                WebSocketError::CannotReconnect(
                    String::from_str("The websocket was never opened so it cannot be reconnected"),
                ),
            ),
        }
    }

    /// Interpret one non-blocking read on the current connection.
    ///
    /// A text frame hands its payload out for decoding. No data (would-block)
    /// is quietly no message, and so are binary frames, pings, pongs, close
    /// frames and anything else that is not a text frame. Every other read
    /// failure is surfaced as a `ReceiveError`. Never blocks the caller and
    /// never triggers a reconnect.
    pub fn receive(&self, read: ReadOutcome) -> (r: Result<Option<String>, WebSocketError>)
        ensures
            !self.connected() ==> r == Err::<Option<String>, _>(WebSocketError::NotConnected),
            self.connected() ==> match read {
                ReadOutcome::Frame(FrameKind::Text(s)) => r == Ok::<_, WebSocketError>(
                    Some(s),
                ),
                ReadOutcome::Frame(_) => r == Ok::<_, WebSocketError>(None::<String>),
                ReadOutcome::ReadFailed(ReadFailureKind::WouldBlock, _) => r == Ok::<
                    _,
                    WebSocketError,
                >(None::<String>),
                ReadOutcome::ReadFailed(ReadFailureKind::Closed, m) => r == Err::<
                    Option<String>,
                    _,
                >(WebSocketError::ReceiveError(m)),
                ReadOutcome::ReadFailed(ReadFailureKind::Other, m) => r == Err::<
                    Option<String>,
                    _,
                >(WebSocketError::ReceiveError(m)),
            },
    {
        if self.state.is_none() {
            return Err(WebSocketError::NotConnected);
        }
        match read {
            ReadOutcome::Frame(FrameKind::Text(s)) => Ok(Some(s)),
            ReadOutcome::Frame(_) => Ok(None),
            ReadOutcome::ReadFailed(ReadFailureKind::WouldBlock, _) => Ok(None),
            ReadOutcome::ReadFailed(ReadFailureKind::Closed, m) => Err(
                WebSocketError::ReceiveError(m),
            ),
            ReadOutcome::ReadFailed(ReadFailureKind::Other, m) => Err(
                WebSocketError::ReceiveError(m),
            ),
        }
    }

    /// Record the outcome of initiating a non-blocking close handshake on the
    /// current handle. The state is not touched: the handle remains held, now
    /// in its closing phase, so repeated calls are safe. A failure to initiate
    /// the close is a `SendError`.
    pub fn close(&self, outcome: CloseOutcome) -> (r: Result<(), WebSocketError>)
        ensures
            !self.connected() ==> r == Err::<(), _>(WebSocketError::NotConnected),
            self.connected() ==> match outcome {
                CloseOutcome::Initiated => r == Ok::<(), WebSocketError>(()),
                CloseOutcome::CloseFailed(m) => r == Err::<(), _>(WebSocketError::SendError(m)),
            },
    {
        if self.state.is_none() {
            return Err(WebSocketError::NotConnected);
        }
        match outcome {
            CloseOutcome::Initiated => Ok(()),
            CloseOutcome::CloseFailed(m) => Err(WebSocketError::SendError(m)),
        }
    }

    /// Enter the blocking drain that waits for the connection to finish
    /// closing: record the outcome of switching the handle to blocking mode.
    /// A refused switch is a `ConnectionError`; on success the caller reads
    /// repeatedly, classifying each read with `drain_step`, until the drain
    /// completes or fails.
    pub fn begin_drain(&self, mode: ModeChangeOutcome) -> (r: Result<(), WebSocketError>)
        ensures
            !self.connected() ==> r == Err::<(), _>(WebSocketError::NotConnected),
            self.connected() ==> match mode {
                ModeChangeOutcome::Changed => r == Ok::<(), WebSocketError>(()),
                ModeChangeOutcome::ChangeFailed(m) => r == Err::<(), _>(
                    WebSocketError::ConnectionError(m),
                ),
            },
    {
        if self.state.is_none() {
            return Err(WebSocketError::NotConnected);
        }
        match mode {
            ModeChangeOutcome::Changed => Ok(()),
            ModeChangeOutcome::ChangeFailed(m) => Err(WebSocketError::ConnectionError(m)),
        }
    }
}

/// Progress of one `send` call through the attempt/reconnect/retry policy.
#[derive(Debug, Clone)]
pub enum SendPhase {
    /// Awaiting the report of the first transmission attempt.
    FirstAttempt,
    /// The first attempt failed; the manager released the connection record
    /// and awaits the report of the reconnect to this target.
    AwaitReconnect(ConnectionParams),
    /// The reconnect succeeded; awaiting the report of the single retry.
    RetryAttempt,
    /// The call's result has been returned; nothing further is accepted.
    Finished,
}

/// One in-flight `send` call: the encoded payload to transmit and how far the
/// call has progressed. Obtained from `send`, advanced by `send_step`.
pub struct SendFlow {
    payload: String,
    phase: SendPhase,
}

impl SendFlow {
    /// How far this call has progressed.
    pub closed spec fn phase(&self) -> SendPhase {
        self.phase
    }

    /// The encoded text payload this call transmits.
    pub closed spec fn payload(&self) -> String {
        self.payload
    }

    /// The encoded text payload this call transmits; what a `Transmit`
    /// directive asks the caller to hand to the transport.
    pub fn payload_text(&self) -> (p: &String)
        ensures
            *p == self.payload(),
    {
        &self.payload
    }
}

/// What the caller reports after carrying out the directive of the previous
/// step of a `send` call.
#[derive(Debug, Clone)]
pub enum SendEvent {
    /// The payload was handed to the transport, with this outcome.
    Transmitted(TransmitOutcome),
    /// The reconnect was carried out against the directed target — the wait,
    /// then a fresh handshake with the retained credential — with this outcome.
    Reconnected(HandshakeOutcome),
}

/// What the caller must do next to carry a `send` call forward.
#[derive(Debug)]
pub enum SendDirective {
    /// Transmit the flow's payload as one non-blocking text frame and report
    /// the result as a `Transmitted` event.
    Transmit,
    /// Discard the old handle, wait `delay_ms`, open a new transport to
    /// `target`, and report the result as a `Reconnected` event.
    SleepThenReconnect { delay_ms: u64, target: ConnectionParams },
    /// The call is finished with this result; no further step follows.
    Return(Result<(), WebSocketError>),
}

/// Which report a `send` call awaits in each phase: a transmission outcome
/// around the reconnect, the reconnect's outcome in between, and nothing once
/// finished.
pub open spec fn send_event_accepted(phase: SendPhase, event: SendEvent) -> bool {
    match phase {
        SendPhase::FirstAttempt => event is Transmitted,
        SendPhase::AwaitReconnect(_) => event is Reconnected,
        SendPhase::RetryAttempt => event is Transmitted,
        SendPhase::Finished => false,
    }
}

/// The connection record, flow phase and directive after one step of a `send`
/// call.
pub struct SendStep {
    /// The manager's connection record after the step.
    pub connection: Option<ConnectionParams>,
    /// The flow's phase after the step.
    pub phase: SendPhase,
    /// What the caller must do next.
    pub directive: SendDirective,
}

/// The send recovery policy, as one transition relation: a first transmission
/// that succeeds finishes the call; one that fails releases the connection and
/// directs one fixed wait and one reconnect to the same target; a reconnect
/// that succeeds restores the record and directs the single retry; one that
/// fails finishes the call with the reconnect's own error; and the retry's
/// outcome — success or failure — is the call's final result.
pub open spec fn send_transition(
    connection: Option<ConnectionParams>,
    phase: SendPhase,
    event: SendEvent,
) -> SendStep {
    match (phase, event) {
        (SendPhase::FirstAttempt, SendEvent::Transmitted(TransmitOutcome::Sent)) => SendStep {
            connection,
            phase: SendPhase::Finished,
            directive: SendDirective::Return(Ok(())),
        },
        (
            SendPhase::FirstAttempt,
            SendEvent::Transmitted(TransmitOutcome::TransmitFailed(_)),
        ) => match connection {
            Some(target) => SendStep {
                connection: None,
                phase: SendPhase::AwaitReconnect(target),
                directive: SendDirective::SleepThenReconnect {
                    delay_ms: RECONNECT_DELAY_MS,
                    target,
                },
            },
            None => arbitrary(),
        },
        (
            SendPhase::AwaitReconnect(target),
            SendEvent::Reconnected(HandshakeOutcome::Established),
        ) => SendStep {
            connection: Some(target),
            phase: SendPhase::RetryAttempt,
            directive: SendDirective::Transmit,
        },
        (
            SendPhase::AwaitReconnect(_),
            SendEvent::Reconnected(HandshakeOutcome::HandshakeFailed(m)),
        ) => SendStep {
            connection,
            phase: SendPhase::Finished,
            directive: SendDirective::Return(Err(WebSocketError::ConnectionError(m))),
        },
        (
            SendPhase::AwaitReconnect(_),
            SendEvent::Reconnected(HandshakeOutcome::ModeChangeFailed(m)),
        ) => SendStep {
            connection,
            phase: SendPhase::Finished,
            directive: SendDirective::Return(Err(WebSocketError::ConnectionError(m))),
        },
        (SendPhase::RetryAttempt, SendEvent::Transmitted(TransmitOutcome::Sent)) => SendStep {
            connection,
            phase: SendPhase::Finished,
            directive: SendDirective::Return(Ok(())),
        },
        (
            SendPhase::RetryAttempt,
            SendEvent::Transmitted(TransmitOutcome::TransmitFailed(m)),
        ) => SendStep {
            connection,
            phase: SendPhase::Finished,
            directive: SendDirective::Return(Err(WebSocketError::SendError(m))),
        },
        _ => arbitrary(),
    }
}

impl WebSocketClient {
    /// Begin a `send` call for a message the caller's encoder turned into
    /// `encoded`. On a disconnected manager the call is rejected with
    /// `NotConnected` before any transport work or delay; a message that
    /// could not be encoded is rejected with `SerializationError`, likewise
    /// without touching the transport. Otherwise the returned flow awaits the
    /// first transmission attempt.
    pub fn send(&self, encoded: EncodeOutcome) -> (r: Result<SendFlow, WebSocketError>)
        ensures
            !self.connected() ==> r == Err::<SendFlow, _>(WebSocketError::NotConnected),
            self.connected() ==> match encoded {
                EncodeOutcome::EncodeFailed(m) => r == Err::<SendFlow, _>(
                    WebSocketError::SerializationError(m),
                ),
                EncodeOutcome::Encoded(p) => (r matches Ok(flow) && flow.phase()
                    is FirstAttempt && flow.payload() == p),
            },
    {
        if self.state.is_none() {
            return Err(WebSocketError::NotConnected);
        }
        match encoded {
            EncodeOutcome::EncodeFailed(m) => Err(WebSocketError::SerializationError(m)),
            EncodeOutcome::Encoded(p) => Ok(
                SendFlow { payload: p, phase: SendPhase::FirstAttempt },
            ),
        }
    }

    /// Carry one `send` call forward by one step: consume the caller's report
    /// of the previous directive and hand back the next one, exactly as
    /// `send_transition` states. The payload never changes across steps.
    pub fn send_step(&mut self, flow: &mut SendFlow, event: SendEvent) -> (d: SendDirective)
        requires
            send_event_accepted(old(flow).phase(), event),
            old(flow).phase() is FirstAttempt ==> old(self).connected(),
        ensures
            ({
                let step = send_transition(old(self).connection(), old(flow).phase(), event);
                &&& final(self).connection() == step.connection
                &&& final(flow).phase() == step.phase
                &&& final(flow).payload() == old(flow).payload()
                &&& d == step.directive
            }),
    {
        match (&flow.phase, event) {
            (SendPhase::FirstAttempt, SendEvent::Transmitted(TransmitOutcome::Sent)) => {
                flow.phase = SendPhase::Finished;
                SendDirective::Return(Ok(()))
            },
            (
                SendPhase::FirstAttempt,
                SendEvent::Transmitted(TransmitOutcome::TransmitFailed(_)),
            ) => {
                let target = self.state.take().unwrap();
                let directed = ConnectionParams {
                    url: target.url.clone(),
                    cookie: target.cookie.clone(),
                };
                flow.phase = SendPhase::AwaitReconnect(target);
                SendDirective::SleepThenReconnect {
                    delay_ms: RECONNECT_DELAY_MS,
                    target: directed,
                }
            },
            (
                SendPhase::AwaitReconnect(target),
                SendEvent::Reconnected(HandshakeOutcome::Established),
            ) => {
                self.state = Some(
                    ConnectionParams { url: target.url.clone(), cookie: target.cookie.clone() },
                );
                flow.phase = SendPhase::RetryAttempt;
                SendDirective::Transmit
            },
            (
                SendPhase::AwaitReconnect(_),
                SendEvent::Reconnected(HandshakeOutcome::HandshakeFailed(m)),
            ) => {
                flow.phase = SendPhase::Finished;
                SendDirective::Return(Err(WebSocketError::ConnectionError(m)))
            },
            (
                SendPhase::AwaitReconnect(_),
                SendEvent::Reconnected(HandshakeOutcome::ModeChangeFailed(m)),
            ) => {
                flow.phase = SendPhase::Finished;
                SendDirective::Return(Err(WebSocketError::ConnectionError(m)))
            },
            (SendPhase::RetryAttempt, SendEvent::Transmitted(TransmitOutcome::Sent)) => {
                flow.phase = SendPhase::Finished;
                SendDirective::Return(Ok(()))
            },
            (
                SendPhase::RetryAttempt,
                SendEvent::Transmitted(TransmitOutcome::TransmitFailed(m)),
            ) => {
                flow.phase = SendPhase::Finished;
                SendDirective::Return(Err(WebSocketError::SendError(m)))
            },
            _ => {
                // no other pairing of phase and report is admitted
                proof {
                    assert(false);
                }
                SendDirective::Return(Err(WebSocketError::NotConnected))
            },
        }
    }
}

/// How far along the attempt/reconnect/retry policy a phase stands.
pub open spec fn phase_rank(phase: SendPhase) -> nat {
    match phase {
        SendPhase::FirstAttempt => 0,
        SendPhase::AwaitReconnect(_) => 1,
        SendPhase::RetryAttempt => 2,
        SendPhase::Finished => 3,
    }
}

/// How many transmission reports a flow in this phase can still consume.
pub open spec fn transmit_allowance(phase: SendPhase) -> nat {
    match phase {
        SendPhase::FirstAttempt => 2,
        SendPhase::AwaitReconnect(_) => 1,
        SendPhase::RetryAttempt => 1,
        SendPhase::Finished => 0,
    }
}

/// Whether a flow in `phase` over `connection` accepts this whole sequence of
/// reports, each step feeding the next.
pub open spec fn accepted_trace(
    connection: Option<ConnectionParams>,
    phase: SendPhase,
    events: Seq<SendEvent>,
) -> bool
    decreases events.len(),
{
    events.len() == 0 || {
        &&& send_event_accepted(phase, events[0])
        &&& (phase is FirstAttempt ==> connection is Some)
        &&& {
            let step = send_transition(connection, phase, events[0]);
            accepted_trace(step.connection, step.phase, events.drop_first())
        }
    }
}

/// How many of these reports are transmission reports.
pub open spec fn count_transmissions(events: Seq<SendEvent>) -> nat
    decreases events.len(),
{
    if events.len() == 0 {
        0
    } else {
        (if events[0] is Transmitted {
            1nat
        } else {
            0nat
        }) + count_transmissions(events.drop_first())
    }
}

/// Law: every step of a `send` call moves the flow strictly forward, so a
/// single call takes at most three steps before nothing further is accepted.
pub proof fn lemma_send_flow_progress(
    connection: Option<ConnectionParams>,
    phase: SendPhase,
    event: SendEvent,
)
    requires
        send_event_accepted(phase, event),
        phase is FirstAttempt ==> connection is Some,
    ensures
        phase_rank(send_transition(connection, phase, event).phase) > phase_rank(phase),
{
}

/// Law: only the step that reports a successful reconnect directs a further
/// transmission, and it leads straight to the retry phase — the retry happens
/// at most once per call.
pub proof fn lemma_single_retry(
    connection: Option<ConnectionParams>,
    phase: SendPhase,
    event: SendEvent,
)
    requires
        send_event_accepted(phase, event),
        phase is FirstAttempt ==> connection is Some,
    ensures
        send_transition(connection, phase, event).directive is Transmit ==> (phase
            is AwaitReconnect && event == SendEvent::Reconnected(HandshakeOutcome::Established)
            && send_transition(connection, phase, event).phase is RetryAttempt),
{
}

/// Law: the outcome of the retry — success or failure — is the call's final
/// result, and the finished flow accepts no further report: no third attempt
/// occurs.
pub proof fn lemma_retry_outcome_is_final(
    connection: Option<ConnectionParams>,
    outcome: TransmitOutcome,
)
    ensures
        ({
            let step = send_transition(
                connection,
                SendPhase::RetryAttempt,
                SendEvent::Transmitted(outcome),
            );
            &&& step.phase is Finished
            &&& step.directive == SendDirective::Return(
                match outcome {
                    TransmitOutcome::Sent => Ok::<(), WebSocketError>(()),
                    TransmitOutcome::TransmitFailed(m) => Err(WebSocketError::SendError(m)),
                },
            )
            &&& forall|e: SendEvent| !send_event_accepted(step.phase, e)
        }),
{
}

/// Law: when the reconnect that follows a failed first attempt fails itself,
/// the call finishes with that reconnect's error — a `ConnectionError`, never
/// a `SendError` — and no retry is directed.
pub proof fn lemma_reconnect_failure_propagates(
    connection: Option<ConnectionParams>,
    target: ConnectionParams,
    message: String,
)
    ensures
        ({
            let step = send_transition(
                connection,
                SendPhase::AwaitReconnect(target),
                SendEvent::Reconnected(HandshakeOutcome::HandshakeFailed(message)),
            );
            &&& step.phase is Finished
            &&& step.directive == SendDirective::Return(
                Err::<(), _>(WebSocketError::ConnectionError(message)),
            )
        }),
        ({
            let step = send_transition(
                connection,
                SendPhase::AwaitReconnect(target),
                SendEvent::Reconnected(HandshakeOutcome::ModeChangeFailed(message)),
            );
            &&& step.phase is Finished
            &&& step.directive == SendDirective::Return(
                Err::<(), _>(WebSocketError::ConnectionError(message)),
            )
        }),
{
}

/// How many reconnect reports a flow in this phase can still consume.
pub open spec fn reconnect_allowance(phase: SendPhase) -> nat {
    match phase {
        SendPhase::FirstAttempt => 1,
        SendPhase::AwaitReconnect(_) => 1,
        SendPhase::RetryAttempt => 0,
        SendPhase::Finished => 0,
    }
}

/// How many of these reports are reconnect reports.
pub open spec fn count_reconnects(events: Seq<SendEvent>) -> nat
    decreases events.len(),
{
    if events.len() == 0 {
        0
    } else {
        (if events[0] is Reconnected {
            1nat
        } else {
            0nat
        }) + count_reconnects(events.drop_first())
    }
}

/// Law: a `send` call's work is bounded, however the transport behaves —
/// along any sequence of reports the flow accepts, at most two are
/// transmission reports and at most one is a reconnect report (the allowances
/// of a fresh call).
pub proof fn lemma_at_most_two_transmissions(
    connection: Option<ConnectionParams>,
    phase: SendPhase,
    events: Seq<SendEvent>,
)
    requires
        accepted_trace(connection, phase, events),
    ensures
        count_transmissions(events) <= transmit_allowance(phase),
        count_reconnects(events) <= reconnect_allowance(phase),
    decreases events.len(),
{
    if events.len() > 0 {
        let step = send_transition(connection, phase, events[0]);
        lemma_at_most_two_transmissions(step.connection, step.phase, events.drop_first());
    }
}

/// The connection record and flow phase after a whole sequence of reports,
/// each step feeding the next.
pub open spec fn run_send_flow(
    connection: Option<ConnectionParams>,
    phase: SendPhase,
    events: Seq<SendEvent>,
) -> (Option<ConnectionParams>, SendPhase)
    decreases events.len(),
{
    if events.len() == 0 {
        (connection, phase)
    } else {
        let step = send_transition(connection, phase, events[0]);
        run_send_flow(step.connection, step.phase, events.drop_first())
    }
}

/// Within a send call, the connection record is either the one the call
/// started with or released, and a pending reconnect targets that same
/// record.
spec fn send_keeps_target(
    target: ConnectionParams,
    connection: Option<ConnectionParams>,
    phase: SendPhase,
) -> bool {
    &&& (connection == Some(target) || connection is None)
    &&& (phase matches SendPhase::AwaitReconnect(t) ==> t == target)
    &&& (phase is FirstAttempt ==> connection == Some(target))
}

/// Law: a `send` call never changes which endpoint the manager is connected
/// to — after any sequence of reports it accepts, the record is either the
/// one the call started with, untouched, or released by a failed recovery.
pub proof fn lemma_send_preserves_connection(target: ConnectionParams, events: Seq<SendEvent>)
    requires
        accepted_trace(Some(target), SendPhase::FirstAttempt, events),
    ensures
        ({
            let end = run_send_flow(Some(target), SendPhase::FirstAttempt, events);
            end.0 == Some(target) || end.0 is None
        }),
{
    lemma_send_keeps_target(target, Some(target), SendPhase::FirstAttempt, events);
}

proof fn lemma_send_keeps_target(
    target: ConnectionParams,
    connection: Option<ConnectionParams>,
    phase: SendPhase,
    events: Seq<SendEvent>,
)
    requires
        accepted_trace(connection, phase, events),
        send_keeps_target(target, connection, phase),
    ensures
        ({
            let end = run_send_flow(connection, phase, events);
            send_keeps_target(target, end.0, end.1)
        }),
    decreases events.len(),
{
    if events.len() > 0 {
        let step = send_transition(connection, phase, events[0]);
        lemma_send_keeps_target(target, step.connection, step.phase, events.drop_first());
    }
}

/// Law: the automatic reconnect inside a `send` call reuses exactly the
/// endpoint and credential of the connection the call started on — it directs
/// the reconnect to that target and, when the reconnect succeeds, restores
/// that same record.
pub proof fn lemma_send_reconnects_to_same_target(target: ConnectionParams, message: String)
    ensures
        ({
            let step = send_transition(
                Some(target),
                SendPhase::FirstAttempt,
                SendEvent::Transmitted(TransmitOutcome::TransmitFailed(message)),
            );
            &&& step.directive == SendDirective::SleepThenReconnect {
                delay_ms: RECONNECT_DELAY_MS,
                target,
            }
            &&& step.phase == SendPhase::AwaitReconnect(target)
        }),
        ({
            let step = send_transition(
                None,
                SendPhase::AwaitReconnect(target),
                SendEvent::Reconnected(HandshakeOutcome::Established),
            );
            step.connection == Some(target)
        }),
{
}

/// What one blocking read means for the drain that follows a close.
#[derive(Debug, Clone)]
pub enum DrainVerdict {
    /// A frame arrived; discard it and keep reading.
    Continue,
    /// The connection is closed — whether the peer completed the close
    /// handshake just now or it had already been closed — and the drain ends
    /// without error.
    Complete,
    /// Any other read failure aborts the drain and is surfaced.
    Failed(WebSocketError),
}

/// Classify one blocking read of the drain. Frames of every kind are
/// discarded; a closed-connection report completes the drain; any other read
/// failure — would-block included, which a blocking read should never yield —
/// aborts it with a `SendError`.
pub fn drain_step(read: ReadOutcome) -> (v: DrainVerdict)
    ensures
        match read {
            ReadOutcome::Frame(_) => v is Continue,
            ReadOutcome::ReadFailed(ReadFailureKind::Closed, _) => v is Complete,
            ReadOutcome::ReadFailed(ReadFailureKind::WouldBlock, m) => v == DrainVerdict::Failed(
                WebSocketError::SendError(m),
            ),
            ReadOutcome::ReadFailed(ReadFailureKind::Other, m) => v == DrainVerdict::Failed(
                WebSocketError::SendError(m),
            ),
        },
{
    match read {
        ReadOutcome::Frame(_) => DrainVerdict::Continue,
        ReadOutcome::ReadFailed(ReadFailureKind::Closed, _) => DrainVerdict::Complete,
        ReadOutcome::ReadFailed(ReadFailureKind::WouldBlock, m) => DrainVerdict::Failed(
            WebSocketError::SendError(m),
        ),
        ReadOutcome::ReadFailed(ReadFailureKind::Other, m) => DrainVerdict::Failed(
            WebSocketError::SendError(m),
        ),
    }
}

/// Map the caller's verdict on decoding a received text payload: a decoding
/// failure is a `SerializationError`.
pub fn decode_result(outcome: DecodeOutcome) -> (r: Result<(), WebSocketError>)
    ensures
        match outcome {
            DecodeOutcome::Decoded => r == Ok::<(), WebSocketError>(()),
            DecodeOutcome::DecodeFailed(m) => r == Err::<(), _>(
                WebSocketError::SerializationError(m),
            ),
        },
{
    match outcome {
        DecodeOutcome::Decoded => Ok(()),
        DecodeOutcome::DecodeFailed(m) => Err(WebSocketError::SerializationError(m)),
    }
}

/// Law: a successful `connect(url, cookie)` records exactly that endpoint and
/// credential, and a `reconnect` that follows with no connect in between
/// targets exactly what was recorded.
pub proof fn lemma_reconnect_targets_last_connect(
    before: Option<ConnectionParams>,
    url: String,
    cookie: String,
)
    ensures
        reconnect_transition(
            connect_transition(before, url, cookie, HandshakeOutcome::Established).0,
        ).1 == Some(ConnectionParams { url, cookie }),
{
}

} // verus!
