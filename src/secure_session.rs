//! Secure Session: mutual authentication, key agreement, then protected messages.
//!
//! The cryptography (the handshake messages, the keys, wrapping) is the engine's; this type
//! keeps the session's states and the rules of its use: the client makes the connect
//! request, both sides answer each other's messages with `negotiate` until one of them gets
//! an empty answer, and only an established session wraps, unwraps, sends and receives.
//!
//! `wrap`/`unwrap` and `send`/`receive` are two families of steady-state operations: the
//! first handles independent messages in any order, the second assumes a reliable in-order
//! transport. Mixing the two on one session is not supported.
use vstd::prelude::*;

use crate::error::{is_signal, session_kind, Error, ErrorKind, Status};
use crate::negotiation::{
    answered, exchange, exchange_output, failure, failure_kind, outcome, plain_expect, well_run,
    Expect, Family, OutputEngine,
};

verus! {

/// Largest value that the engine's `send` and `receive` return as a status rather than a
/// length.
pub const TRANSFER_STATUS_MAX: isize = 21;

/// One output-producing step of a session.
pub enum SessionStep<'a> {
    /// The peer's identifier.
    RemoteId,
    /// The client's first handshake message.
    ConnectRequest,
    /// Protect a message for the peer.
    Wrap(&'a [u8]),
    /// Open a message of the peer: a handshake message while negotiating, a wrapped
    /// message once established.
    Unwrap(&'a [u8]),
}

/// The engine behind a Secure Session.
pub trait SessionEngine: for<'a> OutputEngine<SessionStep<'a>> {
    /// Whether the engine has finished key agreement.
    fn is_established(&self) -> bool;

    /// Sends the connect request through the transport.
    fn connect(&mut self) -> Status;

    /// Wraps and sends `message` through the transport; returns the length sent, or a
    /// status no greater than `TRANSFER_STATUS_MAX`.
    fn send(&mut self, message: &[u8]) -> isize;

    /// Receives through the transport and unwraps into the front of `output`; returns the
    /// length, or a status no greater than `TRANSFER_STATUS_MAX`. With no room it performs
    /// one round of negotiation and answers a status.
    fn receive(&mut self, output: &mut Vec<u8>) -> isize;
}

/// The transport that an engine uses in transport-integrated mode.
///
/// Only `get_public_key_for_id` is needed in all modes; the others serve `connect`,
/// `negotiate_transport`, `send` and `receive`.
#[allow(unused_variables)]
pub trait SecureSessionTransport {
    /// Sends the whole of `data` to the peer and returns its length; anything else is an
    /// error. Without a transport this always fails.
    fn send_data(&mut self, data: &[u8]) -> Result<usize, ()> {
        Err(())
    }

    /// Receives one message from the peer into the front of `data` and returns its length.
    /// Without a transport this always fails.
    fn receive_data(&mut self, data: &mut Vec<u8>) -> Result<usize, ()> {
        Err(())
    }

    /// Notification about the connection state; it has no effect on the session.
    fn state_changed(&mut self, state: SecureSessionState) {
    }

    /// Places the public key of peer `id` in `key` and returns `true`, or returns `false`
    /// for an unknown peer.
    fn get_public_key_for_id(&mut self, id: &[u8], key: &mut Vec<u8>) -> bool;
}

/// State of Secure Session connection.
#[derive(Debug, PartialEq, Eq, Structural, Clone, Copy)]
pub enum SecureSessionState {
    /// Newly created sessions start in this state.
    Idle,
    /// Connection establishment in progress.
    Negotiation,
    /// Connection has been established, data exchange may commence.
    Established,
}

/// Order of the states: a session never goes back.
pub open spec fn stage(state: SecureSessionState) -> nat {
    match state {
        SecureSessionState::Idle => 0,
        SecureSessionState::Negotiation => 1,
        SecureSessionState::Established => 2,
    }
}

/// Every call on a session moves it forward or leaves it where it was (each method's
/// contract gives `stage(old) <= stage(new)`); so once established, a session stays
/// established.
pub proof fn lemma_established_is_final(before: SecureSessionState, after: SecureSessionState)
    requires
        stage(before) <= stage(after),
        before == SecureSessionState::Established,
    ensures
        after == SecureSessionState::Established,
{
}

impl SecureSessionState {
    /// The state that the engine reports by number, if the number names one.
    pub fn from_int(state: i32) -> (r: Option<SecureSessionState>)
        ensures
            r == (if state == 0 {
                Some(SecureSessionState::Idle)
            } else if state == 1 {
                Some(SecureSessionState::Negotiation)
            } else if state == 2 {
                Some(SecureSessionState::Established)
            } else {
                None
            }),
    {
        match state {
            0 => Some(SecureSessionState::Idle),
            1 => Some(SecureSessionState::Negotiation),
            2 => Some(SecureSessionState::Established),
            _ => None,
        }
    }
}

/// A transferred length as the engine's signed size, where it fits.
pub fn as_ssize(n: usize) -> (r: Option<isize>)
    ensures
        r == (if n <= isize::MAX { Some(n as isize) } else { None::<isize> }),
{
    if n <= isize::MAX as usize {
        Some(n as isize)
    } else {
        None
    }
}

/// The error that a transfer answer no greater than `TRANSFER_STATUS_MAX` stands for.
pub open spec fn transfer_failure(answer: isize) -> Error {
    Error { kind: failure_kind(session_kind(answer as Status)) }
}

/// Reads the answer of the engine's `send` or `receive`: a length where it is greater than
/// `TRANSFER_STATUS_MAX` and fits in `room`.
pub fn transfer_length(answer: isize, room: usize) -> (r: Result<usize, Error>)
    ensures
        answer <= TRANSFER_STATUS_MAX ==> r == Err::<usize, Error>(transfer_failure(answer)),
        answer > TRANSFER_STATUS_MAX && answer <= room ==> r == Ok::<usize, Error>(
            answer as usize,
        ),
        answer > TRANSFER_STATUS_MAX && answer > room ==> r == Err::<usize, Error>(
            Error { kind: ErrorKind::Fail },
        ),
        r is Err ==> !is_signal(r->Err_0.kind),
{
    if answer <= TRANSFER_STATUS_MAX {
        Err(failure(Error::from_session_status(answer as Status).kind()))
    } else if answer as usize <= room {
        Ok(answer as usize)
    } else {
        Err(Error::with_kind(ErrorKind::Fail))
    }
}

/// The state after a handshake round that went through: established where the engine said
/// the round finished the handshake, where there is nothing to send back, or where the
/// engine reports key agreement complete (the side that sends the last message); still
/// negotiating otherwise.
pub open spec fn round_outcome(finished: bool, reply_len: nat, engine_established: bool) -> SecureSessionState {
    if finished || reply_len == 0 || engine_established {
        SecureSessionState::Established
    } else {
        SecureSessionState::Negotiation
    }
}

/// Decides the state after a handshake round in message-passing mode.
pub fn state_after_round(finished: bool, reply_len: usize, engine_established: bool) -> (r:
    SecureSessionState)
    ensures
        r == round_outcome(finished, reply_len as nat, engine_established),
{
    if finished || reply_len == 0 || engine_established {
        SecureSessionState::Established
    } else {
        SecureSessionState::Negotiation
    }
}

/// Decides on the engine's answer to a negotiation round in transport mode: `0` is a round
/// done, after which the session is established where the engine reports key agreement
/// complete; a status up to `TRANSFER_STATUS_MAX` is that status's failure; anything else
/// is `Fail`.
pub fn after_transport_round(answer: isize, engine_established: bool) -> (r: Result<
    SecureSessionState,
    Error,
>)
    ensures
        answer == 0 ==> r == Ok::<SecureSessionState, Error>(
            if engine_established {
                SecureSessionState::Established
            } else {
                SecureSessionState::Negotiation
            },
        ),
        answer != 0 && 0 <= answer <= TRANSFER_STATUS_MAX ==> r == Err::<SecureSessionState, Error>(
            Error { kind: failure_kind(session_kind(answer as Status)) },
        ),
        (answer < 0 || answer > TRANSFER_STATUS_MAX) ==> r == Err::<SecureSessionState, Error>(
            Error { kind: ErrorKind::Fail },
        ),
        r is Err ==> !is_signal(r->Err_0.kind),
{
    if answer == 0 {
        if engine_established {
            Ok(SecureSessionState::Established)
        } else {
            Ok(SecureSessionState::Negotiation)
        }
    } else if 0 <= answer && answer <= TRANSFER_STATUS_MAX {
        Err(failure(Error::from_session_status(answer as Status).kind()))
    } else {
        Err(Error::with_kind(ErrorKind::Fail))
    }
}

/// An operation as handed to the engine, with its byte arguments.
pub enum SessionCall {
    RemoteId,
    ConnectRequest,
    Wrap(Seq<u8>),
    Unwrap(Seq<u8>),
    Connect,
    NegotiationRound,
    Send(Seq<u8>),
    Receive(nat),
}

/// A handshake round's expectations: output comes with "send to peer", and `Success` to the
/// first call means the handshake is over with nothing to send.
pub open spec fn handshake_expect() -> Expect {
    Expect {
        family: Family::Session,
        filled: ErrorKind::SessionSendOutputToPeer,
        done_on_probe: true,
        done_on_fill: false,
    }
}

/// The result and new state of a handshake round agree with the engine's outcome: the
/// reply, and a state that `round_outcome` gives for it (which of the two, where the engine
/// alone knows whether key agreement is complete); or the error.
pub open spec fn negotiated(
    r: Result<Vec<u8>, Error>,
    o: Result<(Seq<u8>, bool), Error>,
    state: SecureSessionState,
) -> bool {
    match o {
        Ok((reply, finished)) => r is Ok && r->Ok_0@ == reply && (state == round_outcome(
            finished,
            reply.len(),
            false,
        ) || state == round_outcome(finished, reply.len(), true)),
        Err(e) => r == Err::<Vec<u8>, Error>(e),
    }
}

/// Secure Session context.
pub struct SecureSession<E> {
    engine: E,
    state: SecureSessionState,
    last: Ghost<Option<SessionCall>>,
}

impl<E> View for SecureSession<E> {
    type V = SecureSessionState;

    closed spec fn view(&self) -> SecureSessionState {
        self.state
    }
}

impl<E> SecureSession<E> {
    /// The last operation handed to the engine, if any.
    pub closed spec fn last_call(&self) -> Option<SessionCall> {
        self.last@
    }
}

impl<E: SessionEngine> SecureSession<E> {
    /// Makes an idle session on an engine that was created with this peer's identifier,
    /// its private key and a transport.
    pub fn with_transport(engine: E) -> (r: Self)
        ensures
            r@ == SecureSessionState::Idle,
            r.last_call() is None,
    {
        SecureSession { engine, state: SecureSessionState::Idle, last: Ghost(None) }
    }

    /// Returns `true` if this Secure Session may be used for data transfer.
    pub fn is_established(&self) -> (r: bool)
        ensures
            r == (self@ == SecureSessionState::Established),
    {
        self.state == SecureSessionState::Established
    }

    /// The state of the session.
    pub fn state(&self) -> (r: SecureSessionState)
        ensures
            r == self@,
    {
        self.state
    }

    /// Returns the identifier of the remote peer; empty before the session is established,
    /// when the peer is not known yet.
    pub fn get_remote_id(&mut self) -> (r: Result<Vec<u8>, Error>)
        ensures
            final(self)@ == old(self)@,
            old(self)@ != SecureSessionState::Established ==> r is Ok && r->Ok_0@.len() == 0
                && final(self).last_call() == old(self).last_call(),
            old(self)@ == SecureSessionState::Established ==> final(self).last_call() == Some(
                SessionCall::RemoteId,
            ) && answered(plain_expect(Family::Session), r),
            r is Err ==> !is_signal(r->Err_0.kind),
    {
        if self.state != SecureSessionState::Established {
            return Ok(Vec::new());
        }
        let step = SessionStep::RemoteId;
        self.last = Ghost(Some(SessionCall::RemoteId));
        exchange_output(&mut self.engine, &step, Expect {
            family: Family::Session,
            filled: ErrorKind::Success,
            done_on_probe: false,
            done_on_fill: false,
        })
    }

    /// Starts negotiation through the transport by sending the connect request.
    ///
    /// Only an idle session connects; otherwise this fails with `InvalidParameter`.
    pub fn connect(&mut self) -> (r: Result<(), Error>)
        ensures
            old(self)@ != SecureSessionState::Idle ==> r == Err::<(), Error>(
                Error { kind: ErrorKind::InvalidParameter },
            ) && final(self).last_call() == old(self).last_call(),
            old(self)@ == SecureSessionState::Idle ==> final(self).last_call() == Some(
                SessionCall::Connect,
            ),
            r is Ok ==> final(self)@ == SecureSessionState::Negotiation,
            r is Err ==> final(self)@ == old(self)@ && !is_signal(r->Err_0.kind),
            stage(old(self)@) <= stage(final(self)@),
    {
        if self.state != SecureSessionState::Idle {
            return Err(Error::with_kind(ErrorKind::InvalidParameter));
        }
        self.last = Ghost(Some(SessionCall::Connect));
        let kind = Error::from_session_status(self.engine.connect()).kind();
        if kind != ErrorKind::Success {
            return Err(failure(kind));
        }
        self.state = SecureSessionState::Negotiation;
        Ok(())
    }

    /// Makes the connect request, the first handshake message, for the caller to deliver.
    ///
    /// Only an idle session makes one; otherwise this fails with `InvalidParameter`.
    pub fn generate_connect_request(&mut self) -> (r: Result<Vec<u8>, Error>)
        ensures
            old(self)@ != SecureSessionState::Idle ==> r == Err::<Vec<u8>, Error>(
                Error { kind: ErrorKind::InvalidParameter },
            ) && final(self).last_call() == old(self).last_call(),
            old(self)@ == SecureSessionState::Idle ==> final(self).last_call() == Some(
                SessionCall::ConnectRequest,
            ) && answered(plain_expect(Family::Session), r),
            r is Ok ==> final(self)@ == SecureSessionState::Negotiation,
            r is Err ==> final(self)@ == old(self)@ && !is_signal(r->Err_0.kind),
            stage(old(self)@) <= stage(final(self)@),
    {
        if self.state != SecureSessionState::Idle {
            return Err(Error::with_kind(ErrorKind::InvalidParameter));
        }
        let step = SessionStep::ConnectRequest;
        self.last = Ghost(Some(SessionCall::ConnectRequest));
        let r = exchange_output(&mut self.engine, &step, Expect {
            family: Family::Session,
            filled: ErrorKind::Success,
            done_on_probe: false,
            done_on_fill: false,
        });
        if r.is_ok() {
            self.state = SecureSessionState::Negotiation;
        }
        r
    }

    /// Answers a handshake message of the peer and returns the message to deliver back.
    ///
    /// The server calls this first, on the client's connect request. An empty answer means
    /// that negotiation is complete on this side. A failed round leaves the state as it was.
    /// An established session fails with `InvalidParameter`.
    pub fn negotiate(&mut self, wrapped: &[u8]) -> (r: Result<Vec<u8>, Error>)
        ensures
            old(self)@ == SecureSessionState::Established ==> r == Err::<Vec<u8>, Error>(
                Error { kind: ErrorKind::InvalidParameter },
            ) && final(self).last_call() == old(self).last_call(),
            old(self)@ != SecureSessionState::Established ==> final(self).last_call() == Some(
                SessionCall::Unwrap(wrapped@),
            ) && exists|a|
                #[trigger] well_run(handshake_expect(), a) && negotiated(
                    r,
                    outcome(handshake_expect(), a),
                    final(self)@,
                ),
            r is Ok ==> final(self)@ != SecureSessionState::Idle,
            r is Ok && r->Ok_0@.len() == 0 ==> final(self)@ == SecureSessionState::Established,
            r is Err ==> final(self)@ == old(self)@ && !is_signal(r->Err_0.kind),
            stage(old(self)@) <= stage(final(self)@),
    {
        if self.state == SecureSessionState::Established {
            return Err(Error::with_kind(ErrorKind::InvalidParameter));
        }
        let step = SessionStep::Unwrap(wrapped);
        self.last = Ghost(Some(SessionCall::Unwrap(wrapped@)));
        let (result, answers) = exchange(&mut self.engine, &step, Expect {
            family: Family::Session,
            filled: ErrorKind::SessionSendOutputToPeer,
            done_on_probe: true,
            done_on_fill: false,
        });
        assert(well_run(handshake_expect(), answers@));
        match result {
            Ok(out) => {
                self.state = state_after_round(
                    out.finished,
                    out.output.len(),
                    self.engine.is_established(),
                );
                Ok(out.output)
            },
            Err(e) => Err(e),
        }
    }

    /// Performs one round of negotiation through the transport.
    ///
    /// An established session fails with `InvalidParameter`.
    pub fn negotiate_transport(&mut self) -> (r: Result<(), Error>)
        ensures
            old(self)@ == SecureSessionState::Established ==> r == Err::<(), Error>(
                Error { kind: ErrorKind::InvalidParameter },
            ) && final(self).last_call() == old(self).last_call(),
            old(self)@ != SecureSessionState::Established ==> final(self).last_call() == Some(
                SessionCall::NegotiationRound,
            ),
            r is Ok ==> final(self)@ != SecureSessionState::Idle,
            r is Err ==> final(self)@ == old(self)@ && !is_signal(r->Err_0.kind),
            stage(old(self)@) <= stage(final(self)@),
    {
        if self.state == SecureSessionState::Established {
            return Err(Error::with_kind(ErrorKind::InvalidParameter));
        }
        self.last = Ghost(Some(SessionCall::NegotiationRound));
        let mut none: Vec<u8> = Vec::new();
        let answer = self.engine.receive(&mut none);
        self.state = after_transport_round(answer, self.engine.is_established())?;
        Ok(())
    }

    /// Wraps a message for the peer, which unwraps it with `unwrap`. Wrapped messages are
    /// independent: they may be unwrapped in any order, or lost.
    ///
    /// Fails with `SessionKeyAgreementNotFinished` before the session is established.
    pub fn wrap(&mut self, message: &[u8]) -> (r: Result<Vec<u8>, Error>)
        ensures
            final(self)@ == old(self)@,
            old(self)@ != SecureSessionState::Established ==> r == Err::<Vec<u8>, Error>(
                Error { kind: ErrorKind::SessionKeyAgreementNotFinished },
            ) && final(self).last_call() == old(self).last_call(),
            old(self)@ == SecureSessionState::Established ==> final(self).last_call() == Some(
                SessionCall::Wrap(message@),
            ) && answered(plain_expect(Family::Session), r),
            r is Err ==> !is_signal(r->Err_0.kind),
    {
        if self.state != SecureSessionState::Established {
            return Err(Error::with_kind(ErrorKind::SessionKeyAgreementNotFinished));
        }
        let step = SessionStep::Wrap(message);
        self.last = Ghost(Some(SessionCall::Wrap(message@)));
        exchange_output(&mut self.engine, &step, Expect {
            family: Family::Session,
            filled: ErrorKind::Success,
            done_on_probe: false,
            done_on_fill: false,
        })
    }

    /// Unwraps a message that the peer wrapped.
    ///
    /// Fails with `SessionKeyAgreementNotFinished` before the session is established.
    pub fn unwrap(&mut self, wrapped: &[u8]) -> (r: Result<Vec<u8>, Error>)
        ensures
            final(self)@ == old(self)@,
            old(self)@ != SecureSessionState::Established ==> r == Err::<Vec<u8>, Error>(
                Error { kind: ErrorKind::SessionKeyAgreementNotFinished },
            ) && final(self).last_call() == old(self).last_call(),
            old(self)@ == SecureSessionState::Established ==> final(self).last_call() == Some(
                SessionCall::Unwrap(wrapped@),
            ) && answered(plain_expect(Family::Session), r),
            r is Err ==> !is_signal(r->Err_0.kind),
    {
        if self.state != SecureSessionState::Established {
            return Err(Error::with_kind(ErrorKind::SessionKeyAgreementNotFinished));
        }
        let step = SessionStep::Unwrap(wrapped);
        self.last = Ghost(Some(SessionCall::Unwrap(wrapped@)));
        exchange_output(&mut self.engine, &step, Expect {
            family: Family::Session,
            filled: ErrorKind::Success,
            done_on_probe: false,
            done_on_fill: false,
        })
    }

    /// Sends a message to the peer through the transport, whole.
    ///
    /// Fails with `SessionKeyAgreementNotFinished` before the session is established.
    pub fn send(&mut self, message: &[u8]) -> (r: Result<(), Error>)
        ensures
            final(self)@ == old(self)@,
            old(self)@ != SecureSessionState::Established ==> r == Err::<(), Error>(
                Error { kind: ErrorKind::SessionKeyAgreementNotFinished },
            ) && final(self).last_call() == old(self).last_call(),
            old(self)@ == SecureSessionState::Established ==> final(self).last_call() == Some(
                SessionCall::Send(message@),
            ),
            r is Err ==> !is_signal(r->Err_0.kind),
    {
        if self.state != SecureSessionState::Established {
            return Err(Error::with_kind(ErrorKind::SessionKeyAgreementNotFinished));
        }
        self.last = Ghost(Some(SessionCall::Send(message@)));
        let answer = self.engine.send(message);
        transfer_length(answer, isize::MAX as usize)?;
        Ok(())
    }

    /// Receives a message of at most `max_len` bytes from the peer through the transport.
    ///
    /// Fails with `SessionKeyAgreementNotFinished` before the session is established.
    pub fn receive(&mut self, max_len: usize) -> (r: Result<Vec<u8>, Error>)
        ensures
            final(self)@ == old(self)@,
            old(self)@ != SecureSessionState::Established ==> r == Err::<Vec<u8>, Error>(
                Error { kind: ErrorKind::SessionKeyAgreementNotFinished },
            ) && final(self).last_call() == old(self).last_call(),
            old(self)@ == SecureSessionState::Established ==> final(self).last_call() == Some(
                SessionCall::Receive(max_len as nat),
            ),
            r is Ok ==> r->Ok_0@.len() <= max_len,
            r is Err ==> !is_signal(r->Err_0.kind),
    {
        if self.state != SecureSessionState::Established {
            return Err(Error::with_kind(ErrorKind::SessionKeyAgreementNotFinished));
        }
        self.last = Ghost(Some(SessionCall::Receive(max_len as nat)));
        let mut message: Vec<u8> = vec![0u8; max_len];
        let answer = self.engine.receive(&mut message);
        let len = transfer_length(answer, max_len)?;
        message.truncate(len);
        Ok(message)
    }
}

} // verus!
