//! Secure Comparator: two parties learn whether their secrets are equal and nothing else.
//!
//! The comparison itself (the zero-knowledge protocol and its arithmetic) is the engine's;
//! this type keeps the protocol's states and sequencing: secrets are appended while idle,
//! the initiator begins, both sides proceed round by round, and once the engine has an
//! answer the comparator is completed for good.
use vstd::prelude::*;

use crate::error::{is_signal, match_kind, Error, ErrorKind, Status};
use crate::negotiation::{answered, exchange_output, Expect, Family, OutputEngine};

verus! {

/// One output-producing step of a comparison.
pub enum CompareStep<'a> {
    /// Produce the first round message.
    Begin,
    /// Answer a round message of the peer.
    Proceed(&'a [u8]),
}

/// The engine behind a Secure Comparator.
pub trait CompareEngine: for<'a> OutputEngine<CompareStep<'a>> {
    /// Appends `secret` to the value being compared.
    fn append_secret(&mut self, secret: &[u8]) -> Status;

    /// The outcome so far, in the codes of a result query.
    fn result(&self) -> Status;
}

/// State of a comparison.
#[derive(Debug, PartialEq, Eq, Structural, Clone, Copy)]
pub enum CompareState {
    /// Secrets may be appended; no round message was made yet.
    Idle,
    /// Round messages are being exchanged.
    Negotiating,
    /// The comparison is over; `true` where the secrets matched.
    Completed(bool),
    /// A round failed; the comparator cannot be used any more.
    Failed,
}

/// The moves that a comparator's state may make in one call.
pub open spec fn compare_moves(before: CompareState, after: CompareState) -> bool {
    before == after || match before {
        CompareState::Idle => true,
        CompareState::Negotiating => after != CompareState::Idle,
        _ => false,
    }
}

/// Once completed, a comparator stays completed with the same outcome, so `get_result`
/// keeps answering the same.
pub proof fn lemma_completed_is_final(before: CompareState, after: CompareState)
    requires
        compare_moves(before, after),
        before is Completed,
    ensures
        after == before,
        result_in(after) == result_in(before),
{
}

/// Whatever sequence of calls is made on a completed comparator (appends, begins, rounds,
/// in any order and number), its state never changes, so every `get_result` gives the
/// same answer. `states` are the states before and after each call; each step is one that
/// the methods' contracts allow (`compare_moves`).
pub proof fn lemma_completed_stays(states: Seq<CompareState>)
    requires
        states.len() > 0,
        states[0] is Completed,
        forall|i: int| 0 <= i < states.len() - 1 ==> #[trigger] compare_moves(states[i], states[i + 1]),
    ensures
        forall|i: int|
            0 <= i < states.len() ==> #[trigger] states[i] == states[0] && result_in(states[i])
                == result_in(states[0]),
    decreases states.len(),
{
    if states.len() > 1 {
        let prefix = states.drop_last();
        assert forall|i: int| 0 <= i < prefix.len() - 1 implies #[trigger] compare_moves(prefix[i], prefix[i + 1]) by {
            assert(compare_moves(states[i], states[i + 1]));
        }
        lemma_completed_stays(prefix);
        let n = states.len() - 1;
        assert(prefix[n - 1] == states[0]);
        let j = n - 1;
        assert(compare_moves(states[j], states[j + 1]));
        assert(j + 1 == n);
        lemma_completed_is_final(states[j], states[n]);
        assert forall|i: int| 0 <= i < states.len() implies #[trigger] states[i] == states[0]
            && result_in(states[i]) == result_in(states[0]) by {
            if i < n {
                assert(prefix[i] == states[i]);
            }
        }
    }
}

/// Two comparators that start with the same secret, where one has `a` and then `b`
/// appended and the other `a + b` in one call (each step as `append_secret` states it on
/// success), end with the same secret. What the engine concludes from the secret it was
/// handed is the engine's; this states that both ways of appending describe one secret.
pub proof fn lemma_split_secrets(
    c0: CompareView,
    c1: CompareView,
    c2: CompareView,
    d0: CompareView,
    d1: CompareView,
    a: Seq<u8>,
    b: Seq<u8>,
)
    requires
        c0.secret == d0.secret,
        c1.secret == c0.secret + a,
        c2.secret == c1.secret + b,
        d1.secret == d0.secret + (a + b),
    ensures
        c2.secret == d1.secret,
{
    assert(c2.secret =~= d1.secret);
}

/// An operation as handed to the engine, with its byte arguments.
pub enum CompareCall {
    AppendSecret(Seq<u8>),
    Begin,
    Proceed(Seq<u8>),
}

/// A round's expectations: output comes with "send to peer"; where `done_on_fill`, a
/// `Success` brings the last output.
pub open spec fn round_expect(done_on_fill: bool) -> Expect {
    Expect {
        family: Family::Compare,
        filled: ErrorKind::CompareSendOutputToPeer,
        done_on_probe: false,
        done_on_fill,
    }
}

/// What `get_result` answers in a state.
pub open spec fn result_in(state: CompareState) -> Result<bool, Error> {
    match state {
        CompareState::Completed(matched) => Ok(matched),
        _ => Err(Error { kind: ErrorKind::CompareNotReady }),
    }
}

/// The state that a result query of the engine leads to from `Negotiating`.
pub open spec fn state_after_query(status: Status) -> CompareState {
    if match_kind(status) == ErrorKind::CompareMatch {
        CompareState::Completed(true)
    } else if match_kind(status) == ErrorKind::CompareNoMatch {
        CompareState::Completed(false)
    } else {
        CompareState::Negotiating
    }
}

/// Reads the engine's answer to a result query.
pub fn read_result(status: Status) -> (r: CompareState)
    ensures
        r == state_after_query(status),
{
    match Error::from_match_status(status).kind() {
        ErrorKind::CompareMatch => CompareState::Completed(true),
        ErrorKind::CompareNoMatch => CompareState::Completed(false),
        _ => CompareState::Negotiating,
    }
}

/// Secure Comparator context.
pub struct SecureComparator<E> {
    engine: E,
    state: CompareState,
    secret: Ghost<Seq<u8>>,
    last: Ghost<Option<CompareCall>>,
}

/// The comparator's model: its state and the concatenation of all secrets appended.
pub struct CompareView {
    pub state: CompareState,
    pub secret: Seq<u8>,
}

impl<E> View for SecureComparator<E> {
    type V = CompareView;

    closed spec fn view(&self) -> CompareView {
        CompareView { state: self.state, secret: self.secret@ }
    }
}

impl<E> SecureComparator<E> {
    /// The last operation handed to the engine, if any.
    pub closed spec fn last_call(&self) -> Option<CompareCall> {
        self.last@
    }
}

impl<E: CompareEngine> SecureComparator<E> {
    /// Makes an idle comparator on a fresh engine, with no secret yet.
    pub fn new(engine: E) -> (r: Self)
        ensures
            r@.state == CompareState::Idle,
            r@.secret == Seq::<u8>::empty(),
            r.last_call() is None,
    {
        SecureComparator {
            engine,
            state: CompareState::Idle,
            secret: Ghost(Seq::empty()),
            last: Ghost(None),
        }
    }

    /// Appends a secret. All appended secrets are compared as one, their concatenation.
    ///
    /// Fails with `InvalidParameter` once a round message was made or received.
    pub fn append_secret(&mut self, secret: &[u8]) -> (r: Result<(), Error>)
        ensures
            old(self)@.state != CompareState::Idle ==> r == Err::<(), Error>(
                Error { kind: ErrorKind::InvalidParameter },
            ) && final(self).last_call() == old(self).last_call(),
            old(self)@.state == CompareState::Idle ==> final(self).last_call() == Some(
                CompareCall::AppendSecret(secret@),
            ),
            final(self)@.state == old(self)@.state,
            compare_moves(old(self)@.state, final(self)@.state),
            r is Ok ==> final(self)@.secret == old(self)@.secret + secret@,
            r is Err ==> final(self)@.secret == old(self)@.secret,
            r is Err ==> !is_signal(r->Err_0.kind),
    {
        if self.state != CompareState::Idle {
            return Err(Error::with_kind(ErrorKind::InvalidParameter));
        }
        self.last = Ghost(Some(CompareCall::AppendSecret(secret@)));
        let kind = Error::from_compare_status(self.engine.append_secret(secret)).kind();
        if kind != ErrorKind::Success {
            return Err(crate::negotiation::failure(kind));
        }
        self.secret = Ghost(self.secret@ + secret@);
        Ok(())
    }

    /// Makes the first round message, which the initiating party sends to its peer.
    ///
    /// Only an idle comparator begins; otherwise this fails with `InvalidParameter`.
    pub fn begin_compare(&mut self) -> (r: Result<Vec<u8>, Error>)
        ensures
            old(self)@.state != CompareState::Idle ==> r == Err::<Vec<u8>, Error>(
                Error { kind: ErrorKind::InvalidParameter },
            ) && final(self)@ == old(self)@ && final(self).last_call() == old(self).last_call(),
            old(self)@.state == CompareState::Idle ==> final(self).last_call() == Some(
                CompareCall::Begin,
            ) && answered(round_expect(false), r),
            old(self)@.state == CompareState::Idle && r is Ok ==> final(self)@.state
                == CompareState::Negotiating,
            old(self)@.state == CompareState::Idle && r is Err ==> final(self)@.state
                == CompareState::Failed && !is_signal(r->Err_0.kind),
            compare_moves(old(self)@.state, final(self)@.state),
            final(self)@.secret == old(self)@.secret,
    {
        if self.state != CompareState::Idle {
            return Err(Error::with_kind(ErrorKind::InvalidParameter));
        }
        let step = CompareStep::Begin;
        self.last = Ghost(Some(CompareCall::Begin));
        match exchange_output(&mut self.engine, &step, Expect {
            family: Family::Compare,
            filled: ErrorKind::CompareSendOutputToPeer,
            done_on_probe: false,
            done_on_fill: false,
        }) {
            Ok(out) => {
                self.state = CompareState::Negotiating;
                Ok(out)
            },
            Err(e) => {
                self.state = CompareState::Failed;
                Err(e)
            },
        }
    }

    /// Feeds the peer's round message to the engine and returns the reply to send back.
    ///
    /// The responder starts with this call on the initiator's first message. Once the
    /// engine has the answer the comparator is completed, and stays so with that answer;
    /// the last round may still be exchanged, and its reply may be empty, which is no
    /// error. A failed round (a malformed or replayed message) before completion leaves the
    /// comparator unusable; a failed comparator fails with `InvalidParameter`.
    pub fn proceed_compare(&mut self, peer_data: &[u8]) -> (r: Result<Vec<u8>, Error>)
        ensures
            old(self)@.state == CompareState::Failed ==> r == Err::<Vec<u8>, Error>(
                Error { kind: ErrorKind::InvalidParameter },
            ) && final(self)@ == old(self)@ && final(self).last_call() == old(self).last_call(),
            old(self)@.state != CompareState::Failed ==> final(self).last_call() == Some(
                CompareCall::Proceed(peer_data@),
            ) && answered(round_expect(true), r),
            old(self)@.state is Completed ==> final(self)@ == old(self)@,
            (old(self)@.state == CompareState::Idle || old(self)@.state
                == CompareState::Negotiating) ==> {
                &&& r is Ok ==> (final(self)@.state == CompareState::Negotiating
                    || final(self)@.state is Completed)
                &&& r is Err ==> final(self)@.state == CompareState::Failed
            },
            r is Err ==> !is_signal(r->Err_0.kind),
            compare_moves(old(self)@.state, final(self)@.state),
            final(self)@.secret == old(self)@.secret,
    {
        if self.state == CompareState::Failed {
            return Err(Error::with_kind(ErrorKind::InvalidParameter));
        }
        let step = CompareStep::Proceed(peer_data);
        self.last = Ghost(Some(CompareCall::Proceed(peer_data@)));
        let exchanged = exchange_output(&mut self.engine, &step, Expect {
            family: Family::Compare,
            filled: ErrorKind::CompareSendOutputToPeer,
            done_on_probe: false,
            done_on_fill: true,
        });
        if let CompareState::Completed(_) = self.state {
            return exchanged;
        }
        match exchanged {
            Ok(out) => {
                self.state = read_result(self.engine.result());
                Ok(out)
            },
            Err(e) => {
                self.state = CompareState::Failed;
                Err(e)
            },
        }
    }

    /// Whether the secrets matched: `true` or `false` once completed, `CompareNotReady`
    /// before. The answer depends on the state alone, so it never changes once completed.
    pub fn get_result(&self) -> (r: Result<bool, Error>)
        ensures
            r == result_in(self@.state),
    {
        match self.state {
            CompareState::Completed(matched) => Ok(matched),
            _ => Err(Error::with_kind(ErrorKind::CompareNotReady)),
        }
    }

    /// The state of the comparison.
    pub fn state(&self) -> (r: CompareState)
        ensures
            r == self@.state,
    {
        self.state
    }
}

} // verus!
