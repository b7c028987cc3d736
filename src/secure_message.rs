//! Secure Message: a message encrypted for one peer, or signed by its sender.
//!
//! The envelope format and its cryptography are the engine's. Encryption uses the sender's
//! private key and the recipient's public key; signing uses the private key alone and
//! verifying the public key alone (an empty key stands for the missing one).
use vstd::prelude::*;

use crate::error::{is_signal, Error, ErrorKind};
use crate::negotiation::{answered, exchange_output, plain_expect, Expect, Family, OutputEngine};
use crate::utils::copy_bytes;

verus! {

/// One operation of the Secure Message engine.
pub enum MessageStep<'a> {
    /// Encrypt (both keys) or sign (empty public key) a message.
    Wrap { private_key: &'a [u8], public_key: &'a [u8], message: &'a [u8] },
    /// Decrypt (both keys) or verify (empty private key) a wrapped message.
    Unwrap { private_key: &'a [u8], public_key: &'a [u8], wrapped: &'a [u8] },
}

/// An operation as handed to the engine: private key, public key, then the data.
pub enum MessageCall {
    Wrap(Seq<u8>, Seq<u8>, Seq<u8>),
    Unwrap(Seq<u8>, Seq<u8>, Seq<u8>),
}

/// Runs a Secure Message operation: its output comes with `Success` on the second call.
fn run_step<E: for<'a> OutputEngine<MessageStep<'a>>>(engine: &mut E, step: &MessageStep) -> (r:
    Result<Vec<u8>, Error>)
    ensures
        answered(plain_expect(Family::Generic), r),
        r is Err ==> !is_signal(r->Err_0.kind),
{
    exchange_output(engine, step, Expect {
        family: Family::Generic,
        filled: ErrorKind::Success,
        done_on_probe: false,
        done_on_fill: false,
    })
}

/// Secure Message in encryption mode.
pub struct SecureMessage<E> {
    engine: E,
    last: Ghost<Option<MessageCall>>,
    private_key: Vec<u8>,
    public_key: Vec<u8>,
}

impl<E> View for SecureMessage<E> {
    /// The private key and the peer's public key.
    type V = (Seq<u8>, Seq<u8>);

    closed spec fn view(&self) -> (Seq<u8>, Seq<u8>) {
        (self.private_key@, self.public_key@)
    }
}

impl<E> SecureMessage<E> {
    /// The last operation handed to the engine, if any.
    pub closed spec fn last_call(&self) -> Option<MessageCall> {
        self.last@
    }
}

impl<E: for<'a> OutputEngine<MessageStep<'a>>> SecureMessage<E> {
    /// Binds this party's private key and the peer's public key.
    pub fn new(engine: E, private_key: &[u8], public_key: &[u8]) -> (r: Self)
        ensures
            r@ == (private_key@, public_key@),
            r.last_call() is None,
    {
        SecureMessage { engine, last: Ghost(None), private_key: copy_bytes(private_key), public_key: copy_bytes(public_key) }
    }

    /// Encrypts `message` for the peer.
    pub fn wrap(&mut self, message: &[u8]) -> (r: Result<Vec<u8>, Error>)
        ensures
            final(self)@ == old(self)@,
            final(self).last_call() == Some(
                MessageCall::Wrap(old(self)@.0, old(self)@.1, message@),
            ),
            answered(plain_expect(Family::Generic), r),
            r is Err ==> !is_signal(r->Err_0.kind),
    {
        self.last = Ghost(Some(MessageCall::Wrap(self.private_key@, self.public_key@, message@)));
        let step = MessageStep::Wrap {
            private_key: self.private_key.as_slice(),
            public_key: self.public_key.as_slice(),
            message,
        };
        run_step(&mut self.engine, &step)
    }

    /// Decrypts a message of the peer.
    pub fn unwrap(&mut self, wrapped: &[u8]) -> (r: Result<Vec<u8>, Error>)
        ensures
            final(self)@ == old(self)@,
            final(self).last_call() == Some(
                MessageCall::Unwrap(old(self)@.0, old(self)@.1, wrapped@),
            ),
            answered(plain_expect(Family::Generic), r),
            r is Err ==> !is_signal(r->Err_0.kind),
    {
        self.last = Ghost(Some(MessageCall::Unwrap(self.private_key@, self.public_key@, wrapped@)));
        let step = MessageStep::Unwrap {
            private_key: self.private_key.as_slice(),
            public_key: self.public_key.as_slice(),
            wrapped,
        };
        run_step(&mut self.engine, &step)
    }
}

/// Secure Message in signing mode.
pub struct SecureSign<E> {
    engine: E,
    last: Ghost<Option<MessageCall>>,
    private_key: Vec<u8>,
}

impl<E> View for SecureSign<E> {
    type V = Seq<u8>;

    closed spec fn view(&self) -> Seq<u8> {
        self.private_key@
    }
}

impl<E> SecureSign<E> {
    /// The last operation handed to the engine, if any.
    pub closed spec fn last_call(&self) -> Option<MessageCall> {
        self.last@
    }
}

impl<E: for<'a> OutputEngine<MessageStep<'a>>> SecureSign<E> {
    /// Binds the signer's private key.
    pub fn new(engine: E, private_key: &[u8]) -> (r: Self)
        ensures
            r@ == private_key@,
            r.last_call() is None,
    {
        SecureSign { engine, last: Ghost(None), private_key: copy_bytes(private_key) }
    }

    /// Signs `message`; the result carries the message and its signature.
    pub fn sign(&mut self, message: &[u8]) -> (r: Result<Vec<u8>, Error>)
        ensures
            final(self)@ == old(self)@,
            final(self).last_call() == Some(
                MessageCall::Wrap(old(self)@, Seq::<u8>::empty(), message@),
            ),
            answered(plain_expect(Family::Generic), r),
            r is Err ==> !is_signal(r->Err_0.kind),
    {
        self.last = Ghost(Some(MessageCall::Wrap(self.private_key@, Seq::empty(), message@)));
        let step = MessageStep::Wrap { private_key: self.private_key.as_slice(), public_key: &[], message };
        run_step(&mut self.engine, &step)
    }
}

/// Secure Message in verification mode.
pub struct SecureVerify<E> {
    engine: E,
    last: Ghost<Option<MessageCall>>,
    public_key: Vec<u8>,
}

impl<E> View for SecureVerify<E> {
    type V = Seq<u8>;

    closed spec fn view(&self) -> Seq<u8> {
        self.public_key@
    }
}

impl<E> SecureVerify<E> {
    /// The last operation handed to the engine, if any.
    pub closed spec fn last_call(&self) -> Option<MessageCall> {
        self.last@
    }
}

impl<E: for<'a> OutputEngine<MessageStep<'a>>> SecureVerify<E> {
    /// Binds the signer's public key.
    pub fn new(engine: E, public_key: &[u8]) -> (r: Self)
        ensures
            r@ == public_key@,
            r.last_call() is None,
    {
        SecureVerify { engine, last: Ghost(None), public_key: copy_bytes(public_key) }
    }

    /// Checks the signature of a signed message and returns the message.
    pub fn verify(&mut self, message: &[u8]) -> (r: Result<Vec<u8>, Error>)
        ensures
            final(self)@ == old(self)@,
            final(self).last_call() == Some(
                MessageCall::Unwrap(Seq::<u8>::empty(), old(self)@, message@),
            ),
            answered(plain_expect(Family::Generic), r),
            r is Err ==> !is_signal(r->Err_0.kind),
    {
        self.last = Ghost(Some(MessageCall::Unwrap(Seq::empty(), self.public_key@, message@)));
        let step = MessageStep::Unwrap { private_key: &[], public_key: self.public_key.as_slice(), wrapped: message };
        run_step(&mut self.engine, &step)
    }
}

} // verus!
