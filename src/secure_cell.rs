//! Secure Cell: single-shot symmetric protection of data at rest.
//!
//! A cell is bound to a master key and an optional user context (empty where none was
//! given). The envelope formats and their cryptography are the engine's; this module hands
//! each operation to the engine with the cell's key and context, runs the two-phase output
//! convention, and records what it asked for.
//!
//! - Seal mode: the output carries its own authentication data.
//! - Token Protect mode: the ciphertext is as long as the message, and the authentication
//!   token comes separately.
//! - Context Imprint mode: length-preserving and unauthenticated; it needs a context.
use vstd::prelude::*;

use crate::error::{generic_status, is_signal, Error, ErrorKind, Status, THEMIS_FAIL};
use crate::negotiation::{
    answered, exchange_output, exchange_outputs, pair_answered, plain_expect, Family,
    OutputEngine, PairEngine,
};
use crate::utils::copy_bytes;

verus! {

/// One single-output operation of the Secure Cell engine.
pub enum CellStep<'a> {
    SealEncrypt { master_key: &'a [u8], user_context: &'a [u8], message: &'a [u8] },
    SealDecrypt { master_key: &'a [u8], user_context: &'a [u8], message: &'a [u8] },
    TokenProtectDecrypt {
        master_key: &'a [u8],
        user_context: &'a [u8],
        message: &'a [u8],
        token: &'a [u8],
    },
    ContextImprintEncrypt { master_key: &'a [u8], message: &'a [u8], context: &'a [u8] },
    ContextImprintDecrypt { master_key: &'a [u8], message: &'a [u8], context: &'a [u8] },
}

/// The two-output operation of the Secure Cell engine: Token Protect encryption, whose
/// outputs are the token, then the ciphertext.
pub enum CellPairStep<'a> {
    TokenProtectEncrypt { master_key: &'a [u8], user_context: &'a [u8], message: &'a [u8] },
}

/// The engine behind Secure Cell.
pub trait CellEngine: for<'a> OutputEngine<CellStep<'a>> + for<'a> PairEngine<CellPairStep<'a>> {

}

/// An operation as handed to the engine: its kind and its byte arguments, in the engine's
/// order (key, then context and data as the mode takes them).
pub enum CellCall {
    SealEncrypt(Seq<u8>, Seq<u8>, Seq<u8>),
    SealDecrypt(Seq<u8>, Seq<u8>, Seq<u8>),
    TokenProtectEncrypt(Seq<u8>, Seq<u8>, Seq<u8>),
    TokenProtectDecrypt(Seq<u8>, Seq<u8>, Seq<u8>, Seq<u8>),
    ContextImprintEncrypt(Seq<u8>, Seq<u8>, Seq<u8>),
    ContextImprintDecrypt(Seq<u8>, Seq<u8>, Seq<u8>),
}

/// Master key, optional user context, and the engine of a Secure Cell.
pub struct SecureCell<E> {
    engine: E,
    master_key: Vec<u8>,
    user_context: Option<Vec<u8>>,
    last: Ghost<Option<CellCall>>,
}

impl<E> View for SecureCell<E> {
    /// The master key, and the context (empty where none was given).
    type V = (Seq<u8>, Seq<u8>);

    closed spec fn view(&self) -> (Seq<u8>, Seq<u8>) {
        (
            self.master_key@,
            match self.user_context {
                Some(c) => c@,
                None => Seq::empty(),
            },
        )
    }
}

impl<E> SecureCell<E> {
    /// The last operation handed to the engine, if any.
    pub closed spec fn last_call(&self) -> Option<CellCall> {
        self.last@
    }
}

impl<E: CellEngine> SecureCell<E> {
    /// Makes a cell with a master key and no user context.
    pub fn with_key(engine: E, master_key: &[u8]) -> (r: Self)
        ensures
            r@ == (master_key@, Seq::<u8>::empty()),
            r.last_call() is None,
    {
        SecureCell { engine, master_key: copy_bytes(master_key), user_context: None, last: Ghost(None) }
    }

    /// Makes a cell with a master key and a user context.
    pub fn with_key_and_context(engine: E, master_key: &[u8], user_context: &[u8]) -> (r: Self)
        ensures
            r@ == (master_key@, user_context@),
            r.last_call() is None,
    {
        SecureCell {
            engine,
            master_key: copy_bytes(master_key),
            user_context: Some(copy_bytes(user_context)),
            last: Ghost(None),
        }
    }

    /// Switches to Seal mode.
    pub fn seal(self) -> (r: SecureCellSeal<E>)
        ensures
            r.0@ == self@,
    {
        SecureCellSeal(self)
    }

    /// Switches to Token Protect mode.
    pub fn token_protect(self) -> (r: SecureCellTokenProtect<E>)
        ensures
            r.0@ == self@,
    {
        SecureCellTokenProtect(self)
    }

    /// Switches to Context Imprint mode.
    pub fn context_imprint(self) -> (r: SecureCellContextImprint<E>)
        ensures
            r.0@ == self@,
    {
        SecureCellContextImprint(self)
    }

    /// The master key.
    pub fn master_key(&self) -> (r: &[u8])
        ensures
            r@ == self@.0,
    {
        self.master_key.as_slice()
    }

    /// The user context; empty where none was given.
    pub fn user_context(&self) -> (r: &[u8])
        ensures
            r@ == self@.1,
    {
        match &self.user_context {
            Some(c) => c.as_slice(),
            None => &[],
        }
    }

    /// Hands `step` to the engine, noting `call` as what was asked.
    fn run(&mut self, step: &CellStep, call: Ghost<CellCall>) -> (r: Result<Vec<u8>, Error>)
        ensures
            final(self)@ == old(self)@,
            final(self).last_call() == Some(call@),
            answered(plain_expect(Family::Generic), r),
            r is Err ==> !is_signal(r->Err_0.kind),
    {
        let r = exchange_output(&mut self.engine, step, crate::negotiation::Expect {
            family: Family::Generic,
            filled: ErrorKind::Success,
            done_on_probe: false,
            done_on_fill: false,
        });
        self.last = Ghost(Some(call@));
        r
    }
}

/// Secure Cell in Seal mode.
pub struct SecureCellSeal<E>(pub SecureCell<E>);

impl<E: CellEngine> SecureCellSeal<E> {
    /// Encrypts `message`; the result carries its own authentication data.
    pub fn encrypt(&mut self, message: &[u8]) -> (r: Result<Vec<u8>, Error>)
        ensures
            final(self).0@ == old(self).0@,
            final(self).0.last_call() == Some(
                CellCall::SealEncrypt(old(self).0@.0, old(self).0@.1, message@),
            ),
            answered(plain_expect(Family::Generic), r),
            r is Err ==> !is_signal(r->Err_0.kind),
    {
        let cell = &mut self.0;
        let master_key = copy_bytes(cell.master_key());
        let user_context = copy_bytes(cell.user_context());
        let step = CellStep::SealEncrypt {
            master_key: master_key.as_slice(),
            user_context: user_context.as_slice(),
            message,
        };
        cell.run(&step, Ghost(CellCall::SealEncrypt(master_key@, user_context@, message@)))
    }

    /// Decrypts a sealed message and checks its authenticity.
    pub fn decrypt(&mut self, message: &[u8]) -> (r: Result<Vec<u8>, Error>)
        ensures
            final(self).0@ == old(self).0@,
            final(self).0.last_call() == Some(
                CellCall::SealDecrypt(old(self).0@.0, old(self).0@.1, message@),
            ),
            answered(plain_expect(Family::Generic), r),
            r is Err ==> !is_signal(r->Err_0.kind),
    {
        let cell = &mut self.0;
        let master_key = copy_bytes(cell.master_key());
        let user_context = copy_bytes(cell.user_context());
        let step = CellStep::SealDecrypt {
            master_key: master_key.as_slice(),
            user_context: user_context.as_slice(),
            message,
        };
        cell.run(&step, Ghost(CellCall::SealDecrypt(master_key@, user_context@, message@)))
    }
}

/// Secure Cell in Token Protect mode.
pub struct SecureCellTokenProtect<E>(pub SecureCell<E>);

impl<E: CellEngine> SecureCellTokenProtect<E> {
    /// Encrypts `message`; returns the ciphertext and the authentication token.
    pub fn encrypt(&mut self, message: &[u8]) -> (r: Result<(Vec<u8>, Vec<u8>), Error>)
        ensures
            final(self).0@ == old(self).0@,
            final(self).0.last_call() == Some(
                CellCall::TokenProtectEncrypt(old(self).0@.0, old(self).0@.1, message@),
            ),
            r is Err ==> !is_signal(r->Err_0.kind),
            exists|t: Result<(Vec<u8>, Vec<u8>), Error>|
                #[trigger] pair_answered(Family::Generic, t) && swapped(t, r),
    {
        let cell = &mut self.0;
        let master_key = copy_bytes(cell.master_key());
        let user_context = copy_bytes(cell.user_context());
        let step = CellPairStep::TokenProtectEncrypt {
            master_key: master_key.as_slice(),
            user_context: user_context.as_slice(),
            message,
        };
        let t = exchange_outputs(&mut cell.engine, &step, Family::Generic);
        cell.last = Ghost(Some(CellCall::TokenProtectEncrypt(master_key@, user_context@, message@)));
        let r = match t {
            Ok((token, ciphertext)) => Ok((ciphertext, token)),
            Err(e) => Err(e),
        };
        assert(pair_answered(Family::Generic, t) && swapped(t, r));
        r
    }

    /// Checks `token` against `message` and decrypts it.
    pub fn decrypt(&mut self, message: &[u8], token: &[u8]) -> (r: Result<Vec<u8>, Error>)
        ensures
            final(self).0@ == old(self).0@,
            final(self).0.last_call() == Some(
                CellCall::TokenProtectDecrypt(old(self).0@.0, old(self).0@.1, message@, token@),
            ),
            answered(plain_expect(Family::Generic), r),
            r is Err ==> !is_signal(r->Err_0.kind),
    {
        let cell = &mut self.0;
        let master_key = copy_bytes(cell.master_key());
        let user_context = copy_bytes(cell.user_context());
        let step = CellStep::TokenProtectDecrypt {
            master_key: master_key.as_slice(),
            user_context: user_context.as_slice(),
            message,
            token,
        };
        cell.run(
            &step,
            Ghost(CellCall::TokenProtectDecrypt(master_key@, user_context@, message@, token@)),
        )
    }
}

/// The engine's outputs in the order the caller gets them: (token, ciphertext) becomes
/// (ciphertext, token).
pub open spec fn swapped(t: Result<(Vec<u8>, Vec<u8>), Error>, r: Result<(Vec<u8>, Vec<u8>), Error>) -> bool {
    match t {
        Ok((token, ciphertext)) => r is Ok && r->Ok_0.0@ == ciphertext@ && r->Ok_0.1@ == token@,
        Err(e) => r == Err::<(Vec<u8>, Vec<u8>), Error>(e),
    }
}

/// Secure Cell in Context Imprint mode.
pub struct SecureCellContextImprint<E>(pub SecureCell<E>);

impl<E: CellEngine> SecureCellContextImprint<E> {
    /// Encrypts `message`; the result is as long as the message.
    pub fn encrypt(&mut self, message: &[u8]) -> (r: Result<Vec<u8>, Error>)
        ensures
            final(self).0@ == old(self).0@,
            final(self).0.last_call() == Some(
                CellCall::ContextImprintEncrypt(old(self).0@.0, message@, old(self).0@.1),
            ),
            answered(plain_expect(Family::Generic), r),
            r is Err ==> !is_signal(r->Err_0.kind),
    {
        let cell = &mut self.0;
        let master_key = copy_bytes(cell.master_key());
        let context = copy_bytes(cell.user_context());
        let step = CellStep::ContextImprintEncrypt {
            master_key: master_key.as_slice(),
            message,
            context: context.as_slice(),
        };
        cell.run(&step, Ghost(CellCall::ContextImprintEncrypt(master_key@, message@, context@)))
    }

    /// Decrypts `message`. Nothing is authenticated.
    pub fn decrypt(&mut self, message: &[u8]) -> (r: Result<Vec<u8>, Error>)
        ensures
            final(self).0@ == old(self).0@,
            final(self).0.last_call() == Some(
                CellCall::ContextImprintDecrypt(old(self).0@.0, message@, old(self).0@.1),
            ),
            answered(plain_expect(Family::Generic), r),
            r is Err ==> !is_signal(r->Err_0.kind),
    {
        let cell = &mut self.0;
        let master_key = copy_bytes(cell.master_key());
        let context = copy_bytes(cell.user_context());
        let step = CellStep::ContextImprintDecrypt {
            master_key: master_key.as_slice(),
            message,
            context: context.as_slice(),
        };
        cell.run(&step, Ghost(CellCall::ContextImprintDecrypt(master_key@, message@, context@)))
    }
}

/// The status code that stands for an error of a generic operation.
pub open spec fn status_code_of(e: Error) -> Status {
    match generic_status(e.kind) {
        Some(s) => s,
        None => THEMIS_FAIL,
    }
}

/// Turns an error into its status code.
pub fn status_code(e: Error) -> (r: Status)
    ensures
        r == status_code_of(e),
{
    match e.status() {
        Some(code) => code,
        None => THEMIS_FAIL,
    }
}

/// A result whose error is given as a status code.
pub open spec fn coded<T>(r: Result<T, Status>, from: Result<T, Error>) -> bool {
    match from {
        Ok(v) => r == Ok::<T, Status>(v),
        Err(e) => r == Err::<T, Status>(status_code_of(e)),
    }
}

/// Encrypts `message` in Seal mode with `master_key` and `user_context`; errors are status
/// codes.
pub fn encrypt_seal<E: CellEngine>(engine: &mut E, master_key: &[u8], user_context: &[u8], message: &[u8]) -> (r: Result<Vec<u8>, Status>)
    ensures
        exists|from: Result<Vec<u8>, Error>|
            #[trigger] answered(plain_expect(Family::Generic), from) && coded(r, from),
{
    let step = CellStep::SealEncrypt { master_key, user_context, message };
    let from = exchange_output(engine, &step, crate::negotiation::Expect {
        family: Family::Generic,
        filled: ErrorKind::Success,
        done_on_probe: false,
        done_on_fill: false,
    });
    let r = match from {
        Ok(v) => Ok(v),
        Err(e) => Err(status_code(e)),
    };
    assert(answered(plain_expect(Family::Generic), from) && coded(r, from));
    r
}

/// Decrypts a sealed message with `master_key` and `user_context`; errors are status codes.
pub fn decrypt_seal<E: CellEngine>(engine: &mut E, master_key: &[u8], user_context: &[u8], message: &[u8]) -> (r: Result<Vec<u8>, Status>)
    ensures
        exists|from: Result<Vec<u8>, Error>|
            #[trigger] answered(plain_expect(Family::Generic), from) && coded(r, from),
{
    let step = CellStep::SealDecrypt { master_key, user_context, message };
    let from = exchange_output(engine, &step, crate::negotiation::Expect {
        family: Family::Generic,
        filled: ErrorKind::Success,
        done_on_probe: false,
        done_on_fill: false,
    });
    let r = match from {
        Ok(v) => Ok(v),
        Err(e) => Err(status_code(e)),
    };
    assert(answered(plain_expect(Family::Generic), from) && coded(r, from));
    r
}

/// Encrypts `message` in Token Protect mode; returns the ciphertext and the token. Errors
/// are status codes.
pub fn encrypt_token_protect<E: CellEngine>(engine: &mut E, master_key: &[u8], user_context: &[u8], message: &[u8]) -> (r: Result<(Vec<u8>, Vec<u8>), Status>)
    ensures
        exists|t: Result<(Vec<u8>, Vec<u8>), Error>, from: Result<(Vec<u8>, Vec<u8>), Error>|
            #[trigger] pair_answered(Family::Generic, t) && #[trigger] swapped(t, from) && coded(r, from),
{
    let step = CellPairStep::TokenProtectEncrypt { master_key, user_context, message };
    let t = exchange_outputs(engine, &step, Family::Generic);
    let from = match t {
        Ok((token, ciphertext)) => Ok((ciphertext, token)),
        Err(e) => Err(e),
    };
    let r = match from {
        Ok(v) => Ok(v),
        Err(e) => Err(status_code(e)),
    };
    assert(pair_answered(Family::Generic, t) && swapped(t, from) && coded(r, from));
    r
}

/// Checks `token` against `message` and decrypts it; errors are status codes.
pub fn decrypt_token_protect<E: CellEngine>(engine: &mut E, master_key: &[u8], user_context: &[u8], message: &[u8], token: &[u8]) -> (r: Result<Vec<u8>, Status>)
    ensures
        exists|from: Result<Vec<u8>, Error>|
            #[trigger] answered(plain_expect(Family::Generic), from) && coded(r, from),
{
    let step = CellStep::TokenProtectDecrypt { master_key, user_context, message, token };
    let from = exchange_output(engine, &step, crate::negotiation::Expect {
        family: Family::Generic,
        filled: ErrorKind::Success,
        done_on_probe: false,
        done_on_fill: false,
    });
    let r = match from {
        Ok(v) => Ok(v),
        Err(e) => Err(status_code(e)),
    };
    assert(answered(plain_expect(Family::Generic), from) && coded(r, from));
    r
}

} // verus!
