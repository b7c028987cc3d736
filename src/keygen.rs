//! Generating key pairs.
//!
//! The engine draws the keys; this module runs the two-phase exchange for both outputs at
//! once, offering each key exactly the room the engine asked for it.
use vstd::prelude::*;

use crate::error::{is_signal, Error};
use crate::negotiation::{exchange_outputs, pair_answered, Family, PairEngine};

verus! {

/// Algorithm of a key pair.
#[derive(Debug, PartialEq, Eq, Structural, Clone, Copy)]
pub enum KeyAlgorithm {
    Rsa,
    Ecdsa,
}

/// Draws a key pair of `algorithm`: the private key, then the public key. The engine's two
/// outputs are the private and the public key.
pub fn gen_key_pair<E: PairEngine<KeyAlgorithm>>(engine: &mut E, algorithm: KeyAlgorithm) -> (r:
    Result<(Vec<u8>, Vec<u8>), Error>)
    ensures
        pair_answered(Family::Generic, r),
        r is Err ==> !is_signal(r->Err_0.kind),
{
    exchange_outputs(engine, &algorithm, Family::Generic)
}

/// Generates a private-public pair of RSA keys.
pub fn gen_rsa_key_pair<E: PairEngine<KeyAlgorithm>>(engine: &mut E) -> (r: Result<
    (Vec<u8>, Vec<u8>),
    Error,
>)
    ensures
        pair_answered(Family::Generic, r),
        r is Err ==> !is_signal(r->Err_0.kind),
{
    gen_key_pair(engine, KeyAlgorithm::Rsa)
}

/// Generates a private-public pair of ECDSA keys.
pub fn gen_ec_key_pair<E: PairEngine<KeyAlgorithm>>(engine: &mut E) -> (r: Result<
    (Vec<u8>, Vec<u8>),
    Error,
>)
    ensures
        pair_answered(Family::Generic, r),
        r is Err ==> !is_signal(r->Err_0.kind),
{
    gen_key_pair(engine, KeyAlgorithm::Ecdsa)
}

} // verus!
