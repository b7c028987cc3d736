//! Authenticated encryption and authenticated key agreement.
//!
//! - [`secure_session`] and [`secure_comparator`]: multi-round protocols between two peers.
//!   Their cryptography is done by an engine behind a trait; these types keep the states and
//!   the rules of sequencing, which are verified here.
//! - [`secure_cell`], [`secure_message`] and [`keygen`]: single-shot envelopes and key
//!   generation, also by the engine.
//!
//! Every call into the engine goes through [`negotiation`]; each protocol object records, as
//! a ghost value, the last operation it handed to the engine, and each result is stated as
//! what the two-phase convention makes of some well-formed answers of the engine.
//! - [`negotiation`]: the engine's two-phase output convention, probe then fill, in one place.
//! - [`error`]: error kinds and the meaning of the engine's status codes.
//! - [`keys`]: key blobs of both algorithms, told apart by their tags.
//! - [`native_build`]: the settings and results of a build of the native engine.
use vstd::prelude::*;

pub mod error;
pub mod keygen;
pub mod keys;
pub mod native_build;
pub mod negotiation;
pub mod secure_cell;
pub mod secure_comparator;
pub mod secure_message;
pub mod secure_session;
pub mod utils;

verus! {

} // verus!
