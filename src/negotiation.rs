//! The two-phase output convention of the engine: probe for the size, then fill.
//!
//! An engine call that produces variable-length output is made twice. The first call gets no
//! room and must answer `BufferTooSmall` together with the length it needs; the caller then
//! offers exactly that much room and calls again, and the second answer must be the signal
//! that the operation expects. Any other answer is a failure, and a failure never carries a
//! signal kind: `BufferTooSmall`, `Success` or a "send to peer" kind that comes at the wrong
//! phase is reported as `Fail`.
use vstd::prelude::*;

use crate::error::{
    compare_kind, is_signal, session_kind, themis_kind, Error, ErrorKind, Status,
};

verus! {

/// Which table of status codes an engine call answers with.
#[derive(Debug, PartialEq, Eq, Structural, Clone, Copy)]
pub enum Family {
    /// Generic codes.
    Generic,
    /// Secure Session codes.
    Session,
    /// Secure Comparator data exchange codes.
    Compare,
}

/// Kind of `status` in the table of `family`.
pub open spec fn kind_in(family: Family, status: Status) -> ErrorKind {
    match family {
        Family::Generic => themis_kind(status),
        Family::Session => session_kind(status),
        Family::Compare => compare_kind(status),
    }
}

/// Reads `status` in the table of `family`.
pub fn classify(family: Family, status: Status) -> (r: ErrorKind)
    ensures
        r == kind_in(family, status),
{
    match family {
        Family::Generic => Error::from_themis_status(status).kind(),
        Family::Session => Error::from_session_status(status).kind(),
        Family::Compare => Error::from_compare_status(status).kind(),
    }
}

/// The failure that an answer of `kind` stands for.
pub open spec fn failure_kind(kind: ErrorKind) -> ErrorKind {
    if is_signal(kind) {
        ErrorKind::Fail
    } else {
        kind
    }
}

/// Turns an answer that was not the expected one into an error.
pub fn failure(kind: ErrorKind) -> (r: Error)
    ensures
        r.kind == failure_kind(kind),
        !is_signal(r.kind),
{
    match kind {
        ErrorKind::Success
        | ErrorKind::BufferTooSmall
        | ErrorKind::SessionSendOutputToPeer
        | ErrorKind::CompareSendOutputToPeer
        | ErrorKind::CompareMatch
        | ErrorKind::CompareNoMatch => Error::with_kind(ErrorKind::Fail),
        _ => Error::with_kind(kind),
    }
}

/// What an output-producing operation expects from the engine.
#[derive(Debug, PartialEq, Eq, Structural, Clone, Copy)]
pub struct Expect {
    /// The table of codes the operation answers with.
    pub family: Family,
    /// The answer to the second call that delivers output.
    pub filled: ErrorKind,
    /// Whether `Success` to the first call means "finished, no output".
    pub done_on_probe: bool,
    /// Whether `Success` to the second call means "finished, here is the last output".
    pub done_on_fill: bool,
}

/// What the answer to the first call means.
#[derive(Debug, PartialEq, Eq, Structural, Clone, Copy)]
pub enum Probe {
    /// Offer this many bytes and call again.
    Allocate(usize),
    /// The operation is finished and has no output.
    Finished,
    /// The operation failed.
    Failed(Error),
}

/// Decides on the answer `kind` to the first call, which asked for `required` bytes.
pub fn after_probe(expect: Expect, kind: ErrorKind, required: usize) -> (r: Probe)
    ensures
        kind == ErrorKind::BufferTooSmall ==> r == Probe::Allocate(required),
        kind == ErrorKind::Success && expect.done_on_probe ==> r == Probe::Finished,
        kind != ErrorKind::BufferTooSmall && !(kind == ErrorKind::Success && expect.done_on_probe)
            ==> r == Probe::Failed(Error { kind: failure_kind(kind) }),
{
    if kind == ErrorKind::BufferTooSmall {
        Probe::Allocate(required)
    } else if kind == ErrorKind::Success && expect.done_on_probe {
        Probe::Finished
    } else {
        Probe::Failed(failure(kind))
    }
}

/// The answers to the second call that deliver output.
pub open spec fn delivers(expect: Expect, kind: ErrorKind) -> bool {
    kind == expect.filled || (expect.done_on_fill && kind == ErrorKind::Success)
}

/// Decides on the answer `kind` to the second call, which wrote `written` bytes into `room`.
/// Returns the length of the output.
pub fn after_fill(expect: Expect, kind: ErrorKind, written: usize, room: usize) -> (r: Result<
    usize,
    Error,
>)
    ensures
        delivers(expect, kind) && written <= room ==> r == Ok::<usize, Error>(written),
        delivers(expect, kind) && written > room ==> r == Err::<usize, Error>(
            Error { kind: ErrorKind::Fail },
        ),
        !delivers(expect, kind) ==> r == Err::<usize, Error>(Error { kind: failure_kind(kind) }),
{
    if kind == expect.filled || (expect.done_on_fill && kind == ErrorKind::Success) {
        if written <= room {
            Ok(written)
        } else {
            Err(Error::with_kind(ErrorKind::Fail))
        }
    } else {
        Err(failure(kind))
    }
}

/// An engine whose operations of kind `S` produce output by the two-phase convention.
pub trait OutputEngine<S> {
    /// Runs `step`. The first call has `fill` false and offers no room; the second has
    /// `fill` true and offers `output.len()` bytes. The engine writes at most that many
    /// bytes to the front of `output`, stores in `output_len` the number written (or, when
    /// the room is too small, the number it needs) and answers a status.
    fn run(&mut self, step: &S, fill: bool, output: &mut Vec<u8>, output_len: &mut usize) -> Status;
}

/// Whether the answer `kind` to the second call, which delivered output, also ends the
/// operation: `Success` where a different signal usually delivers output.
pub fn ends_on_fill(expect: Expect, kind: ErrorKind) -> (r: bool)
    ensures
        r == (kind == ErrorKind::Success && expect.filled != ErrorKind::Success),
{
    kind == ErrorKind::Success && expect.filled != ErrorKind::Success
}

/// What the engine did in the second call of an exchange.
pub struct Fill {
    /// The room offered, in bytes.
    pub room: nat,
    /// The status answered.
    pub status: Status,
    /// The length the engine reported as written.
    pub written: nat,
    /// The contents of the room after the call.
    pub buffer: Seq<u8>,
}

/// The engine's answers in one exchange: the status and the length asked for in the first
/// call, and the second call where one was made.
pub struct Answers {
    pub probe: Status,
    pub needed: nat,
    pub fill: Option<Fill>,
}

/// What a second call's answer means: the output and whether it ends the operation, or the
/// error.
pub open spec fn fill_outcome(expect: Expect, f: Fill) -> Result<(Seq<u8>, bool), Error> {
    let kind = kind_in(expect.family, f.status);
    if !delivers(expect, kind) {
        Err(Error { kind: failure_kind(kind) })
    } else if f.written > f.buffer.len() {
        Err(Error { kind: ErrorKind::Fail })
    } else {
        Ok(
            (
                f.buffer.subrange(0, f.written as int),
                kind == ErrorKind::Success && expect.filled != ErrorKind::Success,
            ),
        )
    }
}

/// What an exchange with these answers returns.
pub open spec fn outcome(expect: Expect, a: Answers) -> Result<(Seq<u8>, bool), Error> {
    let kind = kind_in(expect.family, a.probe);
    if kind == ErrorKind::BufferTooSmall {
        match a.fill {
            Some(f) => fill_outcome(expect, f),
            None => Err(Error { kind: ErrorKind::Fail }),
        }
    } else if kind == ErrorKind::Success && expect.done_on_probe {
        Ok((Seq::empty(), true))
    } else {
        Err(Error { kind: failure_kind(kind) })
    }
}

/// The answers of a well-run exchange: a second call exactly where the first asked for room,
/// offering exactly the room asked for.
pub open spec fn well_run(expect: Expect, a: Answers) -> bool {
    &&& (a.fill is Some <==> kind_in(expect.family, a.probe) == ErrorKind::BufferTooSmall)
    &&& (a.fill matches Some(f) ==> f.room == a.needed)
}

/// A result of bytes agrees with an outcome.
pub open spec fn delivered(r: Result<Vec<u8>, Error>, o: Result<(Seq<u8>, bool), Error>) -> bool {
    match o {
        Ok((out, _)) => r is Ok && r->Ok_0@ == out,
        Err(e) => r == Err::<Vec<u8>, Error>(e),
    }
}

/// Output of a two-phase exchange.
pub struct Exchanged {
    /// The bytes produced.
    pub output: Vec<u8>,
    /// Whether the engine answered `Success`, "finished", rather than the expected signal.
    pub finished: bool,
}

/// An exchange result agrees with an outcome.
pub open spec fn exchanged(r: Result<Exchanged, Error>, o: Result<(Seq<u8>, bool), Error>) -> bool {
    match o {
        Ok((out, finished)) => r is Ok && r->Ok_0.output@ == out && r->Ok_0.finished == finished,
        Err(e) => r == Err::<Exchanged, Error>(e),
    }
}

/// Runs `step` by the two-phase convention: asks for the length, offers exactly that much
/// room, and returns what `outcome` makes of the engine's answers, which come back as a
/// ghost value.
pub fn exchange<S, E: OutputEngine<S>>(engine: &mut E, step: &S, expect: Expect) -> (r: (
    Result<Exchanged, Error>,
    Ghost<Answers>,
))
    ensures
        well_run(expect, r.1@),
        exchanged(r.0, outcome(expect, r.1@)),
        r.0 is Err ==> !is_signal(r.0->Err_0.kind),
{
    let mut room: Vec<u8> = Vec::new();
    let mut needed: usize = 0;
    let probe = engine.run(step, false, &mut room, &mut needed);
    let ghost first = Answers { probe, needed: needed as nat, fill: None };
    let n = match after_probe(expect, classify(expect.family, probe), needed) {
        Probe::Allocate(n) => n,
        Probe::Finished => {
            return (Ok(Exchanged { output: Vec::new(), finished: true }), Ghost(first));
        },
        Probe::Failed(e) => {
            return (Err(e), Ghost(first));
        },
    };
    let mut output: Vec<u8> = vec![0u8; n];
    let mut written: usize = 0;
    let status = engine.run(step, true, &mut output, &mut written);
    let ghost answers = Answers {
        probe,
        needed: needed as nat,
        fill: Some(Fill { room: n as nat, status, written: written as nat, buffer: output@ }),
    };
    let kind = classify(expect.family, status);
    let len = match after_fill(expect, kind, written, output.len()) {
        Ok(len) => len,
        Err(e) => {
            return (Err(e), Ghost(answers));
        },
    };
    output.truncate(len);
    assert(output@ =~= answers.fill->Some_0.buffer.subrange(0, len as int));
    (Ok(Exchanged { output, finished: ends_on_fill(expect, kind) }), Ghost(answers))
}

/// An engine whose operations of kind `S` produce two outputs at once by the two-phase
/// convention.
pub trait PairEngine<S> {
    /// Runs `step`. The first call has `fill` false and offers no room, and is answered with
    /// `BufferTooSmall` and the two lengths needed; the second offers `first.len()` and
    /// `second.len()` bytes and gets the lengths written.
    fn run_pair(
        &mut self,
        step: &S,
        fill: bool,
        first: &mut Vec<u8>,
        first_len: &mut usize,
        second: &mut Vec<u8>,
        second_len: &mut usize,
    ) -> Status;
}

/// The engine's answers in a two-output exchange.
pub struct PairAnswers {
    pub probe: Status,
    pub needed: (nat, nat),
    pub fill: Option<(Fill, Fill)>,
}

/// What a two-output exchange with these answers returns. Both outputs come with the one
/// status of the second call, which must be `Success`.
pub open spec fn pair_outcome(family: Family, a: PairAnswers) -> Result<(Seq<u8>, Seq<u8>), Error> {
    let expect = Expect { family, filled: ErrorKind::Success, done_on_probe: false, done_on_fill: false };
    let kind = kind_in(family, a.probe);
    if kind == ErrorKind::BufferTooSmall {
        match a.fill {
            Some((f1, f2)) => match (fill_outcome(expect, f1), fill_outcome(expect, f2)) {
                (Ok((o1, _)), Ok((o2, _))) => Ok((o1, o2)),
                (Err(e), _) => Err(e),
                (_, Err(e)) => Err(e),
            },
            None => Err(Error { kind: ErrorKind::Fail }),
        }
    } else {
        Err(Error { kind: failure_kind(kind) })
    }
}

/// A well-run two-output exchange: a second call exactly where the first asked for room,
/// each output offered exactly the room asked for it, and one status for both.
pub open spec fn pair_well_run(family: Family, a: PairAnswers) -> bool {
    &&& (a.fill is Some <==> kind_in(family, a.probe) == ErrorKind::BufferTooSmall)
    &&& (a.fill matches Some((f1, f2)) ==> f1.room == a.needed.0 && f2.room == a.needed.1
        && f1.status == f2.status)
}

/// A pair result agrees with an outcome.
pub open spec fn pair_delivered(
    r: Result<(Vec<u8>, Vec<u8>), Error>,
    o: Result<(Seq<u8>, Seq<u8>), Error>,
) -> bool {
    match o {
        Ok((a, b)) => r is Ok && r->Ok_0.0@ == a && r->Ok_0.1@ == b,
        Err(e) => r == Err::<(Vec<u8>, Vec<u8>), Error>(e),
    }
}

/// Runs `step` by the two-phase convention for two outputs at once; each output gets
/// exactly the room asked for it.
pub fn exchange_pair<S, E: PairEngine<S>>(engine: &mut E, step: &S, family: Family) -> (r: (
    Result<(Vec<u8>, Vec<u8>), Error>,
    Ghost<PairAnswers>,
))
    ensures
        pair_well_run(family, r.1@),
        pair_delivered(r.0, pair_outcome(family, r.1@)),
        r.0 is Err ==> !is_signal(r.0->Err_0.kind),
{
    let expect = Expect { family, filled: ErrorKind::Success, done_on_probe: false, done_on_fill: false };
    let mut first: Vec<u8> = Vec::new();
    let mut second: Vec<u8> = Vec::new();
    let mut first_len: usize = 0;
    let mut second_len: usize = 0;
    let probe = engine.run_pair(step, false, &mut first, &mut first_len, &mut second, &mut second_len);
    let ghost asked = PairAnswers { probe, needed: (first_len as nat, second_len as nat), fill: None };
    let kind = classify(family, probe);
    if kind != ErrorKind::BufferTooSmall {
        return (Err(failure(kind)), Ghost(asked));
    }
    let n1 = first_len;
    let n2 = second_len;
    let mut first: Vec<u8> = vec![0u8; n1];
    let mut second: Vec<u8> = vec![0u8; n2];
    let status = engine.run_pair(step, true, &mut first, &mut first_len, &mut second, &mut second_len);
    let ghost answers = PairAnswers {
        probe,
        needed: (n1 as nat, n2 as nat),
        fill: Some(
            (
                Fill { room: n1 as nat, status, written: first_len as nat, buffer: first@ },
                Fill { room: n2 as nat, status, written: second_len as nat, buffer: second@ },
            ),
        ),
    };
    let kind = classify(family, status);
    let len1 = match after_fill(expect, kind, first_len, first.len()) {
        Ok(len) => len,
        Err(e) => {
            return (Err(e), Ghost(answers));
        },
    };
    let len2 = match after_fill(expect, kind, second_len, second.len()) {
        Ok(len) => len,
        Err(e) => {
            return (Err(e), Ghost(answers));
        },
    };
    first.truncate(len1);
    second.truncate(len2);
    assert(first@ =~= answers.fill->Some_0.0.buffer.subrange(0, len1 as int));
    assert(second@ =~= answers.fill->Some_0.1.buffer.subrange(0, len2 as int));
    (Ok((first, second)), Ghost(answers))
}

/// The expectations of an operation whose output comes with `Success`.
pub open spec fn plain_expect(family: Family) -> Expect {
    Expect { family, filled: ErrorKind::Success, done_on_probe: false, done_on_fill: false }
}

/// `r` is what an exchange returns for some well-run answers of the engine.
pub open spec fn answered(expect: Expect, r: Result<Vec<u8>, Error>) -> bool {
    exists|a: Answers| #[trigger] well_run(expect, a) && delivered(r, outcome(expect, a))
}

/// `r` is what a two-output exchange returns for some well-run answers of the engine.
pub open spec fn pair_answered(family: Family, r: Result<(Vec<u8>, Vec<u8>), Error>) -> bool {
    exists|a: PairAnswers|
        #[trigger] pair_well_run(family, a) && pair_delivered(r, pair_outcome(family, a))
}

/// Runs `step` by the two-phase convention and returns its output alone.
pub fn exchange_output<S, E: OutputEngine<S>>(engine: &mut E, step: &S, expect: Expect) -> (r:
    Result<Vec<u8>, Error>)
    ensures
        answered(expect, r),
        r is Err ==> !is_signal(r->Err_0.kind),
{
    let (result, answers) = exchange(engine, step, expect);
    let r = match result {
        Ok(out) => Ok(out.output),
        Err(e) => Err(e),
    };
    assert(well_run(expect, answers@));
    r
}

/// Runs a two-output `step` by the two-phase convention.
pub fn exchange_outputs<S, E: PairEngine<S>>(engine: &mut E, step: &S, family: Family) -> (r: Result<
    (Vec<u8>, Vec<u8>),
    Error,
>)
    ensures
        pair_answered(family, r),
        r is Err ==> !is_signal(r->Err_0.kind),
{
    let (r, answers) = exchange_pair(engine, step, family);
    assert(pair_well_run(family, answers@));
    r
}

} // verus!
