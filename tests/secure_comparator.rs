use themis::error::ErrorKind;
use themis::negotiation::OutputEngine;
use themis::secure_comparator::{CompareEngine, CompareState, CompareStep, SecureComparator};

// A stand-in for the real engine: it compares secrets in the clear, with the real protocol's
// shape (four round messages; the responder learns the outcome on the third, the initiator
// on the fourth, which it answers with `Success` and nothing to send).
#[derive(Default)]
struct PlainEngine {
    secret: Vec<u8>,
    round: u8,
    peer_secret: Vec<u8>,
    outcome: Option<bool>,
}

const SEND: i32 = 1;
const SUCCESS: i32 = 0;
const INVALID_PARAMETER: i32 = 12;
const BUFFER_TOO_SMALL: i32 = 14;

impl PlainEngine {
    // What the next step answers: status, output, next round, learned peer secret, outcome.
    fn plan(&self, step: &CompareStep) -> (i32, Vec<u8>, u8, Option<Vec<u8>>, Option<bool>) {
        match step {
            CompareStep::Begin => {
                if self.round != 0 {
                    return (INVALID_PARAMETER, vec![], self.round, None, None);
                }
                let mut out = vec![1u8];
                out.extend_from_slice(&self.secret);
                (SEND, out, 1, None, None)
            }
            CompareStep::Proceed(data) => {
                let (tag, body) = match data.split_first() {
                    Some((t, b)) => (*t, b.to_vec()),
                    None => return (INVALID_PARAMETER, vec![], self.round, None, None),
                };
                match (self.round, tag) {
                    (0, 1) => {
                        let mut out = vec![2u8];
                        out.extend_from_slice(&self.secret);
                        (SEND, out, 2, Some(body), None)
                    }
                    (1, 2) => (SEND, vec![3u8], 3, None, Some(body == self.secret)),
                    (2, 3) if body.is_empty() => {
                        (SEND, vec![4u8], 4, None, Some(self.peer_secret == self.secret))
                    }
                    (3, 4) if body.is_empty() => (SUCCESS, vec![], 5, None, self.outcome),
                    _ => (INVALID_PARAMETER, vec![], self.round, None, None),
                }
            }
        }
    }
}

impl<'a> OutputEngine<CompareStep<'a>> for PlainEngine {
    fn run(
        &mut self,
        step: &CompareStep<'a>,
        fill: bool,
        output: &mut Vec<u8>,
        output_len: &mut usize,
    ) -> i32 {
        let (status, out, round, peer, outcome) = self.plan(step);
        if status != SEND && status != SUCCESS {
            return status;
        }
        if !fill || output.len() < out.len() {
            *output_len = out.len();
            return BUFFER_TOO_SMALL;
        }
        output[..out.len()].copy_from_slice(&out);
        *output_len = out.len();
        self.round = round;
        if let Some(p) = peer {
            self.peer_secret = p;
        }
        self.outcome = outcome.or(self.outcome);
        status
    }
}

impl CompareEngine for PlainEngine {
    fn append_secret(&mut self, secret: &[u8]) -> i32 {
        if self.round != 0 {
            return INVALID_PARAMETER;
        }
        self.secret.extend_from_slice(secret);
        SUCCESS
    }

    fn result(&self) -> i32 {
        match self.outcome {
            Some(true) => 21,
            Some(false) => 22,
            None => 0,
        }
    }
}

fn comparator() -> SecureComparator<PlainEngine> {
    SecureComparator::new(PlainEngine::default())
}

fn run_rounds(
    comparator1: &mut SecureComparator<PlainEngine>,
    comparator2: &mut SecureComparator<PlainEngine>,
) {
    let data = comparator1.begin_compare().unwrap();
    let data = comparator2.proceed_compare(&data).unwrap();
    let data = comparator1.proceed_compare(&data).unwrap();
    let data = comparator2.proceed_compare(&data).unwrap();
    let data = comparator1.proceed_compare(&data).unwrap();
    assert!(data.is_empty());
}

#[test]
fn compare_matching_data() {
    let mut comparator1 = comparator();
    let mut comparator2 = comparator();

    comparator1.append_secret(b"se-e-ecrets").unwrap();
    comparator2.append_secret(b"se-e-ecrets").unwrap();

    run_rounds(&mut comparator1, &mut comparator2);

    assert!(comparator1.get_result().unwrap());
    assert!(comparator2.get_result().unwrap());
}

#[test]
fn compare_different_data() {
    let mut comparator1 = comparator();
    let mut comparator2 = comparator();

    comparator1.append_secret(b"far from the worn path of reason").unwrap();
    comparator2.append_secret(b"further away from the sane").unwrap();

    run_rounds(&mut comparator1, &mut comparator2);

    assert!(!comparator1.get_result().unwrap());
    assert!(!comparator2.get_result().unwrap());
}

#[test]
fn compare_different_data_other_initiator() {
    let mut comparator1 = comparator();
    let mut comparator2 = comparator();

    comparator1.append_secret(b"far from the worn path of reason").unwrap();
    comparator2.append_secret(b"further away from the sane").unwrap();

    run_rounds(&mut comparator2, &mut comparator1);

    assert!(!comparator1.get_result().unwrap());
    assert!(!comparator2.get_result().unwrap());
}

#[test]
fn split_secrets() {
    let mut comparator1 = comparator();
    let mut comparator2 = comparator();

    comparator1.append_secret(b"123").unwrap();
    comparator1.append_secret(b"456").unwrap();
    comparator2.append_secret(b"123456").unwrap();

    run_rounds(&mut comparator1, &mut comparator2);

    assert!(comparator1.get_result().unwrap());
    assert!(comparator2.get_result().unwrap());
}

#[test]
fn simultaneous_start() {
    let mut comparator1 = comparator();
    let mut comparator2 = comparator();

    comparator1.append_secret(b"se-e-ecrets").unwrap();
    comparator2.append_secret(b"se-e-ecrets").unwrap();

    let data1 = comparator1.begin_compare().unwrap();
    let data2 = comparator2.begin_compare().unwrap();

    let error1 = comparator1.proceed_compare(&data2).unwrap_err();
    let error2 = comparator2.proceed_compare(&data1).unwrap_err();

    assert_eq!(error1.kind(), ErrorKind::InvalidParameter);
    assert_eq!(error2.kind(), ErrorKind::InvalidParameter);
}

#[test]
fn result_not_ready_before_completion() {
    let mut comparator1 = comparator();
    let mut comparator2 = comparator();
    comparator1.append_secret(b"same").unwrap();
    comparator2.append_secret(b"same").unwrap();

    assert_eq!(comparator1.get_result().unwrap_err().kind(), ErrorKind::CompareNotReady);
    let data = comparator1.begin_compare().unwrap();
    assert_eq!(comparator1.get_result().unwrap_err().kind(), ErrorKind::CompareNotReady);
    comparator2.proceed_compare(&data).unwrap();
    assert_eq!(comparator2.get_result().unwrap_err().kind(), ErrorKind::CompareNotReady);
}

#[test]
fn result_is_stable_and_append_fails_after_start() {
    let mut comparator1 = comparator();
    let mut comparator2 = comparator();
    comparator1.append_secret(b"test").unwrap();
    comparator2.append_secret(b"data").unwrap();

    let data = comparator1.begin_compare().unwrap();
    let error = comparator1.append_secret(b"more").unwrap_err();
    assert_eq!(error.kind(), ErrorKind::InvalidParameter);

    let data = comparator2.proceed_compare(&data).unwrap();
    assert!(comparator2.append_secret(b"more").is_err());
    let data = comparator1.proceed_compare(&data).unwrap();
    let data = comparator2.proceed_compare(&data).unwrap();
    comparator1.proceed_compare(&data).unwrap();

    for _ in 0..3 {
        assert!(!comparator1.get_result().unwrap());
        assert!(!comparator2.get_result().unwrap());
    }
    assert!(comparator1.append_secret(b"same").is_err());
    assert!(comparator1.begin_compare().is_err());
    assert!(!comparator1.get_result().unwrap());
    assert_eq!(comparator1.state(), CompareState::Completed(false));
}

#[test]
fn corrupted_round_message() {
    let mut comparator1 = comparator();
    let mut comparator2 = comparator();
    comparator1.append_secret(b"se-e-ecrets").unwrap();
    comparator2.append_secret(b"se-e-ecrets").unwrap();

    let data = comparator1.begin_compare().unwrap();
    let mut data = comparator2.proceed_compare(&data).unwrap();
    data[0] = 42;
    let error = comparator1.proceed_compare(&data).unwrap_err();

    assert_eq!(error.kind(), ErrorKind::InvalidParameter);
    assert_eq!(comparator1.state(), CompareState::Failed);
    assert!(comparator1.proceed_compare(&data).is_err());
}

#[test]
fn reusing_comparators() {
    let mut comparator1 = comparator();
    let mut comparator2 = comparator();

    comparator1.append_secret(b"test").unwrap();
    comparator2.append_secret(b"data").unwrap();

    run_rounds(&mut comparator1, &mut comparator2);

    assert!(!comparator1.get_result().unwrap());
    assert!(!comparator2.get_result().unwrap());

    // Comparators are single-use: nothing more can be appended, nor a new comparison begun,
    // and the result stays what it was.
    assert!(comparator1.append_secret(b"same").is_err());
    assert!(comparator2.append_secret(b"same").is_err());
    assert!(comparator1.begin_compare().is_err());

    assert!(!comparator1.get_result().unwrap());
    assert!(!comparator2.get_result().unwrap());
}
