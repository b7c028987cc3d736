use themis::error::{Error, ErrorKind};
use themis::negotiation::{OutputEngine, PairEngine};
use themis::secure_cell::{
    decrypt_seal, decrypt_token_protect, encrypt_seal, encrypt_token_protect, CellEngine,
    CellPairStep, CellStep, SecureCell,
};

const SUCCESS: i32 = 0;
const FAIL: i32 = 11;
const INVALID_PARAMETER: i32 = 12;
const BUFFER_TOO_SMALL: i32 = 14;

// A stand-in for the real engine, with the real modes' shapes and error behaviour but a toy
// cipher: a keystream drawn from the key and context, and a 32-bit authenticator. A sealed
// cell is a 16-byte header (tag, header length, message length, authenticator) followed by
// the body; a token is 16 bytes (tag, authenticator, message length, zero).
#[derive(Default)]
struct PlainCell;

fn seed(key: &[u8], context: &[u8]) -> u64 {
    let mut h: u64 = 0xcbf29ce484222325;
    for b in key.iter().chain([0xffu8].iter()).chain(context.iter()) {
        h = (h ^ *b as u64).wrapping_mul(0x100000001b3);
    }
    h
}

fn keystream(key: &[u8], context: &[u8], data: &[u8]) -> Vec<u8> {
    let mut state = seed(key, context);
    data.iter()
        .map(|b| {
            state = state.wrapping_mul(6364136223846793005).wrapping_add(1442695040888963407);
            b ^ (state >> 56) as u8
        })
        .collect()
}

fn authenticator(key: &[u8], context: &[u8], data: &[u8]) -> u32 {
    let mut h = seed(key, context) ^ 0x9e3779b97f4a7c15;
    for b in data {
        h = (h ^ *b as u64).wrapping_mul(0x100000001b3);
    }
    (h >> 32) as u32
}

fn word(data: &[u8], at: usize) -> u32 {
    u32::from_le_bytes([data[at], data[at + 1], data[at + 2], data[at + 3]])
}

impl PlainCell {
    fn plan(step: &CellStep) -> Result<Vec<u8>, i32> {
        match step {
            CellStep::SealEncrypt { master_key, user_context, message } => {
                if master_key.is_empty() || message.is_empty() {
                    return Err(INVALID_PARAMETER);
                }
                let mut out = b"SEAL".to_vec();
                out.extend_from_slice(&16u32.to_le_bytes());
                out.extend_from_slice(&(message.len() as u32).to_le_bytes());
                out.extend_from_slice(&authenticator(master_key, user_context, message).to_le_bytes());
                out.extend_from_slice(&keystream(master_key, user_context, message));
                Ok(out)
            }
            CellStep::SealDecrypt { master_key, user_context, message } => {
                if master_key.is_empty() || message.len() < 16 || &message[..4] != b"SEAL" {
                    return Err(INVALID_PARAMETER);
                }
                if word(message, 4) != 16 || word(message, 8) as usize != message.len() - 16 {
                    return Err(INVALID_PARAMETER);
                }
                let plain = keystream(master_key, user_context, &message[16..]);
                if authenticator(master_key, user_context, &plain) != word(message, 12) {
                    return Err(FAIL);
                }
                Ok(plain)
            }
            CellStep::TokenProtectDecrypt { master_key, user_context, message, token } => {
                if master_key.is_empty() || token.len() != 16 || &token[..4] != b"TOKN" {
                    return Err(INVALID_PARAMETER);
                }
                if word(token, 8) as usize != message.len() || word(token, 12) != 0 {
                    return Err(INVALID_PARAMETER);
                }
                let plain = keystream(master_key, user_context, message);
                if authenticator(master_key, user_context, &plain) != word(token, 4) {
                    return Err(FAIL);
                }
                Ok(plain)
            }
            CellStep::ContextImprintEncrypt { master_key, message, context }
            | CellStep::ContextImprintDecrypt { master_key, message, context } => {
                if master_key.is_empty() || message.is_empty() || context.is_empty() {
                    return Err(INVALID_PARAMETER);
                }
                Ok(keystream(master_key, context, message))
            }
        }
    }
}

impl<'a> OutputEngine<CellStep<'a>> for PlainCell {
    fn run(&mut self, step: &CellStep<'a>, fill: bool, output: &mut Vec<u8>, output_len: &mut usize) -> i32 {
        let out = match Self::plan(step) {
            Ok(out) => out,
            Err(status) => return status,
        };
        *output_len = out.len();
        if !fill || output.len() < out.len() {
            return BUFFER_TOO_SMALL;
        }
        output[..out.len()].copy_from_slice(&out);
        SUCCESS
    }
}

impl<'a> PairEngine<CellPairStep<'a>> for PlainCell {
    fn run_pair(
        &mut self,
        step: &CellPairStep<'a>,
        fill: bool,
        token_out: &mut Vec<u8>,
        token_len: &mut usize,
        encrypted: &mut Vec<u8>,
        encrypted_len: &mut usize,
    ) -> i32 {
        let CellPairStep::TokenProtectEncrypt { master_key, user_context, message } = step;
        if master_key.is_empty() || message.is_empty() {
            return INVALID_PARAMETER;
        }
        let mut token = b"TOKN".to_vec();
        token.extend_from_slice(&authenticator(master_key, user_context, message).to_le_bytes());
        token.extend_from_slice(&(message.len() as u32).to_le_bytes());
        token.extend_from_slice(&0u32.to_le_bytes());
        let ciphertext = keystream(master_key, user_context, message);
        *token_len = token.len();
        *encrypted_len = ciphertext.len();
        if !fill || token_out.len() < token.len() || encrypted.len() < ciphertext.len() {
            return BUFFER_TOO_SMALL;
        }
        token_out[..token.len()].copy_from_slice(&token);
        encrypted[..ciphertext.len()].copy_from_slice(&ciphertext);
        SUCCESS
    }
}

impl CellEngine for PlainCell {}

#[test]
fn mode_seal_happy_path() {
    let mut seal = SecureCell::with_key(PlainCell, "deep secret".as_bytes()).seal();

    let plaintext = b"example plaintext";
    let ciphertext = seal.encrypt(plaintext).unwrap();
    let recovered = seal.decrypt(&ciphertext).unwrap();

    assert_eq!(recovered, plaintext);
}

#[test]
fn mode_seal_invalid_key() {
    let mut seal1 = SecureCell::with_key(PlainCell, b"deep secret").seal();
    let mut seal2 = SecureCell::with_key(PlainCell, b"DEEP SECRET").seal();

    let plaintext = b"example plaintext";
    let ciphertext = seal1.encrypt(plaintext).unwrap();
    let error = seal2.decrypt(&ciphertext).unwrap_err();

    assert_eq!(error.kind(), ErrorKind::Fail);
}

#[test]
fn mode_seal_invalid_context() {
    let mut seal1 = SecureCell::with_key_and_context(PlainCell, b"deep secret", b"ctx1").seal();
    let mut seal2 = SecureCell::with_key_and_context(PlainCell, b"deep secret", b"ctx2").seal();

    let plaintext = b"example plaintext";
    let ciphertext = seal1.encrypt(plaintext).unwrap();
    let error = seal2.decrypt(&ciphertext).unwrap_err();

    assert_eq!(error.kind(), ErrorKind::Fail);
}

#[test]
fn mode_seal_corrupted_data() {
    let mut seal = SecureCell::with_key(PlainCell, b"deep secret").seal();

    let plaintext = b"example plaintext";
    let mut ciphertext = seal.encrypt(plaintext).unwrap();
    ciphertext[10] = 42;
    let error = seal.decrypt(&ciphertext).unwrap_err();

    assert_eq!(error.kind(), ErrorKind::InvalidParameter);
}

#[test]
fn mode_token_protect_happy_path() {
    let mut cell = SecureCell::with_key(PlainCell, b"deep secret").token_protect();

    let plaintext = b"example plaintext";
    let (ciphertext, token) = cell.encrypt(plaintext).unwrap();
    let recovered = cell.decrypt(&ciphertext, &token).unwrap();

    assert_eq!(recovered, plaintext);

    assert_eq!(plaintext.len(), ciphertext.len());
}

#[test]
fn mode_token_protect_invalid_key() {
    let mut cell1 = SecureCell::with_key(PlainCell, b"deep secret").token_protect();
    let mut cell2 = SecureCell::with_key(PlainCell, b"DEEP SECRET").token_protect();

    let plaintext = b"example plaintext";
    let (ciphertext, token) = cell1.encrypt(plaintext).unwrap();
    let error = cell2.decrypt(&ciphertext, &token).unwrap_err();

    assert_eq!(error.kind(), ErrorKind::Fail);
}

#[test]
fn mode_token_protect_invalid_context() {
    let mut cell1 = SecureCell::with_key_and_context(PlainCell, b"deep secret", b"123").token_protect();
    let mut cell2 = SecureCell::with_key_and_context(PlainCell, b"deep secret", b"456").token_protect();

    let plaintext = b"example plaintext";
    let (ciphertext, token) = cell1.encrypt(plaintext).unwrap();
    let error = cell2.decrypt(&ciphertext, &token).unwrap_err();

    assert_eq!(error.kind(), ErrorKind::Fail);
}

#[test]
fn mode_token_protect_corrupted_data() {
    let mut cell = SecureCell::with_key(PlainCell, b"deep secret").token_protect();

    let plaintext = b"example plaintext";
    let (mut ciphertext, token) = cell.encrypt(plaintext).unwrap();
    ciphertext[10] = 42;
    let error = cell.decrypt(&ciphertext, &token).unwrap_err();

    assert_eq!(error.kind(), ErrorKind::Fail);
}

#[test]
fn corrupted_token() {
    let mut cell = SecureCell::with_key(PlainCell, b"deep secret").token_protect();

    let plaintext = b"example plaintext";
    let (ciphertext, mut token) = cell.encrypt(plaintext).unwrap();
    token[10] = 42;
    let error = cell.decrypt(&ciphertext, &token).unwrap_err();

    assert_eq!(error.kind(), ErrorKind::InvalidParameter);
}

#[test]
fn mode_context_imprint_happy_path() {
    let mut cell = SecureCell::with_key_and_context(PlainCell, b"deep secret", b"123").context_imprint();

    let plaintext = b"example plaintext";
    let ciphertext = cell.encrypt(plaintext).unwrap();
    let recovered = cell.decrypt(&ciphertext).unwrap();

    assert_eq!(recovered, plaintext);

    assert_eq!(plaintext.len(), ciphertext.len());
}

#[test]
fn empty_context() {
    let mut cell = SecureCell::with_key(PlainCell, b"deep secret").context_imprint();

    let plaintext = b"example plaintext";
    let error = cell.encrypt(plaintext).unwrap_err();

    assert_eq!(error.kind(), ErrorKind::InvalidParameter);
}

#[test]
fn mode_context_imprint_invalid_key() {
    let mut cell1 = SecureCell::with_key_and_context(PlainCell, b"deep secret", b"123").context_imprint();
    let mut cell2 = SecureCell::with_key_and_context(PlainCell, b"DEEP SECRET", b"123").context_imprint();

    let plaintext = b"example plaintext";
    let ciphertext = cell1.encrypt(plaintext).unwrap();
    let recovered = cell2.decrypt(&ciphertext).unwrap();

    assert_ne!(recovered, plaintext);
}

#[test]
fn mode_context_imprint_invalid_context() {
    let mut cell1 = SecureCell::with_key_and_context(PlainCell, b"deep secret", b"123").context_imprint();
    let mut cell2 = SecureCell::with_key_and_context(PlainCell, b"deep secret", b"456").context_imprint();

    let plaintext = b"example plaintext";
    let ciphertext = cell1.encrypt(plaintext).unwrap();
    let recovered = cell2.decrypt(&ciphertext).unwrap();

    assert_ne!(recovered, plaintext);
}

#[test]
fn mode_context_imprint_corrupted_data() {
    let mut cell = SecureCell::with_key_and_context(PlainCell, b"deep secret", b"123").context_imprint();

    let plaintext = b"example plaintext";
    let mut ciphertext = cell.encrypt(plaintext).unwrap();
    ciphertext[10] = 42;
    let recovered = cell.decrypt(&ciphertext).unwrap();

    assert_ne!(recovered, plaintext);
}

// Records what it is handed, and answers the probe with a fixed length.
#[derive(Default)]
struct Recorder {
    seen: Vec<(Vec<u8>, Vec<u8>, Vec<u8>)>,
    rooms: Vec<usize>,
}

impl<'a> OutputEngine<CellStep<'a>> for Recorder {
    fn run(&mut self, step: &CellStep<'a>, fill: bool, output: &mut Vec<u8>, output_len: &mut usize) -> i32 {
        if !fill {
            *output_len = 3;
            return BUFFER_TOO_SMALL;
        }
        self.rooms.push(output.len());
        if let CellStep::SealEncrypt { master_key, user_context, message } = step {
            self.seen.push((master_key.to_vec(), user_context.to_vec(), message.to_vec()));
        }
        output[..3].copy_from_slice(b"out");
        *output_len = 3;
        SUCCESS
    }
}

impl<'a> PairEngine<CellPairStep<'a>> for Recorder {
    fn run_pair(&mut self, _: &CellPairStep<'a>, fill: bool, t: &mut Vec<u8>, tl: &mut usize, c: &mut Vec<u8>, cl: &mut usize) -> i32 {
        *tl = 2;
        *cl = 5;
        if !fill {
            return BUFFER_TOO_SMALL;
        }
        self.rooms.push(t.len());
        self.rooms.push(c.len());
        t.copy_from_slice(b"tk");
        c.copy_from_slice(b"ciphr");
        SUCCESS
    }
}

impl CellEngine for Recorder {}

#[test]
fn cell_hands_key_and_context_to_engine() {
    let mut seal = SecureCell::with_key_and_context(Recorder::default(), b"key", b"context").seal();
    assert_eq!(seal.encrypt(b"message").unwrap(), b"out");
    assert_eq!(seal.0.master_key(), b"key");
    assert_eq!(seal.0.user_context(), b"context");
    let mut cell = SecureCell::with_key(Recorder::default(), b"key").token_protect();
    let (ciphertext, token) = cell.encrypt(b"message").unwrap();
    assert_eq!(ciphertext, b"ciphr");
    assert_eq!(token, b"tk");
    assert_eq!(cell.0.user_context(), b"");
}

#[test]
fn engine_signals_never_surface() {
    struct Confused;
    impl<'a> OutputEngine<CellStep<'a>> for Confused {
        fn run(&mut self, _: &CellStep<'a>, fill: bool, _: &mut Vec<u8>, n: &mut usize) -> i32 {
            *n = 4;
            if fill { BUFFER_TOO_SMALL } else { SUCCESS }
        }
    }
    impl<'a> PairEngine<CellPairStep<'a>> for Confused {
        fn run_pair(&mut self, _: &CellPairStep<'a>, _: bool, _: &mut Vec<u8>, _: &mut usize, _: &mut Vec<u8>, _: &mut usize) -> i32 {
            SUCCESS
        }
    }
    impl CellEngine for Confused {}
    let mut seal = SecureCell::with_key(Confused, b"key").seal();
    assert_eq!(seal.encrypt(b"data").unwrap_err().kind(), ErrorKind::Fail);
    let mut cell = SecureCell::with_key(Confused, b"key").token_protect();
    assert_eq!(cell.encrypt(b"data").unwrap_err().kind(), ErrorKind::Fail);
}

#[test]
fn status_code_functions() {
    let plaintext = b"example plaintext";
    let password = b"deep secret";
    let engine = &mut PlainCell;

    let ciphertext = encrypt_seal(engine, password, &[], plaintext).unwrap();
    assert_eq!(decrypt_seal(engine, password, &[], &ciphertext).unwrap(), plaintext);
    assert_eq!(decrypt_seal(engine, b"DEEP SECRET", &[], &ciphertext).unwrap_err(), 11);
    let ciphertext = encrypt_seal(engine, password, b"ctx1", plaintext).unwrap();
    assert_eq!(decrypt_seal(engine, password, b"ctx2", &ciphertext).unwrap_err(), 11);
    let mut corrupted = ciphertext.clone();
    corrupted[10] = 42;
    assert_eq!(decrypt_seal(engine, password, b"ctx1", &corrupted).unwrap_err(), 12);

    let (ciphertext, token) = encrypt_token_protect(engine, password, &[], plaintext).unwrap();
    assert_eq!(plaintext.len(), ciphertext.len());
    assert_eq!(decrypt_token_protect(engine, password, &[], &ciphertext, &token).unwrap(), plaintext);
    assert_eq!(decrypt_token_protect(engine, password, b"456", &ciphertext, &token).unwrap_err(), 11);
    let mut corrupted = token.clone();
    corrupted[10] = 42;
    assert_eq!(decrypt_token_protect(engine, password, &[], &ciphertext, &corrupted).unwrap_err(), 12);
    assert_eq!(encrypt_token_protect(engine, &[], &[], plaintext).unwrap_err(), 12);
}

#[test]
fn error_descriptions() {
    assert_eq!(Error::with_kind(ErrorKind::Fail).description(), "failure");
    assert_eq!(Error::with_kind(ErrorKind::CompareNotReady).description(), "comparator not ready");
    assert_eq!(Error::with_kind(ErrorKind::InvalidParameter).status(), Some(12));
    assert_eq!(Error::with_kind(ErrorKind::UnknownError(77)).status(), Some(77));
    assert_eq!(Error::with_kind(ErrorKind::CompareMatch).status(), None);
}
