use themis::error::{Error, ErrorKind};
use themis::keys::{EcdsaKeyPair, EcdsaPublicKey, EcdsaSecretKey, KeyKind, KeyPair, PublicKey, RsaSecretKey, SecretKey};
use themis::negotiation::{after_fill, after_probe, Expect, Family, Probe};
use themis::utils::KeyBytes;

#[test]
fn generic_status_codes() {
    assert_eq!(Error::from_themis_status(0).kind(), ErrorKind::Success);
    assert_eq!(Error::from_themis_status(11).kind(), ErrorKind::Fail);
    assert_eq!(Error::from_themis_status(12).kind(), ErrorKind::InvalidParameter);
    assert_eq!(Error::from_themis_status(13).kind(), ErrorKind::NoMemory);
    assert_eq!(Error::from_themis_status(14).kind(), ErrorKind::BufferTooSmall);
    assert_eq!(Error::from_themis_status(15).kind(), ErrorKind::DataCorrupt);
    assert_eq!(Error::from_themis_status(16).kind(), ErrorKind::InvalidSignature);
    assert_eq!(Error::from_themis_status(17).kind(), ErrorKind::NotSupported);
    assert_eq!(Error::from_themis_status(99).kind(), ErrorKind::UnknownError(99));
}

#[test]
fn session_and_compare_status_codes() {
    assert_eq!(Error::from_session_status(1).kind(), ErrorKind::SessionSendOutputToPeer);
    assert_eq!(Error::from_session_status(19).kind(), ErrorKind::SessionKeyAgreementNotFinished);
    assert_eq!(Error::from_session_status(20).kind(), ErrorKind::SessionTransportError);
    assert_eq!(Error::from_session_status(21).kind(), ErrorKind::SessionGetPublicKeyForIdError);
    assert_eq!(Error::from_session_status(12).kind(), ErrorKind::InvalidParameter);
    assert_eq!(Error::from_compare_status(1).kind(), ErrorKind::CompareSendOutputToPeer);
    assert_eq!(Error::from_compare_status(0).kind(), ErrorKind::Success);
    assert_eq!(Error::from_match_status(0).kind(), ErrorKind::CompareNotReady);
    assert_eq!(Error::from_match_status(21).kind(), ErrorKind::CompareMatch);
    assert_eq!(Error::from_match_status(22).kind(), ErrorKind::CompareNoMatch);
    assert_eq!(Error::from_match_status(15).kind(), ErrorKind::DataCorrupt);
}

#[test]
fn two_phase_decisions() {
    let expect = Expect { family: Family::Session, filled: ErrorKind::SessionSendOutputToPeer, done_on_probe: true, done_on_fill: false };
    assert_eq!(after_probe(expect, ErrorKind::BufferTooSmall, 7), Probe::Allocate(7));
    assert_eq!(after_probe(expect, ErrorKind::Success, 0), Probe::Finished);
    assert_eq!(after_probe(expect, ErrorKind::DataCorrupt, 0), Probe::Failed(Error::with_kind(ErrorKind::DataCorrupt)));
    assert_eq!(after_probe(expect, ErrorKind::SessionSendOutputToPeer, 0), Probe::Failed(Error::with_kind(ErrorKind::Fail)));
    assert_eq!(after_fill(expect, ErrorKind::SessionSendOutputToPeer, 5, 7), Ok(5));
    assert_eq!(after_fill(expect, ErrorKind::SessionSendOutputToPeer, 9, 7), Err(Error::with_kind(ErrorKind::Fail)));
    assert_eq!(after_fill(expect, ErrorKind::BufferTooSmall, 5, 7), Err(Error::with_kind(ErrorKind::Fail)));
    assert_eq!(after_fill(expect, ErrorKind::Success, 5, 7), Err(Error::with_kind(ErrorKind::Fail)));
}

#[test]
fn key_bytes() {
    assert_eq!(KeyBytes::copy_slice(b"abc").as_bytes(), b"abc");
    assert!(KeyBytes::empty().as_bytes().is_empty());
}

#[test]
fn key_kinds_and_pairs() {
    let secret = SecretKey::try_from_slice(b"REC2\x01").unwrap();
    let public = PublicKey::try_from_slice(b"UEC2\x01").unwrap();
    assert_eq!(secret.kind(), KeyKind::EcdsaSecret);
    assert_eq!(public.kind(), KeyKind::EcdsaPublic);
    let pair = KeyPair::try_join(secret, public).unwrap();
    let (secret, public) = pair.split();
    assert_eq!(secret.as_bytes(), b"REC2\x01");
    assert_eq!(public.as_bytes(), b"UEC2\x01");

    let rsa_public = PublicKey::try_from_slice(b"URA1\x02").unwrap();
    assert_eq!(rsa_public.kind(), KeyKind::RsaPublic);
    let error = KeyPair::try_join(secret, rsa_public).unwrap_err();
    assert_eq!(error.kind(), ErrorKind::InvalidParameter);

    assert!(SecretKey::try_from_slice(b"UEC2\x01").is_err());
    assert!(PublicKey::try_from_slice(b"xx").is_err());
    assert!(RsaSecretKey::try_from_slice(b"REC2\x01").is_err());
    assert_eq!(RsaSecretKey::try_from_slice(b"RRA1").unwrap().into_key().kind(), KeyKind::RsaSecret);

    let ec_pair = EcdsaKeyPair::join(
        EcdsaSecretKey::try_from_slice(b"REC2\x03").unwrap(),
        EcdsaPublicKey::try_from_slice(b"UEC2\x03").unwrap(),
    );
    let (ec_secret, ec_public) = ec_pair.split();
    assert_eq!(ec_secret.as_bytes(), b"REC2\x03");
    assert_eq!(ec_public.as_bytes(), b"UEC2\x03");
}
