//! Cryptographic keys: RSA and ECDSA key pairs, and keys of either kind.
//!
//! A key blob starts with a three-byte tag that tells its kind: `RRA` and `URA` for RSA
//! secret and public keys, `REC` and `UEC` for ECDSA secret and public keys.
use vstd::prelude::*;

use crate::error::{Error, ErrorKind};
use crate::utils::KeyBytes;

verus! {

/// Kind of an asymmetric key.
#[derive(Clone, Copy, Debug, Eq, PartialEq, Structural)]
pub enum KeyKind {
    /// RSA secret key.
    RsaSecret,
    /// RSA public key.
    RsaPublic,
    /// ECDSA secret key.
    EcdsaSecret,
    /// ECDSA public key.
    EcdsaPublic,
}

/// The kind that the tag at the start of a key blob names, if any. The bytes are ASCII:
/// `R` 0x52, `U` 0x55, `A` 0x41, `E` 0x45, `C` 0x43.
pub open spec fn key_kind(s: Seq<u8>) -> Option<KeyKind> {
    if s.len() < 3 {
        None
    } else if s[1] == 0x52u8 && s[2] == 0x41u8 && s[0] == 0x52u8 {
        Some(KeyKind::RsaSecret)
    } else if s[1] == 0x52u8 && s[2] == 0x41u8 && s[0] == 0x55u8 {
        Some(KeyKind::RsaPublic)
    } else if s[1] == 0x45u8 && s[2] == 0x43u8 && s[0] == 0x52u8 {
        Some(KeyKind::EcdsaSecret)
    } else if s[1] == 0x45u8 && s[2] == 0x43u8 && s[0] == 0x55u8 {
        Some(KeyKind::EcdsaPublic)
    } else {
        None
    }
}

/// A secret key of either algorithm.
pub open spec fn is_secret_kind(k: Option<KeyKind>) -> bool {
    k == Some(KeyKind::RsaSecret) || k == Some(KeyKind::EcdsaSecret)
}

/// A public key of either algorithm.
pub open spec fn is_public_kind(k: Option<KeyKind>) -> bool {
    k == Some(KeyKind::RsaPublic) || k == Some(KeyKind::EcdsaPublic)
}

/// A secret and a public key of the same algorithm.
pub open spec fn kinds_pair_up(secret: Option<KeyKind>, public: Option<KeyKind>) -> bool {
    (secret == Some(KeyKind::RsaSecret) && public == Some(KeyKind::RsaPublic)) || (secret
        == Some(KeyKind::EcdsaSecret) && public == Some(KeyKind::EcdsaPublic))
}

/// Reads the kind tag of a key blob.
pub fn kind_of_bytes(bytes: &[u8]) -> (r: Option<KeyKind>)
    ensures
        r == key_kind(bytes@),
{
    if bytes.len() < 3 {
        return None;
    }
    let (a, b, c) = (bytes[0], bytes[1], bytes[2]);
    if b == 0x52u8 && c == 0x41u8 && a == 0x52u8 {
        Some(KeyKind::RsaSecret)
    } else if b == 0x52u8 && c == 0x41u8 && a == 0x55u8 {
        Some(KeyKind::RsaPublic)
    } else if b == 0x45u8 && c == 0x43u8 && a == 0x52u8 {
        Some(KeyKind::EcdsaSecret)
    } else if b == 0x45u8 && c == 0x43u8 && a == 0x55u8 {
        Some(KeyKind::EcdsaPublic)
    } else {
        None
    }
}

/// RSA secret key.
#[derive(Debug)]
pub struct RsaSecretKey {
    inner: KeyBytes,
}

/// RSA public key.
#[derive(Debug)]
pub struct RsaPublicKey {
    inner: KeyBytes,
}

/// RSA key pair.
#[derive(Debug)]
pub struct RsaKeyPair {
    secret_key: KeyBytes,
    public_key: KeyBytes,
}

/// ECDSA secret key.
#[derive(Debug)]
pub struct EcdsaSecretKey {
    inner: KeyBytes,
}

/// ECDSA public key.
#[derive(Debug)]
pub struct EcdsaPublicKey {
    inner: KeyBytes,
}

/// ECDSA key pair.
#[derive(Debug)]
pub struct EcdsaKeyPair {
    secret_key: KeyBytes,
    public_key: KeyBytes,
}

/// A secret key of either algorithm.
#[derive(Debug)]
pub struct SecretKey {
    inner: KeyBytes,
}

/// A public key of either algorithm.
#[derive(Debug)]
pub struct PublicKey {
    inner: KeyBytes,
}

/// A pair of asymmetric keys of the same algorithm.
#[derive(Debug)]
pub struct KeyPair {
    secret_key: KeyBytes,
    public_key: KeyBytes,
}

impl View for RsaSecretKey {
    type V = Seq<u8>;

    closed spec fn view(&self) -> Seq<u8> {
        self.inner@
    }
}

impl View for RsaPublicKey {
    type V = Seq<u8>;

    closed spec fn view(&self) -> Seq<u8> {
        self.inner@
    }
}

impl View for EcdsaSecretKey {
    type V = Seq<u8>;

    closed spec fn view(&self) -> Seq<u8> {
        self.inner@
    }
}

impl View for EcdsaPublicKey {
    type V = Seq<u8>;

    closed spec fn view(&self) -> Seq<u8> {
        self.inner@
    }
}

impl View for SecretKey {
    type V = Seq<u8>;

    closed spec fn view(&self) -> Seq<u8> {
        self.inner@
    }
}

impl View for PublicKey {
    type V = Seq<u8>;

    closed spec fn view(&self) -> Seq<u8> {
        self.inner@
    }
}

impl View for RsaKeyPair {
    type V = (Seq<u8>, Seq<u8>);

    closed spec fn view(&self) -> (Seq<u8>, Seq<u8>) {
        (self.secret_key@, self.public_key@)
    }
}

impl View for EcdsaKeyPair {
    type V = (Seq<u8>, Seq<u8>);

    closed spec fn view(&self) -> (Seq<u8>, Seq<u8>) {
        (self.secret_key@, self.public_key@)
    }
}

impl View for KeyPair {
    type V = (Seq<u8>, Seq<u8>);

    closed spec fn view(&self) -> (Seq<u8>, Seq<u8>) {
        (self.secret_key@, self.public_key@)
    }
}

impl RsaSecretKey {
    #[verifier::type_invariant]
    closed spec fn tagged(self) -> bool {
        key_kind(self.inner@) == Some(KeyKind::RsaSecret)
    }

    /// Takes an RSA secret key blob; fails with `InvalidParameter` if the blob is not one.
    pub fn try_from_slice(bytes: &[u8]) -> (r: Result<RsaSecretKey, Error>)
        ensures
            r is Ok <==> key_kind(bytes@) == Some(KeyKind::RsaSecret),
            r is Ok ==> r->Ok_0@ == bytes@,
            r is Err ==> r->Err_0.kind == ErrorKind::InvalidParameter,
    {
        match kind_of_bytes(bytes) {
            Some(KeyKind::RsaSecret) => Ok(RsaSecretKey { inner: KeyBytes::copy_slice(bytes) }),
            _ => Err(Error::with_kind(ErrorKind::InvalidParameter)),
        }
    }

    /// Turns this key into a key of either algorithm.
    pub fn into_key(self) -> (r: SecretKey)
        ensures
            r@ == self@,
    {
        proof {
            use_type_invariant(&self);
        }
        SecretKey { inner: self.inner }
    }

    /// Returns the key blob.
    pub fn as_bytes(&self) -> (r: &[u8])
        ensures
            r@ == self@,
    {
        self.inner.as_bytes()
    }
}

impl RsaPublicKey {
    #[verifier::type_invariant]
    closed spec fn tagged(self) -> bool {
        key_kind(self.inner@) == Some(KeyKind::RsaPublic)
    }

    /// Takes an RSA public key blob; fails with `InvalidParameter` if the blob is not one.
    pub fn try_from_slice(bytes: &[u8]) -> (r: Result<RsaPublicKey, Error>)
        ensures
            r is Ok <==> key_kind(bytes@) == Some(KeyKind::RsaPublic),
            r is Ok ==> r->Ok_0@ == bytes@,
            r is Err ==> r->Err_0.kind == ErrorKind::InvalidParameter,
    {
        match kind_of_bytes(bytes) {
            Some(KeyKind::RsaPublic) => Ok(RsaPublicKey { inner: KeyBytes::copy_slice(bytes) }),
            _ => Err(Error::with_kind(ErrorKind::InvalidParameter)),
        }
    }

    /// Turns this key into a key of either algorithm.
    pub fn into_key(self) -> (r: PublicKey)
        ensures
            r@ == self@,
    {
        proof {
            use_type_invariant(&self);
        }
        PublicKey { inner: self.inner }
    }

    /// Returns the key blob.
    pub fn as_bytes(&self) -> (r: &[u8])
        ensures
            r@ == self@,
    {
        self.inner.as_bytes()
    }
}

impl EcdsaSecretKey {
    #[verifier::type_invariant]
    closed spec fn tagged(self) -> bool {
        key_kind(self.inner@) == Some(KeyKind::EcdsaSecret)
    }

    /// Takes an ECDSA secret key blob; fails with `InvalidParameter` if the blob is not one.
    pub fn try_from_slice(bytes: &[u8]) -> (r: Result<EcdsaSecretKey, Error>)
        ensures
            r is Ok <==> key_kind(bytes@) == Some(KeyKind::EcdsaSecret),
            r is Ok ==> r->Ok_0@ == bytes@,
            r is Err ==> r->Err_0.kind == ErrorKind::InvalidParameter,
    {
        match kind_of_bytes(bytes) {
            Some(KeyKind::EcdsaSecret) => Ok(EcdsaSecretKey { inner: KeyBytes::copy_slice(bytes) }),
            _ => Err(Error::with_kind(ErrorKind::InvalidParameter)),
        }
    }

    /// Turns this key into a key of either algorithm.
    pub fn into_key(self) -> (r: SecretKey)
        ensures
            r@ == self@,
    {
        proof {
            use_type_invariant(&self);
        }
        SecretKey { inner: self.inner }
    }

    /// Returns the key blob.
    pub fn as_bytes(&self) -> (r: &[u8])
        ensures
            r@ == self@,
    {
        self.inner.as_bytes()
    }
}

impl EcdsaPublicKey {
    #[verifier::type_invariant]
    closed spec fn tagged(self) -> bool {
        key_kind(self.inner@) == Some(KeyKind::EcdsaPublic)
    }

    /// Takes an ECDSA public key blob; fails with `InvalidParameter` if the blob is not one.
    pub fn try_from_slice(bytes: &[u8]) -> (r: Result<EcdsaPublicKey, Error>)
        ensures
            r is Ok <==> key_kind(bytes@) == Some(KeyKind::EcdsaPublic),
            r is Ok ==> r->Ok_0@ == bytes@,
            r is Err ==> r->Err_0.kind == ErrorKind::InvalidParameter,
    {
        match kind_of_bytes(bytes) {
            Some(KeyKind::EcdsaPublic) => Ok(EcdsaPublicKey { inner: KeyBytes::copy_slice(bytes) }),
            _ => Err(Error::with_kind(ErrorKind::InvalidParameter)),
        }
    }

    /// Turns this key into a key of either algorithm.
    pub fn into_key(self) -> (r: PublicKey)
        ensures
            r@ == self@,
    {
        proof {
            use_type_invariant(&self);
        }
        PublicKey { inner: self.inner }
    }

    /// Returns the key blob.
    pub fn as_bytes(&self) -> (r: &[u8])
        ensures
            r@ == self@,
    {
        self.inner.as_bytes()
    }
}

impl SecretKey {
    #[verifier::type_invariant]
    closed spec fn tagged(self) -> bool {
        is_secret_kind(key_kind(self.inner@))
    }

    /// Takes a secret key blob of either algorithm; fails with `InvalidParameter` if the blob is
    /// not one.
    pub fn try_from_slice(bytes: &[u8]) -> (r: Result<SecretKey, Error>)
        ensures
            r is Ok <==> is_secret_kind(key_kind(bytes@)),
            r is Ok ==> r->Ok_0@ == bytes@,
            r is Err ==> r->Err_0.kind == ErrorKind::InvalidParameter,
    {
        match kind_of_bytes(bytes) {
            Some(kind) => {
                if kind == KeyKind::RsaSecret || kind == KeyKind::EcdsaSecret {
                    Ok(SecretKey { inner: KeyBytes::copy_slice(bytes) })
                } else {
                    Err(Error::with_kind(ErrorKind::InvalidParameter))
                }
            },
            None => Err(Error::with_kind(ErrorKind::InvalidParameter)),
        }
    }

    /// Retrieves actual type of the stored key.
    pub fn kind(&self) -> (r: KeyKind)
        ensures
            key_kind(self@) == Some(r),
            is_secret_kind(Some(r)),
    {
        proof {
            use_type_invariant(self);
        }
        match kind_of_bytes(self.inner.as_bytes()) {
            Some(kind) => kind,
            None => {
                proof {
                    assert(false);
                }
                KeyKind::RsaSecret
            },
        }
    }

    /// Returns the key blob.
    pub fn as_bytes(&self) -> (r: &[u8])
        ensures
            r@ == self@,
    {
        self.inner.as_bytes()
    }
}

impl PublicKey {
    #[verifier::type_invariant]
    closed spec fn tagged(self) -> bool {
        is_public_kind(key_kind(self.inner@))
    }

    /// Takes a public key blob of either algorithm; fails with `InvalidParameter` if the blob is
    /// not one.
    pub fn try_from_slice(bytes: &[u8]) -> (r: Result<PublicKey, Error>)
        ensures
            r is Ok <==> is_public_kind(key_kind(bytes@)),
            r is Ok ==> r->Ok_0@ == bytes@,
            r is Err ==> r->Err_0.kind == ErrorKind::InvalidParameter,
    {
        match kind_of_bytes(bytes) {
            Some(kind) => {
                if kind == KeyKind::RsaPublic || kind == KeyKind::EcdsaPublic {
                    Ok(PublicKey { inner: KeyBytes::copy_slice(bytes) })
                } else {
                    Err(Error::with_kind(ErrorKind::InvalidParameter))
                }
            },
            None => Err(Error::with_kind(ErrorKind::InvalidParameter)),
        }
    }

    /// Retrieves actual type of the stored key.
    pub fn kind(&self) -> (r: KeyKind)
        ensures
            key_kind(self@) == Some(r),
            is_public_kind(Some(r)),
    {
        proof {
            use_type_invariant(self);
        }
        match kind_of_bytes(self.inner.as_bytes()) {
            Some(kind) => kind,
            None => {
                proof {
                    assert(false);
                }
                KeyKind::RsaPublic
            },
        }
    }

    /// Returns the key blob.
    pub fn as_bytes(&self) -> (r: &[u8])
        ensures
            r@ == self@,
    {
        self.inner.as_bytes()
    }
}

impl RsaKeyPair {
    #[verifier::type_invariant]
    closed spec fn tagged(self) -> bool {
        key_kind(self.secret_key@) == Some(KeyKind::RsaSecret) && key_kind(self.public_key@) == Some(
            KeyKind::RsaPublic,
        )
    }

    /// Splits this key pair into secret and public keys.
    pub fn split(self) -> (r: (RsaSecretKey, RsaPublicKey))
        ensures
            r.0@ == self@.0,
            r.1@ == self@.1,
    {
        proof {
            use_type_invariant(&self);
        }
        (RsaSecretKey { inner: self.secret_key }, RsaPublicKey { inner: self.public_key })
    }

    /// Joins a pair of secret and public keys.
    ///
    /// This does not check that the keys belong together, only that both are RSA keys,
    /// which their types already tell.
    pub fn join(secret_key: RsaSecretKey, public_key: RsaPublicKey) -> (r: RsaKeyPair)
        ensures
            r@ == (secret_key@, public_key@),
    {
        proof {
            use_type_invariant(&secret_key);
            use_type_invariant(&public_key);
        }
        RsaKeyPair { secret_key: secret_key.inner, public_key: public_key.inner }
    }

    /// Turns this pair into a pair of either algorithm.
    pub fn into_pair(self) -> (r: KeyPair)
        ensures
            r@ == self@,
    {
        proof {
            use_type_invariant(&self);
        }
        KeyPair { secret_key: self.secret_key, public_key: self.public_key }
    }
}

impl EcdsaKeyPair {
    #[verifier::type_invariant]
    closed spec fn tagged(self) -> bool {
        key_kind(self.secret_key@) == Some(KeyKind::EcdsaSecret) && key_kind(self.public_key@) == Some(
            KeyKind::EcdsaPublic,
        )
    }

    /// Splits this key pair into secret and public keys.
    pub fn split(self) -> (r: (EcdsaSecretKey, EcdsaPublicKey))
        ensures
            r.0@ == self@.0,
            r.1@ == self@.1,
    {
        proof {
            use_type_invariant(&self);
        }
        (EcdsaSecretKey { inner: self.secret_key }, EcdsaPublicKey { inner: self.public_key })
    }

    /// Joins a pair of secret and public keys.
    ///
    /// This does not check that the keys belong together, only that both are ECDSA keys,
    /// which their types already tell.
    pub fn join(secret_key: EcdsaSecretKey, public_key: EcdsaPublicKey) -> (r: EcdsaKeyPair)
        ensures
            r@ == (secret_key@, public_key@),
    {
        proof {
            use_type_invariant(&secret_key);
            use_type_invariant(&public_key);
        }
        EcdsaKeyPair { secret_key: secret_key.inner, public_key: public_key.inner }
    }

    /// Turns this pair into a pair of either algorithm.
    pub fn into_pair(self) -> (r: KeyPair)
        ensures
            r@ == self@,
    {
        proof {
            use_type_invariant(&self);
        }
        KeyPair { secret_key: self.secret_key, public_key: self.public_key }
    }
}

impl KeyPair {
    #[verifier::type_invariant]
    closed spec fn tagged(self) -> bool {
        kinds_pair_up(key_kind(self.secret_key@), key_kind(self.public_key@))
    }

    /// Splits this key pair into secret and public keys.
    pub fn split(self) -> (r: (SecretKey, PublicKey))
        ensures
            r.0@ == self@.0,
            r.1@ == self@.1,
    {
        proof {
            use_type_invariant(&self);
        }
        (SecretKey { inner: self.secret_key }, PublicKey { inner: self.public_key })
    }

    /// Joins a pair of secret and public keys.
    ///
    /// This does not check that the keys belong together, only that both are RSA keys or
    /// both are ECDSA keys: otherwise it fails with `InvalidParameter`.
    pub fn try_join(secret_key: SecretKey, public_key: PublicKey) -> (r: Result<KeyPair, Error>)
        ensures
            r is Ok <==> kinds_pair_up(key_kind(secret_key@), key_kind(public_key@)),
            r is Ok ==> r->Ok_0@ == (secret_key@, public_key@),
            r is Err ==> r->Err_0.kind == ErrorKind::InvalidParameter,
    {
        match (secret_key.kind(), public_key.kind()) {
            (KeyKind::RsaSecret, KeyKind::RsaPublic) => {},
            (KeyKind::EcdsaSecret, KeyKind::EcdsaPublic) => {},
            _ => {
                return Err(Error::with_kind(ErrorKind::InvalidParameter));
            },
        }
        Ok(KeyPair { secret_key: secret_key.inner, public_key: public_key.inner })
    }
}

impl Clone for RsaSecretKey {
    fn clone(&self) -> (r: Self)
        ensures
            r@ == self@,
    {
        proof {
            use_type_invariant(self);
        }
        RsaSecretKey { inner: KeyBytes::copy_slice(self.inner.as_bytes()) }
    }
}

impl Clone for RsaPublicKey {
    fn clone(&self) -> (r: Self)
        ensures
            r@ == self@,
    {
        proof {
            use_type_invariant(self);
        }
        RsaPublicKey { inner: KeyBytes::copy_slice(self.inner.as_bytes()) }
    }
}

impl Clone for EcdsaSecretKey {
    fn clone(&self) -> (r: Self)
        ensures
            r@ == self@,
    {
        proof {
            use_type_invariant(self);
        }
        EcdsaSecretKey { inner: KeyBytes::copy_slice(self.inner.as_bytes()) }
    }
}

impl Clone for EcdsaPublicKey {
    fn clone(&self) -> (r: Self)
        ensures
            r@ == self@,
    {
        proof {
            use_type_invariant(self);
        }
        EcdsaPublicKey { inner: KeyBytes::copy_slice(self.inner.as_bytes()) }
    }
}

impl Clone for SecretKey {
    fn clone(&self) -> (r: Self)
        ensures
            r@ == self@,
    {
        proof {
            use_type_invariant(self);
        }
        SecretKey { inner: KeyBytes::copy_slice(self.inner.as_bytes()) }
    }
}

impl Clone for PublicKey {
    fn clone(&self) -> (r: Self)
        ensures
            r@ == self@,
    {
        proof {
            use_type_invariant(self);
        }
        PublicKey { inner: KeyBytes::copy_slice(self.inner.as_bytes()) }
    }
}

impl Clone for RsaKeyPair {
    fn clone(&self) -> (r: Self)
        ensures
            r@ == self@,
    {
        proof {
            use_type_invariant(self);
        }
        RsaKeyPair {
            secret_key: KeyBytes::copy_slice(self.secret_key.as_bytes()),
            public_key: KeyBytes::copy_slice(self.public_key.as_bytes()),
        }
    }
}

impl Clone for EcdsaKeyPair {
    fn clone(&self) -> (r: Self)
        ensures
            r@ == self@,
    {
        proof {
            use_type_invariant(self);
        }
        EcdsaKeyPair {
            secret_key: KeyBytes::copy_slice(self.secret_key.as_bytes()),
            public_key: KeyBytes::copy_slice(self.public_key.as_bytes()),
        }
    }
}

impl Clone for KeyPair {
    fn clone(&self) -> (r: Self)
        ensures
            r@ == self@,
    {
        proof {
            use_type_invariant(self);
        }
        KeyPair {
            secret_key: KeyBytes::copy_slice(self.secret_key.as_bytes()),
            public_key: KeyBytes::copy_slice(self.public_key.as_bytes()),
        }
    }
}

impl AsRef<[u8]> for RsaSecretKey {
    fn as_ref(&self) -> &[u8] {
        self.inner.as_bytes()
    }
}

impl AsRef<[u8]> for RsaPublicKey {
    fn as_ref(&self) -> &[u8] {
        self.inner.as_bytes()
    }
}

impl AsRef<[u8]> for EcdsaSecretKey {
    fn as_ref(&self) -> &[u8] {
        self.inner.as_bytes()
    }
}

impl AsRef<[u8]> for EcdsaPublicKey {
    fn as_ref(&self) -> &[u8] {
        self.inner.as_bytes()
    }
}

impl AsRef<[u8]> for SecretKey {
    fn as_ref(&self) -> &[u8] {
        self.inner.as_bytes()
    }
}

impl AsRef<[u8]> for PublicKey {
    fn as_ref(&self) -> &[u8] {
        self.inner.as_bytes()
    }
}

} // verus!
