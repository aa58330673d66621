//! Keys: a server's public key as the host sees it, and key pairs read from
//! their text. The key material itself belongs to the protocol engine.

use vstd::prelude::*;
use crate::error::WrappedError;
use russh_keys::PublicKeyBase64;

verus! {

/// The engine's type of a public key. Nothing is known of its inside here.
#[verifier::external_type_specification]
#[verifier::external_body]
pub struct ExPublicKey(russh_keys::key::PublicKey);

/// The engine's type of a key pair. Nothing is known of its inside here.
#[verifier::external_type_specification]
#[verifier::external_body]
pub struct ExKeyPair(russh_keys::key::KeyPair);

/// The engine's type of a failure of key handling. Nothing is known of its
/// inside here.
#[verifier::external_type_specification]
#[verifier::external_body]
pub struct ExKeyError(russh_keys::Error);

/// A public key: the engine's key, and what it shows of itself, taken down
/// once, when the value is made.
pub struct SshPublicKey {
    inner: russh_keys::key::PublicKey,
    algorithm: String,
    fingerprint: String,
    base64: String,
    bytes: Vec<u8>,
}

/// What a public key shows of itself.
pub struct PublicKeyView {
    /// The name of the key's algorithm.
    pub algorithm: Seq<char>,
    /// The key's fingerprint.
    pub fingerprint: Seq<char>,
    /// The key in Base64.
    pub base64: Seq<char>,
    /// The key's bytes.
    pub bytes: Seq<u8>,
}

/// A key pair.
pub struct SshKeyPair {
    inner: russh_keys::key::KeyPair,
}

/// Trusted: `russh_keys::key::PublicKey::name`, the name of the key's
/// algorithm.
#[verifier::external_body]
fn public_key_name(key: &russh_keys::key::PublicKey) -> (name: String) {
    key.name().into()
}

/// Trusted: `russh_keys::key::PublicKey::fingerprint`.
#[verifier::external_body]
fn public_key_fingerprint(key: &russh_keys::key::PublicKey) -> (fingerprint: String) {
    key.fingerprint()
}

/// Trusted: `russh_keys::PublicKeyBase64::public_key_base64` on a public key.
#[verifier::external_body]
fn public_key_base64(key: &russh_keys::key::PublicKey) -> (text: String) {
    key.public_key_base64()
}

/// Trusted: `russh_keys::PublicKeyBase64::public_key_bytes` on a public key.
#[verifier::external_body]
fn public_key_bytes(key: &russh_keys::key::PublicKey) -> (bytes: Vec<u8>) {
    key.public_key_bytes()
}

/// Trusted: `russh_keys::key::KeyPair::clone_public_key`.
#[verifier::external_body]
fn clone_public_key(pair: &russh_keys::key::KeyPair) -> (key: Result<
    russh_keys::key::PublicKey,
    russh_keys::Error,
>) {
    pair.clone_public_key()
}

/// Whether the engine reads a key pair from the text `data`, deciphered with
/// `password` where one is given.
pub uninterp spec fn key_text_decodes(data: Seq<char>, password: Option<Seq<char>>) -> bool;

/// The text of a password, where there is one.
pub open spec fn password_text(password: Option<String>) -> Option<Seq<char>> {
    match password {
        Some(text) => Some(text@),
        None => None,
    }
}

/// Trusted: `russh_keys::decode_secret_key`, which reads a key pair from its
/// text and deciphers it with the password where one is given. Whether it
/// reads one depends on the text and the password alone.
#[verifier::external_body]
fn decode_secret_key(data: &str, password: Option<&str>) -> (pair: Result<
    russh_keys::key::KeyPair,
    russh_keys::Error,
>)
    ensures
        pair is Ok <==> key_text_decodes(
            data@,
            match password {
                Some(text) => Some(text@),
                None => None,
            },
        ),
{
    russh_keys::decode_secret_key(data, password)
}

/// Trusted: the `Debug` text of a `russh_keys::Error`.
#[verifier::external_body]
fn describe_key_error(error: russh_keys::Error) -> (text: String) {
    format!("{:?}", error)
}

impl View for SshPublicKey {
    type V = PublicKeyView;

    closed spec fn view(&self) -> PublicKeyView {
        PublicKeyView {
            algorithm: self.algorithm@,
            fingerprint: self.fingerprint@,
            base64: self.base64@,
            bytes: self.bytes@,
        }
    }
}

impl SshPublicKey {
    /// The engine's key that this is.
    pub closed spec fn key(self) -> russh_keys::key::PublicKey {
        self.inner
    }

    /// The key `inner`, which shows the given name, fingerprint, Base64 text
    /// and bytes.
    pub fn showing(
        inner: russh_keys::key::PublicKey,
        algorithm: String,
        fingerprint: String,
        base64: String,
        bytes: Vec<u8>,
    ) -> (key: Self)
        ensures
            key.key() == inner,
            key@ == (PublicKeyView {
                algorithm: algorithm@,
                fingerprint: fingerprint@,
                base64: base64@,
                bytes: bytes@,
            }),
    {
        SshPublicKey { inner, algorithm, fingerprint, base64, bytes }
    }

    /// The public key `inner`, with what the engine shows of it.
    pub fn from(inner: russh_keys::key::PublicKey) -> (key: Self)
        ensures
            key.key() == inner,
    {
        let algorithm = public_key_name(&inner);
        let fingerprint = public_key_fingerprint(&inner);
        let base64 = public_key_base64(&inner);
        let bytes = public_key_bytes(&inner);
        SshPublicKey::showing(inner, algorithm, fingerprint, base64, bytes)
    }

    /// What reading a public key amounts to: the key that was read, with what
    /// it shows, or a failure of key handling.
    pub fn read(read: Result<russh_keys::key::PublicKey, russh_keys::Error>) -> (key: Result<
        Self,
        WrappedError,
    >)
        ensures
            match read {
                Ok(inner) => key matches Ok(shown) && shown.key() == inner,
                Err(_) => key matches Err(error) && error is RusshKeys,
            },
    {
        match key_read(read) {
            Ok(inner) => Ok(SshPublicKey::from(inner)),
            Err(error) => Err(error),
        }
    }

    /// The name of the key's algorithm.
    pub fn algorithm(&self) -> (name: String)
        ensures
            name@ == self@.algorithm,
    {
        self.algorithm.clone()
    }

    /// The key's fingerprint.
    pub fn fingerprint(&self) -> (fingerprint: String)
        ensures
            fingerprint@ == self@.fingerprint,
    {
        self.fingerprint.clone()
    }

    /// The key in Base64.
    pub fn base64(&self) -> (text: String)
        ensures
            text@ == self@.base64,
    {
        self.base64.clone()
    }

    /// The key's bytes.
    pub fn bytes(&self) -> (bytes: Vec<u8>)
        ensures
            bytes@ == self@.bytes,
    {
        let mut bytes: Vec<u8> = Vec::new();
        let mut i: usize = 0;
        while i < self.bytes.len()
            invariant
                i <= self.bytes.len(),
                bytes@ == self.bytes@.take(i as int),
            decreases self.bytes.len() - i,
        {
            bytes.push(self.bytes[i]);
            i += 1;
            assert(bytes@ == self.bytes@.take(i as int));
        }
        assert(self.bytes@.take(i as int) == self.bytes@);
        bytes
    }
}

/// What reading a key amounts to: the key that was read, or a failure of key
/// handling.
pub fn key_read<T>(read: Result<T, russh_keys::Error>) -> (key: Result<T, WrappedError>)
    ensures
        match read {
            Ok(value) => key == Ok::<T, WrappedError>(value),
            Err(_) => key matches Err(error) && error is RusshKeys,
        },
{
    match read {
        Ok(value) => Ok(value),
        Err(error) => Err(WrappedError::RusshKeys(describe_key_error(error))),
    }
}

impl SshKeyPair {
    /// The engine's key pair that this is.
    pub closed spec fn pair(self) -> russh_keys::key::KeyPair {
        self.inner
    }

    /// The key pair `inner`.
    pub fn from(inner: russh_keys::key::KeyPair) -> (pair: Self)
        ensures
            pair.pair() == inner,
    {
        SshKeyPair { inner }
    }

    /// The engine's key pair, to authenticate with.
    pub fn inner(&self) -> (inner: &russh_keys::key::KeyPair)
        ensures
            *inner == self.pair(),
    {
        &self.inner
    }

    /// What reading a key pair amounts to: the pair that was read, or a
    /// failure of key handling.
    pub fn read(read: Result<russh_keys::key::KeyPair, russh_keys::Error>) -> (pair: Result<
        Self,
        WrappedError,
    >)
        ensures
            match read {
                Ok(inner) => pair matches Ok(held) && held.pair() == inner,
                Err(_) => pair matches Err(error) && error is RusshKeys,
            },
    {
        match key_read(read) {
            Ok(inner) => Ok(SshKeyPair { inner }),
            Err(error) => Err(error),
        }
    }

    /// The public key of the pair. A failure is one of key handling.
    pub fn public_key(&self) -> (key: Result<SshPublicKey, WrappedError>)
        ensures
            key matches Err(error) ==> error is RusshKeys,
    {
        SshPublicKey::read(clone_public_key(&self.inner))
    }
}

/// Reads a key pair from its text, deciphering it with `password` where one
/// is given. It yields a pair exactly where the engine reads one from this
/// text with this password; a failure is one of key handling.
pub fn parse_key(data: String, password: Option<String>) -> (pair: Result<SshKeyPair, WrappedError>)
    ensures
        pair is Ok <==> key_text_decodes(data@, password_text(password)),
        pair matches Err(error) ==> error is RusshKeys,
{
    let decoded = match &password {
        Some(password) => decode_secret_key(data.as_str(), Some(password.as_str())),
        None => decode_secret_key(data.as_str(), None),
    };
    SshKeyPair::read(decoded)
}

} // verus!
