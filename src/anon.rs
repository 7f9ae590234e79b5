use vstd::prelude::*;
use vstd::string::StringExecFns;
use crate::crypto::{
    base64_decode, base64_decoded, base64_encode, base64_of, compressed_public_key_of, ecdsa_compact_of,
    ecdsa_sign, public_key_of, random_secret_key, sha256, sha256_of, valid_secret_key,
};
use crate::error::GrokError;

verus! {

/// A session's secp256k1 key pair.
#[derive(Debug, Clone)]
pub struct KeyPair {
    /// The 32-byte private key.
    pub private_key: Vec<u8>,
    /// The 33-byte compressed public key.
    pub public_key: Vec<u8>,
}

/// A solved challenge: the challenge and its signature, both in base64.
#[derive(Debug, Clone, PartialEq, Eq)]
pub struct ChallengeSignature {
    pub challenge: String,
    pub signature: String,
}

/// Whether `k` is a key pair: a 32-byte private key and its compressed public key.
pub open spec fn is_key_pair(k: KeyPair) -> bool {
    &&& valid_secret_key(k.private_key@)
    &&& k.private_key@.len() == 32
    &&& k.public_key@.len() == 33
    &&& (k.public_key@[0] == 2 || k.public_key@[0] == 3)
    &&& k.public_key@ == compressed_public_key_of(k.private_key@)
}

/// The solved challenge for `challenge` under the secret key `key`.
pub open spec fn signed_as(s: ChallengeSignature, challenge: Seq<u8>, key: Seq<u8>) -> bool {
    &&& s.challenge@ == base64_of(challenge)
    &&& s.signature@ == base64_of(ecdsa_compact_of(key, sha256_of(challenge)))
}

/// The anonymous user's keys and challenge signing.
pub struct Anon;

impl Anon {
    /// A fresh key pair: a random valid secret key and its compressed public
    /// key. It always succeeds.
    pub fn generate_keys() -> (r: Result<KeyPair, GrokError>)
        ensures
            r matches Ok(k) && is_key_pair(k),
    {
        let private_key = random_secret_key();
        match public_key_of(private_key.as_slice()) {
            Some(public_key) => Ok(KeyPair { private_key, public_key }),
            None => Err(GrokError::CryptoError(String::from_str("invalid secret key"))),
        }
    }

    /// Signs the SHA-256 digest of the challenge with the secret key bytes;
    /// fails exactly where the bytes are no valid secret key.
    pub fn sign_challenge_with_key(challenge_data: &[u8], key: &[u8]) -> (r: Result<ChallengeSignature, GrokError>)
        ensures
            r is Ok <==> valid_secret_key(key@),
            r matches Ok(s) ==> signed_as(s, challenge_data@, key@),
            r matches Err(e) ==> e is CryptoError,
    {
        let digest = sha256(challenge_data);
        match ecdsa_sign(key, digest.as_slice()) {
            Some(sig) => Ok(ChallengeSignature {
                challenge: base64_encode(challenge_data),
                signature: base64_encode(sig.as_slice()),
            }),
            None => Err(GrokError::CryptoError(String::from_str("invalid secret key"))),
        }
    }

    /// Signs the SHA-256 digest of the challenge with the base64 private key, and
    /// returns the challenge and the 64-byte compact signature in base64. Fails
    /// with a base64 error where the key does not decode, and with a crypto
    /// error where it is no valid secret key.
    pub fn sign_challenge(challenge_data: &[u8], private_key_b64: &str) -> (r: Result<ChallengeSignature, GrokError>)
        ensures
            match base64_decoded(private_key_b64@) {
                None => r matches Err(e) && e is Base64Error,
                Some(key) => if valid_secret_key(key) {
                    r matches Ok(s) && signed_as(s, challenge_data@, key)
                } else {
                    r matches Err(e) && e is CryptoError
                },
            },
    {
        let key = match base64_decode(private_key_b64) {
            Some(k) => k,
            None => return Err(GrokError::Base64Error),
        };
        Self::sign_challenge_with_key(challenge_data, key.as_slice())
    }

    /// The bytes in standard base64.
    pub fn xor_encode(bytes: &[u8]) -> (r: String)
        ensures
            r@ == base64_of(bytes@),
    {
        base64_encode(bytes)
    }
}

/// Every key pair that key generation hands out can sign: its private key is a
/// valid secret key, the exact condition under which `sign_challenge_with_key`
/// succeeds.
pub proof fn generated_keys_can_sign(k: KeyPair)
    requires
        is_key_pair(k),
    ensures
        valid_secret_key(k.private_key@),
        k.private_key@.len() == 32,
        k.public_key@.len() == 33,
{
}

} // verus!
