use vstd::prelude::*;
use base64::Engine;
use hmac::Mac;
use sha2::Digest;

verus! {

/// The SHA-256 digest of a byte string.
pub uninterp spec fn sha256_of(data: Seq<u8>) -> Seq<u8>;

/// HMAC-SHA256 of `msg` under `key`.
pub uninterp spec fn hmac_sha256_of(key: Seq<u8>, msg: Seq<u8>) -> Seq<u8>;

/// Standard base64 (with `=` padding) of a byte string.
pub uninterp spec fn base64_of(data: Seq<u8>) -> Seq<char>;

/// The bytes that standard base64 text decodes to, if it is valid.
pub uninterp spec fn base64_decoded(text: Seq<char>) -> Option<Seq<u8>>;

/// The 33-byte compressed secp256k1 public key of a private key.
pub uninterp spec fn compressed_public_key_of(private_key: Seq<u8>) -> Seq<u8>;

/// The 64-byte compact ECDSA (RFC 6979) secp256k1 signature of a 32-byte digest.
pub uninterp spec fn ecdsa_compact_of(private_key: Seq<u8>, digest: Seq<u8>) -> Seq<u8>;

/// The order of the secp256k1 group.
pub open spec fn curve_order() -> nat {
    0xFFFFFFFFFFFFFFFFFFFFFFFFFFFFFFFEBAAEDCE6AF48A03BBFD25E8CD0364141nat
}

/// The number that a byte string spells, most significant byte first.
pub open spec fn be_value(b: Seq<u8>) -> nat
    decreases b.len(),
{
    if b.len() == 0 {
        0
    } else {
        be_value(b.drop_last()) * 256 + b.last() as nat
    }
}

/// Whether bytes are a secp256k1 secret key: 32 bytes whose value is nonzero
/// and below the group order.
pub open spec fn valid_secret_key(k: Seq<u8>) -> bool {
    k.len() == 32 && 0 < be_value(k) < curve_order()
}

/// Relies on `sha2::Sha256::digest`: the SHA-256 digest, 32 bytes long.
#[verifier::external_body]
pub(crate) fn sha256(data: &[u8]) -> (r: Vec<u8>)
    ensures
        r@ == sha256_of(data@),
        r@.len() == 32,
{
    sha2::Sha256::digest(data).to_vec()
}

/// Relies on `hmac::Hmac<sha2::Sha256>`: a key of any length is accepted, the
/// tag is 32 bytes long.
#[verifier::external_body]
pub(crate) fn hmac_sha256(key: &[u8], msg: &[u8]) -> (r: Vec<u8>)
    ensures
        r@ == hmac_sha256_of(key@, msg@),
        r@.len() == 32,
{
    let mut mac = <hmac::Hmac<sha2::Sha256> as Mac>::new_from_slice(key).unwrap();
    mac.update(msg);
    mac.finalize().into_bytes().to_vec()
}

/// Relies on `base64::engine::general_purpose::STANDARD.encode`.
#[verifier::external_body]
pub(crate) fn base64_encode(data: &[u8]) -> (r: String)
    ensures
        r@ == base64_of(data@),
{
    base64::engine::general_purpose::STANDARD.encode(data)
}

/// Relies on `base64::engine::general_purpose::STANDARD.decode`: `None` where the
/// text is not valid standard base64.
#[verifier::external_body]
pub(crate) fn base64_decode(text: &str) -> (r: Option<Vec<u8>>)
    ensures
        match r {
            Some(v) => base64_decoded(text@) == Some(v@),
            None => base64_decoded(text@) is None,
        },
{
    base64::engine::general_purpose::STANDARD.decode(text).ok()
}

/// Relies on secp256k1's `SecretKey::new` with `rand::thread_rng()`, which
/// draws 32 random bytes until they are a valid secret key, and on
/// `secret_bytes`, which hands those 32 bytes out.
#[verifier::external_body]
pub(crate) fn random_secret_key() -> (r: Vec<u8>)
    ensures
        valid_secret_key(r@),
{
    secp256k1::SecretKey::new(&mut rand::thread_rng()).secret_bytes().to_vec()
}

/// Relies on secp256k1's `SecretKey::from_slice` (which accepts exactly the 32
/// bytes, read big-endian, of a nonzero scalar below the group order) and on
/// `PublicKey::from_secret_key(..).serialize()` (33 bytes, SEC1 compressed: a
/// tag of 2 or 3, then the x-coordinate).
#[verifier::external_body]
pub(crate) fn public_key_of(private_key: &[u8]) -> (r: Option<Vec<u8>>)
    ensures
        r is Some <==> valid_secret_key(private_key@),
        r matches Some(pk) ==> pk@ == compressed_public_key_of(private_key@) && pk@.len() == 33 && (pk@[0]
            == 2 || pk@[0] == 3),
{
    let sk = secp256k1::SecretKey::from_slice(private_key).ok()?;
    let secp = secp256k1::Secp256k1::new();
    Some(secp256k1::PublicKey::from_secret_key(&secp, &sk).serialize().to_vec())
}

/// Relies on secp256k1's `SecretKey::from_slice` (accepts exactly the 32 bytes,
/// read big-endian, of a nonzero scalar below the group order),
/// `Message::from_digest_slice` (accepts any 32 bytes) and
/// `sign_ecdsa(..).serialize_compact()` (deterministic, 64 bytes).
#[verifier::external_body]
pub(crate) fn ecdsa_sign(private_key: &[u8], digest: &[u8]) -> (r: Option<Vec<u8>>)
    requires
        digest@.len() == 32,
    ensures
        r is Some <==> valid_secret_key(private_key@),
        r matches Some(s) ==> s@ == ecdsa_compact_of(private_key@, digest@) && s@.len() == 64,
{
    let sk = secp256k1::SecretKey::from_slice(private_key).ok()?;
    let msg = secp256k1::Message::from_digest_slice(digest).ok()?;
    let secp = secp256k1::Secp256k1::new();
    Some(secp.sign_ecdsa(&msg, &sk).serialize_compact().to_vec())
}

} // verus!
