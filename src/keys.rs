//! RSA key material: decoding a PEM public key, its canonical encoding, and
//! the key identifier derived from it.
use rsa::pkcs1::LineEnding;
use rsa::pkcs8::{DecodePublicKey, EncodePublicKey};
use rsa::BigUint;
use rsa::RsaPublicKey;
use uuid::Uuid;
use vstd::prelude::*;

use crate::error::KeyParseError;

verus! {

/// The (modulus, exponent) pair, each as big-endian bytes, of the RSA public
/// key held in a SubjectPublicKeyInfo PEM text; `None` where the text is not
/// such a key.
pub uninterp spec fn spki_rsa_components(pem: Seq<char>) -> Option<(Seq<u8>, Seq<u8>)>;

/// The SubjectPublicKeyInfo PEM text, with LF line endings, of the RSA public
/// key with the given big-endian modulus and exponent; `None` where they make
/// no valid key or the encoding fails.
pub uninterp spec fn spki_pem_lf(modulus: Seq<u8>, exponent: Seq<u8>) -> Option<Seq<char>>;

/// The hyphenated text of the name-based (version 5) UUID of the bytes of a
/// text, in the OID namespace.
pub uninterp spec fn uuid_v5_oid_text(name: Seq<char>) -> Seq<char>;

/// A big-endian unsigned integer in its shortest form: at least one byte,
/// and no leading zero byte.
pub open spec fn minimal_be(b: Seq<u8>) -> bool {
    b.len() > 0 && b[0] != 0
}

/// Relies on rsa's `DecodePublicKey::from_public_key_pem` for `RsaPublicKey`
/// to decode and validate the key (an odd modulus, an exponent of at least 2),
/// and on jose-jwk's `From<&RsaPublicKey> for Rsa` for its components, which
/// are num-bigint-dig's `to_bytes_be` of `n` and `e`: shortest big-endian form.
/// Decoding validates the key with `RsaPublicKey::new(n, e)`, so the same
/// components rebuild a key that `to_public_key_pem` writes out again.
#[verifier::external_body]
fn decode_rsa_public_key_pem(pem: &str) -> (r: Option<(Vec<u8>, Vec<u8>)>)
    ensures
        match spki_rsa_components(pem@) {
            Some((n, e)) => r matches Some((rn, re)) && rn@ == n && re@ == e,
            None => r is None,
        },
        pem@.len() == 0 ==> r is None,
        r matches Some((rn, re)) ==> minimal_be(rn@) && minimal_be(re@),
        r matches Some((rn, re)) ==> spki_pem_lf(rn@, re@) is Some,
{
    let key = RsaPublicKey::from_public_key_pem(pem).ok()?;
    let jwk = jose_jwk::Rsa::from(&key);
    Some((jwk.n.to_vec(), jwk.e.to_vec()))
}

/// Relies on rsa's `RsaPublicKey::new` over num-bigint-dig's
/// `BigUint::from_bytes_be`, and on `EncodePublicKey::to_public_key_pem` with
/// `LineEnding::LF`: the canonical PEM text of the key.
#[verifier::external_body]
fn encode_rsa_public_key_pem(modulus: &[u8], exponent: &[u8]) -> (r: Option<String>)
    ensures
        match spki_pem_lf(modulus@, exponent@) {
            Some(p) => r matches Some(s) && s@ == p,
            None => r is None,
        },
{
    let key = RsaPublicKey::new(BigUint::from_bytes_be(modulus), BigUint::from_bytes_be(exponent)).ok()?;
    key.to_public_key_pem(LineEnding::LF).ok()
}

/// Relies on uuid's `Uuid::new_v5` in `Uuid::NAMESPACE_OID` over the text's
/// bytes, and on its `Display`, which writes the hyphenated form.
#[verifier::external_body]
pub(crate) fn uuid_v5_oid(name: &str) -> (r: String)
    ensures
        r@ == uuid_v5_oid_text(name@),
{
    Uuid::new_v5(&Uuid::NAMESPACE_OID, name.as_bytes()).to_string()
}

/// An RSA public key as the two unsigned integers that make it, each in its
/// shortest big-endian byte form.
#[derive(Clone, Debug)]
pub struct RsaPublicKeyMaterial {
    pub modulus: Vec<u8>,
    pub exponent: Vec<u8>,
}

impl RsaPublicKeyMaterial {
    pub open spec fn wf(&self) -> bool {
        minimal_be(self.modulus@) && minimal_be(self.exponent@)
    }
}

/// What decoding a PEM text yields: the key's components, or the refusal.
pub open spec fn parse_result(pem: Seq<char>) -> Result<(Seq<u8>, Seq<u8>), KeyParseError> {
    match spki_rsa_components(pem) {
        Some(c) => Ok(c),
        None => Err(KeyParseError::InvalidPublicKey),
    }
}

/// Decodes a PEM-encoded SubjectPublicKeyInfo RSA public key into its modulus
/// and exponent.
pub fn parse_public_key_pem(pem: &str) -> (r: Result<RsaPublicKeyMaterial, KeyParseError>)
    ensures
        match r {
            Ok(m) => parse_result(pem@) == Ok::<(Seq<u8>, Seq<u8>), KeyParseError>((m.modulus@, m.exponent@)) && m.wf(),
            Err(err) => parse_result(pem@) == Err::<(Seq<u8>, Seq<u8>), KeyParseError>(err),
        },
        r matches Ok(m) ==> spki_pem_lf(m.modulus@, m.exponent@) is Some,
        pem@.len() == 0 ==> r is Err,
{
    match decode_rsa_public_key_pem(pem) {
        Some((modulus, exponent)) => Ok(RsaPublicKeyMaterial { modulus, exponent }),
        None => Err(KeyParseError::InvalidPublicKey),
    }
}

/// The canonical PEM text of a key: its SubjectPublicKeyInfo re-encoded with
/// LF line endings, whatever the formatting of the text it was read from.
pub fn canonical_pem(key: &RsaPublicKeyMaterial) -> (r: Result<String, KeyParseError>)
    ensures
        match spki_pem_lf(key.modulus@, key.exponent@) {
            Some(p) => r matches Ok(s) && s@ == p,
            None => r == Err::<String, KeyParseError>(KeyParseError::NotEncodable),
        },
{
    match encode_rsa_public_key_pem(key.modulus.as_slice(), key.exponent.as_slice()) {
        Some(s) => Ok(s),
        None => Err(KeyParseError::NotEncodable),
    }
}

} // verus!
