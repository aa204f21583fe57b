//! The two published documents: the JSON Web Key Set and the OpenID provider
//! metadata.
use vstd::prelude::*;

use crate::capabilities::{
    claims_spec, claims_supported, response_types_spec, response_types_supported, scopes_spec,
    scopes_supported, signing_algs_spec, signing_algs_supported, subject_types_spec,
    subject_types_supported, Claim, KeyType, ResponseType, Scope, SigningAlg, SubjectType,
};
use crate::error::KeyParseError;
use crate::keys::{
    canonical_pem, minimal_be, parse_public_key_pem, spki_pem_lf, spki_rsa_components, uuid_v5_oid,
    uuid_v5_oid_text, RsaPublicKeyMaterial,
};

verus! {

/// The path, under the issuer, at which the key set is published.
pub const JWKS_PATH: &'static str = "/.well-known/jwks";

/// A JSON Web Key for one RSA public key. `e` and `n` hold the decoded
/// (big-endian) exponent and modulus; they are base64url-encoded on output.
#[derive(Clone, Debug)]
pub struct JWKSchema {
    pub kid: String,
    pub kty: KeyType,
    pub alg: SigningAlg,
    pub e: Vec<u8>,
    pub n: Vec<u8>,
}

/// The mathematical content of a `JWKSchema`.
pub ghost struct JwkView {
    pub kid: Seq<char>,
    pub kty: KeyType,
    pub alg: SigningAlg,
    pub e: Seq<u8>,
    pub n: Seq<u8>,
}

impl View for JWKSchema {
    type V = JwkView;

    open spec fn view(&self) -> JwkView {
        JwkView { kid: self.kid@, kty: self.kty, alg: self.alg, e: self.e@, n: self.n@ }
    }
}

/// The JWK of the key with the given modulus and exponent, whose canonical
/// PEM text is `canonical`.
pub open spec fn jwk_spec(modulus: Seq<u8>, exponent: Seq<u8>, canonical: Seq<char>) -> JwkView {
    JwkView {
        kid: uuid_v5_oid_text(canonical),
        kty: KeyType::Rsa,
        alg: SigningAlg::RS256,
        e: exponent,
        n: modulus,
    }
}

/// The JWK of a key given by its components, or why there is none.
pub open spec fn jwk_of_components(modulus: Seq<u8>, exponent: Seq<u8>) -> Result<JwkView, KeyParseError> {
    match spki_pem_lf(modulus, exponent) {
        Some(p) => Ok(jwk_spec(modulus, exponent, p)),
        None => Err(KeyParseError::NotEncodable),
    }
}

/// The JWK of the key held in a PEM text, or why there is none.
pub open spec fn jwk_of_pem(pem: Seq<char>) -> Result<JwkView, KeyParseError> {
    match spki_rsa_components(pem) {
        Some((n, e)) => jwk_of_components(n, e),
        None => Err(KeyParseError::InvalidPublicKey),
    }
}

impl JWKSchema {
    /// Builds the JWK of a key from its canonical PEM text.
    pub fn from_canonical(key: RsaPublicKeyMaterial, canonical: &str) -> (r: JWKSchema)
        ensures
            r@ == jwk_spec(key.modulus@, key.exponent@, canonical@),
    {
        let kid = uuid_v5_oid(canonical);
        JWKSchema { kid, kty: KeyType::Rsa, alg: SigningAlg::RS256, e: key.exponent, n: key.modulus }
    }

    /// Builds the JWK of a decoded key; its identifier is derived from the
    /// key's canonical PEM text.
    pub fn from_key(key: RsaPublicKeyMaterial) -> (r: Result<JWKSchema, KeyParseError>)
        requires
            key.wf(),
        ensures
            match r {
                Ok(j) => jwk_of_components(key.modulus@, key.exponent@) == Ok::<JwkView, KeyParseError>(j@),
                Err(err) => jwk_of_components(key.modulus@, key.exponent@) == Err::<JwkView, KeyParseError>(err),
            },
            r matches Ok(j) ==> minimal_be(j.e@) && minimal_be(j.n@),
    {
        match canonical_pem(&key) {
            Ok(canonical) => Ok(JWKSchema::from_canonical(key, canonical.as_str())),
            Err(err) => Err(err),
        }
    }

    /// Builds the JWK of the RSA public key held in a PEM text. The result is
    /// a function of the key alone: two texts holding one key give one JWK.
    pub fn from_pem(pem: &str) -> (r: Result<JWKSchema, KeyParseError>)
        ensures
            match r {
                Ok(j) => jwk_of_pem(pem@) == Ok::<JwkView, KeyParseError>(j@),
                Err(err) => jwk_of_pem(pem@) == Err::<JwkView, KeyParseError>(err),
            },
            r matches Ok(j) ==> minimal_be(j.e@) && minimal_be(j.n@),
            spki_rsa_components(pem@) is Some ==> r is Ok,
            pem@.len() == 0 ==> r is Err,
    {
        match parse_public_key_pem(pem) {
            Ok(key) => JWKSchema::from_key(key),
            Err(err) => Err(err),
        }
    }
}

/// Two PEM texts that hold the same RSA public key, however differently
/// they are laid out, yield the same JWK and so the same key identifier.
pub proof fn lemma_jwk_depends_only_on_key(pem1: Seq<char>, pem2: Seq<char>)
    requires
        spki_rsa_components(pem1) is Some,
        spki_rsa_components(pem1) == spki_rsa_components(pem2),
    ensures
        jwk_of_pem(pem1) == jwk_of_pem(pem2),
{
}

/// The key identifier is determined by the key's exponent and modulus: two
/// JWKs built from PEM texts, with equal `e` and equal `n`, are equal, and so
/// have equal `kid`.
pub proof fn lemma_kid_determined_by_components(pem1: Seq<char>, pem2: Seq<char>, j1: JwkView, j2: JwkView)
    requires
        jwk_of_pem(pem1) == Ok::<JwkView, KeyParseError>(j1),
        jwk_of_pem(pem2) == Ok::<JwkView, KeyParseError>(j2),
        j1.e == j2.e,
        j1.n == j2.n,
    ensures
        j1 == j2,
{
}

/// A JWK built from a PEM text publishes exactly the decoded exponent and
/// modulus of the key, in shortest big-endian form, as an RSA key for RS256.
pub proof fn lemma_jwk_carries_key_components(pem: Seq<char>, j: JwkView)
    requires
        jwk_of_pem(pem) == Ok::<JwkView, KeyParseError>(j),
    ensures
        spki_rsa_components(pem) == Some((j.n, j.e)),
        j.kty == KeyType::Rsa,
        j.alg == SigningAlg::RS256,
{
}

/// A JSON Web Key Set: its keys in construction order.
#[derive(Clone, Debug)]
pub struct JWKSetSchema {
    pub keys: Vec<JWKSchema>,
}

impl JWKSetSchema {
    pub fn new(keys: Vec<JWKSchema>) -> (r: JWKSetSchema)
        ensures
            r.keys@ == keys@,
    {
        JWKSetSchema { keys }
    }
}

/// The OpenID provider metadata document.
#[derive(Clone, Debug)]
pub struct OpenIDConfigurationSchema {
    pub issuer: String,
    pub jwks_uri: String,
    pub subject_types_supported: Vec<SubjectType>,
    pub response_types_supported: Vec<ResponseType>,
    pub claims_supported: Vec<Claim>,
    pub id_token_signing_alg_values_supported: Vec<SigningAlg>,
    pub scopes_supported: Vec<Scope>,
}

impl OpenIDConfigurationSchema {
    /// Whether the document declares exactly the provider's fixed capabilities.
    pub open spec fn declares_fixed_capabilities(&self) -> bool {
        &&& self.subject_types_supported@ == subject_types_spec()
        &&& self.response_types_supported@ == response_types_spec()
        &&& self.claims_supported@ == claims_spec()
        &&& self.id_token_signing_alg_values_supported@ == signing_algs_spec()
        &&& self.scopes_supported@ == scopes_spec()
    }

    pub fn new(issuer: String, jwks_uri: String) -> (r: OpenIDConfigurationSchema)
        ensures
            r.issuer@ == issuer@,
            r.jwks_uri@ == jwks_uri@,
            r.declares_fixed_capabilities(),
    {
        OpenIDConfigurationSchema {
            issuer,
            jwks_uri,
            subject_types_supported: subject_types_supported(),
            response_types_supported: response_types_supported(),
            claims_supported: claims_supported(),
            id_token_signing_alg_values_supported: signing_algs_supported(),
            scopes_supported: scopes_supported(),
        }
    }

    /// The document of an issuer: its key set is published at the issuer
    /// followed by `/.well-known/jwks`.
    pub fn for_issuer(issuer: &str) -> (r: OpenIDConfigurationSchema)
        ensures
            r.issuer@ == issuer@,
            r.jwks_uri@ == issuer@ + JWKS_PATH@,
            r.declares_fixed_capabilities(),
    {
        let jwks_uri = issuer.to_owned().concat(JWKS_PATH);
        OpenIDConfigurationSchema::new(issuer.to_owned(), jwks_uri)
    }
}

/// The metadata document advertises RS256 as its one signing algorithm.
pub proof fn lemma_only_rs256_advertised(doc: OpenIDConfigurationSchema)
    requires
        doc.declares_fixed_capabilities(),
    ensures
        doc.id_token_signing_alg_values_supported@.len() == 1,
        forall|i: int| 0 <= i < doc.id_token_signing_alg_values_supported@.len()
            ==> doc.id_token_signing_alg_values_supported@[i] == SigningAlg::RS256,
        doc.id_token_signing_alg_values_supported@[0].spec_name() == "RS256"@,
{
}

} // verus!
