//! The documents built once at startup and shared read-only afterwards.
use vstd::prelude::*;

use crate::config::ApiConfig;
use crate::error::Error;
use crate::keys::spki_rsa_components;
use crate::models::{jwk_of_pem, JWKSchema, JWKSetSchema, OpenIDConfigurationSchema, JwkView, JWKS_PATH};

verus! {

/// The provider metadata document and the key set, both immutable.
#[derive(Clone, Debug)]
pub struct AppState {
    pub openid_config: OpenIDConfigurationSchema,
    pub jwks: JWKSetSchema,
}

impl AppState {
    /// The state published for a configuration: the issuer's metadata and a
    /// key set of exactly the configured key's JWK.
    pub open spec fn publishes(&self, config: ApiConfig, jwk: JwkView) -> bool {
        &&& self.openid_config.issuer@ == config.issuer@
        &&& self.openid_config.jwks_uri@ == config.issuer@ + JWKS_PATH@
        &&& self.openid_config.declares_fixed_capabilities()
        &&& self.jwks.keys@.len() == 1
        &&& self.jwks.keys@[0]@ == jwk
    }
}

/// Builds both documents from the configuration. A key that cannot be turned
/// into a JWK fails the whole construction: no document is produced.
pub fn create_state(config: &ApiConfig) -> (r: Result<AppState, Error>)
    ensures
        match jwk_of_pem(config.public_key@) {
            Ok(j) => r matches Ok(s) && s.publishes(*config, j),
            Err(err) => r == Err::<AppState, Error>(Error::KeyParse(err)),
        },
        spki_rsa_components(config.public_key@) is Some ==> r is Ok,
        config.public_key@.len() == 0 ==> r is Err,
{
    let jwk = match JWKSchema::from_pem(config.public_key.as_str()) {
        Ok(j) => j,
        Err(err) => return Err(Error::KeyParse(err)),
    };
    let openid_config = OpenIDConfigurationSchema::for_issuer(config.issuer.as_str());
    let mut keys: Vec<JWKSchema> = Vec::new();
    keys.push(jwk);
    let jwks = JWKSetSchema::new(keys);
    Ok(AppState { openid_config, jwks })
}

} // verus!
