//! The provider's configuration, checked at its boundary.
use vstd::prelude::*;

use crate::error::{ConfigurationError, Error};

verus! {

/// The issuer URL and the PEM text of its public key.
#[derive(Clone, Debug)]
pub struct ApiConfig {
    pub issuer: String,
    pub public_key: String,
}

/// What the configuration check yields for the supplied values.
pub open spec fn config_result(issuer: Option<Seq<char>>, public_key: Option<Seq<char>>) -> Result<(Seq<char>, Seq<char>), ConfigurationError> {
    match (issuer, public_key) {
        (Some(i), Some(k)) => if i.len() == 0 {
            Err(ConfigurationError::MissingIssuer)
        } else if k.len() == 0 {
            Err(ConfigurationError::MissingPublicKey)
        } else {
            Ok((i, k))
        },
        (None, _) => Err(ConfigurationError::MissingIssuer),
        (Some(_), None) => Err(ConfigurationError::MissingPublicKey),
    }
}

/// The text of an optional string.
pub open spec fn opt_view(s: Option<String>) -> Option<Seq<char>> {
    match s {
        Some(v) => Some(v@),
        None => None,
    }
}

/// Builds the configuration from the values that were supplied for it;
/// an absent or empty issuer or public key is refused.
pub fn get_config(issuer: Option<String>, public_key: Option<String>) -> (r: Result<ApiConfig, Error>)
    ensures
        match config_result(opt_view(issuer), opt_view(public_key)) {
            Ok((i, k)) => r matches Ok(c) && c.issuer@ == i && c.public_key@ == k,
            Err(err) => r == Err::<ApiConfig, Error>(Error::Configuration(err)),
        },
{
    match issuer {
        None => Err(Error::Configuration(ConfigurationError::MissingIssuer)),
        Some(issuer) => match public_key {
            None => Err(Error::Configuration(ConfigurationError::MissingPublicKey)),
            Some(public_key) => {
                if issuer.as_str().is_empty() {
                    Err(Error::Configuration(ConfigurationError::MissingIssuer))
                } else if public_key.as_str().is_empty() {
                    Err(Error::Configuration(ConfigurationError::MissingPublicKey))
                } else {
                    Ok(ApiConfig { issuer, public_key })
                }
            },
        },
    }
}

} // verus!
