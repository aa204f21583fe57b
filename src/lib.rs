//! OpenID Connect discovery metadata and a JSON Web Key Set derived from one
//! statically configured RSA public key.
pub mod capabilities;
pub mod config;
pub mod error;
pub mod keys;
pub mod models;
pub mod state;

pub use capabilities::{Claim, KeyType, ResponseType, Scope, SigningAlg, SubjectType};
pub use config::{get_config, ApiConfig};
pub use error::{ConfigurationError, Error, KeyParseError};
pub use keys::{canonical_pem, parse_public_key_pem, RsaPublicKeyMaterial};
pub use models::{JWKSchema, JWKSetSchema, OpenIDConfigurationSchema};
pub use state::{create_state, AppState};
