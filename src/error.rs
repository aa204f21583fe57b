//! The library's failures; all of them arise at startup.
use vstd::prelude::*;

verus! {

/// Why the configured issuer or key material was refused at the
/// configuration boundary.
#[derive(Clone, Copy, Debug, PartialEq, Eq, Structural)]
pub enum ConfigurationError {
    MissingIssuer,
    MissingPublicKey,
}

/// Why the configured public key could not be turned into a JWK.
#[derive(Clone, Copy, Debug, PartialEq, Eq, Structural)]
pub enum KeyParseError {
    /// The text is not PEM, not a public key, not RSA, or not a valid RSA key.
    InvalidPublicKey,
    /// The decoded key could not be written back in its canonical form.
    NotEncodable,
}

/// Any failure of building the published documents.
#[derive(Clone, Copy, Debug, PartialEq, Eq, Structural)]
pub enum Error {
    Configuration(ConfigurationError),
    KeyParse(KeyParseError),
}

} // verus!
