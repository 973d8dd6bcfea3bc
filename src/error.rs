use vstd::prelude::*;

verus! {

/// Which fields of a derived pair failed their format check.
#[derive(Debug, Clone, Copy, PartialEq, Eq, Structural)]
pub struct InvalidFields {
    pub account: bool,
    pub identity_key: bool,
}

/// Every way in which a request can be turned down.
#[derive(Debug, Clone, Copy, PartialEq, Eq, Structural)]
pub enum Error {
    /// The capability object lacks an account or an identity key that can be read.
    MalformedCapability,
    /// The token could not be decoded.
    MalformedToken,
    /// A signature did not verify.
    InvalidSignature,
    /// The proof is past its validity window.
    Expired,
    /// The proof is not valid yet.
    NotYetValid,
    /// The token's declared action is not the one requested.
    InvalidIntent,
    /// The token was issued for another server.
    InvalidAudience,
    /// A decentralized identifier does not use the method its field requires.
    UnsupportedDidMethod,
    /// The derived account or identity key is not well formed.
    Validation(InvalidFields),
}

} // verus!
