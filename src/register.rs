use vstd::prelude::*;
use crate::did::{did_data, extract_did_data, DID_METHOD_KEY, DID_METHOD_PKH};
use crate::error::Error;
use crate::store::{added, IdentityStore};
use crate::validation::{pair_check, validate_pair};

verus! {

/// A capability object, as far as registration reads it.
pub struct Cacao {
    /// `did:pkh:<account>`: the account whose signature the object carries.
    pub iss: String,
    /// `did:key:<identity key>`: the identity key that the account authorises.
    pub aud: String,
}

/// The body of a registration request.
pub struct RegisterIdentityPayload {
    pub cacao: Cacao,
}

/// How the signature check of a capability object can fail.
#[derive(Debug, Clone, Copy, PartialEq, Eq, Structural)]
pub enum CapabilityError {
    InvalidSignature,
    Expired,
    NotYetValid,
}

pub open spec fn capability_error(e: CapabilityError) -> Error {
    match e {
        CapabilityError::InvalidSignature => Error::InvalidSignature,
        CapabilityError::Expired => Error::Expired,
        CapabilityError::NotYetValid => Error::NotYetValid,
    }
}

/// The pair that a registration binds, or the error it ends with, given the
/// capability object and the outcome of its signature check.
pub open spec fn register_outcome(cacao: Cacao, verification: Result<(), CapabilityError>) -> Result<
    (Seq<char>, Seq<char>),
    Error,
> {
    match verification {
        Err(e) => Err(capability_error(e)),
        Ok(_) => match (did_data(cacao.iss@, "pkh"@), did_data(cacao.aud@, "key"@)) {
            (Some(account), Some(key)) => match pair_check(account, key) {
                Ok(_) => Ok((account, key)),
                Err(e) => Err(e),
            },
            _ => Err(Error::MalformedCapability),
        },
    }
}

/// A registration request whose capability object has been verified.
pub struct RegisterIdentityParams {
    account: String,
    identity_key: String,
    cacao: Cacao,
}

impl RegisterIdentityParams {
    pub closed spec fn account_view(&self) -> Seq<char> {
        self.account@
    }

    pub closed spec fn identity_key_view(&self) -> Seq<char> {
        self.identity_key@
    }

    pub closed spec fn cacao_view(&self) -> Cacao {
        self.cacao
    }

    pub fn account(&self) -> (r: &String)
        ensures
            r@ == self.account_view(),
    {
        &self.account
    }

    pub fn identity_key(&self) -> (r: &String)
        ensures
            r@ == self.identity_key_view(),
    {
        &self.identity_key
    }

    /// The capability object that authorised the request.
    pub fn cacao(&self) -> (r: &Cacao)
        ensures
            *r == self.cacao_view(),
    {
        &self.cacao
    }

    /// Checks the format of both fields, reporting each one that fails.
    pub fn validate(&self) -> (r: Result<(), Error>)
        ensures
            r == pair_check(self.account_view(), self.identity_key_view()),
    {
        validate_pair(self.account.as_str(), self.identity_key.as_str())
    }
}

fn map_capability_error(e: CapabilityError) -> (r: Error)
    ensures
        r == capability_error(e),
{
    match e {
        CapabilityError::InvalidSignature => Error::InvalidSignature,
        CapabilityError::Expired => Error::Expired,
        CapabilityError::NotYetValid => Error::NotYetValid,
    }
}

/// Derives and checks the pair that a capability object authorises.
/// `verification` is the outcome of checking the object's signature.
pub fn authorize(payload: RegisterIdentityPayload, verification: Result<(), CapabilityError>) -> (r:
    Result<RegisterIdentityParams, Error>)
    ensures
        match register_outcome(payload.cacao, verification) {
            Ok((account, key)) => r is Ok && r->Ok_0.account_view() == account
                && r->Ok_0.identity_key_view() == key && r->Ok_0.cacao_view() == payload.cacao,
            Err(e) => r == Err::<RegisterIdentityParams, Error>(e),
        },
{
    proof {
        reveal_strlit("pkh");
        reveal_strlit("key");
    }
    if let Err(e) = verification {
        return Err(map_capability_error(e));
    }
    let cacao = payload.cacao;
    let account = extract_did_data(cacao.iss.as_str(), DID_METHOD_PKH);
    let identity_key = extract_did_data(cacao.aud.as_str(), DID_METHOD_KEY);
    match (account, identity_key) {
        (Ok(account), Ok(identity_key)) => {
            let params = RegisterIdentityParams { account, identity_key, cacao };
            match params.validate() {
                Ok(()) => Ok(params),
                Err(e) => Err(e),
            }
        },
        _ => Err(Error::MalformedCapability),
    }
}

/// Registration: binds the identity key that the capability object names to its
/// account, recording the account if it is new. Nothing is stored unless every
/// check passes; registering a bound pair again changes nothing.
pub fn handler(
    store: &mut IdentityStore,
    payload: RegisterIdentityPayload,
    verification: Result<(), CapabilityError>,
) -> (r: Result<(), Error>)
    requires
        old(store).wf(),
    ensures
        final(store).wf(),
        match register_outcome(payload.cacao, verification) {
            Ok(p) => r is Ok && added(*old(store), *final(store), p),
            Err(e) => r == Err::<(), Error>(e) && *final(store) == *old(store),
        },
{
    let params = authorize(payload, verification)?;
    store.create_account_if_not_exists_and_add_identity_key(&params.account, &params.identity_key);
    Ok(())
}

} // verus!
