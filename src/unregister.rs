use vstd::prelude::*;
use crate::did::{did_data, extract_did_data, DID_METHOD_KEY, DID_METHOD_PKH};
use crate::error::Error;
use crate::store::{removed, IdentityStore};
use crate::validation::{
    is_caip10_account, is_identity_key, pair_check, validate_caip10_account,
    validate_identity_key, validate_pair,
};

verus! {

/// The action that an unregistration token must declare.
pub const UNREGISTER_ACTION: &'static str = "unregister_identity";

/// The body of an unregistration request: the signed token, still encoded.
pub struct UnregisterIdentityPayload {
    pub id_auth: String,
}

/// A registration pair that an unregistration token names.
pub struct UnregisterIdentityParams {
    account: String,
    identity_key: String,
}

impl UnregisterIdentityParams {
    pub closed spec fn account_view(&self) -> Seq<char> {
        self.account@
    }

    pub closed spec fn identity_key_view(&self) -> Seq<char> {
        self.identity_key@
    }

    pub fn account(&self) -> (r: &String)
        ensures
            r@ == self.account_view(),
    {
        &self.account
    }

    pub fn identity_key(&self) -> (r: &String)
        ensures
            r@ == self.identity_key_view(),
    {
        &self.identity_key
    }

    /// Checks the format of both fields, reporting each one that fails.
    pub fn validate(&self) -> (r: Result<(), Error>)
        ensures
            r == pair_check(self.account_view(), self.identity_key_view()),
    {
        validate_pair(self.account.as_str(), self.identity_key.as_str())
    }
}

/// The claims of an unregistration token.
pub struct UnregisterIdentityKeyClaims {
    /// The server that the token was issued for.
    pub aud: String,
    /// When the token expires (seconds since the epoch).
    pub exp: usize,
    /// When the token was issued (seconds since the epoch).
    pub iat: usize,
    /// `did:key:<identity key>`: the identity key, which also signed the token.
    pub iss: String,
    /// `did:pkh:<account>`: the account the key is bound to.
    pub pkh: String,
    /// The declared action.
    pub act: String,
}

/// What a server accepts of a token besides its action.
pub struct ClaimsPolicy {
    /// The current time (seconds since the epoch).
    pub now: usize,
    /// The audience the token must name, if the server checks it.
    pub audience: Option<String>,
    /// The largest age that a token may have, if the server bounds it.
    pub max_age: Option<usize>,
}

/// The outcome of checking a token's signature with a given public key.
pub struct TokenSignature {
    /// The key the signature was checked with, in multibase form.
    pub key: String,
    /// Whether the signature verified under `key`.
    pub valid: bool,
}

/// The key that verifies a token: the one its issuer names.
pub open spec fn issuer_key(claims: UnregisterIdentityKeyClaims) -> Option<Seq<char>> {
    did_data(claims.iss@, "key"@)
}

/// The token's signature verified, and under the key that its issuer names.
pub open spec fn self_certified(claims: UnregisterIdentityKeyClaims, signature: TokenSignature) -> bool {
    &&& issuer_key(claims) is Some
    &&& signature.key@ == issuer_key(claims)->Some_0
    &&& signature.valid
}

/// The first claim that the policy refuses, in the order action, audience,
/// expiry, issue time, age.
pub open spec fn claims_check(claims: UnregisterIdentityKeyClaims, policy: ClaimsPolicy) -> Result<
    (),
    Error,
> {
    if claims.act@ != "unregister_identity"@ {
        Err(Error::InvalidIntent)
    } else if policy.audience is Some && claims.aud@ != policy.audience->Some_0@ {
        Err(Error::InvalidAudience)
    } else if claims.exp <= policy.now {
        Err(Error::Expired)
    } else if claims.iat > policy.now {
        Err(Error::NotYetValid)
    } else if policy.max_age is Some && policy.now - claims.iat > policy.max_age->Some_0 {
        Err(Error::Expired)
    } else {
        Ok(())
    }
}

/// The claims are acceptable under the policy: `claims_check` passes, the
/// issuer is a did:key naming a well-formed identity key, and the account is a
/// did:pkh naming a well-formed account identifier.
pub open spec fn claims_valid(claims: UnregisterIdentityKeyClaims, policy: ClaimsPolicy) -> bool {
    &&& claims_check(claims, policy) is Ok
    &&& issuer_key(claims) is Some
    &&& is_identity_key(issuer_key(claims)->Some_0)
    &&& did_data(claims.pkh@, "pkh"@) is Some
    &&& is_caip10_account(did_data(claims.pkh@, "pkh"@)->Some_0)
}

/// The pair that an unregistration removes, or the error it ends with.
/// `decoded` is the token's claims if it could be decoded.
pub open spec fn unregister_outcome(
    decoded: Option<UnregisterIdentityKeyClaims>,
    signature: TokenSignature,
    policy: ClaimsPolicy,
) -> Result<(Seq<char>, Seq<char>), Error> {
    match decoded {
        None => Err(Error::MalformedToken),
        Some(claims) => if !self_certified(claims, signature) {
            Err(Error::InvalidSignature)
        } else {
            match claims_check(claims, policy) {
                Err(e) => Err(e),
                Ok(_) => match did_data(claims.pkh@, "pkh"@) {
                    None => Err(Error::UnsupportedDidMethod),
                    Some(account) => {
                        let key = issuer_key(claims)->Some_0;
                        match pair_check(account, key) {
                            Ok(_) => Ok((account, key)),
                            Err(e) => Err(e),
                        }
                    },
                },
            }
        },
    }
}

impl UnregisterIdentityKeyClaims {
    /// Whether the token declares the unregistration action; the other
    /// claims are not looked at.
    pub fn declares_unregister_action(&self) -> (r: bool)
        ensures
            r == (self.act@ == "unregister_identity"@),
    {
        let expected = String::from_str(UNREGISTER_ACTION);
        self.act == expected
    }

    /// Whether every claim is acceptable under the policy: action, audience,
    /// validity window, age, and the DID forms of issuer and account.
    pub fn is_valid(&self, policy: &ClaimsPolicy) -> (r: bool)
        ensures
            r == claims_valid(*self, *policy),
    {
        proof {
            reveal_strlit("key");
            reveal_strlit("pkh");
        }
        let checked = self.check(policy).is_ok();
        let key = extract_did_data(self.iss.as_str(), DID_METHOD_KEY);
        let account = extract_did_data(self.pkh.as_str(), DID_METHOD_PKH);
        match (key, account) {
            (Ok(key), Ok(account)) => checked && validate_identity_key(key.as_str())
                && validate_caip10_account(account.as_str()),
            _ => false,
        }
    }

    /// The issuer, whose key verifies the token.
    pub fn get_iss(&self) -> (r: &str)
        ensures
            r@ == self.iss@,
    {
        self.iss.as_str()
    }

    /// The key to check the token's signature with, read from the still
    /// untrusted issuer; a token whose issuer is no key DID cannot verify.
    pub fn verification_key(&self) -> (r: Result<String, Error>)
        ensures
            match issuer_key(*self) {
                Some(k) => r is Ok && r->Ok_0@ == k,
                None => r == Err::<String, Error>(Error::InvalidSignature),
            },
    {
        proof {
            reveal_strlit("key");
        }
        match extract_did_data(self.get_iss(), DID_METHOD_KEY) {
            Ok(k) => Ok(k),
            Err(_) => Err(Error::InvalidSignature),
        }
    }

    /// Checks the claims against the policy; see `claims_check`.
    pub fn check(&self, policy: &ClaimsPolicy) -> (r: Result<(), Error>)
        ensures
            r == claims_check(*self, *policy),
    {
        if !self.declares_unregister_action() {
            return Err(Error::InvalidIntent);
        }
        if let Some(audience) = &policy.audience {
            if self.aud != *audience {
                return Err(Error::InvalidAudience);
            }
        }
        if self.exp <= policy.now {
            return Err(Error::Expired);
        }
        if self.iat > policy.now {
            return Err(Error::NotYetValid);
        }
        if let Some(max_age) = policy.max_age {
            if policy.now - self.iat > max_age {
                return Err(Error::Expired);
            }
        }
        Ok(())
    }
}

/// Trusts a token's claims only once its signature has verified under the key
/// that its issuer names, then derives and checks the pair it names.
pub fn authorize(
    decoded: Option<UnregisterIdentityKeyClaims>,
    signature: TokenSignature,
    policy: &ClaimsPolicy,
) -> (r: Result<UnregisterIdentityParams, Error>)
    ensures
        match unregister_outcome(decoded, signature, *policy) {
            Ok((account, key)) => r is Ok && r->Ok_0.account_view() == account
                && r->Ok_0.identity_key_view() == key,
            Err(e) => r == Err::<UnregisterIdentityParams, Error>(e),
        },
{
    proof {
        reveal_strlit("pkh");
    }
    let claims = match decoded {
        Some(c) => c,
        None => return Err(Error::MalformedToken),
    };
    let identity_key = claims.verification_key()?;
    if !(signature.valid && signature.key == identity_key) {
        return Err(Error::InvalidSignature);
    }
    claims.check(policy)?;
    let account = extract_did_data(claims.pkh.as_str(), DID_METHOD_PKH)?;
    let params = UnregisterIdentityParams { account, identity_key };
    params.validate()?;
    Ok(params)
}

/// Unregistration: unbinds the identity key that a self-certifying token names
/// from its account. Nothing changes unless every check passes; a pair that is
/// already unbound is no error, so a replayed token succeeds again.
pub fn handler(
    store: &mut IdentityStore,
    decoded: Option<UnregisterIdentityKeyClaims>,
    signature: TokenSignature,
    policy: &ClaimsPolicy,
) -> (r: Result<(), Error>)
    requires
        old(store).wf(),
    ensures
        final(store).wf(),
        match unregister_outcome(decoded, signature, *policy) {
            Ok(p) => r is Ok && removed(*old(store), *final(store), p),
            Err(e) => r == Err::<(), Error>(e) && *final(store) == *old(store),
        },
{
    let params = authorize(decoded, signature, policy)?;
    store.remove_identity_key(&params.account, &params.identity_key);
    Ok(())
}

} // verus!
