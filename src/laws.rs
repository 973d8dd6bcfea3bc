//! Properties of the two flows taken together.
use vstd::prelude::*;
use crate::error::Error;
use crate::register::{register_outcome, Cacao, CapabilityError};
use crate::store::{added, removed, IdentityStore};
use crate::unregister::{
    claims_check, claims_valid, self_certified, unregister_outcome, ClaimsPolicy, TokenSignature, UnregisterIdentityKeyClaims,
};
use crate::validation::{is_caip10_account, pair_check};

verus! {

/// Registering the same capability object twice in a row stores its pair once:
/// the second registration changes nothing, and every stored pair, this one
/// included, is held exactly once.
pub proof fn register_twice_is_idempotent(
    s0: IdentityStore,
    s1: IdentityStore,
    s2: IdentityStore,
    cacao: Cacao,
)
    requires
        s0.wf(),
        register_outcome(cacao, Ok(())) is Ok,
        added(s0, s1, register_outcome(cacao, Ok(()))->Ok_0),
        added(s1, s2, register_outcome(cacao, Ok(()))->Ok_0),
    ensures
        s2.pairs() == s0.pairs().insert(register_outcome(cacao, Ok(()))->Ok_0),
        s2.pairs() == s1.pairs(),
        s2.accounts() == s1.accounts(),
        s2.pair_count() == s1.pair_count(),
        s2.pair_count() == s2.pairs().len(),
{
    let p = register_outcome(cacao, Ok(()))->Ok_0;
    assert(s1.pairs().contains(p));
    assert(s1.pairs().insert(p) =~= s1.pairs());
    assert(s1.accounts().insert(p.0) =~= s1.accounts());
    s2.lemma_pairs_unique();
}

/// A capability object whose signature does not verify is refused with
/// `InvalidSignature`, whatever it holds (and the store is then left as it was).
pub proof fn register_refuses_bad_signature(cacao: Cacao)
    ensures
        register_outcome(cacao, Err(CapabilityError::InvalidSignature)) == Err::<
            (Seq<char>, Seq<char>),
            Error,
        >(Error::InvalidSignature),
{
}

/// A decoded token whose signature does not verify under the key that its
/// issuer names is refused with `InvalidSignature` (and the store is then left
/// as it was), whatever its other claims.
pub proof fn unregister_refuses_bad_signature(
    claims: UnregisterIdentityKeyClaims,
    signature: TokenSignature,
    policy: ClaimsPolicy,
)
    requires
        !self_certified(claims, signature),
    ensures
        unregister_outcome(Some(claims), signature, policy) == Err::<
            (Seq<char>, Seq<char>),
            Error,
        >(Error::InvalidSignature),
{
}

/// A correctly signed token that declares another action than
/// `unregister_identity` is refused with `InvalidIntent`.
pub proof fn unregister_refuses_other_intent(
    claims: UnregisterIdentityKeyClaims,
    signature: TokenSignature,
    policy: ClaimsPolicy,
)
    requires
        self_certified(claims, signature),
        claims.act@ != "unregister_identity"@,
    ensures
        unregister_outcome(Some(claims), signature, policy) == Err::<
            (Seq<char>, Seq<char>),
            Error,
        >(Error::InvalidIntent),
{
}

/// An account that is not `namespace:reference:address` fails validation with
/// the account field named, whatever the identity key.
pub proof fn malformed_account_is_named(account: Seq<char>, identity_key: Seq<char>)
    requires
        !is_caip10_account(account),
    ensures
        pair_check(account, identity_key) is Err,
        pair_check(account, identity_key)->Err_0 is Validation,
        pair_check(account, identity_key)->Err_0->Validation_0.account,
{
}

/// A decoded token whose signature verified under its issuer's key is
/// accepted exactly when its claims are valid under the policy.
pub proof fn unregister_accepts_exactly_valid_claims(
    claims: UnregisterIdentityKeyClaims,
    signature: TokenSignature,
    policy: ClaimsPolicy,
)
    requires
        self_certified(claims, signature),
    ensures
        unregister_outcome(Some(claims), signature, policy) is Ok <==> claims_valid(claims, policy),
{
}

/// A capability object that registers account `a` with key `k`, followed by a
/// token signed by that key whose `pkh` is `did:pkh:a`, whose `iss` is
/// `did:key:k` and whose claims pass the policy: the unregistration succeeds
/// on the same pair and leaves no association of `a` with `k`. If the pair was
/// not stored before the registration, the pairs are as they were before it.
pub proof fn register_then_unregister_unbinds(
    s0: IdentityStore,
    s1: IdentityStore,
    s2: IdentityStore,
    cacao: Cacao,
    claims: UnregisterIdentityKeyClaims,
    signature: TokenSignature,
    policy: ClaimsPolicy,
)
    requires
        s0.wf(),
        register_outcome(cacao, Ok(())) is Ok,
        claims.pkh@ == cacao.iss@,
        claims.iss@ == cacao.aud@,
        self_certified(claims, signature),
        claims_check(claims, policy) is Ok,
        added(s0, s1, register_outcome(cacao, Ok(()))->Ok_0),
        removed(s1, s2, unregister_outcome(Some(claims), signature, policy)->Ok_0),
    ensures
        unregister_outcome(Some(claims), signature, policy) == register_outcome(cacao, Ok(())),
        !s2.pairs().contains(register_outcome(cacao, Ok(()))->Ok_0),
        s2.pairs() == s0.pairs().remove(register_outcome(cacao, Ok(()))->Ok_0),
        !s0.pairs().contains(register_outcome(cacao, Ok(()))->Ok_0) ==> s2.pairs() == s0.pairs(),
{
    let p = register_outcome(cacao, Ok(()))->Ok_0;
    assert(unregister_outcome(Some(claims), signature, policy) == register_outcome(cacao, Ok(())));
    assert(s0.pairs().insert(p).remove(p) =~= s0.pairs().remove(p));
    if !s0.pairs().contains(p) {
        assert(s0.pairs().remove(p) =~= s0.pairs());
    }
}

/// Replaying an accepted unregistration token succeeds again and changes
/// nothing more: its outcome does not depend on the store.
pub proof fn unregister_replay_is_harmless(
    s0: IdentityStore,
    s1: IdentityStore,
    s2: IdentityStore,
    claims: UnregisterIdentityKeyClaims,
    signature: TokenSignature,
    policy: ClaimsPolicy,
)
    requires
        s0.wf(),
        unregister_outcome(Some(claims), signature, policy) is Ok,
        removed(s0, s1, unregister_outcome(Some(claims), signature, policy)->Ok_0),
        removed(s1, s2, unregister_outcome(Some(claims), signature, policy)->Ok_0),
    ensures
        s2.pairs() == s1.pairs(),
        s2.accounts() == s1.accounts(),
{
    let p = unregister_outcome(Some(claims), signature, policy)->Ok_0;
    assert(s1.pairs().remove(p) =~= s1.pairs());
}

} // verus!
