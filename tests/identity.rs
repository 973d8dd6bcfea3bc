use identity_keys::did::{extract_did_data, DID_METHOD_KEY, DID_METHOD_PKH};
use identity_keys::error::{Error, InvalidFields};
use identity_keys::register::{self, Cacao, CapabilityError, RegisterIdentityPayload};
use identity_keys::store::IdentityStore;
use identity_keys::unregister::{
    self, ClaimsPolicy, TokenSignature, UnregisterIdentityKeyClaims,
};
use identity_keys::validation::{validate_caip10_account, validate_identity_key, validate_pair};

const ACCOUNT: &str = "eip155:1:0xabc1234567890def";
const KEY: &str = "z6MkhaXgBZDvotDkL5257faiztiGiC2QtKLGpbnnEGta2doK";

fn s(x: &str) -> String {
    x.to_string()
}

fn cacao_for(account: &str, key: &str) -> RegisterIdentityPayload {
    RegisterIdentityPayload {
        cacao: Cacao { iss: format!("did:pkh:{}", account), aud: format!("did:key:{}", key) },
    }
}

fn claims(act: &str) -> UnregisterIdentityKeyClaims {
    UnregisterIdentityKeyClaims {
        aud: s("https://keys.example.com"),
        exp: 2000,
        iat: 1000,
        iss: format!("did:key:{}", KEY),
        pkh: format!("did:pkh:{}", ACCOUNT),
        act: s(act),
    }
}

fn good_signature() -> TokenSignature {
    TokenSignature { key: s(KEY), valid: true }
}

fn policy() -> ClaimsPolicy {
    ClaimsPolicy { now: 1500, audience: None, max_age: None }
}

fn registered_store() -> IdentityStore {
    let mut store = IdentityStore::new();
    assert_eq!(register::handler(&mut store, cacao_for(ACCOUNT, KEY), Ok(())), Ok(()));
    store
}

#[test]
fn account_grammar_accepts_caip10() {
    assert!(validate_caip10_account(ACCOUNT));
    assert!(validate_caip10_account("cosmos:cosmoshub-3:cosmos1t2uflqwqe0fsj0shcfkrvpukewcw40yjj6hdc0"));
    assert!(validate_caip10_account("bip122:000000000019d6689c085ae165831e93:128Lkh3S7CkDTBZ8W7BbpsN3YYizJMp8p6"));
    assert!(validate_caip10_account("abcdefgh:a:b"));
    assert!(validate_caip10_account("abc:A-_z9:x.%-Y"));
}

#[test]
fn account_grammar_rejects_malformed() {
    for bad in ["", "eip155", "eip155:1", "eip155:1:", ":1:0xabc", "eip155::0xabc", "ab:1:0xabc",
        "abcdefghi:1:0xabc", "EIP155:1:0xabc", "eip155:1:0xabc:extra", "eip155:1/2:0xabc",
        "eip155:1:0x abc"]
    {
        assert!(!validate_caip10_account(bad), "{}", bad);
    }
}

#[test]
fn account_grammar_segment_bounds() {
    let reference_32 = "r".repeat(32);
    let reference_33 = "r".repeat(33);
    let address_128 = "a".repeat(128);
    let address_129 = "a".repeat(129);
    assert!(validate_caip10_account(&format!("eip155:{}:0x", reference_32)));
    assert!(!validate_caip10_account(&format!("eip155:{}:0x", reference_33)));
    assert!(validate_caip10_account(&format!("eip155:1:{}", address_128)));
    assert!(!validate_caip10_account(&format!("eip155:1:{}", address_129)));
}

#[test]
fn identity_key_grammar() {
    assert!(validate_identity_key(KEY));
    assert!(validate_identity_key("z1"));
    assert!(!validate_identity_key(""));
    assert!(!validate_identity_key("z"));
    assert!(!validate_identity_key("did:key:z6Mk"));
    assert!(!validate_identity_key("u6Mkhat"));
    assert!(!validate_identity_key("z6Mk0abc"));
    assert!(!validate_identity_key("z6MkOabc"));
    assert!(!validate_identity_key("z6MkIabc"));
    assert!(!validate_identity_key("z6Mklabc"));
}

#[test]
fn pair_validation_names_every_failing_field() {
    assert_eq!(validate_pair(ACCOUNT, KEY), Ok(()));
    for bad in ["", "eip155", "eip155:1"] {
        assert_eq!(
            validate_pair(bad, KEY),
            Err(Error::Validation(InvalidFields { account: true, identity_key: false }))
        );
    }
    assert_eq!(
        validate_pair(ACCOUNT, "nokey"),
        Err(Error::Validation(InvalidFields { account: false, identity_key: true }))
    );
    assert_eq!(
        validate_pair("eip155", "nokey"),
        Err(Error::Validation(InvalidFields { account: true, identity_key: true }))
    );
}

#[test]
fn did_data_strips_the_method_prefix() {
    assert_eq!(extract_did_data("did:pkh:eip155:1:0xabc", DID_METHOD_PKH), Ok(s("eip155:1:0xabc")));
    assert_eq!(extract_did_data("did:key:z6Mk", DID_METHOD_KEY), Ok(s("z6Mk")));
    assert_eq!(extract_did_data("did:key:", DID_METHOD_KEY), Ok(s("")));
    assert_eq!(extract_did_data("did:key:z6Mk", DID_METHOD_PKH), Err(Error::UnsupportedDidMethod));
    assert_eq!(extract_did_data("did:key", DID_METHOD_KEY), Err(Error::UnsupportedDidMethod));
    assert_eq!(extract_did_data("z6Mk", DID_METHOD_KEY), Err(Error::UnsupportedDidMethod));
    assert_eq!(extract_did_data("", DID_METHOD_KEY), Err(Error::UnsupportedDidMethod));
}

#[test]
fn register_binds_the_pair() {
    let store = registered_store();
    assert_eq!(store.len(), 1);
    assert!(store.has_account(&s(ACCOUNT)));
    assert!(store.has_identity_key(&s(ACCOUNT), &s(KEY)));
}

#[test]
fn register_twice_keeps_one_association() {
    let mut store = registered_store();
    assert_eq!(register::handler(&mut store, cacao_for(ACCOUNT, KEY), Ok(())), Ok(()));
    assert_eq!(store.len(), 1);
    assert!(store.has_identity_key(&s(ACCOUNT), &s(KEY)));
}

#[test]
fn register_second_key_for_same_account() {
    let mut store = registered_store();
    assert_eq!(register::handler(&mut store, cacao_for(ACCOUNT, "z2"), Ok(())), Ok(()));
    assert_eq!(store.len(), 2);
    assert!(store.has_identity_key(&s(ACCOUNT), &s("z2")));
}

#[test]
fn register_with_invalid_signature_stores_nothing() {
    let mut store = IdentityStore::new();
    let r = register::handler(
        &mut store,
        cacao_for(ACCOUNT, KEY),
        Err(CapabilityError::InvalidSignature),
    );
    assert_eq!(r, Err(Error::InvalidSignature));
    assert_eq!(store.len(), 0);
    assert!(!store.has_account(&s(ACCOUNT)));
}

#[test]
fn register_outside_validity_window() {
    let mut store = IdentityStore::new();
    let r = register::handler(&mut store, cacao_for(ACCOUNT, KEY), Err(CapabilityError::Expired));
    assert_eq!(r, Err(Error::Expired));
    let r = register::handler(&mut store, cacao_for(ACCOUNT, KEY), Err(CapabilityError::NotYetValid));
    assert_eq!(r, Err(Error::NotYetValid));
    assert_eq!(store.len(), 0);
}

#[test]
fn register_malformed_capability() {
    let mut store = IdentityStore::new();
    let payload = RegisterIdentityPayload {
        cacao: Cacao { iss: format!("did:pkh:{}", ACCOUNT), aud: s(KEY) },
    };
    assert_eq!(register::handler(&mut store, payload, Ok(())), Err(Error::MalformedCapability));
    let payload = RegisterIdentityPayload {
        cacao: Cacao { iss: s(ACCOUNT), aud: format!("did:key:{}", KEY) },
    };
    assert_eq!(register::handler(&mut store, payload, Ok(())), Err(Error::MalformedCapability));
    assert_eq!(store.len(), 0);
}

#[test]
fn register_invalid_account_format() {
    let mut store = IdentityStore::new();
    let r = register::handler(&mut store, cacao_for("eip155:1", KEY), Ok(()));
    assert_eq!(r, Err(Error::Validation(InvalidFields { account: true, identity_key: false })));
    let r = register::handler(&mut store, cacao_for("eip155", "bad"), Ok(()));
    assert_eq!(r, Err(Error::Validation(InvalidFields { account: true, identity_key: true })));
    assert_eq!(store.len(), 0);
}

#[test]
fn authorize_derives_the_pair() {
    let params = register::authorize(cacao_for(ACCOUNT, KEY), Ok(())).ok().unwrap();
    assert_eq!(params.account(), ACCOUNT);
    assert_eq!(params.identity_key(), KEY);
    assert_eq!(params.cacao().aud, format!("did:key:{}", KEY));
    assert_eq!(params.validate(), Ok(()));
}

#[test]
fn register_then_unregister_leaves_nothing() {
    let mut store = registered_store();
    let r = unregister::handler(&mut store, Some(claims("unregister_identity")), good_signature(), &policy());
    assert_eq!(r, Ok(()));
    assert_eq!(store.len(), 0);
    assert!(!store.has_identity_key(&s(ACCOUNT), &s(KEY)));
    assert!(store.has_account(&s(ACCOUNT)));
}

#[test]
fn unregister_replay_still_succeeds() {
    let mut store = registered_store();
    let first = unregister::handler(&mut store, Some(claims("unregister_identity")), good_signature(), &policy());
    let second = unregister::handler(&mut store, Some(claims("unregister_identity")), good_signature(), &policy());
    assert_eq!(first, Ok(()));
    assert_eq!(second, Ok(()));
    assert_eq!(store.len(), 0);
}

#[test]
fn unregister_keeps_other_keys() {
    let mut store = registered_store();
    assert_eq!(register::handler(&mut store, cacao_for(ACCOUNT, "z2"), Ok(())), Ok(()));
    let r = unregister::handler(&mut store, Some(claims("unregister_identity")), good_signature(), &policy());
    assert_eq!(r, Ok(()));
    assert_eq!(store.len(), 1);
    assert!(store.has_identity_key(&s(ACCOUNT), &s("z2")));
}

#[test]
fn unregister_rejects_signature_not_from_issuer() {
    let mut store = registered_store();
    let wrong_key = TokenSignature { key: s("z6MkOther"), valid: true };
    let r = unregister::handler(&mut store, Some(claims("unregister_identity")), wrong_key, &policy());
    assert_eq!(r, Err(Error::InvalidSignature));
    let failed = TokenSignature { key: s(KEY), valid: false };
    let r = unregister::handler(&mut store, Some(claims("unregister_identity")), failed, &policy());
    assert_eq!(r, Err(Error::InvalidSignature));
    let mut not_a_key = claims("unregister_identity");
    not_a_key.iss = format!("did:pkh:{}", ACCOUNT);
    let r = unregister::handler(&mut store, Some(not_a_key), good_signature(), &policy());
    assert_eq!(r, Err(Error::InvalidSignature));
    assert_eq!(store.len(), 1);
}

#[test]
fn unregister_rejects_other_intent() {
    let mut store = registered_store();
    let r = unregister::handler(&mut store, Some(claims("register_identity")), good_signature(), &policy());
    assert_eq!(r, Err(Error::InvalidIntent));
    let r = unregister::handler(&mut store, Some(claims("")), good_signature(), &policy());
    assert_eq!(r, Err(Error::InvalidIntent));
    assert_eq!(store.len(), 1);
}

#[test]
fn unregister_rejects_undecodable_token() {
    let mut store = registered_store();
    let r = unregister::handler(&mut store, None, good_signature(), &policy());
    assert_eq!(r, Err(Error::MalformedToken));
    assert_eq!(store.len(), 1);
}

#[test]
fn unregister_rejects_non_pkh_account() {
    let mut store = registered_store();
    let mut c = claims("unregister_identity");
    c.pkh = s(ACCOUNT);
    let r = unregister::handler(&mut store, Some(c), good_signature(), &policy());
    assert_eq!(r, Err(Error::UnsupportedDidMethod));
    assert_eq!(store.len(), 1);
}

#[test]
fn unregister_rejects_malformed_account() {
    let mut store = registered_store();
    let mut c = claims("unregister_identity");
    c.pkh = s("did:pkh:eip155:1");
    let r = unregister::handler(&mut store, Some(c), good_signature(), &policy());
    assert_eq!(r, Err(Error::Validation(InvalidFields { account: true, identity_key: false })));
    assert_eq!(store.len(), 1);
}

#[test]
fn unregister_checks_time_window_and_audience() {
    let mut store = registered_store();
    let expired = ClaimsPolicy { now: 2000, audience: None, max_age: None };
    assert_eq!(
        unregister::handler(&mut store, Some(claims("unregister_identity")), good_signature(), &expired),
        Err(Error::Expired)
    );
    let early = ClaimsPolicy { now: 999, audience: None, max_age: None };
    assert_eq!(
        unregister::handler(&mut store, Some(claims("unregister_identity")), good_signature(), &early),
        Err(Error::NotYetValid)
    );
    let too_old = ClaimsPolicy { now: 1500, audience: None, max_age: Some(499) };
    assert_eq!(
        unregister::handler(&mut store, Some(claims("unregister_identity")), good_signature(), &too_old),
        Err(Error::Expired)
    );
    let other_server = ClaimsPolicy { now: 1500, audience: Some(s("https://other.example.com")), max_age: None };
    assert_eq!(
        unregister::handler(&mut store, Some(claims("unregister_identity")), good_signature(), &other_server),
        Err(Error::InvalidAudience)
    );
    assert_eq!(store.len(), 1);
    let strict = ClaimsPolicy { now: 1500, audience: Some(s("https://keys.example.com")), max_age: Some(500) };
    assert_eq!(
        unregister::handler(&mut store, Some(claims("unregister_identity")), good_signature(), &strict),
        Ok(())
    );
    assert_eq!(store.len(), 0);
}

#[test]
fn claims_accessors() {
    let c = claims("unregister_identity");
    assert!(c.declares_unregister_action());
    assert!(!claims("unregister").declares_unregister_action());
    assert_eq!(c.get_iss(), format!("did:key:{}", KEY));
    assert_eq!(c.verification_key(), Ok(s(KEY)));
    let mut bad = claims("unregister_identity");
    bad.iss = s("did:web:example.com");
    assert_eq!(bad.verification_key(), Err(Error::InvalidSignature));
    assert_eq!(c.check(&policy()), Ok(()));
}

#[test]
fn unregister_authorize_derives_the_pair() {
    let params = unregister::authorize(Some(claims("unregister_identity")), good_signature(), &policy())
        .ok()
        .unwrap();
    assert_eq!(params.account(), ACCOUNT);
    assert_eq!(params.identity_key(), KEY);
    assert_eq!(params.validate(), Ok(()));
}

#[test]
fn claims_validity_covers_every_claim() {
    let ok = claims("unregister_identity");
    assert!(ok.is_valid(&policy()));
    assert!(!claims("unregister").is_valid(&policy()));
    let mut expired = claims("unregister_identity");
    expired.exp = 0;
    assert!(!expired.is_valid(&policy()));
    let mut future = claims("unregister_identity");
    future.iat = 1600;
    assert!(!future.is_valid(&policy()));
    let audience = ClaimsPolicy { now: 1500, audience: Some(s("https://other.example.com")), max_age: None };
    assert!(!ok.is_valid(&audience));
    let mut not_key = claims("unregister_identity");
    not_key.iss = format!("did:pkh:{}", ACCOUNT);
    assert!(!not_key.is_valid(&policy()));
    let mut bad_key = claims("unregister_identity");
    bad_key.iss = s("did:key:notbase58");
    assert!(!bad_key.is_valid(&policy()));
    let mut not_pkh = claims("unregister_identity");
    not_pkh.pkh = s(ACCOUNT);
    assert!(!not_pkh.is_valid(&policy()));
    let mut bad_account = claims("unregister_identity");
    bad_account.pkh = s("did:pkh:eip155:1");
    assert!(!bad_account.is_valid(&policy()));
}
