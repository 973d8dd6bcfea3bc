//! Binding of blockchain accounts to identity keys.
//!
//! Registration is authorised by a signed capability object, unregistration by a
//! self-certifying token whose issuer is the key that signed it. Both flows
//! derive an `(account, identity key)` pair, check its format and only then
//! touch the association store.
pub mod error;
pub mod did;
pub mod validation;
pub mod store;
pub mod register;
pub mod unregister;
pub mod laws;
