//! Trusted declaration of serde_json's value type, which the library
//! carries opaquely: log metadata and session payloads pass through it
//! untouched.

use vstd::prelude::*;

verus! {

/// serde_json's `Value`, declared so that values of it can stand in
/// fields and signatures. The library never looks inside one.
#[verifier::external_type_specification]
#[verifier::external_body]
pub struct ExJsonValue(serde_json::Value);

} // verus!
