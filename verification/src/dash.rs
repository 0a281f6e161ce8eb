//! Trusted declaration of dashmap's concurrent hash map, which the key
//! vault and the page cache keep their entries in.

use vstd::prelude::*;

verus! {

/// dashmap's `DashMap`, declared so that values of it can stand in fields
/// and signatures. The map is opaque here: each use site gives its
/// contents a name and wraps the methods it calls.
#[verifier::external_type_specification]
#[verifier::external_body]
#[verifier::reject_recursive_types(K)]
#[verifier::reject_recursive_types(V)]
#[verifier::reject_recursive_types(S)]
pub struct ExDashMap<K, V, S>(dashmap::DashMap<K, V, S>);

} // verus!
