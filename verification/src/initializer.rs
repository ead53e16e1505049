//! The policy-enforcer initializer's identity.
//!
//! The enforcer itself — model file, database adapter, router layer — is
//! wired up by the caller at boot; the initializer's registered name is
//! the part that can be stated.

use vstd::prelude::*;

verus! {

/// Registers the policy enforcer on the router at boot.
#[derive(Debug, Clone, Copy)]
pub struct CasbinEnforcerInitializer;

impl CasbinEnforcerInitializer {
    /// The name the initializer registers under.
    pub fn name(&self) -> (r: String)
        ensures
            r@ == "casbin-enforcer"@,
    {
        "casbin-enforcer".to_owned()
    }
}

/// The title the API documentation announces.
pub fn api_doc_title() -> (r: String)
    ensures
        r@ == "SeaORM Pro"@,
{
    "SeaORM Pro".to_owned()
}

/// The description the API documentation announces.
pub fn api_doc_description() -> (r: String)
    ensures
        r@ == "Some REST API for SeaORM Pro."@,
{
    "Some REST API for SeaORM Pro.".to_owned()
}

} // verus!
