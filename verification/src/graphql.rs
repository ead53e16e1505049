//! The read-only gate in front of the GraphQL schema.
//!
//! On the public demo site the schema answers queries but refuses any
//! mutation. Whether a parsed request falls under that refusal is decided
//! here; the schema building and execution stay with the GraphQL library.

use vstd::prelude::*;

verus! {

/// The kind of one operation of a parsed GraphQL document.
#[derive(Debug, Clone, Copy, PartialEq, Eq, Structural)]
pub enum OperationKind {
    Query,
    Mutation,
    Subscription,
}

/// Whether any operation of a document is a mutation.
pub fn has_mutation(operations: &Vec<OperationKind>) -> (r: bool)
    ensures
        r == exists|i: int| 0 <= i < operations@.len() && operations@[i] is Mutation,
{
    let n = operations.len();
    for i in 0..n
        invariant
            n == operations@.len(),
            forall|j: int| 0 <= j < i ==> !(operations@[j] is Mutation),
    {
        if let OperationKind::Mutation = operations[i] {
            return true;
        }
    }
    false
}

/// Whether the read-only gate refuses a document: only on the demo site,
/// and only when the document mutates.
pub fn readonly_rejects(demo_site: bool, operations: &Vec<OperationKind>) -> (r: bool)
    ensures
        r == (demo_site && exists|i: int|
            0 <= i < operations@.len() && operations@[i] is Mutation),
{
    demo_site && has_mutation(operations)
}

/// The message returned when the read-only gate refuses a document.
pub fn readonly_error_message() -> (r: String)
    ensures
        r@ == "Demo Site is Readonly, to test the full CRUD please run the demo on your local machine"@,
{
    "Demo Site is Readonly, to test the full CRUD please run the demo on your local machine".to_owned()
}

} // verus!
