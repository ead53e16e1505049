//! Authorization policies as the policy endpoints exchange them.
//!
//! The policy store works on triples of subject, object and action,
//! carried over the wire as a list of three strings. Both directions of
//! that carrying are here, with a law that they invert each other.

use vstd::prelude::*;

verus! {

/// A policy rule: who may do what to which resource.
#[derive(Debug, Clone)]
pub struct PolicyParams {
    /// Who the rule speaks of.
    pub subject: String,
    /// The resource the rule speaks of.
    pub object: String,
    /// The action the rule allows.
    pub action: String,
}

/// The wire form of a policy: its three parts in order.
pub open spec fn spec_policy_to_vec(p: PolicyParams) -> Seq<Seq<char>> {
    seq![p.subject@, p.object@, p.action@]
}

/// The parts read back from a wire list: a missing entry reads as empty.
pub open spec fn spec_policy_from_vec(v: Seq<Seq<char>>) -> (Seq<char>, Seq<char>, Seq<char>) {
    (
        if v.len() > 0 {
            v[0]
        } else {
            Seq::<char>::empty()
        },
        if v.len() > 1 {
            v[1]
        } else {
            Seq::<char>::empty()
        },
        if v.len() > 2 {
            v[2]
        } else {
            Seq::<char>::empty()
        },
    )
}

impl PolicyParams {
    /// The rule as the policy store takes it: subject, object, action.
    pub fn to_vec(&self) -> (r: Vec<String>)
        ensures
            r.deep_view() == spec_policy_to_vec(*self),
    {
        let mut v: Vec<String> = Vec::new();
        v.push(self.subject.clone());
        v.push(self.object.clone());
        v.push(self.action.clone());
        proof {
            assert(v.deep_view() =~= spec_policy_to_vec(*self));
        }
        v
    }

    /// A rule read back from the policy store's list form; a missing
    /// entry reads as empty.
    pub fn from_vec(vec: Vec<String>) -> (r: PolicyParams)
        ensures
            (r.subject@, r.object@, r.action@) == spec_policy_from_vec(vec.deep_view()),
    {
        let mut vec = vec;
        let subject = if vec.len() > 0 {
            vec.remove(0)
        } else {
            String::new()
        };
        let object = if vec.len() > 0 {
            vec.remove(0)
        } else {
            String::new()
        };
        let action = if vec.len() > 0 {
            vec.remove(0)
        } else {
            String::new()
        };
        PolicyParams { subject, object, action }
    }
}

/// Law: writing a rule to its wire form and reading it back yields the
/// same subject, object and action.
pub proof fn lemma_policy_round_trip(p: PolicyParams)
    ensures
        spec_policy_from_vec(spec_policy_to_vec(p)) == (p.subject@, p.object@, p.action@),
{
}

} // verus!
