//! The user endpoints' records and decisions.
//!
//! A stored user is held as the plain fields the endpoints touch. What
//! the endpoints decide — which fields an update changes, how stored
//! policies become the permissions of a profile — is verified here; the
//! database calls around those decisions stay with the caller.

use crate::policy::spec_policy_from_vec;
use vstd::prelude::*;

verus! {

/// The stored user fields the endpoints work with.
#[derive(Debug, Clone)]
pub struct UserRecord {
    /// Public identifier shown to clients.
    pub pid: String,
    /// Login email, unique.
    pub email: String,
    /// Display name.
    pub name: String,
    /// Hash of the password; never the password itself.
    pub password_hash: String,
    /// API key issued at creation.
    pub api_key: String,
}

impl UserRecord {
    /// The record a creation request stores: the caller supplies the
    /// already-hashed password and the freshly drawn identifiers.
    pub fn new(
        email: String,
        name: String,
        password_hash: String,
        pid: String,
        api_key: String,
    ) -> (r: UserRecord)
        ensures
            r.email@ == email@,
            r.name@ == name@,
            r.password_hash@ == password_hash@,
            r.pid@ == pid@,
            r.api_key@ == api_key@,
    {
        UserRecord { pid, email, name, password_hash, api_key }
    }

    /// Apply an update request: each given field replaces the stored one,
    /// each absent field keeps it. The password arrives already hashed.
    pub fn apply_update(
        &mut self,
        email: Option<String>,
        password_hash: Option<String>,
        name: Option<String>,
    )
        ensures
            final(self).email == (match email {
                Some(e) => e,
                None => old(self).email,
            }),
            final(self).password_hash == (match password_hash {
                Some(p) => p,
                None => old(self).password_hash,
            }),
            final(self).name == (match name {
                Some(n) => n,
                None => old(self).name,
            }),
            final(self).pid == old(self).pid,
            final(self).api_key == old(self).api_key,
    {
        if let Some(e) = email {
            self.email = e;
        }
        if let Some(p) = password_hash {
            self.password_hash = p;
        }
        if let Some(n) = name {
            self.name = n;
        }
    }
}

/// One permission of a user: a policy rule seen from the user's side.
#[derive(Debug, Clone)]
pub struct Permission {
    /// Who the permission belongs to.
    pub name: String,
    /// The resource it covers.
    pub resource: String,
    /// The action it allows.
    pub action: String,
}

impl Permission {
    /// A permission read from the policy store's list form; a missing
    /// entry reads as empty.
    pub fn from_vec(vec: Vec<String>) -> (r: Permission)
        ensures
            (r.name@, r.resource@, r.action@) == spec_policy_from_vec(vec.deep_view()),
    {
        let mut vec = vec;
        let name = if vec.len() > 0 {
            vec.remove(0)
        } else {
            String::new()
        };
        let resource = if vec.len() > 0 {
            vec.remove(0)
        } else {
            String::new()
        };
        let action = if vec.len() > 0 {
            vec.remove(0)
        } else {
            String::new()
        };
        Permission { name, resource, action }
    }
}

/// Every stored policy of a user, read into permissions, in order.
pub fn permissions_from_policies(policies: Vec<Vec<String>>) -> (r: Vec<Permission>)
    ensures
        r@.len() == policies.deep_view().len(),
        forall|i: int|
            0 <= i < r@.len() ==> (#[trigger] r@[i].name@, r@[i].resource@, r@[i].action@)
                == spec_policy_from_vec(policies.deep_view()[i]),
{
    let ghost all = policies.deep_view();
    let mut remaining = policies;
    let mut out: Vec<Permission> = Vec::new();
    while remaining.len() > 0
        invariant
            out@.len() + remaining.deep_view().len() == all.len(),
            remaining.deep_view() =~= all.skip(out@.len() as int),
            forall|i: int|
                0 <= i < out@.len() ==> (#[trigger] out@[i].name@, out@[i].resource@, out@[i].action@)
                    == spec_policy_from_vec(all[i]),
        decreases remaining.len(),
    {
        let ghost before = remaining.deep_view();
        let policy = remaining.remove(0);
        proof {
            assert(remaining.deep_view() =~= before.drop_first());
            assert(policy.deep_view() == before[0]);
            assert(before.drop_first() =~= all.skip(out@.len() as int + 1));
        }
        let permission = Permission::from_vec(policy);
        out.push(permission);
    }
    proof {
        assert(remaining.deep_view().len() == remaining@.len());
    }
    out
}

/// The profile returned for a logged-in user.
#[derive(Debug, Clone)]
pub struct CurrentResponse {
    /// Public identifier.
    pub pid: String,
    /// Display name.
    pub name: String,
    /// Login email.
    pub email: String,
    /// Every permission the policy store grants the user.
    pub permissions: Vec<Permission>,
}

/// The profile of `user` carrying `permissions`.
pub fn current_response(user: &UserRecord, permissions: Vec<Permission>) -> (r: CurrentResponse)
    ensures
        r.pid@ == user.pid@,
        r.name@ == user.name@,
        r.email@ == user.email@,
        r.permissions == permissions,
{
    CurrentResponse {
        pid: user.pid.clone(),
        name: user.name.clone(),
        email: user.email.clone(),
        permissions,
    }
}

} // verus!
