//! What every daemon's request interface shares: who is calling, with which
//! roles, and how a request is refused.
use vstd::prelude::*;
use crate::text::{owned, str_eq};

verus! {

/// The caller of a request and the roles it holds.
pub struct AuthContext {
    pub caller_id: String,
    pub roles: Vec<String>,
}

/// Why a request was not carried out.
#[derive(Debug)]
pub enum IpcError {
    Unauthorized { caller_id: String, required_role: String },
    UnknownMethod(String),
    InvalidPayload(String),
    Internal(String),
}

/// Whether the caller holds `role`.
pub open spec fn has_role(auth: AuthContext, role: Seq<char>) -> bool {
    exists|i: int| 0 <= i < auth.roles@.len() && #[trigger] auth.roles@[i]@ == role
}

/// Whether `r` is the answer to a caller asking for something that needs
/// `role`: admitted when it holds the role, refused as unauthorized, with
/// the caller and the role, when it does not.
pub open spec fn role_checked(auth: AuthContext, role: Seq<char>, r: Result<(), IpcError>) -> bool {
    if has_role(auth, role) {
        r is Ok
    } else {
        r matches Err(IpcError::Unauthorized { caller_id, required_role })
            && caller_id@ == auth.caller_id@ && required_role@ == role
    }
}

/// Admits the caller when it holds `role`; refuses it as unauthorized otherwise.
pub fn require_role(auth: &AuthContext, role: &str) -> (r: Result<(), IpcError>)
    ensures
        role_checked(*auth, role@, r),
{
    let mut i: usize = 0;
    while i < auth.roles.len()
        invariant
            i <= auth.roles@.len(),
            forall|j: int| 0 <= j < i ==> #[trigger] auth.roles@[j]@ != role@,
        decreases auth.roles@.len() - i,
    {
        if str_eq(auth.roles[i].as_str(), role) {
            return Ok(());
        }
        i = i + 1;
    }
    Err(IpcError::Unauthorized { caller_id: auth.caller_id.clone(), required_role: owned(role) })
}

/// Admits a call of `method`, which needs `role` (`None`: there is no such
/// method): an unknown method is refused as such, a known one as
/// `require_role` decides.
pub fn admit_method(auth: &AuthContext, method: &str, role: Option<&str>) -> (r: Result<(), IpcError>)
    ensures
        match role {
            None => r matches Err(IpcError::UnknownMethod(m)) && m@ == method@,
            Some(x) => role_checked(*auth, x@, r),
        },
{
    match role {
        None => Err(IpcError::UnknownMethod(owned(method))),
        Some(x) => require_role(auth, x),
    }
}

} // verus!
