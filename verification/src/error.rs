//! The error taxonomy of the backend and its mapping to HTTP responses.

use vstd::prelude::*;
use vstd::string::StrSliceExecFns;
use vstd::string::StringExecFns;

use crate::key_vault::KeyVaultError;
use crate::user::Permission;

verus! {

/// Everything a handler can fail with. Statuses and bodies of outside
/// calls are carried as plain values.
#[derive(Debug)]
pub enum ServerError {
    /// An internal fault; the text is kept for logs only.
    Internal(String),
    /// A failure with an explicit status and a body shown to the caller.
    Api(u16, String),
    /// The caller lacks the listed permissions.
    Permission(Vec<Permission>),
    /// The caller may not act at all.
    AccessDenied,
    /// The named entity does not exist.
    NotFound(String),
    /// The bearer token failed verification.
    JwtVerification(String),
    /// The game-session service answered with a non-success status and
    /// the given body.
    GSClient(u16, String),
    /// The key vault failed.
    KeyVault(KeyVaultError),
}

/// The name of a permission tag as rendered in a response body.
pub open spec fn spec_permission_name(p: Permission) -> Seq<char> {
    match p {
        Permission::ReadAdmin => "ReadAdmin"@,
        Permission::WriteAdmin => "WriteAdmin"@,
        Permission::WriteGame => "WriteGame"@,
        Permission::WriteSystemLog => "WriteSystemLog"@,
    }
}

/// The permission tags joined with a comma and a space.
pub open spec fn spec_permission_list(ps: Seq<Permission>) -> Seq<char>
    decreases ps.len(),
{
    if ps.len() == 0 {
        Seq::empty()
    } else if ps.len() == 1 {
        spec_permission_name(ps[0])
    } else {
        spec_permission_name(ps[0]) + ", "@ + spec_permission_list(ps.skip(1))
    }
}

/// The name of a permission tag as rendered in a response body.
pub fn permission_name(p: &Permission) -> (r: &'static str)
    ensures
        r@ == spec_permission_name(*p),
{
    match p {
        Permission::ReadAdmin => "ReadAdmin",
        Permission::WriteAdmin => "WriteAdmin",
        Permission::WriteGame => "WriteGame",
        Permission::WriteSystemLog => "WriteSystemLog",
    }
}

fn permission_list_from(ps: &Vec<Permission>, i: usize) -> (r: String)
    requires
        i <= ps@.len(),
    ensures
        r@ == spec_permission_list(ps@.skip(i as int)),
    decreases ps@.len() - i,
{
    if i == ps.len() {
        proof {
            assert(ps@.skip(i as int) =~= Seq::<Permission>::empty());
        }
        String::new()
    } else if i + 1 == ps.len() {
        proof {
            assert(ps@.skip(i as int).len() == 1);
            assert(ps@.skip(i as int)[0] == ps@[i as int]);
        }
        String::from_str(permission_name(&ps[i]))
    } else {
        let mut s = String::from_str(permission_name(&ps[i]));
        s.append(", ");
        let rest = permission_list_from(ps, i + 1);
        s.append(rest.as_str());
        proof {
            assert(ps@.skip(i as int).len() > 1);
            assert(ps@.skip(i as int)[0] == ps@[i as int]);
            assert(ps@.skip(i as int).skip(1) =~= ps@.skip(i as int + 1));
        }
        s
    }
}

impl ServerError {
    /// The HTTP status the error maps to.
    pub open spec fn spec_status(self) -> int {
        match self {
            ServerError::Internal(_) => 500,
            ServerError::Api(code, _) => code as int,
            ServerError::Permission(_) => 403,
            ServerError::AccessDenied => 403,
            ServerError::NotFound(_) => 404,
            ServerError::JwtVerification(_) => 401,
            ServerError::GSClient(_, _) => 503,
            ServerError::KeyVault(_) => 500,
        }
    }

    /// The response body the error maps to. Internal detail is never
    /// shown to the caller.
    pub open spec fn spec_body(self) -> Seq<char> {
        match self {
            ServerError::Internal(_) => Seq::empty(),
            ServerError::Api(_, msg) => msg@,
            ServerError::Permission(missing) => "Missing permission: ["@ + spec_permission_list(
                missing@,
            ) + "]"@,
            ServerError::AccessDenied => "Access denied"@,
            ServerError::NotFound(entity) => entity@,
            ServerError::JwtVerification(_) => Seq::empty(),
            ServerError::GSClient(_, _) => "Upstream service unavailable"@,
            ServerError::KeyVault(_) => Seq::empty(),
        }
    }

    /// The pair an HTTP layer sends for this error: status, then body.
    pub fn response_parts(self) -> (r: (u16, String))
        ensures
            r.0 == self.spec_status(),
            r.1@ == self.spec_body(),
    {
        match self {
            ServerError::Internal(_) => (500, String::new()),
            ServerError::Api(code, msg) => (code, msg),
            ServerError::Permission(missing) => {
                let mut body = String::from_str("Missing permission: [");
                let list = permission_list_from(&missing, 0);
                body.append(list.as_str());
                body.append("]");
                proof {
                    assert(missing@.skip(0) =~= missing@);
                }
                (403, body)
            },
            ServerError::AccessDenied => (403, String::from_str("Access denied")),
            ServerError::NotFound(entity) => (404, entity),
            ServerError::JwtVerification(_) => (401, String::new()),
            ServerError::GSClient(_, _) => (503, String::from_str("Upstream service unavailable")),
            ServerError::KeyVault(_) => (500, String::new()),
        }
    }
}

} // verus!
