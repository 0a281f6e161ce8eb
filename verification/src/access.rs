//! The per-endpoint authorization gates: who may call what, and which
//! error a refused caller gets.

use vstd::prelude::*;
use vstd::string::StringExecFns;

use crate::auth::Claims;
use crate::error::ServerError;
use crate::user::{Permission, SubjectId};

verus! {

/// The user behind a request, when there is one: integrations carry no
/// user identifier.
pub fn user_subject(subject: &SubjectId) -> (r: Option<u128>)
    ensures
        r == (match *subject {
            SubjectId::PseudoUser(id) => Some(id),
            SubjectId::BaseUser(id) => Some(id),
            SubjectId::Integration(_) => None::<u128>,
        }),
{
    match subject {
        SubjectId::PseudoUser(id) => Some(*id),
        SubjectId::BaseUser(id) => Some(*id),
        SubjectId::Integration(_) => None,
    }
}

/// Whether the subject is a registered user, and which.
pub fn base_user_subject(subject: &SubjectId) -> (r: Option<u128>)
    ensures
        r == (match *subject {
            SubjectId::BaseUser(id) => Some(id),
            _ => None::<u128>,
        }),
{
    match subject {
        SubjectId::BaseUser(id) => Some(*id),
        _ => None,
    }
}

/// Whether the subject is a trusted integration.
pub fn is_integration(subject: &SubjectId) -> (r: bool)
    ensures
        r == (subject matches SubjectId::Integration(_)),
{
    match subject {
        SubjectId::Integration(_) => true,
        _ => false,
    }
}

/// Proves that the missing set of a single-permission check is exactly
/// that permission, and builds the matching error.
fn single_permission_error(claims: &Claims, needed: Permission) -> (r: Result<(), ServerError>)
    ensures
        claims.spec_has_permission(needed) <==> r is Ok,
        r matches Err(e) ==> (e matches ServerError::Permission(m) && m@ == seq![needed]),
{
    let mut required: Vec<Permission> = Vec::new();
    required.push(needed);
    proof {
        assert(required@ =~= seq![needed]);
        assert(required@[0] == needed);
        assert(required@.contains(needed));
    }
    match claims.missing_permission(&required) {
        None => Ok(()),
        Some(missing) => {
            proof {
                assert(missing@.contains(needed));
                assert forall|i: int| 0 <= i < missing@.len() implies missing@[i] == needed by {
                    assert(missing@.contains(missing@[i]));
                    assert(required@.contains(missing@[i]));
                    let a = choose|a: int|
                        0 <= a < required@.len() && #[trigger] required@[a] == missing@[i];
                }
                if missing@.len() > 1 {
                    assert(missing@[0] == needed && missing@[1] == needed);
                }
                assert(missing@ =~= seq![needed]);
            }
            Err(ServerError::Permission(missing))
        },
    }
}

/// Gate of game deletion: a registered user holding the administrative
/// write permission; guests and integrations are denied outright, and a
/// user without the permission learns exactly which one is missing.
pub fn gate_delete_game(subject: &SubjectId, claims: &Claims) -> (r: Result<(), ServerError>)
    ensures
        subject matches SubjectId::Integration(_) ==> (r matches Err(e) && e
            is AccessDenied),
        subject matches SubjectId::PseudoUser(_) ==> (r matches Err(e) && e is AccessDenied),
        subject matches SubjectId::BaseUser(_) ==> {
            &&& (r is Ok <==> claims.spec_has_permission(Permission::WriteAdmin))
            &&& (r matches Err(e) ==> (e matches ServerError::Permission(m) && m@ == seq![
                Permission::WriteAdmin,
            ]))
        },
{
    match subject {
        SubjectId::Integration(_) | SubjectId::PseudoUser(_) => Err(ServerError::AccessDenied),
        SubjectId::BaseUser(_) => single_permission_error(claims, Permission::WriteAdmin),
    }
}

/// Gate of the endpoints an integration may not call at all: any user
/// passes, an integration is denied.
pub fn gate_no_integration(subject: &SubjectId) -> (r: Result<(), ServerError>)
    ensures
        r is Ok <==> !(subject matches SubjectId::Integration(_)),
        r matches Err(e) ==> e is AccessDenied,
{
    if is_integration(subject) {
        Err(ServerError::AccessDenied)
    } else {
        Ok(())
    }
}

/// Gate of session persistence and key release: only an integration
/// holding the game-write permission may call.
pub fn gate_integration_game_write(subject: &SubjectId, claims: &Claims) -> (r: Result<
    (),
    ServerError,
>)
    ensures
        !(subject matches SubjectId::Integration(_)) ==> (r matches Err(e) && e is AccessDenied),
        subject matches SubjectId::Integration(_) ==> {
            &&& (r is Ok <==> claims.spec_has_permission(Permission::WriteGame))
            &&& (r matches Err(e) ==> (e matches ServerError::Permission(m) && m@ == seq![
                Permission::WriteGame,
            ]))
        },
{
    if !is_integration(subject) {
        Err(ServerError::AccessDenied)
    } else {
        single_permission_error(claims, Permission::WriteGame)
    }
}

/// Gate of administrative reads: a registered user holding the
/// administrative read permission.
pub fn gate_admin_read(subject: &SubjectId, claims: &Claims) -> (r: Result<(), ServerError>)
    ensures
        !(subject matches SubjectId::BaseUser(_)) ==> (r matches Err(e) && e is AccessDenied),
        subject matches SubjectId::BaseUser(_) ==> {
            &&& (r is Ok <==> claims.spec_has_permission(Permission::ReadAdmin))
            &&& (r matches Err(e) ==> (e matches ServerError::Permission(m) && m@ == seq![
                Permission::ReadAdmin,
            ]))
        },
{
    match subject {
        SubjectId::BaseUser(_) => single_permission_error(claims, Permission::ReadAdmin),
        _ => Err(ServerError::AccessDenied),
    }
}

/// Gate of administrative writes: a registered user holding the
/// administrative write permission.
pub fn gate_admin_write(subject: &SubjectId, claims: &Claims) -> (r: Result<(), ServerError>)
    ensures
        !(subject matches SubjectId::BaseUser(_)) ==> (r matches Err(e) && e is AccessDenied),
        subject matches SubjectId::BaseUser(_) ==> {
            &&& (r is Ok <==> claims.spec_has_permission(Permission::WriteAdmin))
            &&& (r matches Err(e) ==> (e matches ServerError::Permission(m) && m@ == seq![
                Permission::WriteAdmin,
            ]))
        },
{
    match subject {
        SubjectId::BaseUser(_) => single_permission_error(claims, Permission::WriteAdmin),
        _ => Err(ServerError::AccessDenied),
    }
}

/// Gate of log creation: only an integration holding the log-write
/// permission; any user is denied outright.
pub fn gate_create_syslog(subject: &SubjectId, claims: &Claims) -> (r: Result<(), ServerError>)
    ensures
        !(subject matches SubjectId::Integration(_)) ==> (r matches Err(e) && e is AccessDenied),
        subject matches SubjectId::Integration(_) ==> {
            &&& (r is Ok <==> claims.spec_has_permission(Permission::WriteSystemLog))
            &&& (r matches Err(e) ==> (e matches ServerError::Permission(m) && m@ == seq![
                Permission::WriteSystemLog,
            ]))
        },
{
    if !is_integration(subject) {
        Err(ServerError::AccessDenied)
    } else {
        single_permission_error(claims, Permission::WriteSystemLog)
    }
}

/// How a user-patch request proceeds.
#[derive(Debug, Clone, Copy, PartialEq, Eq, Structural)]
pub enum PatchDecision {
    /// The caller is no registered user.
    Denied,
    /// An administrator patches another user's record.
    PatchOther(u128),
    /// The request carries nothing to change; nothing happens.
    NoOp,
    /// The caller patches their own record.
    PatchSelf(u128),
}

/// Decides a user-patch request: an administrator aiming at someone
/// else patches that record; an empty request does nothing; otherwise
/// the caller patches themselves.
pub fn patch_user_decision(
    subject: &SubjectId,
    claims: &Claims,
    target: u128,
    request_empty: bool,
) -> (r: PatchDecision)
    ensures
        !(subject matches SubjectId::BaseUser(_)) ==> r == PatchDecision::Denied,
        (*subject) matches SubjectId::BaseUser(uid) ==> r == (if claims.spec_has_permission(
            Permission::WriteAdmin,
        ) && target != uid {
            PatchDecision::PatchOther(target)
        } else if request_empty {
            PatchDecision::NoOp
        } else {
            PatchDecision::PatchSelf(uid)
        }),
{
    let uid = match subject {
        SubjectId::BaseUser(uid) => *uid,
        _ => {
            return PatchDecision::Denied;
        },
    };
    let mut required: Vec<Permission> = Vec::new();
    required.push(Permission::WriteAdmin);
    proof {
        assert(required@[0] == Permission::WriteAdmin);
        assert(required@.contains(Permission::WriteAdmin));
        assert(required@.len() == 1);
    }
    let is_admin = claims.missing_permission(&required).is_none();
    proof {
        if is_admin {
            assert(claims.spec_has_permission(required@[0]));
        }
    }
    if is_admin && target != uid {
        PatchDecision::PatchOther(target)
    } else if request_empty {
        PatchDecision::NoOp
    } else {
        PatchDecision::PatchSelf(uid)
    }
}

/// Tags a user with the role their claims give them: both
/// administrative permissions make an administrator.
pub fn wrap_user_role(claims: &Claims, user: crate::user::BaseUser) -> (r: crate::user::UserRole)
    ensures
        claims.spec_has_permission(Permission::ReadAdmin) && claims.spec_has_permission(
            Permission::WriteAdmin,
        ) ==> r == crate::user::UserRole::Admin(user),
        !(claims.spec_has_permission(Permission::ReadAdmin) && claims.spec_has_permission(
            Permission::WriteAdmin,
        )) ==> r == crate::user::UserRole::BaseUser(user),
{
    let mut required: Vec<Permission> = Vec::new();
    required.push(Permission::ReadAdmin);
    required.push(Permission::WriteAdmin);
    proof {
        assert(required@[0] == Permission::ReadAdmin);
        assert(required@[1] == Permission::WriteAdmin);
        assert(required@.contains(Permission::ReadAdmin));
        assert(required@.contains(Permission::WriteAdmin));
    }
    match claims.missing_permission(&required) {
        None => {
            proof {
                assert(claims.spec_has_permission(required@[0]));
                assert(claims.spec_has_permission(required@[1]));
            }
            crate::user::UserRole::Admin(user)
        },
        Some(missing) => {
            proof {
                let q = missing@[0];
                assert(missing@.contains(q));
                assert(required@.contains(q) && !claims.spec_has_permission(q));
            }
            crate::user::UserRole::BaseUser(user)
        },
    }
}

/// How a guest-registration request proceeds.
#[derive(Debug, Clone, Copy, PartialEq, Eq, Structural)]
pub enum PseudoUserDecision {
    /// The presented identifier is already registered: answer with it
    /// as an existing guest.
    UseExisting(u128),
    /// No identifier, or an unknown one: a fresh guest is created.
    CreateNew,
}

/// Decides a guest-registration request from the presented identifier
/// and whether it is already registered.
pub fn pseudo_user_decision(requested: Option<u128>, known: bool) -> (r: PseudoUserDecision)
    ensures
        r == (match requested {
            Some(id) => if known {
                PseudoUserDecision::UseExisting(id)
            } else {
                PseudoUserDecision::CreateNew
            },
            None => PseudoUserDecision::CreateNew,
        }),
{
    match requested {
        Some(id) => {
            if known {
                PseudoUserDecision::UseExisting(id)
            } else {
                PseudoUserDecision::CreateNew
            }
        },
        None => PseudoUserDecision::CreateNew,
    }
}

/// Checks that the freshly created registered user and its linked guest
/// record share one identifier; a mismatch is the integrity fault the
/// webhook reports.
pub fn user_pair_consistent(bid: u128, pid: u128) -> (r: Result<u128, ServerError>)
    ensures
        bid == pid <==> r == Ok::<u128, ServerError>(bid),
        bid != pid ==> (r matches Err(e) && e matches ServerError::Internal(m) && m@
            == "Failed to create user pair"@),
{
    if bid == pid {
        Ok(bid)
    } else {
        Err(ServerError::Internal(String::from_str("Failed to create user pair")))
    }
}

} // verus!
