use tero_core::access::{
    base_user_subject, gate_admin_read, gate_create_syslog, gate_delete_game,
    gate_integration_game_write, gate_no_integration, patch_user_decision, pseudo_user_decision,
    user_pair_consistent, user_subject, wrap_user_role, PatchDecision, PseudoUserDecision,
};
use tero_core::auth::Claims;
use tero_core::error::ServerError;
use tero_core::game::Gender;
use tero_core::integration::IntegrationName;
use tero_core::user::{BaseUser, Permission, SubjectId, UserRole};

fn claims_with(permissions: Vec<Permission>) -> Claims {
    Claims {
        gty: None,
        aud: Vec::new(),
        azp: String::new(),
        exp: 0,
        iat: 0,
        iss: String::new(),
        scope: String::new(),
        sub: "auth0|user".to_string(),
        permissions: Some(permissions),
    }
}

fn a_user(id: u128) -> BaseUser {
    BaseUser {
        id,
        username: "someone".to_string(),
        auth0_id: None,
        gender: Gender::Unknown,
        email: None,
        email_verified: None,
        updated_at: 0,
        family_name: None,
        given_name: None,
        created_at: 0,
        birth_date: None,
    }
}

#[test]
fn delete_game_requires_a_user_with_write_admin() {
    let admin = claims_with(vec![Permission::WriteAdmin]);
    let plain = claims_with(vec![Permission::WriteGame]);
    assert!(gate_delete_game(&SubjectId::BaseUser(1), &admin).is_ok());
    match gate_delete_game(&SubjectId::BaseUser(1), &plain) {
        Err(ServerError::Permission(missing)) => {
            assert_eq!(missing, vec![Permission::WriteAdmin])
        },
        _ => panic!("a user without the permission must see what is missing"),
    }
    assert!(matches!(
        gate_delete_game(&SubjectId::PseudoUser(2), &admin),
        Err(ServerError::AccessDenied)
    ));
    assert!(matches!(
        gate_delete_game(&SubjectId::Integration(IntegrationName::Session), &admin),
        Err(ServerError::AccessDenied)
    ));
}

#[test]
fn integrations_may_not_call_user_endpoints() {
    assert!(gate_no_integration(&SubjectId::PseudoUser(1)).is_ok());
    assert!(gate_no_integration(&SubjectId::BaseUser(1)).is_ok());
    assert!(matches!(
        gate_no_integration(&SubjectId::Integration(IntegrationName::Auth0)),
        Err(ServerError::AccessDenied)
    ));
}

#[test]
fn persisting_and_freeing_keys_is_for_integrations_with_write_game() {
    let with = claims_with(vec![Permission::WriteGame]);
    let without = claims_with(vec![]);
    let session = SubjectId::Integration(IntegrationName::Session);
    assert!(gate_integration_game_write(&session, &with).is_ok());
    assert!(matches!(
        gate_integration_game_write(&session, &without),
        Err(ServerError::Permission(_))
    ));
    assert!(matches!(
        gate_integration_game_write(&SubjectId::BaseUser(1), &with),
        Err(ServerError::AccessDenied)
    ));
}

#[test]
fn admin_reads_require_read_admin() {
    let with = claims_with(vec![Permission::ReadAdmin]);
    let without = claims_with(vec![Permission::WriteAdmin]);
    assert!(gate_admin_read(&SubjectId::BaseUser(1), &with).is_ok());
    match gate_admin_read(&SubjectId::BaseUser(1), &without) {
        Err(ServerError::Permission(missing)) => {
            assert_eq!(missing, vec![Permission::ReadAdmin])
        },
        _ => panic!("the missing permission must be reported"),
    }
    assert!(matches!(
        gate_admin_read(&SubjectId::PseudoUser(1), &with),
        Err(ServerError::AccessDenied)
    ));
}

#[test]
fn log_creation_is_for_integrations_with_the_log_permission() {
    let with = claims_with(vec![Permission::WriteSystemLog]);
    let session = SubjectId::Integration(IntegrationName::Session);
    assert!(gate_create_syslog(&session, &with).is_ok());
    assert!(matches!(
        gate_create_syslog(&SubjectId::BaseUser(1), &with),
        Err(ServerError::AccessDenied)
    ));
}

#[test]
fn patching_follows_the_admin_and_self_rules() {
    let admin = claims_with(vec![Permission::WriteAdmin]);
    let plain = claims_with(vec![]);
    assert_eq!(
        patch_user_decision(&SubjectId::BaseUser(1), &admin, 2, false),
        PatchDecision::PatchOther(2)
    );
    assert_eq!(
        patch_user_decision(&SubjectId::BaseUser(1), &admin, 1, false),
        PatchDecision::PatchSelf(1)
    );
    assert_eq!(
        patch_user_decision(&SubjectId::BaseUser(1), &plain, 2, true),
        PatchDecision::NoOp
    );
    assert_eq!(
        patch_user_decision(&SubjectId::BaseUser(1), &plain, 2, false),
        PatchDecision::PatchSelf(1)
    );
    assert_eq!(
        patch_user_decision(&SubjectId::PseudoUser(1), &admin, 2, false),
        PatchDecision::Denied
    );
}

#[test]
fn the_role_wrap_requires_both_admin_permissions() {
    let both = claims_with(vec![Permission::ReadAdmin, Permission::WriteAdmin]);
    let one = claims_with(vec![Permission::ReadAdmin]);
    assert!(matches!(wrap_user_role(&both, a_user(1)), UserRole::Admin(_)));
    assert!(matches!(wrap_user_role(&one, a_user(1)), UserRole::BaseUser(_)));
}

#[test]
fn guest_registration_reuses_known_identifiers_only() {
    assert_eq!(pseudo_user_decision(Some(9), true), PseudoUserDecision::UseExisting(9));
    assert_eq!(pseudo_user_decision(Some(9), false), PseudoUserDecision::CreateNew);
    assert_eq!(pseudo_user_decision(None, false), PseudoUserDecision::CreateNew);
}

#[test]
fn the_user_pair_must_share_one_identifier() {
    assert_eq!(user_pair_consistent(5, 5).unwrap(), 5);
    assert!(matches!(user_pair_consistent(5, 6), Err(ServerError::Internal(_))));
}

#[test]
fn subjects_expose_their_user() {
    assert_eq!(user_subject(&SubjectId::PseudoUser(3)), Some(3));
    assert_eq!(user_subject(&SubjectId::BaseUser(4)), Some(4));
    assert_eq!(user_subject(&SubjectId::Integration(IntegrationName::Auth0)), None);
    assert_eq!(base_user_subject(&SubjectId::BaseUser(4)), Some(4));
    assert_eq!(base_user_subject(&SubjectId::PseudoUser(3)), None);
}
