use tero_core::integration::IntegrationName;
use tero_core::system_log::{LogAction, LogCeverity, SubjectType, SystemLogBuilder};
use tero_core::text::uuid_hyphenated;
use tero_core::user::SubjectId;

#[test]
fn defaults_fill_everything_unset() {
    let record = SystemLogBuilder::new().build();
    assert_eq!(record.subject_id, "[SYSTEM]");
    assert_eq!(record.subject_type, SubjectType::System);
    assert_eq!(record.action, LogAction::Other);
    assert_eq!(record.ceverity, LogCeverity::Info);
    assert_eq!(record.function, "Not specified");
    assert_eq!(record.description, "No description");
    assert!(record.metadata.is_none());
}

#[test]
fn set_fields_come_through() {
    let record = SystemLogBuilder::new()
        .subject(SubjectId::Integration(IntegrationName::Session))
        .action(LogAction::Create)
        .ceverity(LogCeverity::Critical)
        .function("create_key")
        .description("Library failed to create random id.")
        .build();
    assert_eq!(record.subject_id, "game_session");
    assert_eq!(record.subject_type, SubjectType::Integration);
    assert_eq!(record.action, LogAction::Create);
    assert_eq!(record.ceverity, LogCeverity::Critical);
    assert_eq!(record.function, "create_key");
    assert_eq!(record.description, "Library failed to create random id.");
}

#[test]
fn user_subjects_are_logged_by_identifier() {
    let record = SystemLogBuilder::new().subject(SubjectId::BaseUser(1)).build();
    assert_eq!(record.subject_id, "00000000-0000-0000-0000-000000000001");
    assert_eq!(record.subject_type, SubjectType::RegisteredUser);
    let record = SystemLogBuilder::new().subject(SubjectId::PseudoUser(2)).build();
    assert_eq!(record.subject_type, SubjectType::GuestUser);
}

#[test]
fn long_descriptions_are_cut_to_exactly_512() {
    let long: String = std::iter::repeat('x').take(600).collect();
    let record = SystemLogBuilder::new().description(&long).build();
    assert_eq!(record.description.chars().count(), 512);
    assert!(record.description.ends_with("..."));
    assert!(record.description.starts_with("xxx"));
}

#[test]
fn short_descriptions_stay_as_they_are() {
    let exact: String = std::iter::repeat('y').take(512).collect();
    let record = SystemLogBuilder::new().description(&exact).build();
    assert_eq!(record.description, exact);
}

#[test]
fn uuid_text_is_canonical() {
    assert_eq!(uuid_hyphenated(0), "00000000-0000-0000-0000-000000000000");
    assert_eq!(
        uuid_hyphenated(0x0123_4567_89ab_cdef_0123_4567_89ab_cdef),
        "01234567-89ab-cdef-0123-456789abcdef"
    );
    assert_eq!(uuid_hyphenated(u128::MAX), "ffffffff-ffff-ffff-ffff-ffffffffffff");
}

#[test]
fn enum_names_render_as_stored() {
    assert_eq!(LogCeverity::Critical.as_str(), "critical");
    assert_eq!(LogCeverity::Warning.as_str(), "warning");
    assert_eq!(LogCeverity::Info.as_str(), "info");
    assert_eq!(LogAction::Create.as_str(), "write");
    assert_eq!(LogAction::Sync.as_str(), "sync");
    assert_eq!(SubjectType::RegisteredUser.as_str(), "registered");
    assert_eq!(SubjectType::GuestUser.as_str(), "guest");
    assert_eq!(SubjectType::System.as_str(), "system");
}
