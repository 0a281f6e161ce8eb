//! The audit log model and the fluent builder that assembles one record,
//! with its defaulting and description-truncation rules.

use vstd::prelude::*;
use vstd::string::StrSliceExecFns;
use vstd::string::StringExecFns;

use crate::integration::IntegrationName;
use crate::text::{spec_uuid_str, substr_to_string, uuid_hyphenated};
use crate::user::SubjectId;

verus! {

/// Severity of a log record.
#[derive(Debug, Clone, Copy, PartialEq, Eq, Structural)]
pub enum LogCeverity {
    Critical,
    Warning,
    Info,
}

impl LogCeverity {
    /// What `as_str` returns for each severity.
    pub open spec fn spec_as_str(self) -> Seq<char> {
        match self {
            LogCeverity::Critical => "critical"@,
            LogCeverity::Warning => "warning"@,
            LogCeverity::Info => "info"@,
        }
    }

    /// The severity as written in queries and storage.
    pub fn as_str(&self) -> (r: &'static str)
        ensures
            r@ == self.spec_as_str(),
    {
        match self {
            LogCeverity::Critical => "critical",
            LogCeverity::Warning => "warning",
            LogCeverity::Info => "info",
        }
    }
}

/// The action a log record reports.
#[derive(Debug, Clone, Copy, PartialEq, Eq, Structural)]
pub enum LogAction {
    Create,
    Read,
    Update,
    Delete,
    Sync,
    Other,
}

impl LogAction {
    /// What `as_str` returns for each action.
    pub open spec fn spec_as_str(self) -> Seq<char> {
        match self {
            LogAction::Create => "write"@,
            LogAction::Read => "read"@,
            LogAction::Update => "update"@,
            LogAction::Delete => "delete"@,
            LogAction::Sync => "sync"@,
            LogAction::Other => "other"@,
        }
    }

    /// The action as written in queries and storage.
    pub fn as_str(&self) -> (r: &'static str)
        ensures
            r@ == self.spec_as_str(),
    {
        match self {
            LogAction::Create => "write",
            LogAction::Read => "read",
            LogAction::Update => "update",
            LogAction::Delete => "delete",
            LogAction::Sync => "sync",
            LogAction::Other => "other",
        }
    }
}

/// What kind of subject a log record speaks of.
#[derive(Debug, Clone, Copy, PartialEq, Eq, Structural)]
pub enum SubjectType {
    RegisteredUser,
    GuestUser,
    Integration,
    System,
}

impl SubjectType {
    /// What `as_str` returns for each subject kind.
    pub open spec fn spec_as_str(self) -> Seq<char> {
        match self {
            SubjectType::RegisteredUser => "registered"@,
            SubjectType::GuestUser => "guest"@,
            SubjectType::Integration => "integration"@,
            SubjectType::System => "system"@,
        }
    }

    /// The subject kind as written in queries and storage.
    pub fn as_str(&self) -> (r: &'static str)
        ensures
            r@ == self.spec_as_str(),
    {
        match self {
            SubjectType::RegisteredUser => "registered",
            SubjectType::GuestUser => "guest",
            SubjectType::Integration => "integration",
            SubjectType::System => "system",
        }
    }
}

/// One stored log row.
#[derive(Debug)]
pub struct SystemLog {
    pub id: i64,
    pub subject_id: String,
    pub subject_type: SubjectType,
    pub action: LogAction,
    pub ceverity: LogCeverity,
    pub function: String,
    pub description: String,
    pub metadata: Option<serde_json::Value>,
    pub created_at: i64,
}

/// A record ready to be written: everything of a row but what the
/// database assigns.
#[derive(Debug)]
pub struct SystemLogRecord {
    pub subject_id: String,
    pub subject_type: SubjectType,
    pub action: LogAction,
    pub ceverity: LogCeverity,
    pub function: String,
    pub description: String,
    pub metadata: Option<serde_json::Value>,
}

/// Query parameters of the log-page endpoint.
#[derive(Debug, Clone, Copy)]
pub struct SyslogPageQuery {
    pub page_num: Option<u16>,
    pub subject_type: Option<SubjectType>,
    pub action: Option<LogAction>,
    pub ceverity: Option<LogCeverity>,
}

/// Body of a request by a trusted peer to write a log record.
#[derive(Debug)]
pub struct CreateSyslogRequest {
    pub action: Option<LogAction>,
    pub ceverity: Option<LogCeverity>,
    pub description: Option<String>,
    pub function: Option<String>,
    pub metadata: Option<serde_json::Value>,
}

/// Counts of stored records by severity.
#[derive(Debug, Clone, Copy, PartialEq, Eq, Structural)]
pub struct LogCategoryCount {
    pub info: i64,
    pub warning: i64,
    pub critical: i64,
}

/// How a description is stored: unchanged up to 512 characters; longer
/// text is cut to its first 509 characters with a trailing `...`, so
/// the stored text is exactly 512 characters long.
pub open spec fn spec_truncated(s: Seq<char>) -> Seq<char> {
    if s.len() > 512 {
        s.take(509) + "..."@
    } else {
        s
    }
}

/// The identifier and kind a subject is logged under.
pub open spec fn spec_subject_parts(s: SubjectId) -> (Seq<char>, SubjectType) {
    match s {
        SubjectId::PseudoUser(id) => (spec_uuid_str(id), SubjectType::GuestUser),
        SubjectId::BaseUser(id) => (spec_uuid_str(id), SubjectType::RegisteredUser),
        SubjectId::Integration(name) => (name.spec_as_str(), SubjectType::Integration),
    }
}

/// Fluent assembly of one log record. Unset parts get their documented
/// defaults when the record is built.
pub struct SystemLogBuilder {
    subject_id: Option<String>,
    subject_type: Option<SubjectType>,
    action: Option<LogAction>,
    ceverity: Option<LogCeverity>,
    function: Option<String>,
    description: Option<String>,
    metadata: Option<serde_json::Value>,
}

impl SystemLogBuilder {
    /// The subject identifier set so far, as text.
    pub closed spec fn spec_subject_id(self) -> Option<Seq<char>> {
        match self.subject_id {
            Some(s) => Some(s@),
            None => None,
        }
    }

    /// The subject kind set so far.
    pub closed spec fn spec_subject_type(self) -> Option<SubjectType> {
        self.subject_type
    }

    /// The action set so far.
    pub closed spec fn spec_action(self) -> Option<LogAction> {
        self.action
    }

    /// The severity set so far.
    pub closed spec fn spec_ceverity(self) -> Option<LogCeverity> {
        self.ceverity
    }

    /// The origin function name set so far, as text.
    pub closed spec fn spec_function(self) -> Option<Seq<char>> {
        match self.function {
            Some(s) => Some(s@),
            None => None,
        }
    }

    /// The description set so far, as text.
    pub closed spec fn spec_description(self) -> Option<Seq<char>> {
        match self.description {
            Some(s) => Some(s@),
            None => None,
        }
    }

    /// The metadata set so far.
    pub closed spec fn spec_metadata(self) -> Option<serde_json::Value> {
        self.metadata
    }

    /// An empty builder: nothing set, everything to default.
    pub fn new() -> (r: Self)
        ensures
            r.spec_subject_id() is None,
            r.spec_subject_type() is None,
            r.spec_action() is None,
            r.spec_ceverity() is None,
            r.spec_function() is None,
            r.spec_description() is None,
            r.spec_metadata() is None,
    {
        Self {
            subject_id: None,
            subject_type: None,
            action: None,
            ceverity: None,
            function: None,
            description: None,
            metadata: None,
        }
    }

    /// Records who the entry speaks of: guests and registered users by
    /// their hyphenated identifier, integrations by name.
    pub fn subject(self, subject: SubjectId) -> (r: Self)
        ensures
            r.spec_subject_id() == Some(spec_subject_parts(subject).0),
            r.spec_subject_type() == Some(spec_subject_parts(subject).1),
            r.spec_action() == self.spec_action(),
            r.spec_ceverity() == self.spec_ceverity(),
            r.spec_function() == self.spec_function(),
            r.spec_description() == self.spec_description(),
            r.spec_metadata() == self.spec_metadata(),
    {
        let (id, kind) = match subject {
            SubjectId::PseudoUser(id) => (uuid_hyphenated(id), SubjectType::GuestUser),
            SubjectId::BaseUser(id) => (uuid_hyphenated(id), SubjectType::RegisteredUser),
            SubjectId::Integration(name) => (
                String::from_str(name.as_str()),
                SubjectType::Integration,
            ),
        };
        Self { subject_id: Some(id), subject_type: Some(kind), ..self }
    }

    /// Records the action.
    pub fn action(self, action: LogAction) -> (r: Self)
        ensures
            r.spec_action() == Some(action),
            r.spec_subject_id() == self.spec_subject_id(),
            r.spec_subject_type() == self.spec_subject_type(),
            r.spec_ceverity() == self.spec_ceverity(),
            r.spec_function() == self.spec_function(),
            r.spec_description() == self.spec_description(),
            r.spec_metadata() == self.spec_metadata(),
    {
        Self { action: Some(action), ..self }
    }

    /// Records the severity.
    pub fn ceverity(self, ceverity: LogCeverity) -> (r: Self)
        ensures
            r.spec_ceverity() == Some(ceverity),
            r.spec_subject_id() == self.spec_subject_id(),
            r.spec_subject_type() == self.spec_subject_type(),
            r.spec_action() == self.spec_action(),
            r.spec_function() == self.spec_function(),
            r.spec_description() == self.spec_description(),
            r.spec_metadata() == self.spec_metadata(),
    {
        Self { ceverity: Some(ceverity), ..self }
    }

    /// Records the name of the function the entry reports on.
    pub fn function(self, function_name: &str) -> (r: Self)
        ensures
            r.spec_function() == Some(function_name@),
            r.spec_subject_id() == self.spec_subject_id(),
            r.spec_subject_type() == self.spec_subject_type(),
            r.spec_action() == self.spec_action(),
            r.spec_ceverity() == self.spec_ceverity(),
            r.spec_description() == self.spec_description(),
            r.spec_metadata() == self.spec_metadata(),
    {
        Self { function: Some(String::from_str(function_name)), ..self }
    }

    /// Records the human-readable description.
    pub fn description(self, description: &str) -> (r: Self)
        ensures
            r.spec_description() == Some(description@),
            r.spec_subject_id() == self.spec_subject_id(),
            r.spec_subject_type() == self.spec_subject_type(),
            r.spec_action() == self.spec_action(),
            r.spec_ceverity() == self.spec_ceverity(),
            r.spec_function() == self.spec_function(),
            r.spec_metadata() == self.spec_metadata(),
    {
        Self { description: Some(String::from_str(description)), ..self }
    }

    /// Records the structured metadata, carried through opaquely.
    pub fn metadata(self, metadata: serde_json::Value) -> (r: Self)
        ensures
            r.spec_metadata() is Some,
            r.spec_subject_id() == self.spec_subject_id(),
            r.spec_subject_type() == self.spec_subject_type(),
            r.spec_action() == self.spec_action(),
            r.spec_ceverity() == self.spec_ceverity(),
            r.spec_function() == self.spec_function(),
            r.spec_description() == self.spec_description(),
    {
        Self { metadata: Some(metadata), ..self }
    }

    /// The finished record. An unset subject becomes `[SYSTEM]` of kind
    /// `System`; unset parts get `Other`, `Info`, `Not specified` and
    /// `No description`; and the description is stored truncated: text
    /// longer than 512 characters is cut to exactly 512, ending in
    /// `...`.
    pub fn build(self) -> (r: SystemLogRecord)
        ensures
            ({
                let sid = self.spec_subject_id();
                let stype = self.spec_subject_type();
                if sid is Some && stype is Some {
                    r.subject_id@ == sid.unwrap() && r.subject_type == stype.unwrap()
                } else {
                    r.subject_id@ == "[SYSTEM]"@ && r.subject_type == SubjectType::System
                }
            }),
            r.action == (match self.spec_action() {
                Some(a) => a,
                None => LogAction::Other,
            }),
            r.ceverity == (match self.spec_ceverity() {
                Some(c) => c,
                None => LogCeverity::Info,
            }),
            r.function@ == (match self.spec_function() {
                Some(f) => f,
                None => "Not specified"@,
            }),
            r.description@ == spec_truncated(
                match self.spec_description() {
                    Some(d) => d,
                    None => "No description"@,
                },
            ),
            (match self.spec_description() {
                Some(d) => d.len(),
                None => "No description"@.len(),
            }) > 512 ==> r.description@.len() == 512 && r.description@.subrange(509, 512)
                == "..."@,
            r.metadata is Some <==> self.spec_metadata() is Some,
    {
        let (subject_id, subject_type) = match (self.subject_id, self.subject_type) {
            (Some(id), Some(kind)) => (id, kind),
            _ => (String::from_str("[SYSTEM]"), SubjectType::System),
        };
        let description = match self.description {
            Some(d) => d,
            None => String::from_str("No description"),
        };
        let description = truncate_description(description);
        let action = match self.action {
            Some(a) => a,
            None => LogAction::Other,
        };
        let ceverity = match self.ceverity {
            Some(c) => c,
            None => LogCeverity::Info,
        };
        let function = match self.function {
            Some(f) => f,
            None => String::from_str("Not specified"),
        };
        SystemLogRecord {
            subject_id,
            subject_type,
            action,
            ceverity,
            function,
            description,
            metadata: self.metadata,
        }
    }
}

/// Cuts a description to the storage limit: text longer than 512
/// characters becomes its first 509 characters followed by `...`.
pub fn truncate_description(description: String) -> (r: String)
    ensures
        r@ == spec_truncated(description@),
        description@.len() > 512 ==> r@.len() == 512 && r@.subrange(509, 512) == "..."@,
{
    let len = description.as_str().unicode_len();
    if len > 512 {
        let mut cut = substr_to_string(description.as_str(), 0, 509);
        cut.append("...");
        proof {
            reveal_strlit("...");
            assert(cut@.subrange(509, 512) =~= "..."@);
        }
        cut
    } else {
        description
    }
}

} // verus!
