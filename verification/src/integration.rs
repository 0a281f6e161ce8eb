//! Trusted peer services and the registry that recognizes them by their
//! machine-to-machine token subject.

use vstd::prelude::*;
use vstd::string::StrSliceExecFns;

use crate::text::{str_eq, substr_to_string};

verus! {

/// The closed set of trusted peer services.
#[derive(Debug, Clone, Copy, PartialEq, Eq, Hash, Structural)]
pub enum IntegrationName {
    Auth0,
    Session,
}

impl IntegrationName {
    /// What `as_str` returns for each integration.
    pub open spec fn spec_as_str(self) -> Seq<char> {
        match self {
            IntegrationName::Auth0 => "auth0"@,
            IntegrationName::Session => "game_session"@,
        }
    }

    /// The integration's name as written in logs and configuration.
    pub fn as_str(&self) -> (r: &'static str)
        ensures
            r@ == self.spec_as_str(),
    {
        match self {
            IntegrationName::Auth0 => "auth0",
            IntegrationName::Session => "game_session",
        }
    }
}

/// One registry entry: an integration and the token subject that names
/// it.
#[derive(Debug, Clone)]
pub struct IntegrationConfig {
    pub name: IntegrationName,
    pub subject: String,
}

/// Whether entry `i` of the registry is the first whose subject is `s`.
pub open spec fn registry_first_match(
    entries: Seq<IntegrationConfig>,
    s: Seq<char>,
    i: int,
) -> bool {
    &&& 0 <= i < entries.len()
    &&& entries[i].subject@ == s
    &&& forall|j: int| 0 <= j < i ==> (#[trigger] entries[j]).subject@ != s
}

/// The registry of trusted integrations, loaded once from configuration
/// at startup and read-only thereafter.
#[derive(Debug, Clone)]
pub struct IntegrationRegistry {
    pub entries: Vec<IntegrationConfig>,
}

impl IntegrationRegistry {
    /// The integration registered under the given subject, by first
    /// match.
    pub fn find(&self, subject: &str) -> (r: Option<IntegrationName>)
        ensures
            r matches Some(n) ==> exists|i: int|
                registry_first_match(self.entries@, subject@, i) && #[trigger] self.entries@[i].name
                    == n,
            r is None ==> forall|i: int|
                0 <= i < self.entries@.len() ==> (#[trigger] self.entries@[i]).subject@
                    != subject@,
    {
        let len = self.entries.len();
        let mut i: usize = 0;
        while i < len
            invariant
                i <= len,
                len == self.entries@.len(),
                forall|j: int| 0 <= j < i ==> (#[trigger] self.entries@[j]).subject@ != subject@,
            decreases len - i,
        {
            if str_eq(self.entries[i].subject.as_str(), subject) {
                proof {
                    assert(registry_first_match(self.entries@, subject@, i as int));
                }
                return Some(self.entries[i].name);
            }
            i = i + 1;
        }
        None
    }
}

/// The subject of a machine-to-machine token names its client before a
/// literal `@clients` tail; anything else is no client subject.
pub open spec fn client_subject(s: Seq<char>) -> Option<Seq<char>> {
    if s.len() >= 8 && s.subrange(s.len() - 8, s.len() as int) == "@clients"@ {
        Some(s.take(s.len() - 8))
    } else {
        None
    }
}

impl IntegrationName {
    /// The integration a verified machine token speaks for: the token
    /// subject must carry the `@clients` tail, and what precedes the
    /// tail must be registered.
    pub fn from_subject(subject: &str, registry: &IntegrationRegistry) -> (r: Option<
        IntegrationName,
    >)
        ensures
            client_subject(subject@) is None ==> r is None,
            client_subject(subject@) matches Some(stripped) ==> {
                &&& (r matches Some(n) ==> exists|i: int|
                    registry_first_match(registry.entries@, stripped, i)
                        && #[trigger] registry.entries@[i].name == n)
                &&& (r is None ==> forall|i: int|
                    0 <= i < registry.entries@.len() ==> (#[trigger] registry.entries@[i]).subject@
                        != stripped)
            },
    {
        proof {
            reveal_strlit("@clients");
        }
        let len = subject.unicode_len();
        if len < 8 || !crate::text::str_ends_with(subject, "@clients") {
            return None;
        }
        let stripped = substr_to_string(subject, 0, len - 8);
        registry.find(stripped.as_str())
    }
}

} // verus!
