//! The call surface of the remote game-session service: its URLs and
//! response bodies.

use vstd::prelude::*;
use vstd::string::StringExecFns;

use crate::game::GameType;

verus! {

/// How a call to the game-session service fails. Outside transport and
/// serialization faults are carried as text.
#[derive(Debug)]
pub enum GSClientError {
    /// The HTTP request itself failed; the text is the transport error.
    Http(String),
    /// The service answered with a non-success status and this body.
    ApiError(u16, String),
    /// The payload could not be serialized.
    Serialize(String),
}

/// What a successful session creation or initiation returns.
#[derive(Debug, Clone)]
pub struct InteractiveGameResponse {
    pub game_key: String,
    pub hub_address: String,
}

/// What joining a running session returns.
#[derive(Debug, Clone)]
pub struct JoinGameResponse {
    pub game_key: String,
    pub hub_address: String,
    pub game_type: GameType,
}

/// The client of the game-session service: it owns the service's
/// domain and forms every URL posted to it.
#[derive(Debug, Clone)]
pub struct GSClient {
    domain: String,
}

impl GSClient {
    /// The domain the client was built over.
    pub closed spec fn spec_domain(self) -> Seq<char> {
        self.domain@
    }

    /// A client for the service at the given domain.
    pub fn new(domain: String) -> (r: Self)
        ensures
            r.spec_domain() == domain@,
    {
        Self { domain }
    }

    /// The liveness URL of the service.
    pub fn health_url(&self) -> (r: String)
        ensures
            r@ == self.spec_domain() + "/health"@,
    {
        let mut s = self.domain.clone();
        s.append("/health");
        s
    }

    /// The URL a session initiation for the kind is posted to.
    pub fn session_initiate_url(&self, kind: &GameType) -> (r: String)
        ensures
            r@ == self.spec_domain() + "/session/initiate/"@ + kind.spec_as_str(),
    {
        let mut s = self.domain.clone();
        s.append("/session/initiate/");
        s.append(kind.as_str());
        s
    }
}

/// The address a client connects to for live gameplay of the kind.
pub fn hub_address(gs_domain: &str, kind: &GameType) -> (r: String)
    ensures
        r@ == gs_domain@ + "/hubs/"@ + kind.spec_hub_name(),
{
    let mut s = String::from_str(gs_domain);
    s.append("/hubs/");
    s.append(kind.hub_name());
    s
}

/// The body answering a successful session creation: the issued key and
/// the hub address for the kind.
pub fn interactive_game_response(key_word: String, gs_domain: &str, kind: &GameType) -> (r:
    InteractiveGameResponse)
    ensures
        r.game_key == key_word,
        r.hub_address@ == gs_domain@ + "/hubs/"@ + kind.spec_hub_name(),
{
    let hub = hub_address(gs_domain, kind);
    InteractiveGameResponse { game_key: key_word, hub_address: hub }
}

/// The body answering a successful join: the key presented, the hub
/// address, and the kind joined.
pub fn join_game_response(key_word: String, gs_domain: &str, kind: &GameType) -> (r:
    JoinGameResponse)
    ensures
        r.game_key == key_word,
        r.hub_address@ == gs_domain@ + "/hubs/"@ + kind.spec_hub_name(),
        r.game_type == *kind,
{
    let hub = hub_address(gs_domain, kind);
    JoinGameResponse { game_key: key_word, hub_address: hub, game_type: *kind }
}

} // verus!
