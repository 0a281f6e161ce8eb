//! The configuration the process starts with. Loading from files and
//! the environment happens outside; the shapes and defaults live here.

use vstd::prelude::*;
use vstd::string::StringExecFns;

use crate::integration::IntegrationConfig;
use crate::text::str_eq;

verus! {

/// Which environment the process runs in.
#[derive(Debug, Clone, Copy, PartialEq, Eq, Structural)]
pub enum Runtime {
    Dev,
    Prod,
}

impl Runtime {
    /// What `as_str` returns for each runtime.
    pub open spec fn spec_as_str(self) -> Seq<char> {
        match self {
            Runtime::Dev => "development"@,
            Runtime::Prod => "production"@,
        }
    }

    /// The runtime's name as used in configuration file names.
    pub fn as_str(&self) -> (r: &'static str)
        ensures
            r@ == self.spec_as_str(),
    {
        match self {
            Runtime::Dev => "development",
            Runtime::Prod => "production",
        }
    }

    /// The runtime named by an environment value: `DEVELOPMENT` is the
    /// development runtime; anything else, `PRODUCTION` included, is
    /// production.
    pub fn from_name(value: &str) -> (r: Self)
        ensures
            value@ == "DEVELOPMENT"@ ==> r == Runtime::Dev,
            value@ != "DEVELOPMENT"@ ==> r == Runtime::Prod,
    {
        if str_eq(value, "DEVELOPMENT") {
            Runtime::Dev
        } else {
            Runtime::Prod
        }
    }
}

/// The address a server binds to when none is configured.
pub fn default_address() -> (r: String)
    ensures
        r@ == "127.0.0.1"@,
{
    String::from_str("127.0.0.1")
}

/// The port a server binds to when none is configured.
pub fn default_port() -> (r: String)
    ensures
        r@ == "3000"@,
{
    String::from_str("3000")
}

/// The listing page size when none is configured.
pub fn default_page_size() -> (r: u16)
    ensures
        r == 20,
{
    20
}

/// The runtime assumed when none is configured.
pub fn default_runtime() -> (r: Runtime)
    ensures
        r == Runtime::Dev,
{
    Runtime::Dev
}

/// How many days an unplayed game is retained when nothing is
/// configured.
pub fn default_active_game_retention() -> (r: u8)
    ensures
        r == 24,
{
    24
}

/// The server's own settings.
#[derive(Debug, Clone)]
pub struct ServerConfig {
    pub address: String,
    pub port: String,
    pub gs_domain: String,
    pub page_size: u16,
    pub active_game_retention: u8,
}

/// The identity-provider settings.
#[derive(Debug, Clone)]
pub struct Auth0Config {
    pub domain: String,
    pub audience: String,
    pub client_id: String,
    pub webhook_key: String,
    pub runtime: Runtime,
}

/// Everything the process is configured with.
#[derive(Debug, Clone)]
pub struct AppConfig {
    pub server: ServerConfig,
    pub auth0: Auth0Config,
    pub database_url: String,
    pub integrations: Vec<IntegrationConfig>,
}

} // verus!
