//! The configuration snapshot the pipeline is handed: server binding,
//! datastore pool sizing and timeouts, and the application knobs (environment
//! tag, API key, maximum batch size). Loading it from the process environment
//! is the caller's business; the library only parses the environment tag.

use crate::render::str_eq;
use vstd::prelude::*;
use vstd::string::StringExecFns;

verus! {

/// Where the server binds.
#[derive(Debug, Clone)]
pub struct ServerConfig {
    pub host: String,
    pub port: u16,
}

/// How the datastore connection pool is sized and bounded.
#[derive(Debug, Clone)]
pub struct DatabaseConfig {
    pub url: String,
    pub max_connections: u32,
    pub min_connections: u32,
    pub connect_timeout_seconds: u64,
    pub idle_timeout_seconds: u64,
}

/// The deployment environment tag.
#[derive(Debug, Clone, PartialEq, Eq, Structural)]
pub enum Environment {
    Development,
    Production,
    Test,
}

/// Application-level knobs: the environment tag, the shared API key, the
/// maximum accepted batch size, and a buffering interval reserved for future
/// batching (unused by the pipeline).
#[derive(Debug, Clone)]
pub struct AppConfig {
    pub environment: Environment,
    pub api_key: String,
    pub max_batch_size: usize,
    pub buffer_flush_interval_ms: u64,
}

/// The whole configuration snapshot.
#[derive(Debug, Clone)]
pub struct Config {
    pub server: ServerConfig,
    pub database: DatabaseConfig,
    pub app: AppConfig,
}

/// What `str::to_lowercase` returns for a string with these characters.
pub uninterp spec fn lower_of(s: Seq<char>) -> Seq<char>;

/// Relies on str::to_lowercase: the lowercase form, a function of the
/// characters alone.
#[verifier::external_body]
fn lowercase(s: &str) -> (r: String)
    ensures
        r@ == lower_of(s@),
{
    s.to_lowercase()
}

impl Environment {
    /// Parse an environment tag, ignoring case: exactly the spellings of
    /// `development`, `production` and `test` are accepted.
    pub fn from_str(s: &str) -> (r: Result<Environment, String>)
        ensures
            lower_of(s@) == "development"@ ==> r == Ok::<Environment, String>(
                Environment::Development,
            ),
            lower_of(s@) == "production"@ ==> r == Ok::<Environment, String>(
                Environment::Production,
            ),
            lower_of(s@) == "test"@ ==> r == Ok::<Environment, String>(Environment::Test),
            (lower_of(s@) != "development"@ && lower_of(s@) != "production"@ && lower_of(s@)
                != "test"@) ==> (r matches Err(d) && d@ == "Unknown environment: "@ + s@),
    {
        proof {
            reveal_strlit("development");
            reveal_strlit("production");
            reveal_strlit("test");
            assert("development"@.len() == 11);
            assert("production"@.len() == 10);
            assert("test"@.len() == 4);
        }
        let low = lowercase(s);
        if str_eq(low.as_str(), "development") {
            Ok(Environment::Development)
        } else if str_eq(low.as_str(), "production") {
            Ok(Environment::Production)
        } else if str_eq(low.as_str(), "test") {
            Ok(Environment::Test)
        } else {
            let mut m = String::from_str("Unknown environment: ");
            m.append(s);
            Err(m)
        }
    }
}

} // verus!
