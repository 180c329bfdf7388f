//! Settings of the service: storage, network address, directories and mode.

use vstd::prelude::*;
use crate::text::{lowercase_of, str_eq, to_lowercase};

verus! {

/// The settings that the service starts with.
#[derive(Clone, Debug)]
pub struct Config {
    /// Database location (an SQLite file path).
    pub database_url: String,
    pub port: u16,
    pub host: String,
    /// Directory of the static files to serve, if any.
    pub static_dir: Option<String>,
    /// Directory of the generated invoices.
    pub invoice_dir: String,
    pub log_level: String,
    /// "dev" or "prod".
    pub env_mode: String,
}

/// Whether a mode name, already in lower case, names production.
pub open spec fn is_production_name(s: Seq<char>) -> bool {
    s == "prod"@ || s == "production"@
}

/// Whether a mode name in lower case names production: "prod" or "production".
pub fn is_production_mode(lowered: &str) -> (r: bool)
    ensures
        r == is_production_name(lowered@),
{
    str_eq(lowered, "prod") || str_eq(lowered, "production")
}

impl Config {
    /// The settings made of the values read from the command line and environment.
    pub fn from_args(
        database_url: String,
        port: u16,
        host: String,
        static_dir: Option<String>,
        invoice_dir: String,
        log_level: String,
        env_mode: String,
    ) -> (r: Config)
        ensures
            r.database_url == database_url,
            r.port == port,
            r.host == host,
            r.static_dir == static_dir,
            r.invoice_dir == invoice_dir,
            r.log_level == log_level,
            r.env_mode == env_mode,
    {
        Config { database_url, port, host, static_dir, invoice_dir, log_level, env_mode }
    }

    /// Whether the service runs in production mode ("prod" or "production", in any case).
    pub fn is_production(&self) -> (r: bool)
        ensures
            r == is_production_name(lowercase_of(self.env_mode@)),
    {
        let lowered = to_lowercase(self.env_mode.as_str());
        is_production_mode(lowered.as_str())
    }

    /// Whether static files are served: a directory is configured and, as
    /// the caller found, it exists.
    pub fn should_serve_static_files(&self, static_dir_exists: bool) -> (r: bool)
        ensures
            r == (self.static_dir is Some && static_dir_exists),
    {
        self.static_dir.is_some() && static_dir_exists
    }

    /// The configured directory of static files.
    pub fn get_static_dir(&self) -> (r: Option<&String>)
        ensures
            r is Some == self.static_dir is Some,
            r matches Some(d) ==> *d == self.static_dir->0,
    {
        match &self.static_dir {
            Some(d) => Some(d),
            None => None,
        }
    }

    /// The host and port to listen on.
    pub fn get_bind_address(&self) -> (r: (String, u16))
        ensures
            r.0 == self.host,
            r.1 == self.port,
    {
        (self.host.clone(), self.port)
    }
}

} // verus!
