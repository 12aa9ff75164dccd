use vstd::prelude::*;

verus! {

/// Loopback address the backend listens on.
pub const BACKEND_HOST: &'static str = "127.0.0.1";

/// Port used when the configuration leaves it unset.
pub const DEFAULT_PORT: &'static str = "8000";

/// Update feed handed to the backend when the configuration leaves it unset.
pub const DEFAULT_FEED_URL: &'static str =
    "https://github.com/alexllenaf/INTERLENA-updates/releases/latest/download/latest.json";

/// Name of the bundled backend executable.
pub const BACKEND_BINARY: &'static str = "interview-atlas-backend";

/// Environment variable that tells the backend the application's version.
pub const VERSION_VAR: &'static str = "APP_VERSION";

/// Environment variable that tells the backend where to look for updates.
pub const FEED_URL_VAR: &'static str = "UPDATE_FEED_URL";

/// Prefix of every line of the backend's output relayed to the log.
pub const LOG_PREFIX: &'static str = "backend: ";

/// The text of an optional string.
pub open spec fn text_of(o: Option<String>) -> Option<Seq<char>> {
    match o {
        Some(s) => Some(s@),
        None => None,
    }
}

/// The configured value, or `default` where none was given.
pub open spec fn or_default(configured: Option<Seq<char>>, default: Seq<char>) -> Seq<char> {
    match configured {
        Some(v) => v,
        None => default,
    }
}

/// The configured value, or a copy of `default` where none was given.
pub fn resolve(configured: Option<String>, default: &str) -> (r: String)
    ensures
        r@ == or_default(text_of(configured), default@),
{
    match configured {
        Some(v) => v,
        None => default.to_owned(),
    }
}

/// Picks the configured port, falling back to the default one.
pub fn resolve_port(configured: Option<String>) -> (r: String)
    ensures
        r@ == or_default(text_of(configured), DEFAULT_PORT@),
{
    resolve(configured, DEFAULT_PORT)
}

/// The line written to the log for one line of the backend's output.
pub fn relay_line(line: &str) -> (r: String)
    ensures
        r@ == LOG_PREFIX@ + line@,
{
    let mut r = String::from_str(LOG_PREFIX);
    r.append(line);
    r
}

/// What the supervisor needs to know to find or launch the backend.
pub struct Config {
    /// TCP port of the backend.
    pub port: String,
    /// Update feed handed to the backend.
    pub feed_url: String,
    /// Version of the application, handed to the backend.
    pub version: String,
}

impl Config {
    /// A configuration from the values given, with the defaults for those left unset.
    pub fn new(port: Option<String>, feed_url: Option<String>, version: String) -> (r: Config)
        ensures
            r.port@ == or_default(text_of(port), DEFAULT_PORT@),
            r.feed_url@ == or_default(text_of(feed_url), DEFAULT_FEED_URL@),
            r.version@ == version@,
    {
        Config {
            port: resolve_port(port),
            feed_url: resolve(feed_url, DEFAULT_FEED_URL),
            version,
        }
    }

    /// `host:port` of the backend.
    pub fn address(&self) -> (r: String)
        ensures
            r@ == BACKEND_HOST@ + ":"@ + self.port@,
    {
        let mut r = String::from_str(BACKEND_HOST);
        r.append(":");
        r.append(self.port.as_str());
        r
    }

    /// The command-line arguments the backend is launched with.
    pub fn launch_args(&self) -> (r: Vec<String>)
        ensures
            r@.len() == 4,
            r@[0]@ == "--host"@,
            r@[1]@ == BACKEND_HOST@,
            r@[2]@ == "--port"@,
            r@[3]@ == self.port@,
    {
        let mut r: Vec<String> = Vec::new();
        r.push(String::from_str("--host"));
        r.push(String::from_str(BACKEND_HOST));
        r.push(String::from_str("--port"));
        r.push(self.port.clone());
        r
    }

    /// The environment variables the backend is launched with, as name and value.
    pub fn launch_env(&self) -> (r: Vec<(String, String)>)
        ensures
            r@.len() == 2,
            r@[0].0@ == VERSION_VAR@,
            r@[0].1@ == self.version@,
            r@[1].0@ == FEED_URL_VAR@,
            r@[1].1@ == self.feed_url@,
    {
        let mut r: Vec<(String, String)> = Vec::new();
        r.push((String::from_str(VERSION_VAR), self.version.clone()));
        r.push((String::from_str(FEED_URL_VAR), self.feed_url.clone()));
        r
    }
}

} // verus!
