//! The service's settings, and what is derived from them: the log level and
//! format, and the database URL, in full and masked for logs.
use crate::error::LogLevel;
use crate::text::{decimal, decimal_string, lower_of, lowercase, str_eq};
use vstd::prelude::*;

verus! {

/// All settings of the service.
#[derive(Debug)]
pub struct AppConfig {
    pub app: App,
    pub postgres: Postgres,
    pub logging: Logging,
}

/// Settings of the server.
#[derive(Debug)]
pub struct App {
    pub host: String,
    pub version: String,
    pub port: u16,
}

/// Settings of the database connection.
#[derive(Debug)]
pub struct Postgres {
    pub host: String,
    pub port: u16,
    pub name: String,
    pub user: String,
    pub password: String,
    pub max_connections: u32,
}

/// Settings of logging.
#[derive(Debug)]
pub struct Logging {
    /// One of "error", "warn", "info", "debug", "trace", in any case.
    pub level: String,
    /// "json" (or "structured") for JSON records, anything else for plain text.
    pub format: String,
}

/// The level that a lowercased level name selects; unknown names select info.
pub open spec fn level_of_name(s: Seq<char>) -> LogLevel {
    if s == "error"@ {
        LogLevel::Error
    } else if s == "warn"@ {
        LogLevel::Warn
    } else if s == "info"@ {
        LogLevel::Info
    } else if s == "debug"@ {
        LogLevel::Debug
    } else if s == "trace"@ {
        LogLevel::Trace
    } else {
        LogLevel::Info
    }
}

impl Logging {
    /// The most verbose level to record.
    pub fn level_filter(&self) -> (r: LogLevel)
        ensures
            r == level_of_name(lower_of(self.level@)),
    {
        let level = lowercase(self.level.as_str());
        level_for_name(level.as_str())
    }

    /// Whether log records are written as JSON.
    pub fn is_json(&self) -> (r: bool)
        ensures
            r == is_json_name(lower_of(self.format@)),
    {
        let format = lowercase(self.format.as_str());
        is_json_format(format.as_str())
    }
}

/// The level that a lowercased level name selects.
pub fn level_for_name(name: &str) -> (r: LogLevel)
    ensures
        r == level_of_name(name@),
{
    if str_eq(name, "error") {
        LogLevel::Error
    } else if str_eq(name, "warn") {
        LogLevel::Warn
    } else if str_eq(name, "info") {
        LogLevel::Info
    } else if str_eq(name, "debug") {
        LogLevel::Debug
    } else if str_eq(name, "trace") {
        LogLevel::Trace
    } else {
        LogLevel::Info
    }
}

/// The lowercased format names that select JSON records.
pub open spec fn is_json_name(name: Seq<char>) -> bool {
    name == "json"@ || name == "structured"@
}

/// Whether a lowercased format name selects JSON records.
pub fn is_json_format(name: &str) -> (r: bool)
    ensures
        r == is_json_name(name@),
{
    str_eq(name, "json") || str_eq(name, "structured")
}

/// The result of percent-encoding the UTF-8 bytes of `s`.
pub uninterp spec fn url_encoded_of(s: Seq<char>) -> Seq<char>;

/// The characters that percent-encoding leaves as they are.
pub open spec fn is_unreserved(c: char) -> bool {
    ('a' <= c <= 'z') || ('A' <= c <= 'Z') || ('0' <= c <= '9') || c == '-' || c == '_' || c
        == '.' || c == '~'
}

/// Relies on urlencoding's `encode`: every byte of the UTF-8 text but ASCII
/// letters, digits and `-`, `_`, `.`, `~` is percent-encoded, so text of those
/// characters alone comes back unchanged.
#[verifier::external_body]
fn url_encode(s: &str) -> (r: String)
    ensures
        r@ == url_encoded_of(s@),
        (forall|i: int| 0 <= i < s@.len() ==> is_unreserved(#[trigger] s@[i])) ==> r@ == s@,
{
    urlencoding::encode(s).into_owned()
}

/// The first character of `s`, or `_` for empty text.
pub open spec fn first_or_underscore(s: Seq<char>) -> Seq<char> {
    if s.len() > 0 {
        s.subrange(0, 1)
    } else {
        "_"@
    }
}

fn first_char(s: &str) -> (r: String)
    ensures
        r@ == first_or_underscore(s@),
{
    if s.unicode_len() > 0 {
        String::from_str(s.substring_char(0, 1))
    } else {
        String::from_str("_")
    }
}

/// The connection URL of `pg` with `password` written in it.
pub open spec fn postgres_url(pg: &Postgres, password: Seq<char>) -> Seq<char> {
    "postgres://"@ + pg.user@ + ":"@ + password + "@"@ + pg.host@ + ":"@ + decimal(pg.port as nat)
        + "/"@ + pg.name@
}

impl AppConfig {
    /// The URL to connect to the database, with the password percent-encoded.
    pub fn get_postgres_url(&self) -> (r: String)
        ensures
            r@ == postgres_url(&self.postgres, url_encoded_of(self.postgres.password@)),
    {
        let password = url_encode(self.postgres.password.as_str());
        self.postgres_url_with(password.as_str())
    }

    /// The URL to connect to the database, with `password` standing for the
    /// password as is.
    pub fn postgres_url_with(&self, password: &str) -> (r: String)
        ensures
            r@ == postgres_url(&self.postgres, password@),
    {
        let pg = &self.postgres;
        let port = decimal_string(pg.port as usize);
        String::from_str("postgres://").concat(pg.user.as_str()).concat(":").concat(
            password,
        ).concat("@").concat(pg.host.as_str()).concat(":").concat(port.as_str()).concat(
            "/",
        ).concat(pg.name.as_str())
    }

    /// The database URL for logs: of the user, host, port and database name
    /// only the first character is kept, and the password is hidden.
    pub fn get_masked_postgres_url(&self) -> (r: String)
        ensures
            r@ == "postgres://"@ + first_or_underscore(self.postgres.user@) + "*:"@ + "**"@
                + "@"@ + first_or_underscore(self.postgres.host@) + "*:"@ + first_or_underscore(
                decimal(self.postgres.port as nat),
            ) + "*/"@ + first_or_underscore(self.postgres.name@) + "*"@,
    {
        let pg = &self.postgres;
        let user = first_char(pg.user.as_str());
        let host = first_char(pg.host.as_str());
        let port_digits = decimal_string(pg.port as usize);
        let port = first_char(port_digits.as_str());
        let name = first_char(pg.name.as_str());
        String::from_str("postgres://").concat(user.as_str()).concat("*:").concat("**").concat(
            "@",
        ).concat(host.as_str()).concat("*:").concat(port.as_str()).concat("*/").concat(
            name.as_str(),
        ).concat("*")
    }
}

} // verus!
