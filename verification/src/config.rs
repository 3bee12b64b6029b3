//! Service configuration: where to listen, which database, the GitHub token,
//! the worker queue's capacity and the galaxy format version. Each setting
//! comes from a text value (an environment variable) and falls back to its
//! default when the value is missing or does not parse.
use vstd::prelude::*;
use crate::error::AppError;
use crate::text::{lemma_unsigned_text_value_nonneg, append_text, decimal_text, format_u64, in_range, owned_text, push_char, parse_i32, parse_u16, parse_usize, signed_text_value, unsigned_text_value};

verus! {

#[derive(Debug, Clone, PartialEq, Eq)]
pub struct AppConfig {
    pub server_host: String,
    pub server_port: u16,
    pub database_url: String,
    pub github_token: Option<String>,
    pub worker_queue_capacity: usize,
    pub galaxy_version: i32,
}

/// The raw text of each setting, `None` where it is not set.
#[derive(Debug, Clone, PartialEq, Eq)]
pub struct ConfigVars {
    pub database_url: Option<String>,
    pub server_host: Option<String>,
    pub server_port: Option<String>,
    pub github_token: Option<String>,
    pub worker_queue_capacity: Option<String>,
    pub galaxy_version: Option<String>,
}

pub fn default_host() -> (r: String)
    ensures
        r@ == "0.0.0.0"@,
{
    owned_text("0.0.0.0")
}

pub fn default_port() -> (r: u16)
    ensures
        r == 8080,
{
    8080
}

pub fn default_worker_capacity() -> (r: usize)
    ensures
        r == 512,
{
    512
}

pub fn default_galaxy_version() -> (r: i32)
    ensures
        r == 1,
{
    1
}

/// The port that the setting `v` selects.
pub open spec fn port_setting(v: Option<String>) -> u16 {
    match v {
        Some(s) => match in_range(unsigned_text_value(s@), 0, u16::MAX as int) {
            Some(x) => x as u16,
            None => 8080,
        },
        None => 8080,
    }
}

/// The queue capacity that the setting `v` selects.
pub open spec fn capacity_setting(v: Option<String>) -> usize {
    match v {
        Some(s) => match in_range(unsigned_text_value(s@), 0, usize::MAX as int) {
            Some(x) => x as usize,
            None => 512,
        },
        None => 512,
    }
}

/// The galaxy version that the setting `v` selects.
pub open spec fn version_setting(v: Option<String>) -> i32 {
    match v {
        Some(s) => match in_range(signed_text_value(s@), i32::MIN as int, i32::MAX as int) {
            Some(x) => x as i32,
            None => 1,
        },
        None => 1,
    }
}

impl AppConfig {
    /// The address `host:port` that the server binds to.
    pub fn bind_address(&self) -> (r: String)
        ensures
            r@ == self.server_host@ + seq![':'] + decimal_text(self.server_port as int),
    {
        let mut r = self.server_host.clone();
        push_char(&mut r, ':');
        let port = format_u64(self.server_port as u64);
        append_text(&mut r, port.as_str());
        r
    }

    /// The configuration that the settings `vars` describe. Only the
    /// database URL is required.
    pub fn from_vars(vars: ConfigVars) -> (r: Result<AppConfig, AppError>)
        ensures
            vars.database_url is None <==> r is Err,
            r matches Err(e) ==> e matches AppError::Other(m) && m@ == "DATABASE_URL is not set"@,
            r matches Ok(c) ==> {
                &&& Some(c.database_url) == vars.database_url
                &&& c.server_host@ == (match vars.server_host {
                    Some(h) => h@,
                    None => "0.0.0.0"@,
                })
                &&& c.server_port == port_setting(vars.server_port)
                &&& c.github_token == vars.github_token
                &&& c.worker_queue_capacity == capacity_setting(vars.worker_queue_capacity)
                &&& c.galaxy_version == version_setting(vars.galaxy_version)
            },
    {
        let database_url = match vars.database_url {
            Some(u) => u,
            None => {
                return Err(AppError::Other(owned_text("DATABASE_URL is not set")));
            },
        };
        let server_host = match vars.server_host {
            Some(h) => h,
            None => default_host(),
        };
        let server_port = match &vars.server_port {
            Some(s) => match parse_u16(s.as_str()) {
                Some(p) => p,
                None => default_port(),
            },
            None => default_port(),
        };
        let worker_queue_capacity = match &vars.worker_queue_capacity {
            Some(s) => match parse_usize(s.as_str()) {
                Some(c) => c,
                None => default_worker_capacity(),
            },
            None => default_worker_capacity(),
        };
        let galaxy_version = match &vars.galaxy_version {
            Some(s) => match parse_i32(s.as_str()) {
                Some(v) => v,
                None => default_galaxy_version(),
            },
            None => default_galaxy_version(),
        };
        Ok(AppConfig {
            server_host,
            server_port,
            database_url,
            github_token: vars.github_token,
            worker_queue_capacity,
            galaxy_version,
        })
    }
}


/// The port is the number the setting writes when it is one that fits a
/// `u16`; only a missing setting, or one that is not such a number, gives
/// 8080.
pub proof fn lemma_port_setting(v: Option<String>)
    ensures
        v is Some && unsigned_text_value(v->0@) is Some && unsigned_text_value(v->0@)->0 <= 65535
            ==> port_setting(v) == unsigned_text_value(v->0@)->0,
        v is None ==> port_setting(v) == 8080,
        v matches Some(s) && (unsigned_text_value(s@) is None || unsigned_text_value(s@)->0
            > 65535) ==> port_setting(v) == 8080,
{
    if v is Some {
        lemma_unsigned_text_value_nonneg(v->0@);
    }
}

/// The queue capacity is the number the setting writes when it fits a
/// `usize`, else 512.
pub proof fn lemma_capacity_setting(v: Option<String>)
    ensures
        v is Some && unsigned_text_value(v->0@) is Some && unsigned_text_value(v->0@)->0
            <= usize::MAX ==> capacity_setting(v) == unsigned_text_value(v->0@)->0,
        v is None ==> capacity_setting(v) == 512,
        v matches Some(s) && (unsigned_text_value(s@) is None || unsigned_text_value(s@)->0
            > usize::MAX) ==> capacity_setting(v) == 512,
{
    if v is Some {
        lemma_unsigned_text_value_nonneg(v->0@);
    }
}

/// The galaxy version is the (signed) number the setting writes when it fits
/// an `i32`, else 1.
pub proof fn lemma_version_setting(v: Option<String>)
    ensures
        v is Some && signed_text_value(v->0@) is Some && i32::MIN <= signed_text_value(v->0@)->0
            <= i32::MAX ==> version_setting(v) == signed_text_value(v->0@)->0,
        v is None ==> version_setting(v) == 1,
        v matches Some(s) && (signed_text_value(s@) is None || signed_text_value(s@)->0 < i32::MIN
            || signed_text_value(s@)->0 > i32::MAX) ==> version_setting(v) == 1,
{
}

} // verus!
