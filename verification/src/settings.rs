//! The server's configuration and its defaults. Reading the configuration
//! file and the environment is the application's part; the library holds
//! the settings and what each section holds when nothing configures it.

use vstd::prelude::*;

use crate::external::{path_buf_from, path_from_text};

verus! {

/// The whole configuration of the server.
#[derive(Debug)]
pub struct Settings {
    pub server: ServerSettings,
    pub storage: StorageSettings,
    pub log: LogSettings,
}

/// Where the server listens and how long a request may take.
#[derive(Debug)]
pub struct ServerSettings {
    pub host: String,
    pub port: u16,
    pub request_timeout_secs: u64,
}

impl Default for ServerSettings {
    /// Listen on every interface, port 9000, with a 30 second deadline.
    fn default() -> (s: Self)
        ensures
            s.host@ == "0.0.0.0"@,
            s.port == 9000,
            s.request_timeout_secs == 30,
    {
        ServerSettings { host: String::from_str("0.0.0.0"), port: 9000, request_timeout_secs: 30 }
    }
}

/// Where objects are stored on disk.
#[derive(Debug)]
pub struct StorageSettings {
    pub path: std::path::PathBuf,
}

impl Default for StorageSettings {
    /// Store under `./data`.
    fn default() -> (s: Self)
        ensures
            s.path == path_from_text("./data"@),
    {
        StorageSettings { path: path_buf_from("./data") }
    }
}

/// How much is logged, and in which format.
#[derive(Debug)]
pub struct LogSettings {
    pub level: String,
    pub format: LogFormat,
}

impl Default for LogSettings {
    /// Log at `info` level in the human-readable format.
    fn default() -> (s: Self)
        ensures
            s.level@ == "info"@,
            s.format == LogFormat::Pretty,
    {
        LogSettings { level: String::from_str("info"), format: LogFormat::Pretty }
    }
}

/// The format of log lines.
#[derive(Debug, Clone, Copy, PartialEq, Eq, Structural)]
pub enum LogFormat {
    Json,
    Pretty,
}

} // verus!
