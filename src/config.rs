//! Configuration values and the server settings derived from them.

use vstd::prelude::*;

verus! {

/// The port the server listens on when the configuration names none.
pub const DEFAULT_PORT: u16 = 8080;

/// The number of workers when the configuration names none.
pub const DEFAULT_WORKERS: u16 = 4;

/// Settings of the SMTP client that sends the notification mails.
pub struct SmtpConfig {
    /// Domain name of the server.
    pub domain: String,
    /// Port to connect to.
    pub port: u16,
    /// Username for authentication, usually the mail address.
    pub username: String,
    /// Password for authentication.
    pub password: String,
}

/// Configuration values as read from the configuration file.
pub struct Config {
    /// The TCP port to listen on.
    pub port: Option<u16>,
    /// Amount of workers to run for the server.
    pub workers: Option<u16>,
    /// Secret key for private cookies. Without one a random key is drawn on each start.
    pub secret_key: Option<String>,
    /// Public facing URL from where the service is accessible.
    pub host: String,
    /// Settings for the SMTP client.
    pub smtp: SmtpConfig,
}

/// The settings the server runs with.
pub struct ServerSettings {
    pub port: u16,
    pub workers: u16,
    pub secret_key: Option<String>,
}

/// Derive the server settings from the configuration file, filling in the defaults.
pub fn load(file: &Config) -> (r: ServerSettings)
    ensures
        r.port == match file.port {
            Some(p) => p,
            None => DEFAULT_PORT,
        },
        r.workers == match file.workers {
            Some(w) => w,
            None => DEFAULT_WORKERS,
        },
        r.secret_key == file.secret_key,
{
    let port = match file.port {
        Some(p) => p,
        None => DEFAULT_PORT,
    };
    let workers = match file.workers {
        Some(w) => w,
        None => DEFAULT_WORKERS,
    };
    let secret_key = match &file.secret_key {
        Some(k) => Some(k.clone()),
        None => None,
    };
    ServerSettings { port, workers, secret_key }
}

} // verus!
