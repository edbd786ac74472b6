use vstd::prelude::*;

verus! {

/// The service's settings: where it listens, where its store lives, and the
/// secret that signs session tokens.
#[derive(Debug, Clone)]
pub struct AppConfig {
    pub host: String,
    pub port: String,
    pub database_url: String,
    pub secret_key: String,
}

/// A setting that was not given.
#[derive(Debug, Clone, Copy, PartialEq, Eq, Structural)]
pub enum ConfigError {
    MissingHost,
    MissingPort,
    MissingDatabaseUrl,
    MissingSecretKey,
}

impl AppConfig {
    /// Builds the settings from the value found for each of them (`None`
    /// where it is unset), reporting the first missing one in the order host,
    /// port, database URL, secret key.
    pub fn new(
        host: Option<String>,
        port: Option<String>,
        database_url: Option<String>,
        secret_key: Option<String>,
    ) -> (r: Result<AppConfig, ConfigError>)
        ensures
            host is None ==> r == Err::<AppConfig, ConfigError>(ConfigError::MissingHost),
            host is Some && port is None ==> r == Err::<AppConfig, ConfigError>(ConfigError::MissingPort),
            host is Some && port is Some && database_url is None
                ==> r == Err::<AppConfig, ConfigError>(ConfigError::MissingDatabaseUrl),
            host is Some && port is Some && database_url is Some && secret_key is None
                ==> r == Err::<AppConfig, ConfigError>(ConfigError::MissingSecretKey),
            r matches Ok(c) ==> {
                &&& host == Some(c.host)
                &&& port == Some(c.port)
                &&& database_url == Some(c.database_url)
                &&& secret_key == Some(c.secret_key)
            },
            host is Some && port is Some && database_url is Some && secret_key is Some ==> r is Ok,
    {
        let host = match host {
            Some(v) => v,
            None => return Err(ConfigError::MissingHost),
        };
        let port = match port {
            Some(v) => v,
            None => return Err(ConfigError::MissingPort),
        };
        let database_url = match database_url {
            Some(v) => v,
            None => return Err(ConfigError::MissingDatabaseUrl),
        };
        let secret_key = match secret_key {
            Some(v) => v,
            None => return Err(ConfigError::MissingSecretKey),
        };
        Ok(AppConfig { host, port, database_url, secret_key })
    }
}

} // verus!
