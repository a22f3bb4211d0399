//! Configuration carried by the process: where to listen, where the store
//! lives, how to log, and what the server calls itself.

use vstd::prelude::*;
use vstd::string::StringExecFns;

verus! {

/// Identity settings.
#[derive(Debug, Clone)]
pub struct GeneralConfig {
    pub server_name: String,
}

/// Network settings.
#[derive(Debug, Clone)]
pub struct ServerConfig {
    pub listen_socket: String,
}

/// Storage settings: the store directory, relative to the data directory.
#[derive(Debug, Clone)]
pub struct StorageConfig {
    pub db_path: String,
}

/// Logging settings.
#[derive(Debug, Clone)]
pub struct LoggingConfig {
    pub level: String,
}

/// The whole resolved configuration.
#[derive(Debug, Clone)]
pub struct Config {
    pub general: GeneralConfig,
    pub server: ServerConfig,
    pub storage: StorageConfig,
    pub logging: LoggingConfig,
}

impl Default for Config {
    /// The configuration used when none is stored yet.
    fn default() -> (c: Config)
        ensures
            c.general.server_name@ == "pubky-homeserver-mvp"@,
            c.server.listen_socket@ == "127.0.0.1:8080"@,
            c.storage.db_path@ == "data/lmdb"@,
            c.logging.level@ == "info"@,
    {
        Config {
            general: GeneralConfig { server_name: "pubky-homeserver-mvp".to_owned() },
            server: ServerConfig { listen_socket: "127.0.0.1:8080".to_owned() },
            storage: StorageConfig { db_path: "data/lmdb".to_owned() },
            logging: LoggingConfig { level: "info".to_owned() },
        }
    }
}

/// Decides whether `path` may serve as the data directory: a path that
/// names an existing regular file cannot. `is_existing_file` says whether
/// it does; on rejection the error message names the path.
pub fn validate_data_dir_path(path: &str, is_existing_file: bool) -> (r: Result<String, String>)
    ensures
        r matches Ok(p) ==> !is_existing_file && p@ == path@,
        r matches Err(m) ==> is_existing_file && m@ == "Given path is not a directory: "@ + path@,
{
    if is_existing_file {
        let mut message = "Given path is not a directory: ".to_owned();
        message.append(path);
        Err(message)
    } else {
        Ok(path.to_owned())
    }
}

} // verus!
