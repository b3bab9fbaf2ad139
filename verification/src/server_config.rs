//! The server's own settings.

use vstd::prelude::*;
use vstd::string::StringExecFns;

verus! {

/// The content of the server configuration file.
#[derive(Debug)]
pub struct ServerConfig {
    pub server: ServerSettings,
    pub camera_config: CameraConfig,
}

/// Where the server listens and how much it logs.
#[derive(Debug)]
pub struct ServerSettings {
    pub host: String,
    pub port: u16,
    pub log_level: String,
}

/// Where the camera list is kept.
#[derive(Debug)]
pub struct CameraConfig {
    pub config_file: String,
}

/// The verbosity used where the environment asks for none: `debug`.
pub open spec fn default_log_filter() -> Seq<char> {
    seq!['d', 'e', 'b', 'u', 'g']
}

/// The log verbosity to run with: the one that the environment variable
/// gives, or the default where the variable is absent.
pub fn log_filter(from_env: Option<String>) -> (res: String)
    ensures
        from_env is Some ==> res@ == from_env->0@,
        from_env is None ==> res@ == default_log_filter(),
{
    match from_env {
        Some(value) => value,
        None => {
            proof {
                reveal_strlit("debug");
            }
            String::from_str("debug")
        },
    }
}

} // verus!
