//! What a gateway process is configured with: one switch for each family of
//! backends.

use vstd::prelude::*;

verus! {

/// The switches, one for each family of backends.
#[derive(Debug, Clone, Copy, PartialEq, Eq)]
pub struct BackendConfig {
    /// Enable Oxen backends.
    pub oxen_enabled: bool,
    /// Enable Tor backends.
    pub tor_enabled: bool,
}

/// The configuration of a gateway. It is settled once, when the process
/// starts.
#[derive(Debug, Clone, Copy, PartialEq, Eq)]
pub struct GoldDustConfig {
    pub backends: BackendConfig,
}

/// The file that holds the configuration where the operator names none.
pub const DEFAULT_CONFIG_FILE: &'static str = "gold-dust-gateway.toml";

/// The file that the configuration is loaded from: the one that the
/// operator named, else the default.
pub open spec fn config_file(path: Option<Seq<char>>) -> Seq<char> {
    match path {
        Some(p) => p,
        None => DEFAULT_CONFIG_FILE@,
    }
}

/// First step of loading the configuration: settles which file is read.
/// Reading and decoding it is left to the caller, who owns the file system.
pub fn load_config(path: Option<String>) -> (file: String)
    ensures
        file@ == config_file(
            match path {
                Some(p) => Some(p@),
                None => None,
            },
        ),
{
    match path {
        Some(p) => p,
        None => DEFAULT_CONFIG_FILE.to_owned(),
    }
}

} // verus!
