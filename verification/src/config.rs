//! What can be set.

use vstd::prelude::*;

verus! {

/// Who may use the API.
#[derive(Debug)]
pub struct AuthConfig {
    /// The keys that open it.
    pub api_keys: Vec<String>,
}

/// The port to listen on where none is set.
pub fn default_port() -> (port: u16)
    ensures
        port == 80,
{
    80
}

} // verus!
