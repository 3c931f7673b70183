//! Application configuration.

use vstd::prelude::*;

verus! {

/// Application configuration.
#[derive(Debug, Clone, PartialEq, Eq)]
pub struct AppConfig {
    /// Service bind address.
    pub bind: String,
}

impl Default for AppConfig {
    /// Binds the loopback interface on port 3000.
    fn default() -> (r: Self)
        ensures
            r.bind@ == "127.0.0.1:3000"@,
    {
        AppConfig { bind: String::from_str("127.0.0.1:3000") }
    }
}

} // verus!
