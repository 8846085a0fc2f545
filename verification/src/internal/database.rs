//! The database, addressed by one connection URL.

use vstd::prelude::*;
use vstd::string::*;

verus! {

/// The URL that opens the database, credentials included.
#[derive(Debug, Default)]
pub struct DatabaseConfig {
    pub url: String,
}

impl DatabaseConfig {
    pub fn new(url: &str) -> (config: Self)
        ensures
            config.url@ == url@,
    {
        DatabaseConfig { url: String::from_str(url) }
    }
}

} // verus!
