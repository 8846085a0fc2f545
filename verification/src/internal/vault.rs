//! Vault, addressed by its URL and opened by a token.

use vstd::prelude::*;
use vstd::string::*;

verus! {

/// Where Vault is, and the token that opens it.
#[derive(Debug, Default)]
pub struct VaultConfig {
    pub url: String,
    pub token: String,
}

impl VaultConfig {
    pub fn new(url: &str, token: &str) -> (config: Self)
        ensures
            config.url@ == url@,
            config.token@ == token@,
    {
        VaultConfig { url: String::from_str(url), token: String::from_str(token) }
    }
}

} // verus!
