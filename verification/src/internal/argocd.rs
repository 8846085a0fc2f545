//! Argo CD, addressed by the namespace of the application.

use vstd::prelude::*;
use vstd::string::*;

verus! {

/// Where Argo CD is, which application is meant, and the token to use.
#[derive(Debug, Default)]
pub struct ArgoCDConfig {
    pub api_url: String,
    pub namespace: String,
    pub token: String,
}

/// The address that triggers a sync.
pub open spec fn sync_endpoint(api_url: Seq<char>, namespace: Seq<char>) -> Seq<char> {
    api_url + "/api/v1/applications/"@ + namespace + "/sync"@
}

/// The address that reports the state of the rollout.
pub open spec fn rollout_endpoint(api_url: Seq<char>, namespace: Seq<char>) -> Seq<char> {
    api_url + "/api/v1/applications/"@ + namespace
}

/// The value of the `Authorization` header for a token.
pub open spec fn bearer_token(token: Seq<char>) -> Seq<char> {
    "Bearer "@ + token
}

impl ArgoCDConfig {
    pub fn new(api_url: &str, namespace: &str, token: &str) -> (config: Self)
        ensures
            config.api_url@ == api_url@,
            config.namespace@ == namespace@,
            config.token@ == token@,
    {
        ArgoCDConfig {
            api_url: String::from_str(api_url),
            namespace: String::from_str(namespace),
            token: String::from_str(token),
        }
    }

    /// The address that triggers a sync of the application.
    pub fn sync_endpoint(&self) -> (url: String)
        ensures
            url@ == sync_endpoint(self.api_url@, self.namespace@),
    {
        let mut url = self.rollout_endpoint();
        url.append("/sync");
        url
    }

    /// The address that reports the state of the rollout.
    pub fn rollout_endpoint(&self) -> (url: String)
        ensures
            url@ == rollout_endpoint(self.api_url@, self.namespace@),
    {
        let mut url = self.api_url.clone();
        url.append("/api/v1/applications/");
        url.append(self.namespace.as_str());
        url
    }

    /// The value of the `Authorization` header.
    pub fn authorization(&self) -> (header: String)
        ensures
            header@ == bearer_token(self.token@),
    {
        let mut header = String::from_str("Bearer ");
        header.append(self.token.as_str());
        header
    }
}

} // verus!
