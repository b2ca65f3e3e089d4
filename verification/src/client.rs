use vstd::prelude::*;
use vstd::string::StringExecFns;

use crate::cache::TokenCache;

verus! {

/// Time-to-live requested for a long-lived token, in seconds (30 days).
pub const LONG_TOKEN_TTL_SECONDS: u32 = 2592000;

/// The base endpoint used when none is configured.
pub open spec fn spec_default_base_url() -> Seq<char> {
    "https://api.c2m.com/v2"@
}

/// The base endpoint used when none is configured.
pub fn default_base_url() -> (r: &'static str)
    ensures
        r@ == spec_default_base_url(),
{
    "https://api.c2m.com/v2"
}

/// Path of the long-token endpoint, relative to the base URL.
pub open spec fn spec_long_token_path() -> Seq<char> {
    "/auth/tokens/long"@
}

/// Path of the long-token endpoint, relative to the base URL.
pub fn long_token_path() -> (r: &'static str)
    ensures
        r@ == spec_long_token_path(),
{
    "/auth/tokens/long"
}

/// Path of the short-token endpoint, relative to the base URL.
pub open spec fn spec_short_token_path() -> Seq<char> {
    "/auth/tokens/short"@
}

/// Path of the short-token endpoint, relative to the base URL.
pub fn short_token_path() -> (r: &'static str)
    ensures
        r@ == spec_short_token_path(),
{
    "/auth/tokens/short"
}

/// Path of the business endpoint that submits a single-document job,
/// relative to the base URL.
pub open spec fn spec_submit_path() -> Seq<char> {
    "/jobs/submit-single-doc-with-template"@
}

/// Path of the business endpoint that submits a single-document job,
/// relative to the base URL.
pub fn submit_path() -> (r: &'static str)
    ensures
        r@ == spec_submit_path(),
{
    "/jobs/submit-single-doc-with-template"
}

/// Body of a long-token request: the stored credentials, the fixed scopes,
/// and the fixed time-to-live.
pub struct LongTokenRequest {
    pub grant_type: String,
    pub client_id: String,
    pub client_secret: String,
    pub scopes: Vec<String>,
    pub ttl_seconds: u32,
}

/// Body of a short-token request: the fixed scope set.
pub struct ShortTokenRequest {
    pub scopes: Vec<String>,
}

/// A client instance: one credential pair, one base endpoint, and the token
/// cache the authentication flow reads and writes. The credentials and base
/// URL are immutable after construction.
pub struct C2MClient {
    pub client_id: String,
    pub client_secret: String,
    pub base_url: String,
    pub cache: TokenCache,
}

impl C2MClient {
    /// A client for the default base endpoint, with an empty token cache.
    pub fn new(client_id: String, client_secret: String) -> (c: C2MClient)
        ensures
            c.client_id@ == client_id@,
            c.client_secret@ == client_secret@,
            c.base_url@ == spec_default_base_url(),
            c.cache.long_view() is None,
            c.cache.short_view() is None,
    {
        Self::with_base_url(client_id, client_secret, String::from_str(default_base_url()))
    }

    /// A client for the given base endpoint, with an empty token cache.
    pub fn with_base_url(client_id: String, client_secret: String, base_url: String) -> (c:
        C2MClient)
        ensures
            c.client_id@ == client_id@,
            c.client_secret@ == client_secret@,
            c.base_url@ == base_url@,
            c.cache.long_view() is None,
            c.cache.short_view() is None,
    {
        C2MClient { client_id, client_secret, base_url, cache: TokenCache::new() }
    }

    /// The absolute URL of the long-token endpoint.
    pub fn long_token_url(&self) -> (r: String)
        ensures
            r@ == self.base_url@ + spec_long_token_path(),
    {
        let mut url = self.base_url.clone();
        url.append(long_token_path());
        url
    }

    /// The absolute URL of the short-token endpoint.
    pub fn short_token_url(&self) -> (r: String)
        ensures
            r@ == self.base_url@ + spec_short_token_path(),
    {
        let mut url = self.base_url.clone();
        url.append(short_token_path());
        url
    }

    /// The absolute URL of the business endpoint.
    pub fn submit_url(&self) -> (r: String)
        ensures
            r@ == self.base_url@ + spec_submit_path(),
    {
        let mut url = self.base_url.clone();
        url.append(submit_path());
        url
    }

    /// The long-token request this client sends: grant type
    /// `client_credentials`, the stored credentials, the three fixed scopes,
    /// and the fixed 30-day time-to-live.
    pub fn long_token_request(&self) -> (r: LongTokenRequest)
        ensures
            r.grant_type@ == "client_credentials"@,
            r.client_id@ == self.client_id@,
            r.client_secret@ == self.client_secret@,
            r.scopes@.len() == 3,
            r.scopes@[0]@ == "jobs:submit"@,
            r.scopes@[1]@ == "jobs:read"@,
            r.scopes@[2]@ == "templates:read"@,
            r.ttl_seconds == LONG_TOKEN_TTL_SECONDS,
    {
        let mut scopes: Vec<String> = Vec::new();
        scopes.push(String::from_str("jobs:submit"));
        scopes.push(String::from_str("jobs:read"));
        scopes.push(String::from_str("templates:read"));
        LongTokenRequest {
            grant_type: String::from_str("client_credentials"),
            client_id: self.client_id.clone(),
            client_secret: self.client_secret.clone(),
            scopes,
            ttl_seconds: LONG_TOKEN_TTL_SECONDS,
        }
    }

    /// The short-token request this client sends: the single fixed scope.
    pub fn short_token_request(&self) -> (r: ShortTokenRequest)
        ensures
            r.scopes@.len() == 1,
            r.scopes@[0]@ == "jobs:submit"@,
    {
        let mut scopes: Vec<String> = Vec::new();
        scopes.push(String::from_str("jobs:submit"));
        ShortTokenRequest { scopes }
    }
}

} // verus!
