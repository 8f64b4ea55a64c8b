use vstd::prelude::*;

verus! {

/// The API origin used until the host application sets another one.
pub fn default_api_base() -> (r: &'static str)
    ensures
        r@ == "api.swarmnode.ai"@,
{
    "api.swarmnode.ai"
}

/// Settings handed to `set_config`; a field that is `None` leaves the
/// corresponding value unchanged.
#[derive(Debug, Clone)]
pub struct SwarmNodeConfig {
    pub api_key: Option<String>,
    pub api_base: Option<String>,
}

/// The configuration that every transport call reads: the API origin and the
/// credential, owned explicitly by the host application rather than held in
/// process-global state.
#[derive(Debug, Clone)]
pub struct ApiConfig {
    pub api_base: String,
    pub api_key: Option<String>,
}

impl ApiConfig {
    /// A credential has been configured; transport calls refuse to run
    /// without one.
    pub open spec fn has_credential(&self) -> bool {
        self.api_key is Some
    }

    /// A fresh configuration: the default origin and no credential.
    pub fn new() -> (r: ApiConfig)
        ensures
            r.api_base@ == "api.swarmnode.ai"@,
            r.api_key is None,
    {
        ApiConfig { api_base: String::from_str(default_api_base()), api_key: None }
    }
}

/// Replaces the configured API origin.
pub fn set_api_base(config: &mut ApiConfig, base: &str)
    ensures
        final(config).api_base@ == base@,
        final(config).api_key == old(config).api_key,
{
    config.api_base = String::from_str(base);
}

/// Reads the configured API origin.
pub fn get_api_base(config: &ApiConfig) -> (r: String)
    ensures
        r@ == config.api_base@,
{
    config.api_base.clone()
}

/// Replaces the configured credential.
pub fn set_api_key(config: &mut ApiConfig, key: &str)
    ensures
        final(config).api_key matches Some(k) && k@ == key@,
        final(config).api_base == old(config).api_base,
{
    config.api_key = Some(String::from_str(key));
}

/// Reads the configured credential, if any.
pub fn get_api_key(config: &ApiConfig) -> (r: Option<String>)
    ensures
        r is Some <==> config.api_key is Some,
        r matches Some(k) ==> config.api_key matches Some(c) && k@ == c@,
{
    match &config.api_key {
        Some(k) => Some(k.clone()),
        None => None,
    }
}

/// Applies the given settings: an explicit credential wins, otherwise an
/// environment-provided one (handed in by the host) is used, otherwise the
/// old credential stays; the origin changes only when one is given.
pub fn set_config(state: &mut ApiConfig, config: SwarmNodeConfig, env_api_key: Option<String>)
    ensures
        config.api_key matches Some(k) ==> (final(state).api_key matches Some(s) && s@ == k@),
        config.api_key is None ==> (env_api_key matches Some(k) ==> (final(state).api_key matches Some(s) && s@ == k@)),
        config.api_key is None && env_api_key is None ==> final(state).api_key == old(state).api_key,
        config.api_base matches Some(b) ==> final(state).api_base@ == b@,
        config.api_base is None ==> final(state).api_base == old(state).api_base,
{
    if let Some(key) = config.api_key {
        state.api_key = Some(key);
    } else if let Some(key) = env_api_key {
        state.api_key = Some(key);
    }
    if let Some(base) = config.api_base {
        state.api_base = base;
    }
}

} // verus!
