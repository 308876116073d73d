//! The settings of the client, as loaded once at start.

use vstd::prelude::*;

verus! {

/// All settings.
#[derive(Debug, Clone)]
pub struct Settings {
    pub api: ApiConfig,
    pub auth: AuthConfig,
    pub ui: UiConfig,
    pub cache: CacheConfig,
}

/// Where the server is and how long to wait for it.
#[derive(Debug, Clone)]
pub struct ApiConfig {
    pub endpoint: String,
    pub timeout_seconds: u64,
}

/// The stored credential; empty when there is none.
#[derive(Debug, Clone)]
pub struct AuthConfig {
    pub token: String,
}

/// How the client presents itself.
#[derive(Debug, Clone)]
pub struct UiConfig {
    pub page_size: usize,
    pub show_hints: bool,
    pub theme: String,
}

/// Whether and how long answers are kept.
#[derive(Debug, Clone)]
pub struct CacheConfig {
    pub enable_cache: bool,
    pub ttl_seconds: u64,
}

/// The server used when none is configured.
pub fn default_api_endpoint() -> (endpoint: String)
    ensures
        endpoint@ == "https://apibizray.bnbdevelopment.hu"@,
{
    "https://apibizray.bnbdevelopment.hu".to_owned()
}

/// Seconds to wait for an answer when nothing is configured.
pub fn default_timeout() -> (seconds: u64)
    ensures
        seconds == 30,
{
    30
}

/// Results per page when nothing is configured.
pub fn default_page_size() -> (size: usize)
    ensures
        size == 12,
{
    12
}

/// Key hints are shown when nothing is configured.
pub fn default_show_hints() -> (show: bool)
    ensures
        show,
{
    true
}

/// The theme used when none is configured.
pub fn default_theme() -> (theme: String)
    ensures
        theme@ == "default"@,
{
    "default".to_owned()
}

/// Answers are kept when nothing is configured.
pub fn default_enable_cache() -> (enable: bool)
    ensures
        enable,
{
    true
}

/// Seconds an answer is kept when nothing is configured.
pub fn default_ttl() -> (seconds: u64)
    ensures
        seconds == 300,
{
    300
}

impl Default for AuthConfig {
    /// No credential.
    fn default() -> (auth: Self)
        ensures
            auth.token@ == Seq::<char>::empty(),
    {
        AuthConfig { token: String::new() }
    }
}

impl Default for CacheConfig {
    fn default() -> (cache: Self)
        ensures
            cache.enable_cache,
            cache.ttl_seconds == 300,
    {
        CacheConfig { enable_cache: default_enable_cache(), ttl_seconds: default_ttl() }
    }
}

impl Default for Settings {
    /// The settings of a client for which nothing is configured.
    fn default() -> (settings: Self)
        ensures
            settings.api.endpoint@ == "https://apibizray.bnbdevelopment.hu"@,
            settings.api.timeout_seconds == 30,
            settings.auth.token@ == Seq::<char>::empty(),
            settings.ui.page_size == 12,
            settings.ui.show_hints,
            settings.ui.theme@ == "default"@,
            settings.cache.enable_cache,
            settings.cache.ttl_seconds == 300,
            !settings.has_token(),
    {
        Settings {
            api: ApiConfig { endpoint: default_api_endpoint(), timeout_seconds: default_timeout() },
            auth: AuthConfig { token: String::new() },
            ui: UiConfig {
                page_size: default_page_size(),
                show_hints: default_show_hints(),
                theme: default_theme(),
            },
            cache: CacheConfig { enable_cache: default_enable_cache(), ttl_seconds: default_ttl() },
        }
    }
}

impl Settings {
    /// Whether a credential is stored.
    pub open spec fn has_token(&self) -> bool {
        self.auth.token@.len() > 0
    }

    /// Stores `token` as the credential. Writing the settings out is left to
    /// the caller.
    pub fn set_token(&mut self, token: String)
        ensures
            final(self).auth.token == token,
            final(self).api == old(self).api,
            final(self).ui == old(self).ui,
            final(self).cache == old(self).cache,
    {
        self.auth.token = token;
    }

    /// Forgets the credential. Writing the settings out is left to the
    /// caller.
    pub fn clear_token(&mut self)
        ensures
            !final(self).has_token(),
            final(self).api == old(self).api,
            final(self).ui == old(self).ui,
            final(self).cache == old(self).cache,
    {
        self.auth.token = String::new();
    }

    /// Whether a credential is stored.
    pub fn is_authenticated(&self) -> (yes: bool)
        ensures
            yes == self.has_token(),
    {
        !self.auth.token.as_str().is_empty()
    }
}

} // verus!
