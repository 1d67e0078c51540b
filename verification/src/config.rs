//! The gateway's configuration: built once at start-up and only read afterwards.

use vstd::hash_map::StringHashMap;
use vstd::prelude::*;

verus! {

/// Ports and protocol switches of the listeners.
#[derive(Debug, Clone)]
pub struct ServerSettings {
    pub http_port: u16,
    pub https_port: u16,
    pub http_enabled: bool,
    pub https_enabled: bool,
    pub behind_proxy: bool,
}

/// The dialect that an upstream registry speaks; `Auto` asks for a probe.
#[derive(Debug, Clone, Copy, PartialEq, Eq, Structural)]
pub enum RegistryApiVersion {
    V1,
    V2,
    Auto,
}

impl Default for RegistryApiVersion {
    fn default() -> (version: Self)
        ensures
            version == RegistryApiVersion::Auto,
    {
        RegistryApiVersion::Auto
    }
}

/// One upstream registry. Without `auth_url` its token endpoint is `{url}/token`.
#[derive(Debug, Clone)]
pub struct RegistryConfig {
    pub url: String,
    pub api_version: RegistryApiVersion,
    pub auth_url: Option<String>,
}

/// The default upstream and the registries that are reached by a path prefix.
pub struct RegistrySettings {
    pub upstream_registry: String,
    pub registries: StringHashMap<RegistryConfig>,
}

/// Where the certificate chain and the private key are read from.
#[derive(Debug, Clone)]
pub struct TlsSettings {
    pub cert_path: String,
    pub key_path: String,
}

/// What a user presents to an upstream registry.
#[derive(Debug, Clone)]
pub struct RegistryCredential {
    pub username: String,
    pub password: String,
}

/// A user of the gateway: the password that the user presents to the gateway,
/// and the credentials per registry key.
pub struct UserSettings {
    pub password: String,
    pub registry_credentials: StringHashMap<RegistryCredential>,
}

/// Whether the gateway checks its clients itself, and against which users.
pub struct AuthSettings {
    pub enabled: bool,
    pub users: StringHashMap<UserSettings>,
}

/// The whole configuration.
pub struct Settings {
    pub server: ServerSettings,
    pub registry: RegistrySettings,
    pub tls: TlsSettings,
    pub auth: AuthSettings,
}

impl RegistrySettings {
    /// Settings with a default upstream and no other registry.
    pub fn new(upstream_registry: String) -> (settings: Self)
        ensures
            settings.upstream_registry == upstream_registry,
            settings.registries@ == Map::<Seq<char>, RegistryConfig>::empty(),
    {
        RegistrySettings { upstream_registry, registries: StringHashMap::new() }
    }

    /// Configures the registry `key`; an earlier entry for `key` is replaced.
    pub fn insert(&mut self, key: String, registry: RegistryConfig)
        ensures
            final(self).upstream_registry == old(self).upstream_registry,
            final(self).registries@ == old(self).registries@.insert(key@, registry),
    {
        self.registries.insert(key, registry);
    }
}

impl UserSettings {
    /// A user with a password and no registry credentials.
    pub fn new(password: String) -> (user: Self)
        ensures
            user.password == password,
            user.registry_credentials@ == Map::<Seq<char>, RegistryCredential>::empty(),
    {
        UserSettings { password, registry_credentials: StringHashMap::new() }
    }

    /// Sets the credentials for the registry `key`; earlier ones are replaced.
    pub fn insert(&mut self, key: String, credential: RegistryCredential)
        ensures
            final(self).password == old(self).password,
            final(self).registry_credentials@ == old(self).registry_credentials@.insert(
                key@,
                credential,
            ),
    {
        self.registry_credentials.insert(key, credential);
    }
}

impl AuthSettings {
    /// Settings without users.
    pub fn new(enabled: bool) -> (settings: Self)
        ensures
            settings.enabled == enabled,
            settings.users@ == Map::<Seq<char>, UserSettings>::empty(),
    {
        AuthSettings { enabled, users: StringHashMap::new() }
    }

    /// Adds the user `username`; an earlier user of that name is replaced.
    pub fn insert(&mut self, username: String, user: UserSettings)
        ensures
            final(self).enabled == old(self).enabled,
            final(self).users@ == old(self).users@.insert(username@, user),
    {
        self.users.insert(username, user);
    }
}

impl Settings {
    /// The configuration made of its four parts.
    pub fn new(
        server: ServerSettings,
        registry: RegistrySettings,
        tls: TlsSettings,
        auth: AuthSettings,
    ) -> (settings: Self)
        ensures
            settings.server == server,
            settings.registry == registry,
            settings.tls == tls,
            settings.auth == auth,
    {
        Settings { server, registry, tls, auth }
    }
}

} // verus!
