//! Credentials, mirrors and defaults for a set of OCI registries.

use crate::image::DEFAULT_REGISTRY;
use crate::string_map::StringMap;
use vstd::prelude::*;

verus! {

/// Registry credentials and defaults for a set of OCI registries.
#[derive(Debug)]
pub struct RegistryConfig {
    /// Per-registry configuration entries.
    pub registries: StringMap<RegistryEntry>,
    /// Default settings.
    pub defaults: RegistryDefaults,
}

/// Configuration for a single registry.
///
/// There are two ways to authenticate, and only one should be set per entry.
///
/// **Identity token** (`identity_token`): an upstream credential (e.g. an Auth0
/// JWT) exchanged with a token service for each operation, to obtain a
/// short-lived OCI bearer token. For registries behind a token service.
///
/// **Direct bearer** (`password` or `password_env`): an OCI bearer token sent
/// to the registry itself. For Docker Hub, GHCR and other registries that
/// accept static credentials.
///
/// `identity_token` takes precedence when both are set.
#[derive(Debug)]
pub struct RegistryEntry {
    /// Username for authentication (direct bearer only).
    pub username: Option<String>,
    /// Direct OCI bearer token or password (for secrets, prefer `password_env`).
    pub password: Option<String>,
    /// Environment variable that holds the direct OCI bearer token or password.
    pub password_env: Option<String>,
    /// Mirror URL to use instead of this registry.
    pub mirror: Option<String>,
    /// Upstream identity credential, exchanged for a short-lived OCI bearer token.
    pub identity_token: Option<String>,
    /// OAuth refresh token that renews `identity_token` when it expires.
    pub refresh_token: Option<String>,
    /// Unix timestamp at which `identity_token` expires.
    pub expires_at: Option<i64>,
}

/// Default registry settings.
#[derive(Debug)]
pub struct RegistryDefaults {
    /// Registry to use when none is specified (`docker.io` if unset).
    pub registry: Option<String>,
}

/// A username and a password to authenticate with.
#[derive(Debug)]
pub struct RegistryAuth {
    /// Username.
    pub username: String,
    /// Password or bearer token.
    pub password: String,
}

/// What a [`RegistryEntry`] holds.
#[verifier::ext_equal]
pub struct EntryView {
    pub username: Option<Seq<char>>,
    pub password: Option<Seq<char>>,
    pub password_env: Option<Seq<char>>,
    pub mirror: Option<Seq<char>>,
    pub identity_token: Option<Seq<char>>,
    pub refresh_token: Option<Seq<char>>,
    pub expires_at: Option<i64>,
}

/// What a [`RegistryAuth`] holds.
#[verifier::ext_equal]
pub struct AuthView {
    pub username: Seq<char>,
    pub password: Seq<char>,
}

/// What a [`RegistryConfig`] holds.
#[verifier::ext_equal]
pub struct ConfigView {
    pub registries: Map<Seq<char>, EntryView>,
    pub default_registry: Option<Seq<char>>,
}

/// The characters of an optional string.
pub open spec fn text_of(s: Option<String>) -> Option<Seq<char>> {
    match s {
        Some(t) => Some(t@),
        None => None,
    }
}

impl View for RegistryEntry {
    type V = EntryView;

    open spec fn view(&self) -> EntryView {
        EntryView {
            username: text_of(self.username),
            password: text_of(self.password),
            password_env: text_of(self.password_env),
            mirror: text_of(self.mirror),
            identity_token: text_of(self.identity_token),
            refresh_token: text_of(self.refresh_token),
            expires_at: self.expires_at,
        }
    }
}

impl View for RegistryDefaults {
    type V = Option<Seq<char>>;

    open spec fn view(&self) -> Option<Seq<char>> {
        text_of(self.registry)
    }
}

impl View for RegistryAuth {
    type V = AuthView;

    open spec fn view(&self) -> AuthView {
        AuthView { username: self.username@, password: self.password@ }
    }
}

impl View for RegistryConfig {
    type V = ConfigView;

    open spec fn view(&self) -> ConfigView {
        ConfigView {
            registries: self.registries@.map_values(|entry: RegistryEntry| entry@),
            default_registry: self.defaults@,
        }
    }
}

impl EntryView {
    /// The entry with nothing set.
    pub open spec fn empty() -> EntryView {
        EntryView {
            username: None,
            password: None,
            password_env: None,
            mirror: None,
            identity_token: None,
            refresh_token: None,
            expires_at: None,
        }
    }

    /// Whether some field of the direct bearer path is set.
    pub open spec fn has_direct_bearer(self) -> bool {
        self.username is Some || self.password is Some || self.password_env is Some
    }

    /// Whether at most one of the two authentication paths is set.
    pub open spec fn has_one_auth_path(self) -> bool {
        !(self.identity_token is Some && self.has_direct_bearer())
    }

    /// The password, when the variable that `password_env` names has the value
    /// `env_password`: that value, or else the direct password.
    pub open spec fn password_with(self, env_password: Option<Seq<char>>) -> Option<Seq<char>> {
        if self.password_env is Some && env_password is Some {
            env_password
        } else {
            self.password
        }
    }
}

impl ConfigView {
    /// The configuration with nothing set.
    pub open spec fn empty() -> ConfigView {
        ConfigView { registries: Map::empty(), default_registry: None }
    }

    /// The entry of `registry`, or the empty one.
    pub open spec fn entry_or_empty(self, registry: Seq<char>) -> EntryView {
        if self.registries.contains_key(registry) {
            self.registries[registry]
        } else {
            EntryView::empty()
        }
    }

    /// The configuration with the entry of `registry` set.
    pub open spec fn with_entry(self, registry: Seq<char>, entry: EntryView) -> ConfigView {
        ConfigView { registries: self.registries.insert(registry, entry), ..self }
    }

    /// The configuration with direct credentials for `registry`: of what the
    /// entry held before, only the mirror stays.
    pub open spec fn with_credentials(
        self,
        registry: Seq<char>,
        username: Seq<char>,
        password: Seq<char>,
    ) -> ConfigView {
        self.with_entry(
            registry,
            EntryView {
                username: Some(username),
                password: Some(password),
                mirror: self.entry_or_empty(registry).mirror,
                ..EntryView::empty()
            },
        )
    }

    /// The configuration with an identity token for `registry`: the fields of
    /// the direct bearer path are cleared, the others stay.
    pub open spec fn with_identity_token(self, registry: Seq<char>, token: Seq<char>) -> ConfigView {
        self.with_entry(
            registry,
            EntryView {
                identity_token: Some(token),
                username: None,
                password: None,
                password_env: None,
                ..self.entry_or_empty(registry)
            },
        )
    }

    /// The variable that can decide the password for `registry`.
    pub open spec fn password_env_var(self, registry: Seq<char>) -> Option<Seq<char>> {
        let entry = self.entry_or_empty(registry);
        if entry.username is Some {
            entry.password_env
        } else {
            None
        }
    }

    /// The credentials for `registry`, when the variable that decides its
    /// password has the value `env_password`.
    pub open spec fn credentials(
        self,
        registry: Seq<char>,
        env_password: Option<Seq<char>>,
    ) -> Option<AuthView> {
        let entry = self.entry_or_empty(registry);
        match (entry.username, entry.password_with(env_password)) {
            (Some(username), Some(password)) => Some(AuthView { username, password }),
            _ => None,
        }
    }

    /// The mirror of `registry`.
    pub open spec fn mirror(self, registry: Seq<char>) -> Option<Seq<char>> {
        self.entry_or_empty(registry).mirror
    }

    /// The default registry, `docker.io` if none is configured.
    pub open spec fn default_registry_name(self) -> Seq<char> {
        match self.default_registry {
            Some(name) => name,
            None => DEFAULT_REGISTRY@,
        }
    }

    /// Whether every entry has at most one authentication path.
    pub open spec fn has_one_auth_path(self) -> bool {
        forall|r: Seq<char>| #[trigger]
            self.registries.contains_key(r) ==> self.registries[r].has_one_auth_path()
    }
}

impl Default for RegistryEntry {
    fn default() -> (entry: Self)
        ensures
            entry@ == EntryView::empty(),
            entry.username is None,
            entry.password is None,
            entry.password_env is None,
            entry.mirror is None,
            entry.identity_token is None,
            entry.refresh_token is None,
            entry.expires_at is None,
    {
        RegistryEntry {
            username: None,
            password: None,
            password_env: None,
            mirror: None,
            identity_token: None,
            refresh_token: None,
            expires_at: None,
        }
    }
}

impl Clone for RegistryEntry {
    fn clone(&self) -> (copy: Self)
        ensures
            copy == *self,
    {
        RegistryEntry {
            username: self.username.clone(),
            password: self.password.clone(),
            password_env: self.password_env.clone(),
            mirror: self.mirror.clone(),
            identity_token: self.identity_token.clone(),
            refresh_token: self.refresh_token.clone(),
            expires_at: self.expires_at,
        }
    }
}

impl Default for RegistryDefaults {
    fn default() -> (defaults: Self)
        ensures
            defaults@ is None,
            defaults.registry is None,
    {
        RegistryDefaults { registry: None }
    }
}

impl Clone for RegistryDefaults {
    fn clone(&self) -> (copy: Self)
        ensures
            copy == *self,
    {
        RegistryDefaults { registry: self.registry.clone() }
    }
}

impl Clone for RegistryAuth {
    fn clone(&self) -> (copy: Self)
        ensures
            copy == *self,
    {
        RegistryAuth { username: self.username.clone(), password: self.password.clone() }
    }
}

impl Default for RegistryConfig {
    fn default() -> (config: Self)
        ensures
            config@ == ConfigView::empty(),
            config.registries@ == Map::<Seq<char>, RegistryEntry>::empty(),
            config.defaults.registry is None,
    {
        let config = RegistryConfig {
            registries: StringMap::new(),
            defaults: RegistryDefaults { registry: None },
        };
        assert(config@.registries =~= Map::empty());
        config
    }
}

impl Clone for RegistryConfig {
    fn clone(&self) -> (copy: Self)
        ensures
            copy@ == self@,
            copy.registries@ == self.registries@,
            copy.defaults == self.defaults,
    {
        let copy = RegistryConfig {
            registries: self.registries.clone(),
            defaults: self.defaults.clone(),
        };
        proof {
            assert forall|r: Seq<char>| #[trigger]
                self.registries@.contains_key(r) implies copy.registries@[r]
                == self.registries@[r] by {}
            assert(copy.registries@ =~= self.registries@);
        }
        copy
    }
}

impl RegistryConfig {
    /// A copy of the entry of `registry`, or an empty entry.
    fn entry_or_default(&self, registry: &str) -> (entry: RegistryEntry)
        ensures
            entry@ == self@.entry_or_empty(registry@),
            self.registries@.contains_key(registry@) ==> entry == self.registries@[registry@],
            !self.registries@.contains_key(registry@) ==> {
                &&& entry.mirror is None
                &&& entry.refresh_token is None
                &&& entry.expires_at is None
            },
    {
        match self.registries.get(registry) {
            Some(entry) => entry.clone(),
            None => RegistryEntry::default(),
        }
    }

    /// Sets the entry of `registry`.
    fn set_entry(&mut self, registry: &str, entry: RegistryEntry)
        ensures
            final(self)@ == old(self)@.with_entry(registry@, entry@),
            final(self).registries@ == old(self).registries@.insert(registry@, entry),
            final(self).defaults == old(self).defaults,
    {
        let _previous = self.registries.insert(registry.to_string(), entry);
        assert(self@.registries =~= old(self)@.registries.insert(registry@, entry@));
    }

    /// The environment variable whose value [`Self::get_credentials`] needs
    /// for `registry`: the `password_env` of an entry that has a username.
    pub fn password_env_var(&self, registry: &str) -> (name: Option<&str>)
        ensures
            match name {
                Some(n) => self@.password_env_var(registry@) == Some(n@),
                None => self@.password_env_var(registry@) is None,
            },
            name is Some <==> {
                &&& self.registries@.contains_key(registry@)
                &&& self.registries@[registry@].username is Some
                &&& self.registries@[registry@].password_env is Some
            },
            name is Some ==> name->0@ == self.registries@[registry@].password_env->0@,
    {
        match self.registries.get(registry) {
            Some(entry) => match (&entry.username, &entry.password_env) {
                (Some(_), Some(name)) => Some(name.as_str()),
                _ => None,
            },
            None => None,
        }
    }

    /// Get credentials for a registry. `env_password` is the value of the
    /// variable that [`Self::password_env_var`] names, or `None` if it is not
    /// set. It is preferred over the direct password.
    ///
    /// Returns `None` if:
    /// - there is no entry for this registry
    /// - no username is configured
    /// - no password is available (variable not set, no direct password)
    pub fn get_credentials(&self, registry: &str, env_password: Option<String>) -> (auth: Option<
        RegistryAuth,
    >)
        ensures
            match auth {
                Some(a) => self@.credentials(registry@, text_of(env_password)) == Some(a@),
                None => self@.credentials(registry@, text_of(env_password)) is None,
            },
            auth is Some <==> {
                &&& self.registries@.contains_key(registry@)
                &&& self.registries@[registry@].username is Some
                &&& self.registries@[registry@].password is Some || (
                self.registries@[registry@].password_env is Some && env_password is Some)
            },
            auth is Some ==> auth->0.username@ == self.registries@[registry@].username->0@,
            auth is Some ==> auth->0.password@ == (if self.registries@[registry@].password_env
                is Some && env_password is Some {
                env_password->0@
            } else {
                self.registries@[registry@].password->0@
            }),
    {
        let entry: &RegistryEntry = match self.registries.get(registry) {
            Some(entry) => entry,
            None => return None,
        };
        let username: &String = match &entry.username {
            Some(username) => username,
            None => return None,
        };
        // Try password_env first, then fall back to the direct password
        let from_env: Option<String> = if entry.password_env.is_some() {
            env_password
        } else {
            None
        };
        let password: String = match from_env {
            Some(password) => password,
            None => match &entry.password {
                Some(password) => password.clone(),
                None => return None,
            },
        };
        Some(RegistryAuth { username: username.clone(), password })
    }

    /// Get mirror URL for a registry if configured.
    pub fn get_mirror(&self, registry: &str) -> (mirror: Option<&str>)
        ensures
            match mirror {
                Some(m) => self@.mirror(registry@) == Some(m@),
                None => self@.mirror(registry@) is None,
            },
            mirror is Some <==> self.registries@.contains_key(registry@)
                && self.registries@[registry@].mirror is Some,
            mirror is Some ==> mirror->0@ == self.registries@[registry@].mirror->0@,
    {
        match self.registries.get(registry) {
            Some(entry) => match &entry.mirror {
                Some(mirror) => Some(mirror.as_str()),
                None => None,
            },
            None => None,
        }
    }

    /// Get the default registry (defaults to "docker.io").
    pub fn default_registry(&self) -> (name: &str)
        ensures
            name@ == self@.default_registry_name(),
            match self.defaults.registry {
                Some(configured) => name@ == configured@,
                None => name@ == "docker.io"@,
            },
    {
        match &self.defaults.registry {
            Some(name) => name.as_str(),
            None => DEFAULT_REGISTRY,
        }
    }

    /// Check if any registries are configured.
    pub fn has_registries(&self) -> (any: bool)
        ensures
            any == (exists|r: Seq<char>| self@.registries.contains_key(r)),
            any == (exists|r: Seq<char>| self.registries@.contains_key(r)),
    {
        let any: bool = !self.registries.is_empty();
        proof {
            if any {
                if forall|r: Seq<char>| !self.registries@.contains_key(r) {
                    assert(self.registries@ =~= Map::empty());
                }
                let r = choose|r: Seq<char>| self.registries@.contains_key(r);
                assert(self@.registries.contains_key(r));
            }
        }
        any
    }

    /// Set credentials for a registry, creating or updating the entry.
    ///
    /// Clears `password_env` and everything that belongs to an identity token,
    /// which would take precedence over the new password. Preserves any
    /// existing `mirror`.
    pub fn set_credentials(&mut self, registry: &str, username: String, password: String)
        ensures
            final(self)@ == old(self)@.with_credentials(registry@, username@, password@),
            final(self).registries@.dom() == old(self).registries@.dom().insert(registry@),
            forall|r: Seq<char>|
                r != registry@ && old(self).registries@.contains_key(r)
                    ==> #[trigger] final(self).registries@[r] == old(self).registries@[r],
            final(self).defaults == old(self).defaults,
            ({
                let entry = final(self).registries@[registry@];
                &&& entry.username == Some(username)
                &&& entry.password == Some(password)
                &&& entry.password_env is None
                &&& entry.identity_token is None
                &&& entry.refresh_token is None
                &&& entry.expires_at is None
                &&& entry.mirror == (if old(self).registries@.contains_key(registry@) {
                    old(self).registries@[registry@].mirror
                } else {
                    None
                })
            }),
    {
        let mut entry: RegistryEntry = self.entry_or_default(registry);
        entry.username = Some(username);
        entry.password = Some(password);
        entry.password_env = None;
        entry.identity_token = None;
        entry.refresh_token = None;
        entry.expires_at = None;
        self.set_entry(registry, entry);
    }

    /// Set a token for a registry using the `username="token"` convention.
    ///
    /// Suitable for API keys and short-lived JWTs. Preserves any existing
    /// `mirror`.
    pub fn set_token(&mut self, registry: &str, token: &str)
        ensures
            final(self)@ == old(self)@.with_credentials(registry@, "token"@, token@),
            final(self).registries@.dom() == old(self).registries@.dom().insert(registry@),
            forall|r: Seq<char>|
                r != registry@ && old(self).registries@.contains_key(r)
                    ==> #[trigger] final(self).registries@[r] == old(self).registries@[r],
            final(self).defaults == old(self).defaults,
            ({
                let entry = final(self).registries@[registry@];
                &&& entry.username is Some && entry.username->0@ == "token"@
                &&& entry.password is Some && entry.password->0@ == token@
                &&& entry.password_env is None
                &&& entry.identity_token is None
                &&& entry.refresh_token is None
                &&& entry.expires_at is None
                &&& entry.mirror == (if old(self).registries@.contains_key(registry@) {
                    old(self).registries@[registry@].mirror
                } else {
                    None
                })
            }),
    {
        self.set_credentials(registry, "token".to_string(), token.to_string());
    }

    /// Store an upstream identity credential (e.g. an Auth0 JWT) for a
    /// registry. Unlike [`Self::set_token`], the credential is not for the
    /// registry itself but for its token service.
    ///
    /// Clears the direct bearer fields, so that the exchange path always wins.
    /// Preserves everything else, the `mirror` included.
    pub fn set_identity_token(&mut self, registry: &str, token: &str)
        ensures
            final(self)@ == old(self)@.with_identity_token(registry@, token@),
            final(self).registries@.dom() == old(self).registries@.dom().insert(registry@),
            forall|r: Seq<char>|
                r != registry@ && old(self).registries@.contains_key(r)
                    ==> #[trigger] final(self).registries@[r] == old(self).registries@[r],
            final(self).defaults == old(self).defaults,
            ({
                let entry = final(self).registries@[registry@];
                &&& entry.identity_token is Some && entry.identity_token->0@ == token@
                &&& entry.username is None
                &&& entry.password is None
                &&& entry.password_env is None
                &&& entry.mirror == (if old(self).registries@.contains_key(registry@) {
                    old(self).registries@[registry@].mirror
                } else {
                    None
                })
                &&& entry.refresh_token == (if old(self).registries@.contains_key(registry@) {
                    old(self).registries@[registry@].refresh_token
                } else {
                    None
                })
                &&& entry.expires_at == (if old(self).registries@.contains_key(registry@) {
                    old(self).registries@[registry@].expires_at
                } else {
                    None
                })
            }),
    {
        let mut entry: RegistryEntry = self.entry_or_default(registry);
        entry.identity_token = Some(token.to_string());
        entry.username = None;
        entry.password = None;
        entry.password_env = None;
        self.set_entry(registry, entry);
    }
}

} // verus!
