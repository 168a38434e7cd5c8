//! What holds of every configuration and every change to one.

use crate::config::{
    AuthView, ConfigView, EntryView, RegistryAuth, RegistryConfig, RegistryDefaults, RegistryEntry,
};
use crate::image::DEFAULT_REGISTRY;
use vstd::prelude::*;

verus! {

/// The credentials for `registry` in the environment `env`, which maps each
/// variable that is set to its value.
pub open spec fn credentials_in(
    config: ConfigView,
    registry: Seq<char>,
    env: Map<Seq<char>, Seq<char>>,
) -> Option<AuthView> {
    let env_password = match config.password_env_var(registry) {
        Some(name) => if env.contains_key(name) {
            Some(env[name])
        } else {
            None
        },
        None => None,
    };
    config.credentials(registry, env_password)
}

/// A new configuration has no entry, no credentials and no mirror for any
/// registry, and its default registry is `docker.io`.
pub proof fn law_empty_config(registry: Seq<char>, env: Map<Seq<char>, Seq<char>>)
    ensures
        !ConfigView::empty().registries.contains_key(registry),
        credentials_in(ConfigView::empty(), registry, env) is None,
        ConfigView::empty().mirror(registry) is None,
        ConfigView::empty().default_registry_name() == DEFAULT_REGISTRY@,
        ConfigView::empty().default_registry_name() == "docker.io"@,
        ConfigView::empty().default_registry is None,
        ConfigView::empty().has_one_auth_path(),
{
}

/// There are no credentials exactly when the registry has no entry, the entry
/// has no username, or no password is available: the variable is not set or
/// not configured, and there is no direct password.
pub proof fn law_no_credentials(
    config: ConfigView,
    registry: Seq<char>,
    env: Map<Seq<char>, Seq<char>>,
)
    ensures
        credentials_in(config, registry, env) is None <==> {
            let entry = config.registries[registry];
            ||| !config.registries.contains_key(registry)
            ||| entry.username is None
            ||| entry.password is None && !(entry.password_env is Some && env.contains_key(
                entry.password_env->0,
            ))
        },
{
}

/// The variable that `password_env` names decides the password when it is set.
pub proof fn law_environment_before_password(
    config: ConfigView,
    registry: Seq<char>,
    env: Map<Seq<char>, Seq<char>>,
)
    requires
        config.registries.contains_key(registry),
        config.registries[registry].username is Some,
        config.registries[registry].password_env is Some,
        env.contains_key(config.registries[registry].password_env->0),
    ensures
        credentials_in(config, registry, env) == Some(
            AuthView {
                username: config.registries[registry].username->0,
                password: env[config.registries[registry].password_env->0],
            },
        ),
{
}

/// The direct password counts when no variable is configured, or the one that
/// is configured is not set.
pub proof fn law_password_without_environment(
    config: ConfigView,
    registry: Seq<char>,
    env: Map<Seq<char>, Seq<char>>,
)
    requires
        config.registries.contains_key(registry),
        config.registries[registry].username is Some,
        config.registries[registry].password is Some,
        config.registries[registry].password_env is None || !env.contains_key(
            config.registries[registry].password_env->0,
        ),
    ensures
        credentials_in(config, registry, env) == Some(
            AuthView {
                username: config.registries[registry].username->0,
                password: config.registries[registry].password->0,
            },
        ),
{
}

/// Credentials that were set are the ones that are got, in every environment
/// and whatever the entry held before.
pub proof fn law_set_then_get_credentials(
    config: ConfigView,
    registry: Seq<char>,
    username: Seq<char>,
    password: Seq<char>,
    env: Map<Seq<char>, Seq<char>>,
)
    ensures
        credentials_in(config.with_credentials(registry, username, password), registry, env)
            == Some(AuthView { username, password }),
{
}

/// Setting credentials leaves no trace of an identity token or of a
/// `password_env`.
pub proof fn law_set_credentials_clears(
    config: ConfigView,
    registry: Seq<char>,
    username: Seq<char>,
    password: Seq<char>,
)
    ensures
        ({
            let entry = config.with_credentials(
                registry,
                username,
                password,
            ).registries[registry];
            &&& entry.password_env is None
            &&& entry.identity_token is None
            &&& entry.refresh_token is None
            &&& entry.expires_at is None
        }),
{
}

/// An identity token that was set is stored, and no direct credentials are
/// left to be got, in any environment.
pub proof fn law_identity_token_wins(
    config: ConfigView,
    registry: Seq<char>,
    token: Seq<char>,
    env: Map<Seq<char>, Seq<char>>,
)
    ensures
        config.with_identity_token(registry, token).registries[registry].identity_token == Some(
            token,
        ),
        !config.with_identity_token(registry, token).registries[registry].has_direct_bearer(),
        ({
            let entry = config.with_identity_token(registry, token).registries[registry];
            &&& entry.username is None
            &&& entry.password is None
            &&& entry.password_env is None
        }),
        credentials_in(config.with_identity_token(registry, token), registry, env) is None,
{
}

/// Neither way to authenticate touches a mirror, of this or another registry.
pub proof fn law_mirrors_preserved(
    config: ConfigView,
    registry: Seq<char>,
    username: Seq<char>,
    password: Seq<char>,
    token: Seq<char>,
    any_registry: Seq<char>,
)
    ensures
        config.with_credentials(registry, username, password).mirror(any_registry)
            == config.mirror(any_registry),
        config.with_identity_token(registry, token).mirror(any_registry) == config.mirror(
            any_registry,
        ),
{
}

/// Setting how to authenticate with one registry leaves the entries of the
/// others, their credentials and the default registry as they were.
pub proof fn law_other_registries_untouched(
    config: ConfigView,
    registry: Seq<char>,
    username: Seq<char>,
    password: Seq<char>,
    token: Seq<char>,
    other: Seq<char>,
    env: Map<Seq<char>, Seq<char>>,
)
    requires
        other != registry,
    ensures
        ({
            let after = config.with_credentials(registry, username, password);
            &&& after.registries.contains_key(other) == config.registries.contains_key(other)
            &&& after.entry_or_empty(other) == config.entry_or_empty(other)
            &&& config.registries.contains_key(other) ==> after.registries[other]
                == config.registries[other]
            &&& after.default_registry == config.default_registry
            &&& credentials_in(after, other, env) == credentials_in(config, other, env)
            &&& after.default_registry_name() == config.default_registry_name()
        }),
        ({
            let after = config.with_identity_token(registry, token);
            &&& after.registries.contains_key(other) == config.registries.contains_key(other)
            &&& after.entry_or_empty(other) == config.entry_or_empty(other)
            &&& config.registries.contains_key(other) ==> after.registries[other]
                == config.registries[other]
            &&& after.default_registry == config.default_registry
            &&& credentials_in(after, other, env) == credentials_in(config, other, env)
            &&& after.default_registry_name() == config.default_registry_name()
        }),
{
}

/// A registry that was set is configured.
pub proof fn law_set_registry_is_configured(
    config: ConfigView,
    registry: Seq<char>,
    username: Seq<char>,
    password: Seq<char>,
    token: Seq<char>,
)
    ensures
        config.with_credentials(registry, username, password).registries.contains_key(registry),
        config.with_identity_token(registry, token).registries.contains_key(registry),
{
}

/// A set entry has one authentication path, and a configuration in which every
/// entry has at most one stays so.
pub proof fn law_one_auth_path_preserved(
    config: ConfigView,
    registry: Seq<char>,
    username: Seq<char>,
    password: Seq<char>,
    token: Seq<char>,
)
    ensures
        config.with_credentials(
            registry,
            username,
            password,
        ).registries[registry].has_one_auth_path(),
        config.with_identity_token(registry, token).registries[registry].has_one_auth_path(),
        config.with_credentials(registry, username, password).registries[registry].identity_token
            is None,
        config.with_identity_token(registry, token).registries[registry].username is None,
        config.with_identity_token(registry, token).registries[registry].password is None,
        config.with_identity_token(registry, token).registries[registry].password_env is None,
        config.has_one_auth_path() ==> config.with_credentials(
            registry,
            username,
            password,
        ).has_one_auth_path(),
        config.has_one_auth_path() ==> config.with_identity_token(
            registry,
            token,
        ).has_one_auth_path(),
{
}

/// Credentials replace whatever was set for the registry before, be it other
/// credentials or an identity token, and an identity token replaces an
/// earlier one.
pub proof fn law_last_set_counts(
    config: ConfigView,
    registry: Seq<char>,
    username: Seq<char>,
    password: Seq<char>,
    token: Seq<char>,
    earlier_username: Seq<char>,
    earlier_password: Seq<char>,
    earlier_token: Seq<char>,
)
    ensures
        config.with_credentials(registry, earlier_username, earlier_password).with_credentials(
            registry,
            username,
            password,
        ) == config.with_credentials(registry, username, password),
        config.with_identity_token(registry, earlier_token).with_credentials(
            registry,
            username,
            password,
        ) == config.with_credentials(registry, username, password),
        config.with_identity_token(registry, earlier_token).with_identity_token(registry, token)
            == config.with_identity_token(registry, token),
{
    let set = config.with_credentials(registry, username, password);
    assert(config.with_credentials(
        registry,
        earlier_username,
        earlier_password,
    ).with_credentials(registry, username, password).registries =~= set.registries);
    assert(config.with_identity_token(registry, earlier_token).with_credentials(
        registry,
        username,
        password,
    ).registries =~= set.registries);
    assert(config.with_identity_token(registry, earlier_token).with_identity_token(
        registry,
        token,
    ).registries =~= config.with_identity_token(registry, token).registries);
}

/// An entry has one authentication path unless an identity token stands beside
/// a username, a password or a variable for one.
pub proof fn law_one_auth_path(entry: EntryView)
    ensures
        entry.has_direct_bearer() <==> entry.username is Some || entry.password is Some
            || entry.password_env is Some,
        entry.has_one_auth_path() <==> entry.identity_token is None || (entry.username is None
            && entry.password is None && entry.password_env is None),
{
}

/// The mirror of a registry is the one its entry stores, whatever the default
/// registry is. A registry without an entry has none.
pub proof fn law_mirror_is_stored(config: ConfigView, registry: Seq<char>)
    ensures
        config.registries.contains_key(registry) ==> config.mirror(registry)
            == config.registries[registry].mirror,
        !config.registries.contains_key(registry) ==> config.mirror(registry) is None,
{
}

/// The default registry is the configured one, however it is spelled, and
/// `docker.io` when none is configured.
pub proof fn law_default_registry_is_configured_one(config: ConfigView)
    ensures
        config.default_registry is Some ==> config.default_registry_name()
            == config.default_registry->0,
        config.default_registry is None ==> config.default_registry_name() == "docker.io"@,
{
}

/// The variable that can decide a password is the `password_env` of an entry
/// that has a username, and there is none otherwise.
pub proof fn law_password_env_var_is_stored(config: ConfigView, registry: Seq<char>)
    ensures
        config.registries.contains_key(registry) && config.registries[registry].username is Some
            ==> config.password_env_var(registry) == config.registries[registry].password_env,
        !config.registries.contains_key(registry) || config.registries[registry].username is None
            ==> config.password_env_var(registry) is None,
{
}

/// Credentials are the stored username with the value of the variable, if one
/// is configured and set, or else with the stored password. Where the username
/// or both passwords are missing there are none.
pub proof fn law_credentials_of_entry(
    config: ConfigView,
    registry: Seq<char>,
    env_password: Option<Seq<char>>,
)
    ensures
        ({
            let entry = config.registries[registry];
            let from_env = entry.password_env is Some && env_password is Some;
            let available = config.registries.contains_key(registry) && entry.username is Some && (
            from_env || entry.password is Some);
            let auth = config.credentials(registry, env_password);
            &&& auth is Some <==> available
            &&& available ==> auth->0.username == entry.username->0
            &&& available && from_env ==> auth->0.password == env_password->0
            &&& available && !from_env ==> auth->0.password == entry.password->0
        }),
{
}

/// Credentials in an environment are those with the value that the environment
/// gives to the stored `password_env`.
pub proof fn law_credentials_in_environment(
    config: ConfigView,
    registry: Seq<char>,
    env: Map<Seq<char>, Seq<char>>,
)
    ensures
        ({
            let variable = config.registries[registry].password_env;
            let set = variable is Some && env.contains_key(variable->0);
            &&& set ==> credentials_in(config, registry, env) == config.credentials(
                registry,
                Some(env[variable->0]),
            )
            &&& !set ==> credentials_in(config, registry, env) == config.credentials(
                registry,
                None,
            )
        }),
{
}

/// What is looked up for a registry depends on its own entry alone, not on
/// the other entries or the default registry.
pub proof fn law_lookup_depends_on_entry_alone(
    a: ConfigView,
    b: ConfigView,
    registry: Seq<char>,
    env_password: Option<Seq<char>>,
)
    requires
        a.registries.contains_key(registry) == b.registries.contains_key(registry),
        a.registries.contains_key(registry) ==> a.registries[registry] == b.registries[registry],
    ensures
        a.mirror(registry) == b.mirror(registry),
        a.password_env_var(registry) == b.password_env_var(registry),
        a.credentials(registry, env_password) == b.credentials(registry, env_password),
{
}

/// The entry that setting credentials stores: the username and the password,
/// the mirror that was stored before, and nothing else.
pub proof fn law_stored_credentials(
    config: ConfigView,
    registry: Seq<char>,
    username: Seq<char>,
    password: Seq<char>,
)
    ensures
        ({
            let after = config.with_credentials(registry, username, password);
            let entry = after.registries[registry];
            &&& after.registries.contains_key(registry)
            &&& entry.username == Some(username)
            &&& entry.password == Some(password)
            &&& entry.password_env is None
            &&& entry.identity_token is None
            &&& entry.refresh_token is None
            &&& entry.expires_at is None
            &&& config.registries.contains_key(registry) ==> entry.mirror
                == config.registries[registry].mirror
            &&& !config.registries.contains_key(registry) ==> entry.mirror is None
        }),
{
}

/// The entry that setting an identity token stores: the token, no direct
/// credentials, and the mirror, the refresh token and the expiry that were
/// stored before.
pub proof fn law_stored_identity_token(config: ConfigView, registry: Seq<char>, token: Seq<char>)
    ensures
        ({
            let after = config.with_identity_token(registry, token);
            let entry = after.registries[registry];
            &&& after.registries.contains_key(registry)
            &&& entry.identity_token == Some(token)
            &&& entry.username is None
            &&& entry.password is None
            &&& entry.password_env is None
            &&& config.registries.contains_key(registry) ==> {
                &&& entry.mirror == config.registries[registry].mirror
                &&& entry.refresh_token == config.registries[registry].refresh_token
                &&& entry.expires_at == config.registries[registry].expires_at
            }
            &&& !config.registries.contains_key(registry) ==> {
                &&& entry.mirror is None
                &&& entry.refresh_token is None
                &&& entry.expires_at is None
            }
        }),
{
}

/// Storing an entry adds its registry and no other.
pub proof fn law_stored_entry(config: ConfigView, registry: Seq<char>, entry: EntryView)
    ensures
        ({
            let after = config.with_entry(registry, entry);
            &&& after.registries.dom() == config.registries.dom().insert(registry)
            &&& after.registries[registry] == entry
            &&& forall|r: Seq<char>|
                r != registry && config.registries.contains_key(r)
                    ==> #[trigger] after.registries[r] == config.registries[r]
            &&& after.default_registry == config.default_registry
        }),
{
    assert(config.with_entry(registry, entry).registries.dom() =~= config.registries.dom().insert(
        registry,
    ));
}

/// The registries that are configured after authentication was set for one are
/// those from before and that one.
pub proof fn law_configured_registries(
    config: ConfigView,
    registry: Seq<char>,
    username: Seq<char>,
    password: Seq<char>,
    token: Seq<char>,
)
    ensures
        config.with_credentials(registry, username, password).registries.dom()
            == config.registries.dom().insert(registry),
        config.with_identity_token(registry, token).registries.dom()
            == config.registries.dom().insert(registry),
{
    assert(config.with_credentials(registry, username, password).registries.dom()
        =~= config.registries.dom().insert(registry));
    assert(config.with_identity_token(registry, token).registries.dom()
        =~= config.registries.dom().insert(registry));
}

/// An entry with nothing set holds no value in any field.
pub proof fn law_empty_entry(config: ConfigView, registry: Seq<char>)
    ensures
        EntryView::empty().username is None,
        EntryView::empty().password is None,
        EntryView::empty().password_env is None,
        EntryView::empty().mirror is None,
        EntryView::empty().identity_token is None,
        EntryView::empty().refresh_token is None,
        EntryView::empty().expires_at is None,
        config.registries.contains_key(registry) ==> config.entry_or_empty(registry)
            == config.registries[registry],
        !config.registries.contains_key(registry) ==> config.entry_or_empty(registry)
            == EntryView::empty(),
{
}

/// `view` holds the characters of `text`, or nothing where it is unset.
pub open spec fn shows(view: Option<Seq<char>>, text: Option<String>) -> bool {
    &&& view is Some <==> text is Some
    &&& text is Some ==> view->0 == text->0@
}

/// The view of an optional string shows whether it is set, and its characters.
pub proof fn law_shows(view: Option<Seq<char>>, text: String)
    ensures
        shows(view, Some(text)) <==> view == Some(text@),
        shows(view, None) <==> view is None,
        crate::config::text_of(Some(text)) == Some(text@),
        crate::config::text_of(None) is None,
{
}

/// The view of an entry shows each field under its own name.
pub proof fn law_entry_view(entry: RegistryEntry)
    ensures
        shows(entry@.username, entry.username),
        shows(entry@.password, entry.password),
        shows(entry@.password_env, entry.password_env),
        shows(entry@.mirror, entry.mirror),
        shows(entry@.identity_token, entry.identity_token),
        shows(entry@.refresh_token, entry.refresh_token),
        entry@.expires_at == entry.expires_at,
{
}

/// The view of credentials shows the username and the password.
pub proof fn law_auth_view(auth: RegistryAuth)
    ensures
        auth@.username == auth.username@,
        auth@.password == auth.password@,
{
}

/// The view of the defaults shows the default registry.
pub proof fn law_defaults_view(defaults: RegistryDefaults)
    ensures
        shows(defaults@, defaults.registry),
{
}

/// The view of a configuration shows every entry that is stored, under its
/// name, and no other, and the default registry that is stored.
pub proof fn law_config_view(config: RegistryConfig, registry: Seq<char>)
    ensures
        config@.registries.dom() == config.registries@.dom(),
        config.registries@.contains_key(registry) ==> config@.registries[registry]
            == config.registries@[registry]@,
        shows(config@.default_registry, config.defaults.registry),
{
    assert(config@.registries.dom() =~= config.registries@.dom());
}

} // verus!
