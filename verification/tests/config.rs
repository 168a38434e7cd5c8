use registry::{RegistryConfig, RegistryEntry, StringMap};

#[test]
fn test_registry_config_default() {
    let config = RegistryConfig::default();
    assert!(config.registries.is_empty());
    assert_eq!(config.default_registry(), "docker.io");
}

#[test]
fn test_get_credentials_with_direct_password() {
    let mut config = RegistryConfig::default();
    config.registries.insert(
        "docker.io".to_string(),
        RegistryEntry {
            username: Some("testuser".to_string()),
            password: Some("testpass".to_string()),
            password_env: None,
            mirror: None,
            ..Default::default()
        },
    );

    assert_eq!(config.password_env_var("docker.io"), None);
    let creds = config.get_credentials("docker.io", None);
    assert!(creds.is_some());
    let creds = creds.unwrap();
    assert_eq!(creds.username, "testuser");
    assert_eq!(creds.password, "testpass");
}

#[test]
fn test_get_credentials_missing_username() {
    let mut config = RegistryConfig::default();
    config.registries.insert(
        "docker.io".to_string(),
        RegistryEntry {
            username: None,
            password: Some("testpass".to_string()),
            password_env: None,
            mirror: None,
            ..Default::default()
        },
    );

    assert!(config.get_credentials("docker.io", None).is_none());
}

#[test]
fn test_get_credentials_missing_password() {
    let mut config = RegistryConfig::default();
    config.registries.insert(
        "docker.io".to_string(),
        RegistryEntry {
            username: Some("testuser".to_string()),
            password: None,
            password_env: None,
            mirror: None,
            ..Default::default()
        },
    );

    assert!(config.get_credentials("docker.io", None).is_none());
}

#[test]
fn test_get_mirror() {
    let mut config = RegistryConfig::default();
    config.registries.insert(
        "docker.io".to_string(),
        RegistryEntry {
            username: None,
            password: None,
            password_env: None,
            mirror: Some("mirror.example.com".to_string()),
            ..Default::default()
        },
    );

    assert_eq!(config.get_mirror("docker.io"), Some("mirror.example.com"));
    assert_eq!(config.get_mirror("ghcr.io"), None);
}

#[test]
fn test_get_credentials_with_env_password() {
    let mut environment: StringMap<String> = StringMap::new();
    environment.insert("SMOLVM_TEST_TOKEN".to_string(), "env_password_123".to_string());

    let mut config = RegistryConfig::default();
    config.registries.insert(
        "test.io".to_string(),
        RegistryEntry {
            username: Some("envuser".to_string()),
            password: None,
            password_env: Some("SMOLVM_TEST_TOKEN".to_string()),
            mirror: None,
            ..Default::default()
        },
    );

    let variable = config.password_env_var("test.io").unwrap();
    let creds = config.get_credentials("test.io", environment.get(variable).cloned());
    assert!(creds.is_some());
    let creds = creds.unwrap();
    assert_eq!(creds.username, "envuser");
    assert_eq!(creds.password, "env_password_123");
}

#[test]
fn test_get_credentials_env_var_not_set() {
    let mut config = RegistryConfig::default();
    config.registries.insert(
        "test.io".to_string(),
        RegistryEntry {
            username: Some("user".to_string()),
            password: None,
            password_env: Some("SMOLVM_NONEXISTENT_VAR".to_string()),
            mirror: None,
            ..Default::default()
        },
    );

    // Should return None when env var is not set
    assert_eq!(config.password_env_var("test.io"), Some("SMOLVM_NONEXISTENT_VAR"));
    assert!(config.get_credentials("test.io", None).is_none());
}

#[test]
fn test_has_registries() {
    let mut config = RegistryConfig::default();
    assert!(!config.has_registries());

    config
        .registries
        .insert("docker.io".to_string(), RegistryEntry::default());
    assert!(config.has_registries());
}

#[test]
fn test_default_registry_custom() {
    let mut config = RegistryConfig::default();
    config.defaults.registry = Some("custom.registry.io".to_string());
    assert_eq!(config.default_registry(), "custom.registry.io");
}

#[test]
fn test_set_credentials_new_entry() {
    let mut config = RegistryConfig::default();
    config.set_credentials("registry.example.com", "user".into(), "pass".into());

    let creds = config.get_credentials("registry.example.com", None).unwrap();
    assert_eq!(creds.username, "user");
    assert_eq!(creds.password, "pass");
}

#[test]
fn test_set_credentials_overwrites_password_env() {
    let mut config = RegistryConfig::default();
    config.registries.insert(
        "registry.example.com".to_string(),
        RegistryEntry {
            username: Some("old".to_string()),
            password: None,
            password_env: Some("OLD_TOKEN_ENV".to_string()),
            mirror: Some("mirror.example.com".to_string()),
            ..Default::default()
        },
    );

    config.set_credentials("registry.example.com", "new".into(), "newpass".into());

    let entry = config.registries.get("registry.example.com").unwrap();
    assert_eq!(entry.username.as_deref(), Some("new"));
    assert_eq!(entry.password.as_deref(), Some("newpass"));
    assert_eq!(entry.password_env, None, "password_env must be cleared");
    assert_eq!(
        entry.mirror.as_deref(),
        Some("mirror.example.com"),
        "mirror must be preserved"
    );
}

#[test]
fn test_set_credentials_clears_identity_token() {
    let mut config = RegistryConfig::default();
    config.registries.insert(
        "registry.example.com".to_string(),
        RegistryEntry {
            identity_token: Some("eyJ_old_jwt".to_string()),
            refresh_token: Some("old_refresh".to_string()),
            expires_at: Some(9999999999),
            ..Default::default()
        },
    );

    config.set_credentials(
        "registry.example.com",
        "user".into(),
        "direct_bearer".into(),
    );

    let entry = config.registries.get("registry.example.com").unwrap();
    assert_eq!(entry.password.as_deref(), Some("direct_bearer"));
    assert_eq!(
        entry.identity_token, None,
        "stale identity_token must be cleared"
    );
    assert_eq!(
        entry.refresh_token, None,
        "stale refresh_token must be cleared"
    );
    assert_eq!(entry.expires_at, None, "stale expires_at must be cleared");
}

#[test]
fn test_set_token_uses_token_username() {
    let mut config = RegistryConfig::default();
    config.set_token("registry.example.com", "eyJhbGci.test");

    let creds = config.get_credentials("registry.example.com", None).unwrap();
    assert_eq!(creds.username, "token");
    assert_eq!(creds.password, "eyJhbGci.test");
}

/// A configuration with one registry that has every field set.
fn full_config() -> RegistryConfig {
    let mut config = RegistryConfig::default();
    config.registries.insert(
        "full.io".to_string(),
        RegistryEntry {
            username: Some("user".to_string()),
            password: Some("direct".to_string()),
            password_env: Some("TOKEN".to_string()),
            mirror: Some("mirror.io".to_string()),
            identity_token: Some("jwt".to_string()),
            refresh_token: Some("refresh".to_string()),
            expires_at: Some(-1),
        },
    );
    config
}

#[test]
fn environment_comes_before_password() {
    let config = full_config();
    assert_eq!(config.password_env_var("full.io"), Some("TOKEN"));
    let auth = config.get_credentials("full.io", Some("from_env".to_string())).unwrap();
    assert_eq!(auth.username, "user");
    assert_eq!(auth.password, "from_env");
}

#[test]
fn empty_environment_value_is_a_value() {
    let auth = full_config().get_credentials("full.io", Some(String::new())).unwrap();
    assert_eq!(auth.password, "");
}

#[test]
fn password_counts_when_variable_is_not_set() {
    let auth = full_config().get_credentials("full.io", None).unwrap();
    assert_eq!(auth.username, "user");
    assert_eq!(auth.password, "direct");
}

#[test]
fn environment_value_without_password_env_is_ignored() {
    let mut config = RegistryConfig::default();
    config.set_credentials("a.io", "user".to_string(), "direct".to_string());
    let auth = config.get_credentials("a.io", Some("stray".to_string())).unwrap();
    assert_eq!(auth.password, "direct");
}

#[test]
fn no_variable_is_needed_without_username() {
    let mut config = full_config();
    let mut entry = config.registries.get("full.io").unwrap().clone();
    entry.username = None;
    config.registries.insert("full.io".to_string(), entry);
    assert_eq!(config.password_env_var("full.io"), None);
    assert!(config.get_credentials("full.io", Some("x".to_string())).is_none());
}

#[test]
fn unknown_registry_has_nothing() {
    let config = full_config();
    assert_eq!(config.password_env_var("other.io"), None);
    assert!(config.get_credentials("other.io", Some("x".to_string())).is_none());
    assert_eq!(config.get_mirror("other.io"), None);
}

#[test]
fn identity_token_wins() {
    let mut config = full_config();
    config.set_identity_token("full.io", "new_jwt");
    let entry = config.registries.get("full.io").unwrap();
    assert_eq!(entry.identity_token.as_deref(), Some("new_jwt"));
    assert_eq!(entry.username, None);
    assert_eq!(entry.password, None);
    assert_eq!(entry.password_env, None);
    assert_eq!(entry.mirror.as_deref(), Some("mirror.io"));
    assert_eq!(entry.refresh_token.as_deref(), Some("refresh"));
    assert_eq!(entry.expires_at, Some(-1));
    assert!(config.get_credentials("full.io", Some("x".to_string())).is_none());
}

#[test]
fn identity_token_creates_entry() {
    let mut config = RegistryConfig::default();
    config.set_identity_token("new.io", "jwt");
    assert!(config.has_registries());
    let entry = config.registries.get("new.io").unwrap();
    assert_eq!(entry.identity_token.as_deref(), Some("jwt"));
    assert_eq!(entry.mirror, None);
    assert_eq!(entry.refresh_token, None);
    assert_eq!(entry.expires_at, None);
}

#[test]
fn token_clears_every_other_way_to_authenticate() {
    let mut config = full_config();
    config.set_token("full.io", "api_key");
    let entry = config.registries.get("full.io").unwrap();
    assert_eq!(entry.username.as_deref(), Some("token"));
    assert_eq!(entry.password.as_deref(), Some("api_key"));
    assert_eq!(entry.password_env, None);
    assert_eq!(entry.mirror.as_deref(), Some("mirror.io"));
    assert_eq!(entry.identity_token, None);
    assert_eq!(entry.refresh_token, None);
    assert_eq!(entry.expires_at, None);
}

#[test]
fn last_credentials_count() {
    let mut config = full_config();
    config.set_identity_token("full.io", "jwt2");
    config.set_credentials("full.io", "one".to_string(), "1".to_string());
    config.set_credentials("full.io", "two".to_string(), "2".to_string());
    let auth = config.get_credentials("full.io", Some("x".to_string())).unwrap();
    assert_eq!(auth.username, "two");
    assert_eq!(auth.password, "2");
    assert_eq!(config.registries.get("full.io").unwrap().identity_token, None);
    assert_eq!(config.registries.len(), 1);
}

#[test]
fn other_registries_stay_as_they_are() {
    let mut config = full_config();
    config.defaults.registry = Some("full.io".to_string());
    config.set_credentials("b.io", "b".to_string(), "pb".to_string());
    config.set_identity_token("c.io", "jwt_c");
    assert_eq!(config.registries.len(), 3);
    assert_eq!(config.default_registry(), "full.io");
    assert_eq!(config.get_mirror("full.io"), Some("mirror.io"));
    let auth = config.get_credentials("full.io", None).unwrap();
    assert_eq!(auth.password, "direct");
    let auth = config.get_credentials("b.io", None).unwrap();
    assert_eq!(auth.username, "b");
    assert_eq!(auth.password, "pb");
}

#[test]
fn clone_is_independent() {
    let mut config = full_config();
    let copy = config.clone();
    config.set_token("full.io", "new");
    let auth = copy.get_credentials("full.io", None).unwrap();
    assert_eq!(auth.clone().username, "user");
    assert_eq!(auth.password, "direct");
    assert_eq!(copy.default_registry(), "docker.io");
}

#[test]
fn empty_default_registry_is_kept() {
    let mut config = RegistryConfig::default();
    config.defaults.registry = Some(String::new());
    assert_eq!(config.default_registry(), "");
}

#[test]
fn registry_names_are_compared_exactly() {
    let mut config = RegistryConfig::default();
    config.set_token("Docker.io", "t");
    assert!(config.get_credentials("docker.io", None).is_none());
    assert!(config.get_credentials("Docker.io", None).is_some());
}
