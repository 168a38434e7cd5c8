# registry

OCI registry configuration and image references, verified with Verus.

- `src/config.rs`: `RegistryConfig`, with credentials, mirrors and the default
  registry. `src/config_laws.rs` proves what holds of every change to it.
- `src/image.rs`: `extract_registry` and `rewrite_image_registry`.
  `src/image_laws.rs` proves what holds of every rewriting.
- `src/string_map.rs`, `src/text.rs`: the map and the string functions that
  both rest on.
- `app/`: the serde types of the settings file, and reading passwords from
  environment variables.

The library reads no environment variables itself. `password_env_var` names the
variable that can decide a password, and `get_credentials` takes its value.
