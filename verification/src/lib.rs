//! OCI registry configuration and image references.
//!
//! - [`config`]: per-registry credentials and mirrors, and the default
//!   registry. What holds of every change to a configuration is in
//!   [`config_laws`].
//! - [`image`]: which registry an image reference names, and how a reference
//!   is rewritten to point at another registry. What holds of every rewriting
//!   is in [`image_laws`].
//! - [`string_map`]: the map from registry names to entries.

pub mod config;
pub mod config_laws;
pub mod image;
pub mod image_laws;
pub mod string_map;
mod text;

pub use config::{RegistryAuth, RegistryConfig, RegistryDefaults, RegistryEntry};
pub use image::{extract_registry, rewrite_image_registry, DEFAULT_REGISTRY};
pub use string_map::StringMap;
