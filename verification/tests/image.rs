use registry::{extract_registry, rewrite_image_registry, DEFAULT_REGISTRY};

#[test]
fn test_extract_registry_implicit_dockerhub() {
    assert_eq!(extract_registry("alpine"), "docker.io");
    assert_eq!(extract_registry("alpine:latest"), "docker.io");
    assert_eq!(extract_registry("library/alpine"), "docker.io");
    assert_eq!(extract_registry("myuser/myimage"), "docker.io");
}

#[test]
fn test_extract_registry_explicit() {
    assert_eq!(extract_registry("docker.io/library/alpine"), "docker.io");
    assert_eq!(extract_registry("ghcr.io/owner/repo"), "ghcr.io");
    assert_eq!(extract_registry("gcr.io/project/image"), "gcr.io");
    assert_eq!(
        extract_registry("registry.example.com/image"),
        "registry.example.com"
    );
    assert_eq!(extract_registry("localhost:5000/image"), "localhost:5000");
}

#[test]
fn test_rewrite_image_registry() {
    // Implicit docker.io
    assert_eq!(
        rewrite_image_registry("alpine", "mirror.example.com"),
        "mirror.example.com/library/alpine"
    );
    assert_eq!(
        rewrite_image_registry("myuser/myimage", "mirror.example.com"),
        "mirror.example.com/myuser/myimage"
    );

    // Explicit registry
    assert_eq!(
        rewrite_image_registry("docker.io/library/alpine", "mirror.example.com"),
        "mirror.example.com/library/alpine"
    );
    assert_eq!(
        rewrite_image_registry("ghcr.io/owner/repo", "mirror.example.com"),
        "mirror.example.com/owner/repo"
    );
}

#[test]
fn test_extract_registry_edge_cases() {
    // Image with tag containing colon (version)
    assert_eq!(extract_registry("alpine:3.18.0"), "docker.io");

    // Image with digest
    assert_eq!(extract_registry("alpine@sha256:abc123"), "docker.io");

    // Registry with port and path
    assert_eq!(
        extract_registry("registry.example.com:5000/myorg/myimage:latest"),
        "registry.example.com:5000"
    );
}

#[test]
fn test_rewrite_image_registry_with_tag() {
    assert_eq!(
        rewrite_image_registry("alpine:3.18", "mirror.example.com"),
        "mirror.example.com/library/alpine:3.18"
    );

    assert_eq!(
        rewrite_image_registry("nginx:latest", "mirror.example.com"),
        "mirror.example.com/library/nginx:latest"
    );
}

#[test]
fn registry_with_port_only() {
    assert_eq!(
        extract_registry("registry.example.com:5000/image"),
        "registry.example.com:5000"
    );
    assert_eq!(extract_registry(":/image"), ":");
    assert_eq!(extract_registry("./image"), ".");
}

#[test]
fn registry_of_degenerate_references() {
    assert_eq!(extract_registry(""), "docker.io");
    assert_eq!(extract_registry("/"), "docker.io");
    assert_eq!(extract_registry("/ghcr.io/image"), "docker.io");
    assert_eq!(extract_registry("localhost/image"), "docker.io");
    assert_eq!(extract_registry("user/image.name:1.0"), "docker.io");
    assert_eq!(extract_registry("ghcr.io/"), "ghcr.io");
    assert_eq!(extract_registry("ghcr.io"), "docker.io");
}

#[test]
fn references_beyond_ascii() {
    assert_eq!(extract_registry("r\u{e9}gistre.fr/\u{e9}t\u{e9}"), "r\u{e9}gistre.fr");
    assert_eq!(
        rewrite_image_registry("r\u{e9}gistre.fr/\u{e9}t\u{e9}", "\u{65e5}\u{672c}.jp"),
        "\u{65e5}\u{672c}.jp/\u{e9}t\u{e9}"
    );
    assert_eq!(
        rewrite_image_registry("\u{1f433}", "mirror.example.com"),
        "mirror.example.com/library/\u{1f433}"
    );
    assert_eq!(
        rewrite_image_registry("\u{1f433}/x", "mirror.example.com"),
        "mirror.example.com/\u{1f433}/x"
    );
}

#[test]
fn rewrite_of_degenerate_references() {
    assert_eq!(rewrite_image_registry("", "m.io"), "m.io/library/");
    assert_eq!(rewrite_image_registry("/", "m.io"), "m.io//");
    assert_eq!(rewrite_image_registry("ghcr.io/", "m.io"), "m.io/");
    assert_eq!(rewrite_image_registry("ghcr.io", "m.io"), "m.io/library/ghcr.io");
    assert_eq!(rewrite_image_registry("localhost/image", "m.io"), "m.io/localhost/image");
    assert_eq!(rewrite_image_registry("ghcr.io/a/b", ""), "/a/b");
}

#[test]
fn rewrite_without_path_that_starts_with_default_registry() {
    assert_eq!(rewrite_image_registry("docker.io", "m.io"), "m.io");
    assert_eq!(rewrite_image_registry("docker.io:5000", "m.io"), "m.io:5000");
    assert_eq!(rewrite_image_registry("docker.iot", "m.io"), "m.iot");
    // With a path, the first component is a registry of its own.
    assert_eq!(rewrite_image_registry("docker.iot/a", "m.io"), "m.io/a");
}

#[test]
fn registry_starts_a_reference_of_its_own() {
    for image in ["alpine", "a/b", "ghcr.io/a/b", "localhost:5000/x", ""] {
        let registry = extract_registry(image);
        assert!(registry.contains('.') || registry.contains(':'));
        assert!(!registry.contains('/'));
        assert_eq!(extract_registry(&format!("{}/any/path", registry)), registry);
    }
}

#[test]
fn rewritten_reference_is_in_new_registry() {
    for image in ["alpine:3", "a/b", "ghcr.io/a/b", "localhost:5000/x", "docker.io/c"] {
        let moved = rewrite_image_registry(image, "mirror.example.com:443");
        assert_eq!(extract_registry(&moved), "mirror.example.com:443");
    }
}

#[test]
fn last_rewrite_counts() {
    for image in ["alpine:3", "a/b", "ghcr.io/a/b", "localhost:5000/x", "docker.io/c"] {
        let once = rewrite_image_registry(image, "last.example.com");
        let twice = rewrite_image_registry(
            &rewrite_image_registry(image, "first.example.com"),
            "last.example.com",
        );
        assert_eq!(once, twice);
    }
}

#[test]
fn rewrite_to_own_registry_keeps_reference() {
    for image in ["ghcr.io/a/b", "localhost:5000/x", "docker.io/c", "docker.io"] {
        assert_eq!(rewrite_image_registry(image, &extract_registry(image)), image);
    }
}

#[test]
fn implicit_references_spelled_out() {
    assert_eq!(
        rewrite_image_registry("alpine", "m.io"),
        rewrite_image_registry("docker.io/library/alpine", "m.io")
    );
    assert_eq!(
        rewrite_image_registry("user/image", "m.io"),
        rewrite_image_registry("docker.io/user/image", "m.io")
    );
}

#[test]
fn default_registry_name() {
    assert_eq!(DEFAULT_REGISTRY, "docker.io");
}
