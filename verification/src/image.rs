//! Image references: which registry one names, and how to point it at another.

use crate::text::{after_prefix, find_char, has_char};
use vstd::prelude::*;

verus! {

/// Default registry when none is specified in an image reference.
pub const DEFAULT_REGISTRY: &'static str = "docker.io";

/// `s` reads as a registry hostname: one path component that contains a dot
/// or a port.
pub open spec fn is_host(s: Seq<char>) -> bool {
    &&& !s.contains('/')
    &&& s.contains('.') || s.contains(':')
}

/// `image` starts with a registry hostname of `n` characters and a slash.
pub open spec fn host_ends_at(image: Seq<char>, n: int) -> bool {
    &&& 0 <= n < image.len()
    &&& image[n] == '/'
    &&& is_host(image.take(n))
}

/// `image` names its registry.
pub open spec fn is_explicit(image: Seq<char>) -> bool {
    exists|n: int| host_ends_at(image, n)
}

/// The registry that `image` lives in: the hostname it starts with, or the
/// default registry.
pub open spec fn registry_of(image: Seq<char>) -> Seq<char> {
    if is_explicit(image) {
        image.take(choose|n: int| host_ends_at(image, n))
    } else {
        DEFAULT_REGISTRY@
    }
}

/// `image` as a reference into `registry`. What follows the registry that the
/// reference starts with is kept; a reference without one is placed under
/// `registry`, a bare name in its `library` namespace.
pub open spec fn rewritten(image: Seq<char>, registry: Seq<char>) -> Seq<char> {
    if registry_of(image).is_prefix_of(image) {
        registry + image.skip(registry_of(image).len() as int)
    } else if image.contains('/') {
        registry + "/"@ + image
    } else {
        registry + "/library/"@ + image
    }
}

/// A hostname that starts a reference ends at the first slash.
pub proof fn lemma_host_ends_at_first_slash(image: Seq<char>, slash: int)
    requires
        0 <= slash < image.len(),
        image[slash] == '/',
        !image.take(slash).contains('/'),
    ensures
        forall|n: int| host_ends_at(image, n) ==> n == slash,
{
    assert forall|n: int| host_ends_at(image, n) implies n == slash by {
        if n > slash {
            assert(image.take(n)[slash] == '/');
        }
        if n < slash {
            assert(image.take(slash)[n] == '/');
        }
    }
}

/// Extracts the registry hostname from an image reference.
///
/// | image | registry |
/// |---|---|
/// | `alpine` | `docker.io` |
/// | `library/alpine` | `docker.io` |
/// | `docker.io/library/alpine` | `docker.io` |
/// | `ghcr.io/owner/repo` | `ghcr.io` |
/// | `registry.example.com:5000/image` | `registry.example.com:5000` |
pub fn extract_registry(image: &str) -> (registry: String)
    ensures
        registry@ == registry_of(image@),
        !image@.contains('/') ==> registry@ == "docker.io"@,
        forall|n: int|
            0 <= n < image@.len() && image@[n] == '/' && !(#[trigger] image@.take(n)).contains('/')
                ==> registry@ == (if image@.take(n).contains('.') || image@.take(n).contains(':') {
                image@.take(n)
            } else {
                "docker.io"@
            }),
{
    proof {
        assert forall|n: int|
            0 <= n < image@.len() && image@[n] == '/' && !(#[trigger] image@.take(n)).contains(
                '/',
            ) implies registry_of(image@) == (if image@.take(n).contains('.')
            || image@.take(n).contains(':') {
            image@.take(n)
        } else {
            "docker.io"@
        }) by {
            crate::image_laws::law_registry_at_first_slash(image@, n);
        }
    }
    match find_char(image, '/') {
        Some(slash) => {
            let head: &str = image.substring_char(0, slash);
            proof {
                assert(head@ =~= image@.take(slash as int));
                lemma_host_ends_at_first_slash(image@, slash as int);
            }
            // A dot or a port tells "ghcr.io/owner/repo" from "library/alpine".
            if has_char(head, '.') || has_char(head, ':') {
                assert(host_ends_at(image@, slash as int));
                return head.to_string();
            }
        },
        None => {},
    }
    DEFAULT_REGISTRY.to_string()
}

/// Rewrites an image reference to use a different registry.
///
/// With `mirror.example.com` as the new registry:
///
/// | image | rewritten |
/// |---|---|
/// | `alpine` | `mirror.example.com/library/alpine` |
/// | `docker.io/library/alpine` | `mirror.example.com/library/alpine` |
/// | `ghcr.io/owner/repo` | `mirror.example.com/owner/repo` |
pub fn rewrite_image_registry(image: &str, new_registry: &str) -> (reference: String)
    ensures
        reference@ == rewritten(image@, new_registry@),
        !image@.contains('/') ==> reference@ == (if "docker.io"@.is_prefix_of(image@) {
            new_registry@ + image@.skip("docker.io"@.len() as int)
        } else {
            new_registry@ + "/library/"@ + image@
        }),
        forall|n: int|
            0 <= n < image@.len() && image@[n] == '/' && !(#[trigger] image@.take(n)).contains('/')
                ==> reference@ == (if image@.take(n).contains('.') || image@.take(n).contains(':') {
                new_registry@ + image@.skip(n)
            } else {
                new_registry@ + "/"@ + image@
            }),
{
    proof {
        assert forall|n: int|
            0 <= n < image@.len() && image@[n] == '/' && !(#[trigger] image@.take(n)).contains(
                '/',
            ) implies rewritten(image@, new_registry@) == (if image@.take(n).contains('.')
            || image@.take(n).contains(':') {
            new_registry@ + image@.skip(n)
        } else {
            new_registry@ + "/"@ + image@
        }) by {
            crate::image_laws::law_rewrite_at_first_slash(image@, n, new_registry@);
        }
    }
    let current_registry: String = extract_registry(image);
    let mut reference: String = new_registry.to_string();
    match after_prefix(image, current_registry.as_str()) {
        Some(rest) => {
            reference.append(rest);
        },
        None => {
            if has_char(image, '/') {
                reference.append("/");
            } else {
                reference.append("/library/");
            }
            reference.append(image);
        },
    }
    reference
}

} // verus!
