//! What holds of every image reference and every rewriting of one.

use crate::image::{
    host_ends_at, is_explicit, is_host, lemma_host_ends_at_first_slash, registry_of, rewritten,
    DEFAULT_REGISTRY,
};
use vstd::prelude::*;

verus! {

/// The path of `image` within its registry. A bare name lives in the `library`
/// namespace.
pub open spec fn path_of(image: Seq<char>) -> Seq<char> {
    if is_explicit(image) {
        image.skip(registry_of(image).len() as int + 1)
    } else if image.contains('/') {
        image
    } else {
        "library/"@ + image
    }
}

/// `image` has no path and starts with the name of the default registry, as
/// `docker.io` and `docker.io:5000` do.
pub open spec fn starts_as_default_without_path(image: Seq<char>) -> bool {
    &&& DEFAULT_REGISTRY@.is_prefix_of(image)
    &&& !image.contains('/')
}

/// The default registry is itself a registry hostname.
proof fn lemma_default_is_host()
    ensures
        is_host(DEFAULT_REGISTRY@),
        DEFAULT_REGISTRY@.len() == 9,
        forall|i: int| 0 <= i < 9 ==> DEFAULT_REGISTRY@[i] != '/',
        DEFAULT_REGISTRY@[6] == '.',
{
    reveal_strlit("docker.io");
    assert(DEFAULT_REGISTRY@[6] == '.');
}

/// The hostname that starts a reference ends at exactly one place.
proof fn lemma_host_end(image: Seq<char>, n: int)
    requires
        host_ends_at(image, n),
    ensures
        registry_of(image) == image.take(n),
{
    lemma_host_ends_at_first_slash(image, n);
}

/// A reference `host/path` lives in the registry `host`, whatever the path.
pub proof fn law_explicit_registry(host: Seq<char>, path: Seq<char>)
    requires
        !host.contains('/'),
        host.contains('.') || host.contains(':'),
    ensures
        is_explicit(host + "/"@ + path),
        registry_of(host + "/"@ + path) == host,
        path_of(host + "/"@ + path) == path,
{
    reveal_strlit("/");
    let image = host + "/"@ + path;
    let n = host.len() as int;
    assert(image[n] == '/');
    assert(image.take(n) =~= host);
    assert(host_ends_at(image, n));
    lemma_host_end(image, n);
    assert(image.skip(n + 1) =~= path);
}

/// A reference without a slash lives in the default registry, whatever tag or
/// digest it carries.
pub proof fn law_bare_name_in_default_registry(image: Seq<char>)
    requires
        !image.contains('/'),
    ensures
        !is_explicit(image),
        registry_of(image) == "docker.io"@,
        path_of(image) == "library/"@ + image,
{
}

/// A reference whose first component has neither a dot nor a colon lives in
/// the default registry.
pub proof fn law_namespace_in_default_registry(namespace: Seq<char>, path: Seq<char>)
    requires
        !namespace.contains('/'),
        !namespace.contains('.'),
        !namespace.contains(':'),
    ensures
        !is_explicit(namespace + "/"@ + path),
        registry_of(namespace + "/"@ + path) == "docker.io"@,
        path_of(namespace + "/"@ + path) == namespace + "/"@ + path,
{
    reveal_strlit("/");
    let image = namespace + "/"@ + path;
    let slash = namespace.len() as int;
    assert(image[slash] == '/');
    assert(image.take(slash) =~= namespace);
    lemma_host_ends_at_first_slash(image, slash);
}

/// The registry of a reference is always a hostname, so it can start a
/// reference of its own.
pub proof fn law_registry_is_host(image: Seq<char>)
    ensures
        is_host(registry_of(image)),
        !registry_of(image).contains('/'),
        registry_of(image).contains('.') || registry_of(image).contains(':'),
{
    lemma_default_is_host();
    if is_explicit(image) {
        let n = choose|n: int| host_ends_at(image, n);
        assert(host_ends_at(image, n));
    }
}

/// A reference that names its registry is that registry, a slash and the path.
pub proof fn law_explicit_splits(image: Seq<char>)
    requires
        is_explicit(image),
    ensures
        image == registry_of(image) + "/"@ + path_of(image),
{
    reveal_strlit("/");
    let n = choose|n: int| host_ends_at(image, n);
    assert(host_ends_at(image, n));
    lemma_host_end(image, n);
    assert(image =~= registry_of(image) + "/"@ + path_of(image));
}

/// An implicit reference with a path does not start with the name of the
/// default registry.
proof fn lemma_implicit_not_prefixed(image: Seq<char>)
    requires
        !is_explicit(image),
        image.contains('/'),
    ensures
        !DEFAULT_REGISTRY@.is_prefix_of(image),
{
    lemma_default_is_host();
    if DEFAULT_REGISTRY@.is_prefix_of(image) {
        image.index_of_first_ensures('/');
        let n = image.index_of_first('/').unwrap();
        assert(n >= 9) by {
            if n < 9 {
                assert(DEFAULT_REGISTRY@[n] == image[n]);
            }
        }
        assert(image.take(n)[6] == '.') by {
            assert(DEFAULT_REGISTRY@[6] == image[6]);
        }
        assert(host_ends_at(image, n));
    }
}

/// Rewriting places the path of a reference under the new registry. This
/// leaves out only references without a path that start with the name of the
/// default registry.
pub proof fn law_rewrite_keeps_path(image: Seq<char>, registry: Seq<char>)
    requires
        image.contains('/') || !"docker.io"@.is_prefix_of(image),
    ensures
        rewritten(image, registry) == registry + "/"@ + path_of(image),
{
    reveal_strlit("/");
    reveal_strlit("library/");
    reveal_strlit("/library/");
    if is_explicit(image) {
        let n = choose|n: int| host_ends_at(image, n);
        assert(host_ends_at(image, n));
        lemma_host_end(image, n);
        assert(registry_of(image) =~= image.subrange(0, n));
        assert(image.skip(n) =~= "/"@ + image.skip(n + 1));
        assert(rewritten(image, registry) =~= registry + "/"@ + path_of(image));
    } else if image.contains('/') {
        lemma_implicit_not_prefixed(image);
    } else {
        assert("/library/"@ =~= "/"@ + "library/"@);
        assert(rewritten(image, registry) =~= registry + "/"@ + path_of(image));
    }
}

/// The registry of a rewritten reference is the one it was rewritten to, and
/// its path is the one it had.
pub proof fn law_rewrite_moves_registry(image: Seq<char>, registry: Seq<char>)
    requires
        !registry.contains('/'),
        registry.contains('.') || registry.contains(':'),
        image.contains('/') || !"docker.io"@.is_prefix_of(image),
    ensures
        is_explicit(rewritten(image, registry)),
        registry_of(rewritten(image, registry)) == registry,
        path_of(rewritten(image, registry)) == path_of(image),
{
    law_rewrite_keeps_path(image, registry);
    law_explicit_registry(registry, path_of(image));
}

/// Rewriting `host/path` replaces the host and nothing else.
pub proof fn law_rewrite_replaces_host(host: Seq<char>, path: Seq<char>, registry: Seq<char>)
    requires
        !host.contains('/'),
        host.contains('.') || host.contains(':'),
    ensures
        rewritten(host + "/"@ + path, registry) == registry + "/"@ + path,
{
    reveal_strlit("/");
    law_explicit_registry(host, path);
    assert((host + "/"@ + path)[host.len() as int] == '/');
    law_rewrite_keeps_path(host + "/"@ + path, registry);
}

/// Of two rewritings the last one counts.
pub proof fn law_last_rewrite_counts(image: Seq<char>, first: Seq<char>, last: Seq<char>)
    requires
        !first.contains('/'),
        first.contains('.') || first.contains(':'),
        image.contains('/') || !"docker.io"@.is_prefix_of(image) || first == "docker.io"@,
    ensures
        rewritten(rewritten(image, first), last) == rewritten(image, last),
{
    reveal_strlit("/");
    if starts_as_default_without_path(image) {
        law_rewrite_to_own_registry(image);
    } else {
        law_rewrite_moves_registry(image, first);
        law_rewrite_keeps_path(image, first);
        law_rewrite_keeps_path(image, last);
        let moved = rewritten(image, first);
        assert(moved[first.len() as int] == '/');
        law_rewrite_keeps_path(moved, last);
    }
}

/// A reference that starts with its registry stays as it is when it is
/// rewritten to that registry.
pub proof fn law_rewrite_to_own_registry(image: Seq<char>)
    requires
        registry_of(image).is_prefix_of(image),
    ensures
        rewritten(image, registry_of(image)) == image,
{
    assert(registry_of(image) + image.skip(registry_of(image).len() as int) =~= image);
}

/// `name` and `docker.io/library/name` are rewritten alike, for every bare
/// name but those that start with the name of the default registry.
pub proof fn law_bare_name_spelled_out(name: Seq<char>, registry: Seq<char>)
    requires
        !name.contains('/'),
        !"docker.io"@.is_prefix_of(name),
    ensures
        rewritten(name, registry) == rewritten(
            DEFAULT_REGISTRY@ + "/"@ + ("library/"@ + name),
            registry,
        ),
        rewritten(name, registry) == registry + "/library/"@ + name,
{
    reveal_strlit("/");
    lemma_default_is_host();
    let full = DEFAULT_REGISTRY@ + "/"@ + ("library/"@ + name);
    law_explicit_registry(DEFAULT_REGISTRY@, "library/"@ + name);
    assert(full[9] == '/');
    law_rewrite_keeps_path(name, registry);
    law_rewrite_keeps_path(full, registry);
}

/// `namespace/path` and `docker.io/namespace/path` are rewritten alike.
pub proof fn law_namespace_spelled_out(
    namespace: Seq<char>,
    path: Seq<char>,
    registry: Seq<char>,
)
    requires
        !namespace.contains('/'),
        !namespace.contains('.'),
        !namespace.contains(':'),
    ensures
        rewritten(namespace + "/"@ + path, registry) == rewritten(
            DEFAULT_REGISTRY@ + "/"@ + (namespace + "/"@ + path),
            registry,
        ),
        rewritten(namespace + "/"@ + path, registry) == registry + "/"@ + (namespace + "/"@
            + path),
{
    reveal_strlit("/");
    lemma_default_is_host();
    let image = namespace + "/"@ + path;
    let full = DEFAULT_REGISTRY@ + "/"@ + image;
    law_namespace_in_default_registry(namespace, path);
    assert(image[namespace.len() as int] == '/');
    law_explicit_registry(DEFAULT_REGISTRY@, image);
    assert(full[9] == '/');
    law_rewrite_keeps_path(image, registry);
    law_rewrite_keeps_path(full, registry);
}

/// The name of the default registry.
pub proof fn law_default_registry_name()
    ensures
        DEFAULT_REGISTRY@ == "docker.io"@,
{
}

/// Exactly the references without a path that start with the name of the
/// default registry are set apart.
pub proof fn law_starts_as_default_without_path(image: Seq<char>)
    ensures
        starts_as_default_without_path(image) <==> "docker.io"@.is_prefix_of(image)
            && !image.contains('/'),
{
}

/// What stands before the first slash is the registry if a dot or a colon
/// occurs in it, and says nothing of the registry otherwise.
pub proof fn law_registry_at_first_slash(image: Seq<char>, slash: int)
    requires
        0 <= slash < image.len(),
        image[slash] == '/',
        !image.take(slash).contains('/'),
    ensures
        image.take(slash).contains('.') || image.take(slash).contains(':') ==> registry_of(image)
            == image.take(slash),
        !image.take(slash).contains('.') && !image.take(slash).contains(':') ==> registry_of(image)
            == "docker.io"@,
{
    reveal_strlit("/");
    let head = image.take(slash);
    let path = image.skip(slash + 1);
    assert(image =~= head + "/"@ + path);
    if head.contains('.') || head.contains(':') {
        law_explicit_registry(head, path);
    } else {
        law_namespace_in_default_registry(head, path);
    }
}

/// Rewriting a reference that has a slash replaces what stands before the
/// first slash if a dot or a colon occurs in it, and prepends the new registry
/// otherwise.
pub proof fn law_rewrite_at_first_slash(image: Seq<char>, slash: int, registry: Seq<char>)
    requires
        0 <= slash < image.len(),
        image[slash] == '/',
        !image.take(slash).contains('/'),
    ensures
        image.take(slash).contains('.') || image.take(slash).contains(':') ==> rewritten(
            image,
            registry,
        ) == registry + image.skip(slash),
        !image.take(slash).contains('.') && !image.take(slash).contains(':') ==> rewritten(
            image,
            registry,
        ) == registry + "/"@ + image,
{
    reveal_strlit("/");
    let head = image.take(slash);
    let path = image.skip(slash + 1);
    assert(image =~= head + "/"@ + path);
    if head.contains('.') || head.contains(':') {
        law_rewrite_replaces_host(head, path, registry);
        assert(registry + "/"@ + path =~= registry + image.skip(slash));
    } else {
        law_namespace_spelled_out(head, path, registry);
    }
}

/// A reference without a slash that starts with `docker.io` keeps what follows
/// that name, and nothing is put between.
pub proof fn law_rewrite_default_without_path(rest: Seq<char>, registry: Seq<char>)
    requires
        !rest.contains('/'),
    ensures
        rewritten("docker.io"@ + rest, registry) == registry + rest,
{
    reveal_strlit("docker.io");
    let image = "docker.io"@ + rest;
    assert(!image.contains('/')) by {
        if image.contains('/') {
            let i = choose|i: int| 0 <= i < image.len() && image[i] == '/';
            if i >= 9 {
                assert(rest[i - 9] == '/');
            }
        }
    }
    law_bare_name_in_default_registry(image);
    assert("docker.io"@.is_prefix_of(image));
    assert(image.skip(9) =~= rest);
}

/// A rewritten reference starts with the new registry, and what follows does
/// not depend on which registry that is.
pub proof fn law_rewrite_tail_independent_of_registry(
    image: Seq<char>,
    registry: Seq<char>,
    other: Seq<char>,
)
    ensures
        registry.is_prefix_of(rewritten(image, registry)),
        other.is_prefix_of(rewritten(image, other)),
        rewritten(image, registry).skip(registry.len() as int) == rewritten(image, other).skip(
            other.len() as int,
        ),
{
    let a = rewritten(image, registry).skip(registry.len() as int);
    let b = rewritten(image, other).skip(other.len() as int);
    assert(registry =~= rewritten(image, registry).subrange(0, registry.len() as int));
    assert(other =~= rewritten(image, other).subrange(0, other.len() as int));
    assert(a =~= b);
}

} // verus!
