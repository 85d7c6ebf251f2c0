//! Mounting the route table under the API prefix, through axum's router.

use vstd::prelude::*;

verus! {

#[verifier::external_type_specification]
#[verifier::external_body]
#[verifier::reject_recursive_types(S)]
#[verifier::reject_recursive_types(B)]
pub struct ExRouter<S, B>(axum::Router<S, B>);

#[verifier::external_type_specification]
#[verifier::external_body]
pub struct ExBody(axum::body::Body);

/// The prefix under which every route of the application is served.
pub open spec fn api_prefix_text() -> Seq<char> {
    seq!['/', 'a', 'p', 'i']
}

/// A prefix that a route table can be mounted under: a path that starts with
/// a slash, does not end with one, and holds neither a wildcard nor a
/// parameter marker.
pub open spec fn mountable(prefix: Seq<char>) -> bool {
    &&& prefix.len() >= 2
    &&& prefix[0] == '/'
    &&& prefix.last() != '/'
    &&& forall|i: int| 0 <= i < prefix.len() ==> prefix[i] != '*' && prefix[i] != ':'
}

/// The API prefix can be mounted under.
pub proof fn lemma_api_prefix_mountable()
    ensures
        mountable(api_prefix_text()),
{
}

/// The prefix under which every route of the application is served: `/api`.
pub fn api_prefix() -> (prefix: &'static str)
    ensures
        prefix@ == api_prefix_text(),
{
    proof {
        reveal_strlit("/api");
    }
    let prefix = "/api";
    assert(prefix@ =~= api_prefix_text());
    prefix
}

/// The paths of the routes that a router holds, as they were registered or
/// nested (those of its fallback are not among them).
pub uninterp spec fn route_paths(router: axum::Router) -> Set<Seq<char>>;

/// The path at which a route of path `path` stands once its table is nested
/// under `prefix`: the prefix in front of the path, and the prefix alone for
/// the root path `/`.
pub open spec fn nested_path(prefix: Seq<char>, path: Seq<char>) -> Seq<char> {
    if path.len() == 1 && path[0] == '/' {
        prefix
    } else {
        prefix + path
    }
}

/// The paths of a table with paths `paths` once it is nested under `prefix`.
pub open spec fn nested_paths(prefix: Seq<char>, paths: Set<Seq<char>>) -> Set<Seq<char>> {
    paths.map(|path: Seq<char>| nested_path(prefix, path))
}

/// Whether every wildcard of `path` stands directly behind a slash.
pub open spec fn wildcards_follow_slash(path: Seq<char>) -> bool {
    forall|i: int|
        0 <= i < path.len() && #[trigger] path[i] == '*' ==> i > 0 && path[i - 1] == '/'
}

/// Paths that can be nested: in each of them every wildcard stands directly
/// behind a slash.
pub open spec fn nestable(paths: Set<Seq<char>>) -> bool {
    forall|path: Seq<char>| #[trigger] paths.contains(path) ==> wildcards_follow_slash(path)
}

/// Every path of a nested table starts with the prefix.
pub proof fn lemma_nested_paths_start_with_prefix(prefix: Seq<char>, paths: Set<Seq<char>>)
    ensures
        forall|path: Seq<char>| #[trigger]
            nested_paths(prefix, paths).contains(path) ==> prefix.is_prefix_of(path),
{
    assert forall|path: Seq<char>| #[trigger]
        nested_paths(prefix, paths).contains(path) implies prefix.is_prefix_of(path) by {
        let inner = choose|inner: Seq<char>|
            paths.contains(inner) && path == nested_path(prefix, inner);
        assert(path.subrange(0, prefix.len() as int) =~= prefix);
    }
}

/// `axum::Router::nest` on a new `axum::Router`: a router whose routes are
/// those of `routes`, each at the path that axum gives a nested route. For a
/// prefix that does not end in a slash that path is the prefix in front of the
/// route's own path, and the prefix alone for the root path; the new router
/// had no route before.
///
/// axum panics where the prefix holds a wildcard and where its path tree
/// refuses a nested path. It enters the nested paths in no fixed order, and
/// the tree takes a wildcard that does not follow a slash in some orders and
/// not in others; so such paths are left out. A mountable prefix in front of
/// the other paths that `routes` already holds is taken in every order. How
/// the result matches a request against its paths is axum's matter, and
/// nothing is claimed of it here.
#[verifier::external_body]
fn nest_under(prefix: &str, routes: axum::Router) -> (mounted: axum::Router)
    requires
        mountable(prefix@),
        nestable(route_paths(routes)),
    ensures
        route_paths(mounted) == nested_paths(prefix@, route_paths(routes)),
{
    axum::Router::new().nest(prefix, routes)
}

/// Mounts the route table under the API prefix: every route of the table
/// stands below `/api` afterwards, and the mounted table holds no other route.
///
/// The table must hold no path with a wildcard that does not follow a slash.
/// A router does not show its paths, so whoever builds the table answers for
/// that.
pub fn mount(routes: axum::Router) -> (mounted: axum::Router)
    requires
        nestable(route_paths(routes)),
    ensures
        route_paths(mounted) == nested_paths(api_prefix_text(), route_paths(routes)),
        forall|path: Seq<char>| #[trigger]
            route_paths(mounted).contains(path) ==> api_prefix_text().is_prefix_of(path),
{
    let prefix = api_prefix();
    proof {
        lemma_api_prefix_mountable();
        lemma_nested_paths_start_with_prefix(api_prefix_text(), route_paths(routes));
    }
    nest_under(prefix, routes)
}

} // verus!
