//! The router table: a closed set of route identifiers, total resolution of
//! URL paths, the inverse path of each route, and the dispatch from a route
//! to the kind of page displayed for it.

use vstd::prelude::*;
use vstd::string::StrSliceExecFns;

verus! {

/// A symbolic identifier for one of the site's fixed pages.
///
/// Every reachable browser path resolves to exactly one `Route`; paths
/// outside the supported set resolve to `NotFound`, which is a normal,
/// representable state and never a fault.
#[derive(Clone, Copy, PartialEq, Eq, Structural, Debug)]
pub enum Route {
    Home,
    Blog1,
    Blog2,
    NotFound,
}

/// The fixed mapping from a URL path to a route: `/`, `/blog1` and `/blog2`
/// are the supported paths; everything else is `NotFound`.
pub open spec fn spec_resolve(path: Seq<char>) -> Route {
    if path == "/"@ {
        Route::Home
    } else if path == "/blog1"@ {
        Route::Blog1
    } else if path == "/blog2"@ {
        Route::Blog2
    } else {
        Route::NotFound
    }
}

/// Character-by-character string equality, so that resolution can compare a
/// browser path against the supported literals.
fn str_eq(a: &str, b: &str) -> (r: bool)
    ensures
        r == (a@ == b@),
{
    let a_len = a.unicode_len();
    let b_len = b.unicode_len();
    if a_len != b_len {
        return false;
    }
    let mut i: usize = 0;
    while i < a_len
        invariant
            a_len == a@.len(),
            a_len == b@.len(),
            i <= a_len,
            forall|j: int| 0 <= j < i ==> a@[j] == b@[j],
        decreases a_len - i,
    {
        if a.get_char(i) != b.get_char(i) {
            return false;
        }
        i = i + 1;
    }
    proof {
        assert(a@ =~= b@);
    }
    true
}

/// Resolve a browser path to its route. Total and pure: the same path always
/// yields the same route, and any unmatched path yields `Route::NotFound`.
pub fn resolve(path: &str) -> (route: Route)
    ensures
        route == spec_resolve(path@),
{
    if str_eq(path, "/") {
        Route::Home
    } else if str_eq(path, "/blog1") {
        Route::Blog1
    } else if str_eq(path, "/blog2") {
        Route::Blog2
    } else {
        Route::NotFound
    }
}

/// The path that each route is reached under: the inverse of resolution.
/// `NotFound` is parked at `/404`, a path outside the supported set.
pub open spec fn spec_path_of(route: Route) -> Seq<char> {
    match route {
        Route::Home => "/"@,
        Route::Blog1 => "/blog1"@,
        Route::Blog2 => "/blog2"@,
        Route::NotFound => "/404"@,
    }
}

/// The path a navigation to `route` pushes onto the browser history.
pub fn path_of(route: Route) -> (path: &'static str)
    ensures
        path@ == spec_path_of(route),
{
    match route {
        Route::Home => "/",
        Route::Blog1 => "/blog1",
        Route::Blog2 => "/blog2",
        Route::NotFound => "/404",
    }
}

/// The routes and their paths are a bijection: resolving the path of any
/// route yields that route back.
pub proof fn lemma_path_round_trip(route: Route)
    ensures
        spec_resolve(spec_path_of(route)) == route,
{
    broadcast use vstd::string::group_string_axioms;

    reveal_strlit("/");
    reveal_strlit("/blog1");
    reveal_strlit("/blog2");
    reveal_strlit("/404");
    assert("/"@.len() == 1);
    assert("/blog1"@.len() == 6);
    assert("/blog2"@.len() == 6);
    assert("/404"@.len() == 4);
    assert("/blog2"@[5] != "/blog1"@[5]);
}

/// Resolution is total with `NotFound` as its default: any path other than
/// the three supported literals resolves to `Route::NotFound`.
pub proof fn lemma_unmatched_path_is_not_found(path: Seq<char>)
    requires
        path != "/"@,
        path != "/blog1"@,
        path != "/blog2"@,
    ensures
        spec_resolve(path) == Route::NotFound,
{
}

/// The kind of page component the shell displays for a route.
#[derive(Clone, Copy, PartialEq, Eq, Structural, Debug)]
pub enum PageKind {
    HomePage,
    Blog1Page,
    Blog2Page,
    NotFoundPage,
}

/// The router table's dispatch: which page kind each route displays.
pub open spec fn spec_switch(route: Route) -> PageKind {
    match route {
        Route::Home => PageKind::HomePage,
        Route::Blog1 => PageKind::Blog1Page,
        Route::Blog2 => PageKind::Blog2Page,
        Route::NotFound => PageKind::NotFoundPage,
    }
}

/// Dispatch a route to the kind of page to display. Total and pure: the same
/// route always yields the same page kind, and no route is an error.
pub fn switch(route: Route) -> (page: PageKind)
    ensures
        page == spec_switch(route),
{
    match route {
        Route::Home => PageKind::HomePage,
        Route::Blog1 => PageKind::Blog1Page,
        Route::Blog2 => PageKind::Blog2Page,
        Route::NotFound => PageKind::NotFoundPage,
    }
}

/// Where the path component of a redirected query string ends: the index of
/// the first `&` at or after `from`, or the end of the string if there is
/// none. Whatever follows that `&` is the original query, re-appended by the
/// host's fallback page, and takes no part in resolution.
pub open spec fn spec_path_end(query: Seq<char>, from: int) -> int
    decreases query.len() - from,
{
    if from < 0 || from >= query.len() {
        query.len() as int
    } else if query[from] == '&' {
        from
    } else {
        spec_path_end(query, from + 1)
    }
}

/// What a redirected query string carries: a static host that cannot serve
/// deep links answers them with a fallback page that bounces the browser back
/// to the root with the intended path in the query string, as `?/blog2` or
/// `?/blog2&original=query`. Such a query string resolves to the route of the
/// encoded path; a query string of any other shape carries no route.
pub open spec fn spec_recover(query: Seq<char>) -> Option<Route> {
    if query.len() >= 2 && query[0] == '?' && query[1] == '/' {
        Some(spec_resolve(query.subrange(1, spec_path_end(query, 1))))
    } else {
        None
    }
}

/// Recover the intended route from the query string of a redirected deep
/// link, so that the shell can display the right page on first load.
pub fn recover_route(query: &str) -> (route: Option<Route>)
    ensures
        route == spec_recover(query@),
{
    let len = query.unicode_len();
    if len < 2 || query.get_char(0) != '?' || query.get_char(1) != '/' {
        return None;
    }
    let mut end: usize = 1;
    while end < len && query.get_char(end) != '&'
        invariant
            len == query@.len(),
            1 <= end <= len,
            spec_path_end(query@, 1) == spec_path_end(query@, end as int),
        decreases len - end,
    {
        end = end + 1;
    }
    proof {
        assert(spec_path_end(query@, 1) == end as int);
    }
    let path = query.substring_char(1, end);
    Some(resolve(path))
}

} // verus!
