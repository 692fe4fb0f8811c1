//! The routes that the API serves.

use crate::access::Caller;
use vstd::prelude::*;

verus! {

/// The methods that a route takes.
#[derive(Clone, Copy, Debug, PartialEq, Eq, Structural)]
pub enum Method {
    Get,
    Post,
    Delete,
    Any,
}

impl Method {
    /// There is a request that both take.
    pub open spec fn overlaps(self, other: Method) -> bool {
        self == other || self is Any || other is Any
    }
}

/// The handlers of the API.
#[derive(Clone, Copy, Debug, PartialEq, Eq, Structural)]
pub enum Endpoint {
    GetStatus,
    GetProject,
    DeleteProject,
    PostProject,
    GetUser,
    PostUser,
    RouteProject,
    ReviveProjects,
    CreateAcmeAccount,
    RequestAcmeCertificate,
}

impl Endpoint {
    /// The caller that the handler asks for.
    pub open spec fn caller(self) -> Caller {
        match self {
            Endpoint::GetStatus => Caller::Anyone,
            Endpoint::GetProject => Caller::ScopedUser,
            Endpoint::DeleteProject => Caller::ScopedUser,
            Endpoint::PostProject => Caller::User,
            Endpoint::GetUser => Caller::Admin,
            Endpoint::PostUser => Caller::Admin,
            Endpoint::RouteProject => Caller::ScopedUser,
            Endpoint::ReviveProjects => Caller::Admin,
            Endpoint::CreateAcmeAccount => Caller::Admin,
            Endpoint::RequestAcmeCertificate => Caller::Admin,
        }
    }

    /// The caller that the handler asks for.
    pub fn asks_for(self) -> (caller: Caller)
        ensures
            caller == self.caller(),
    {
        match self {
            Endpoint::GetStatus => Caller::Anyone,
            Endpoint::GetProject => Caller::ScopedUser,
            Endpoint::DeleteProject => Caller::ScopedUser,
            Endpoint::PostProject => Caller::User,
            Endpoint::GetUser => Caller::Admin,
            Endpoint::PostUser => Caller::Admin,
            Endpoint::RouteProject => Caller::ScopedUser,
            Endpoint::ReviveProjects => Caller::Admin,
            Endpoint::CreateAcmeAccount => Caller::Admin,
            Endpoint::RequestAcmeCertificate => Caller::Admin,
        }
    }
}

/// Sends the requests of a method, for the paths that fit a pattern (see
/// [`fits`]), to a handler.
#[derive(Clone, Copy, Debug, PartialEq, Eq)]
pub struct Route {
    pub path: &'static str,
    pub method: Method,
    pub endpoint: Endpoint,
}

impl View for Route {
    type V = (Seq<char>, Method, Endpoint);

    open spec fn view(&self) -> (Seq<char>, Method, Endpoint) {
        (self.path@, self.method, self.endpoint)
    }
}

/// The routes of the API.
pub open spec fn api() -> Seq<(Seq<char>, Method, Endpoint)> {
    seq![
        ("/"@, Method::Get, Endpoint::GetStatus),
        ("/projects/:project"@, Method::Get, Endpoint::GetProject),
        ("/projects/:project"@, Method::Delete, Endpoint::DeleteProject),
        ("/projects/:project"@, Method::Post, Endpoint::PostProject),
        ("/users/:account_name"@, Method::Get, Endpoint::GetUser),
        ("/users/:account_name"@, Method::Post, Endpoint::PostUser),
        ("/projects/:project/*any"@, Method::Any, Endpoint::RouteProject),
        ("/admin/revive"@, Method::Post, Endpoint::ReviveProjects),
        ("/admin/acme/:email"@, Method::Post, Endpoint::CreateAcmeAccount),
        ("/admin/acme/request/:fqdn"@, Method::Post, Endpoint::RequestAcmeCertificate),
    ]
}

/// The routes of the API, in the order in which a router is given them.
pub fn make_api() -> (routes: Vec<Route>)
    ensures
        routes@.map_values(|route: Route| route@) == api(),
        routes@.len() == api().len(),
        forall|i: int| 0 <= i < routes@.len() ==> (#[trigger] routes@[i])@ == api()[i],
{
    let routes: Vec<Route> = vec![
        Route { path: "/", method: Method::Get, endpoint: Endpoint::GetStatus },
        Route { path: "/projects/:project", method: Method::Get, endpoint: Endpoint::GetProject },
        Route {
            path: "/projects/:project",
            method: Method::Delete,
            endpoint: Endpoint::DeleteProject,
        },
        Route { path: "/projects/:project", method: Method::Post, endpoint: Endpoint::PostProject },
        Route { path: "/users/:account_name", method: Method::Get, endpoint: Endpoint::GetUser },
        Route { path: "/users/:account_name", method: Method::Post, endpoint: Endpoint::PostUser },
        Route {
            path: "/projects/:project/*any",
            method: Method::Any,
            endpoint: Endpoint::RouteProject,
        },
        Route { path: "/admin/revive", method: Method::Post, endpoint: Endpoint::ReviveProjects },
        Route {
            path: "/admin/acme/:email",
            method: Method::Post,
            endpoint: Endpoint::CreateAcmeAccount,
        },
        Route {
            path: "/admin/acme/request/:fqdn",
            method: Method::Post,
            endpoint: Endpoint::RequestAcmeCertificate,
        },
    ];
    assert(routes@.map_values(|route: Route| route@) =~= api());
    routes
}

/// Where the segment that holds position `i` ends: at the next slash, or at the
/// end of `text`.
pub open spec fn segment_end(text: Seq<char>, i: int) -> int
    decreases text.len() - i,
{
    if i >= text.len() || text[i] == '/' {
        i
    } else {
        segment_end(text, i + 1)
    }
}

/// `path`, from position `j` on, has the form of `pattern` from position `i` on.
pub open spec fn fits_from(pattern: Seq<char>, i: int, path: Seq<char>, j: int) -> bool
    decreases pattern.len() - i,
{
    if i >= pattern.len() {
        j == path.len()
    } else if pattern[i] == '*' {
        j <= path.len()
    } else if pattern[i] == ':' {
        proof {
            lemma_segment_end(pattern, i + 1);
        }
        &&& j < path.len()
        &&& fits_from(pattern, segment_end(pattern, i + 1), path, segment_end(path, j))
    } else {
        &&& j < path.len()
        &&& path[j] == pattern[i]
        &&& fits_from(pattern, i + 1, path, j + 1)
    }
}

/// `path` has the form of `pattern`, in which `:name` stands for whatever comes
/// up to the next slash or the end, and `*name` for all the rest. A path does
/// not end where a `:name` is to come; before a slash it may stand for nothing,
/// as `*name` may at the end.
pub open spec fn fits(pattern: Seq<char>, path: Seq<char>) -> bool {
    fits_from(pattern, 0, path, 0)
}

/// There is no slash before the end of a segment, and one at it unless the text
/// ends there.
pub proof fn lemma_segment_end(text: Seq<char>, i: int)
    ensures
        i <= segment_end(text, i),
        i <= text.len() ==> segment_end(text, i) <= text.len(),
        segment_end(text, i) < text.len() ==> text[segment_end(text, i)] == '/',
        forall|k: int| i <= k < segment_end(text, i) ==> text[k] != '/',
    decreases text.len() - i,
{
    if i < text.len() && text[i] != '/' {
        lemma_segment_end(text, i + 1);
    }
}

/// A path begins as the pattern that it fits does, up to position `n` of the
/// pattern, if nothing before it stands for something else.
proof fn lemma_fits_literally(pattern: Seq<char>, n: int, path: Seq<char>)
    requires
        fits(pattern, path),
        0 <= n <= pattern.len(),
        forall|k: int| 0 <= k < n ==> pattern[k] != ':' && pattern[k] != '*',
    ensures
        n <= path.len(),
        forall|k: int| 0 <= k < n ==> path[k] == pattern[k],
        fits_from(pattern, n, path, n),
    decreases n,
{
    if n > 0 {
        lemma_fits_literally(pattern, n - 1, path);
    }
}

/// Where a pattern ends in `:name`, a path that fits it ends in one segment.
proof fn lemma_one_segment(pattern: Seq<char>, n: int, path: Seq<char>)
    requires
        fits_from(pattern, n, path, n),
        0 <= n < pattern.len(),
        n <= path.len(),
        pattern[n] == ':',
        forall|k: int| n < k < pattern.len() ==> pattern[k] != '/',
    ensures
        forall|k: int| n <= k < path.len() ==> path[k] != '/',
{
    lemma_segment_end(pattern, n + 1);
    lemma_segment_end(path, n);
    assert(segment_end(pattern, n + 1) == pattern.len());
    assert(fits_from(pattern, pattern.len() as int, path, segment_end(path, n)));
}

/// What the paths that fit the pattern of route `i` look like, as far as it
/// takes to tell the routes apart.
spec fn looks_like(i: int, path: Seq<char>) -> bool {
    if i == 0 {
        path.len() == 1
    } else if i <= 3 {
        &&& path.len() >= 10
        &&& path[1] == 'p'
        &&& forall|k: int| 10 <= k < path.len() ==> path[k] != '/'
    } else if i <= 5 {
        path.len() >= 7 && path[1] == 'u'
    } else if i == 6 {
        &&& path.len() >= 10
        &&& path[1] == 'p'
        &&& exists|k: int| 10 <= k < path.len() && path[k] == '/'
    } else if i == 7 {
        path.len() >= 13 && path[1] == 'a' && path[7] == 'r'
    } else if i == 8 {
        &&& path.len() >= 12
        &&& path[1] == 'a'
        &&& path[7] == 'a'
        &&& forall|k: int| 12 <= k < path.len() ==> path[k] != '/'
    } else {
        path.len() >= 20 && path[1] == 'a' && path[7] == 'a' && path[19] == '/'
    }
}

proof fn lemma_looks_like(i: int, path: Seq<char>)
    requires
        0 <= i < api().len(),
        fits(api()[i].0, path),
    ensures
        looks_like(i, path),
{
    reveal_strlit("/");
    reveal_strlit("/projects/:project");
    reveal_strlit("/users/:account_name");
    reveal_strlit("/projects/:project/*any");
    reveal_strlit("/admin/revive");
    reveal_strlit("/admin/acme/:email");
    reveal_strlit("/admin/acme/request/:fqdn");
    let pattern = api()[i].0;
    if i == 0 {
        lemma_fits_literally(pattern, 1, path);
    } else if i <= 3 {
        lemma_fits_literally(pattern, 10, path);
        lemma_one_segment(pattern, 10, path);
    } else if i <= 5 {
        lemma_fits_literally(pattern, 7, path);
    } else if i == 6 {
        lemma_fits_literally(pattern, 10, path);
        lemma_segment_end(pattern, 11);
        lemma_segment_end(path, 10);
        let end = segment_end(pattern, 11);
        assert(end == 18) by {
            assert(pattern[18] == '/');
            if end < 18 {
                assert(pattern[end] == '/');
            }
        }
        assert(fits_from(pattern, 18, path, segment_end(path, 10)));
    } else if i == 7 {
        lemma_fits_literally(pattern, 13, path);
    } else if i == 8 {
        lemma_fits_literally(pattern, 12, path);
        lemma_one_segment(pattern, 12, path);
    } else {
        lemma_fits_literally(pattern, 20, path);
    }
}

/// No request is sent to two handlers: where a path fits the patterns of two
/// routes, no method is taken by both.
pub proof fn routes_do_not_clash(i: int, j: int, path: Seq<char>)
    requires
        0 <= i < j < api().len(),
        fits(api()[i].0, path),
        fits(api()[j].0, path),
    ensures
        !api()[i].1.overlaps(api()[j].1),
        api()[i].1 != api()[j].1,
        api()[i].1 !is Any,
        api()[j].1 !is Any,
{
    lemma_looks_like(i, path);
    lemma_looks_like(j, path);
}

/// Every handler is reached through exactly one route.
pub proof fn every_endpoint_has_one_route(endpoint: Endpoint)
    ensures
        exists|i: int| 0 <= i < api().len() && (#[trigger] api()[i]).2 == endpoint,
        forall|i: int, j: int|
            0 <= i < api().len() && 0 <= j < api().len() && (#[trigger] api()[i]).2 == endpoint && (
            #[trigger] api()[j]).2 == endpoint ==> i == j,
{
    let i: int = match endpoint {
        Endpoint::GetStatus => 0,
        Endpoint::GetProject => 1,
        Endpoint::DeleteProject => 2,
        Endpoint::PostProject => 3,
        Endpoint::GetUser => 4,
        Endpoint::PostUser => 5,
        Endpoint::RouteProject => 6,
        Endpoint::ReviveProjects => 7,
        Endpoint::CreateAcmeAccount => 8,
        Endpoint::RequestAcmeCertificate => 9,
    };
    assert(api()[i].2 == endpoint);
}

/// Whom the handlers ask for goes by the part of the API: anyone for `/`, super
/// users under `/users/` and `/admin/`, and under `/projects/` a user, who must
/// be let in to the project unless it is to be created.
pub proof fn callers_go_by_section(i: int)
    requires
        0 <= i < api().len(),
    ensures
        api()[i].0 == "/"@ <==> api()[i].2.caller() is Anyone,
        "/users/"@.is_prefix_of(api()[i].0) || "/admin/"@.is_prefix_of(api()[i].0)
            <==> api()[i].2.caller() is Admin,
        "/projects/"@.is_prefix_of(api()[i].0) && api()[i].1 is Post
            <==> api()[i].2.caller() is User,
        "/projects/"@.is_prefix_of(api()[i].0) && api()[i].1 !is Post
            <==> api()[i].2.caller() is ScopedUser,
{
    reveal_strlit("/");
    reveal_strlit("/users/");
    reveal_strlit("/admin/");
    reveal_strlit("/projects/");
    reveal_strlit("/projects/:project");
    reveal_strlit("/users/:account_name");
    reveal_strlit("/projects/:project/*any");
    reveal_strlit("/admin/revive");
    reveal_strlit("/admin/acme/:email");
    reveal_strlit("/admin/acme/request/:fqdn");
    let path = api()[i].0;
    if path.len() > 1 {
        assert(path[1] == 'p' || path[1] == 'u' || path[1] == 'a');
        if path.len() >= 7 {
            assert(path.subrange(0, 7)[1] == path[1]);
        }
        if path.len() >= 10 {
            assert(path.subrange(0, 10)[1] == path[1]);
        }
    }
}

/// The handlers ask for the callers they are meant for: `GET /` for nobody,
/// creating a project for some user, the other handlers of projects for a user
/// who is let in to the project, and all others for a super user.
pub proof fn handlers_ask_for_their_callers(endpoint: Endpoint, caller: Caller)
    requires
        call_ensures(Endpoint::asks_for, (endpoint,), caller),
    ensures
        caller is Anyone <==> endpoint is GetStatus,
        caller is User <==> endpoint is PostProject,
        caller is ScopedUser <==> endpoint is GetProject || endpoint is DeleteProject
            || endpoint is RouteProject,
        caller is Admin <==> endpoint is GetUser || endpoint is PostUser
            || endpoint is ReviveProjects || endpoint is CreateAcmeAccount
            || endpoint is RequestAcmeCertificate,
{
}

/// A path that begins as a pattern does, up to position `n`, and goes on as the
/// pattern does, fits it.
proof fn lemma_fits_from_the_start(pattern: Seq<char>, n: int, path: Seq<char>)
    requires
        0 <= n <= pattern.len(),
        n <= path.len(),
        forall|k: int| 0 <= k < n ==> pattern[k] != ':' && pattern[k] != '*',
        forall|k: int| 0 <= k < n ==> path[k] == pattern[k],
        fits_from(pattern, n, path, n),
    ensures
        fits(pattern, path),
    decreases n,
{
    if n > 0 {
        assert(fits_from(pattern, n - 1, path, n - 1));
        lemma_fits_from_the_start(pattern, n - 1, path);
    }
}

/// A pattern in which nothing stands for something else takes itself alone.
proof fn lemma_takes_itself(pattern: Seq<char>, path: Seq<char>)
    requires
        forall|k: int| 0 <= k < pattern.len() ==> pattern[k] != ':' && pattern[k] != '*',
    ensures
        fits(pattern, path) <==> path == pattern,
{
    let n = pattern.len() as int;
    if fits(pattern, path) {
        lemma_fits_literally(pattern, n, path);
        assert(path =~= pattern);
    }
    if path == pattern {
        lemma_fits_from_the_start(pattern, n, path);
    }
}

/// A pattern of `prefix` and a name takes `prefix` with one segment behind it.
proof fn lemma_takes_a_segment(prefix: Seq<char>, pattern: Seq<char>, path: Seq<char>)
    requires
        prefix.len() < pattern.len(),
        forall|k: int|
            0 <= k < prefix.len() ==> pattern[k] == prefix[k] && pattern[k] != ':' && pattern[k]
                != '*',
        pattern[prefix.len() as int] == ':',
        forall|k: int| prefix.len() < k < pattern.len() ==> pattern[k] != '/',
    ensures
        fits(pattern, path) <==> prefix.is_prefix_of(path) && prefix.len() < path.len()
            && !path.skip(prefix.len() as int).contains('/'),
{
    let n = prefix.len() as int;
    let rest = path.skip(n);
    if fits(pattern, path) {
        lemma_fits_literally(pattern, n, path);
        lemma_one_segment(pattern, n, path);
        assert(prefix =~= path.subrange(0, n));
        assert(forall|k: int| 0 <= k < rest.len() ==> rest[k] == path[n + k]);
    }
    if prefix.is_prefix_of(path) && n < path.len() && !rest.contains('/') {
        assert forall|k: int| 0 <= k < n implies path[k] == pattern[k] by {
            assert(path.subrange(0, n)[k] == path[k]);
        }
        assert forall|k: int| n <= k < path.len() implies path[k] != '/' by {
            assert(rest[k - n] == path[k]);
        }
        lemma_segment_end(pattern, n + 1);
        lemma_segment_end(path, n);
        assert(segment_end(pattern, n + 1) == pattern.len());
        assert(segment_end(path, n) == path.len());
        assert(fits_from(pattern, pattern.len() as int, path, path.len() as int));
        assert(fits_from(pattern, n, path, n));
        lemma_fits_from_the_start(pattern, n, path);
    }
}

/// The pattern of requests for a running project takes every path under
/// `/projects/` that goes on with a slash behind the project.
proof fn lemma_takes_what_is_below(path: Seq<char>)
    ensures
        fits("/projects/:project/*any"@, path) <==> "/projects/"@.is_prefix_of(path) && path.skip(
            10,
        ).contains('/'),
{
    reveal_strlit("/projects/");
    reveal_strlit("/projects/:project/*any");
    let prefix = "/projects/"@;
    let pattern = "/projects/:project/*any"@;
    let rest = path.skip(10);
    lemma_segment_end(pattern, 11);
    let end = segment_end(pattern, 11);
    assert(end == 18) by {
        assert(pattern[18] == '/');
        if end < 18 {
            assert(pattern[end] == '/');
        }
    }
    if fits(pattern, path) {
        lemma_fits_literally(pattern, 10, path);
        assert(prefix =~= path.subrange(0, 10));
        lemma_segment_end(path, 10);
        let slash = segment_end(path, 10);
        assert(fits_from(pattern, 18, path, slash));
        assert(rest[slash - 10] == '/');
    }
    if prefix.is_prefix_of(path) && rest.contains('/') {
        assert forall|k: int| 0 <= k < 10 implies path[k] == pattern[k] by {
            assert(path.subrange(0, 10)[k] == path[k]);
        }
        let k = choose|k: int| 0 <= k < rest.len() && rest[k] == '/';
        assert(path[k + 10] == '/');
        lemma_segment_end(path, 10);
        let slash = segment_end(path, 10);
        assert(slash <= k + 10);
        assert(fits_from(pattern, 19, path, slash + 1));
        assert(fits_from(pattern, 18, path, slash));
        assert(fits_from(pattern, 10, path, 10));
        lemma_fits_from_the_start(pattern, 10, path);
    }
}

/// Which requests come by route `k`: those of one method, for exactly the paths
/// that are meant for the handler. Only a request that is passed on to a project
/// may be of any method.
pub proof fn handlers_have_their_paths_and_methods(routes: Vec<Route>, k: int, path: Seq<char>)
    requires
        call_ensures(make_api, (), routes),
        0 <= k < routes@.len(),
    ensures
        routes@[k].endpoint is GetStatus ==> routes@[k].method is Get && (fits(
            routes@[k].path@,
            path,
        ) <==> path == "/"@),
        routes@[k].endpoint is GetProject ==> routes@[k].method is Get,
        routes@[k].endpoint is DeleteProject ==> routes@[k].method is Delete,
        routes@[k].endpoint is PostProject ==> routes@[k].method is Post,
        routes@[k].endpoint is GetProject || routes@[k].endpoint is DeleteProject
            || routes@[k].endpoint is PostProject ==> (fits(routes@[k].path@, path)
            <==> "/projects/"@.is_prefix_of(path) && path.len() > 10 && !path.skip(10).contains(
            '/',
        )),
        routes@[k].endpoint is GetUser ==> routes@[k].method is Get,
        routes@[k].endpoint is PostUser ==> routes@[k].method is Post,
        routes@[k].endpoint is GetUser || routes@[k].endpoint is PostUser ==> (fits(
            routes@[k].path@,
            path,
        ) <==> "/users/"@.is_prefix_of(path) && path.len() > 7 && !path.skip(7).contains('/')),
        routes@[k].endpoint is RouteProject ==> routes@[k].method is Any && (fits(
            routes@[k].path@,
            path,
        ) <==> "/projects/"@.is_prefix_of(path) && path.skip(10).contains('/')),
        routes@[k].endpoint is ReviveProjects ==> routes@[k].method is Post && (fits(
            routes@[k].path@,
            path,
        ) <==> path == "/admin/revive"@),
        routes@[k].endpoint is CreateAcmeAccount ==> routes@[k].method is Post && (fits(
            routes@[k].path@,
            path,
        ) <==> "/admin/acme/"@.is_prefix_of(path) && path.len() > 12 && !path.skip(12).contains(
            '/',
        )),
        routes@[k].endpoint is RequestAcmeCertificate ==> routes@[k].method is Post && (fits(
            routes@[k].path@,
            path,
        ) <==> "/admin/acme/request/"@.is_prefix_of(path) && path.len() > 20 && !path.skip(
            20,
        ).contains('/')),
{
    assert(routes@[k]@ == api()[k]);
    reveal_strlit("/");
    reveal_strlit("/projects/");
    reveal_strlit("/projects/:project");
    reveal_strlit("/users/");
    reveal_strlit("/users/:account_name");
    reveal_strlit("/admin/revive");
    reveal_strlit("/admin/acme/");
    reveal_strlit("/admin/acme/:email");
    reveal_strlit("/admin/acme/request/");
    reveal_strlit("/admin/acme/request/:fqdn");
    if k == 0 || k == 7 {
        lemma_takes_itself(api()[k].0, path);
    } else if k <= 3 {
        lemma_takes_a_segment("/projects/"@, "/projects/:project"@, path);
    } else if k <= 5 {
        lemma_takes_a_segment("/users/"@, "/users/:account_name"@, path);
    } else if k == 6 {
        lemma_takes_what_is_below(path);
    } else if k == 8 {
        lemma_takes_a_segment("/admin/acme/"@, "/admin/acme/:email"@, path);
    } else {
        lemma_takes_a_segment("/admin/acme/request/"@, "/admin/acme/request/:fqdn"@, path);
    }
}

/// There is one route for every handler, and only one.
pub proof fn make_api_routes_every_handler_once(routes: Vec<Route>, endpoint: Endpoint)
    requires
        call_ensures(make_api, (), routes),
    ensures
        exists|k: int| 0 <= k < routes@.len() && (#[trigger] routes@[k]).endpoint == endpoint,
        forall|j: int, k: int|
            0 <= j < routes@.len() && 0 <= k < routes@.len() && (#[trigger] routes@[j]).endpoint
                == endpoint && (#[trigger] routes@[k]).endpoint == endpoint ==> j == k,
{
    every_endpoint_has_one_route(endpoint);
    let k = choose|k: int| 0 <= k < api().len() && (#[trigger] api()[k]).2 == endpoint;
    assert(routes@[k]@ == api()[k]);
    assert forall|i: int, j: int|
        0 <= i < routes@.len() && 0 <= j < routes@.len() && (#[trigger] routes@[i]).endpoint
            == endpoint && (#[trigger] routes@[j]).endpoint == endpoint implies i == j by {
        assert(routes@[i]@ == api()[i]);
        assert(routes@[j]@ == api()[j]);
    }
}

/// What a `GET` request can reach only shows something: every handler that
/// changes something is reached by `POST` or, to destroy a project, by `DELETE`.
/// So no `GET` request comes by a route to a path under `/admin/`.
pub proof fn nothing_is_changed_by_get(routes: Vec<Route>, k: int, path: Seq<char>)
    requires
        call_ensures(make_api, (), routes),
        0 <= k < routes@.len(),
    ensures
        routes@[k].method is Get <==> routes@[k].endpoint is GetStatus
            || routes@[k].endpoint is GetProject || routes@[k].endpoint is GetUser,
        routes@[k].method is Post <==> routes@[k].endpoint is PostProject
            || routes@[k].endpoint is PostUser || routes@[k].endpoint is ReviveProjects
            || routes@[k].endpoint is CreateAcmeAccount
            || routes@[k].endpoint is RequestAcmeCertificate,
        routes@[k].method is Delete <==> routes@[k].endpoint is DeleteProject,
        routes@[k].method is Any <==> routes@[k].endpoint is RouteProject,
        fits(routes@[k].path@, path) && "/admin/"@.is_prefix_of(path) ==> routes@[k].method is Post,
        fits(routes@[k].path@, path) && path == "/admin/revive"@
            ==> routes@[k].endpoint is ReviveProjects,
{
    assert(routes@[k]@ == api()[k]);
    reveal_strlit("/admin/");
    reveal_strlit("/admin/revive");
    if fits(routes@[k].path@, path) {
        lemma_looks_like(k, path);
        if "/admin/"@.is_prefix_of(path) {
            assert(path.subrange(0, 7)[1] == path[1]);
        }
    }
}

/// One request goes to at most one handler: of two routes whose patterns a path
/// fits, each takes one method, and not the same.
pub proof fn one_request_goes_to_one_handler(routes: Vec<Route>, j: int, k: int, path: Seq<char>)
    requires
        call_ensures(make_api, (), routes),
        0 <= j < routes@.len(),
        0 <= k < routes@.len(),
        j != k,
        fits(routes@[j].path@, path),
        fits(routes@[k].path@, path),
    ensures
        routes@[j].method != routes@[k].method,
        routes@[j].method !is Any,
        routes@[k].method !is Any,
{
    assert(routes@[j]@ == api()[j]);
    assert(routes@[k]@ == api()[k]);
    if j < k {
        routes_do_not_clash(j, k, path);
    } else {
        routes_do_not_clash(k, j, path);
    }
}

} // verus!
